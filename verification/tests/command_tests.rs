use playback_queue::command::{register, run, PlayAction, PlayEvent, PlayState};
use playback_queue::item::{PlaylistItem, TrackMetadata};
use playback_queue::resolver::{
    begins_like_address, classify, Locator, ResolutionError, ResolvedTrack,
};

#[test]
fn address_prefix_is_recognised() {
    assert!(begins_like_address("http://example.org"));
    assert!(begins_like_address("https://example.org/watch?v=1"));
    assert!(begins_like_address("http"));
    assert!(begins_like_address("httpfoo"));
}

#[test]
fn phrases_are_not_addresses() {
    assert!(!begins_like_address(""));
    assert!(!begins_like_address("h"));
    assert!(!begins_like_address("htt"));
    assert!(!begins_like_address("HTTP://EXAMPLE.ORG"));
    assert!(!begins_like_address(" http://example.org"));
    assert!(!begins_like_address("never gonna give you up"));
    assert!(!begins_like_address("ftp://example.org"));
    assert!(!begins_like_address("canci\u{f3}n"));
    assert!(!begins_like_address("\u{1f3b5}\u{1f3b5}\u{1f3b5}\u{1f3b5}\u{1f3b5}"));
}

#[test]
fn classify_keeps_the_request() {
    assert_eq!(
        classify("https://example.org/a".to_string()),
        Locator::DirectLocator("https://example.org/a".to_string())
    );
    assert_eq!(
        classify("some song".to_string()),
        Locator::SearchPhrase("some song".to_string())
    );
    assert_eq!(classify(String::new()), Locator::SearchPhrase(String::new()));
}

#[test]
fn play_command_is_announced_with_one_required_option() {
    let command = register();
    assert_eq!(command.name, "play");
    assert_eq!(
        command.description,
        "Reproduce musica en un canal de voz. Puedes escribir una busqueda o una url"
    );
    assert_eq!(command.options.len(), 1);
    assert_eq!(command.options[0].name, "url_search");
    assert_eq!(command.options[0].description, "URL del video de Youtube / Busqueda");
    assert!(command.options[0].required);
}

#[test]
fn command_without_request_is_answered_at_once() {
    let (state, action) = run(PlayState::Start, PlayEvent::Invoked { query: None });
    assert_eq!(state, PlayState::Done);
    assert_eq!(action, PlayAction::Reply { reply: "Falta la URL o busqueda".to_string() });
}

#[test]
fn command_with_request_joins_first() {
    let (state, action) =
        run(PlayState::Start, PlayEvent::Invoked { query: Some("a song".to_string()) });
    assert_eq!(state, PlayState::Joining { query: "a song".to_string() });
    assert_eq!(action, PlayAction::Join);
}

#[test]
fn failed_join_ends_with_its_reason() {
    let (state, action) = run(
        PlayState::Joining { query: "a song".to_string() },
        PlayEvent::Joined { joined: Err("No estas en un canal de voz".to_string()) },
    );
    assert_eq!(state, PlayState::Done);
    assert_eq!(action, PlayAction::Reply { reply: "No estas en un canal de voz".to_string() });
}

#[test]
fn join_is_followed_by_the_connection_lookup() {
    let (state, action) = run(
        PlayState::Joining { query: "a song".to_string() },
        PlayEvent::Joined { joined: Ok(()) },
    );
    assert_eq!(state, PlayState::Connecting { query: "a song".to_string() });
    assert_eq!(action, PlayAction::Connect);
}

#[test]
fn missing_connection_ends_the_command() {
    let (state, action) = run(
        PlayState::Connecting { query: "a song".to_string() },
        PlayEvent::Connection { found: false },
    );
    assert_eq!(state, PlayState::Done);
    assert_eq!(
        action,
        PlayAction::Reply { reply: "El bot no se encuentra en un canal de voz".to_string() }
    );
}

#[test]
fn phrase_is_resolved_by_search() {
    let (state, action) = run(
        PlayState::Connecting { query: "a song".to_string() },
        PlayEvent::Connection { found: true },
    );
    assert_eq!(state, PlayState::Resolving { query: "a song".to_string() });
    assert_eq!(
        action,
        PlayAction::Resolve {
            notice: "Procesando cancion".to_string(),
            locator: Locator::SearchPhrase("a song".to_string()),
        }
    );
}

#[test]
fn address_is_resolved_directly() {
    let (state, action) = run(
        PlayState::Connecting { query: "http://example.org/x".to_string() },
        PlayEvent::Connection { found: true },
    );
    assert_eq!(state, PlayState::Resolving { query: "http://example.org/x".to_string() });
    assert_eq!(
        action,
        PlayAction::Resolve {
            notice: "Procesando cancion".to_string(),
            locator: Locator::DirectLocator("http://example.org/x".to_string()),
        }
    );
}

#[test]
fn failed_resolution_reaches_no_session() {
    let (state, action) = run(
        PlayState::Resolving { query: "a song".to_string() },
        PlayEvent::Resolved {
            resolved: Err(ResolutionError { reason: "sin resultados".to_string() }),
        },
    );
    assert_eq!(state, PlayState::Done);
    assert_eq!(
        action,
        PlayAction::Fail {
            notice: "No se pudo obtener la cancion: sin resultados".to_string(),
            reply: String::new(),
        }
    );
}

#[test]
fn resolved_request_is_submitted() {
    let track = ResolvedTrack {
        metadata: TrackMetadata { title: Some("Cancion".to_string()), duration: Some(180_000) },
        source_reference: 11,
    };
    let (state, action) = run(
        PlayState::Resolving { query: "a song".to_string() },
        PlayEvent::Resolved { resolved: Ok(track) },
    );
    assert_eq!(state, PlayState::Done);
    assert_eq!(
        action,
        PlayAction::Submit {
            item: PlaylistItem::new("Cancion".to_string(), 11, "a song".to_string(), Some(180_000)),
            notice: "Reproduciendo \"Cancion\"".to_string(),
            reply: String::new(),
        }
    );
}

#[test]
fn resolved_request_without_title_names_the_placeholder() {
    let track = ResolvedTrack {
        metadata: TrackMetadata { title: None, duration: None },
        source_reference: 12,
    };
    let (_, action) = run(
        PlayState::Resolving { query: "https://example.org/y".to_string() },
        PlayEvent::Resolved { resolved: Ok(track) },
    );
    assert_eq!(
        action,
        PlayAction::Submit {
            item: PlaylistItem::new(
                "[object Object]".to_string(),
                12,
                "https://example.org/y".to_string(),
                None
            ),
            notice: "Reproduciendo \"[object Object]\"".to_string(),
            reply: String::new(),
        }
    );
}

#[test]
fn events_out_of_turn_are_ignored() {
    let (state, action) = run(PlayState::Start, PlayEvent::Connection { found: true });
    assert_eq!(state, PlayState::Start);
    assert_eq!(action, PlayAction::Ignore);

    let (state, action) =
        run(PlayState::Joining { query: "q".to_string() }, PlayEvent::Invoked { query: None });
    assert_eq!(state, PlayState::Joining { query: "q".to_string() });
    assert_eq!(action, PlayAction::Ignore);

    let (state, action) = run(PlayState::Done, PlayEvent::Joined { joined: Ok(()) });
    assert_eq!(state, PlayState::Done);
    assert_eq!(action, PlayAction::Ignore);

    let (state, action) = run(
        PlayState::Resolving { query: "q".to_string() },
        PlayEvent::Connection { found: false },
    );
    assert_eq!(state, PlayState::Resolving { query: "q".to_string() });
    assert_eq!(action, PlayAction::Ignore);
}
