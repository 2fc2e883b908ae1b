use playback_queue::item::PlaylistItem;
use playback_queue::session::{
    AdvanceOutcome, EnqueueError, Enqueued, FailureOutcome, PlayRequest, PlaybackState, Session,
    MAX_START_FAILURES,
};

fn track(name: &str, source: u64) -> PlaylistItem {
    PlaylistItem::new(name.to_string(), source, format!("query {name}"), Some(1000 * source))
}

fn playing(names: &[&str]) -> Session {
    let mut session = Session::new();
    for (i, name) in names.iter().enumerate() {
        session.enqueue(track(name, i as u64 + 1)).unwrap();
    }
    session
}

fn queue_titles(session: &Session) -> Vec<String> {
    let mut titles = Vec::new();
    let mut i = 0;
    while let Some(item) = session.queued(i) {
        titles.push(item.title().clone());
        i += 1;
    }
    titles
}

#[test]
fn new_session_is_idle_and_empty() {
    let session = Session::new();
    assert_eq!(session.state(), PlaybackState::Idle);
    assert_eq!(session.track_token(), 0);
    assert_eq!(session.current(), None);
    assert_eq!(session.queue_len(), 0);
    assert_eq!(session.failures(), 0);
    assert!(session.is_vacant());
    assert!(session.has_token_room());
}

#[test]
fn enqueue_then_advance_then_stale_then_idle() {
    let mut s = Session::new();
    let a = track("A", 1);
    let b = track("B", 2);

    let first = s.enqueue(a.clone()).unwrap();
    assert_eq!(
        first,
        Enqueued { position: 0, start: Some(PlayRequest { item: a.clone(), token: 1 }) }
    );
    assert_eq!(s.state(), PlaybackState::Playing);
    assert_eq!(s.current(), Some(&a));
    assert_eq!(s.track_token(), 1);

    let second = s.enqueue(b.clone()).unwrap();
    assert_eq!(second, Enqueued { position: 1, start: None });
    assert_eq!(queue_titles(&s), vec!["B".to_string()]);
    assert_eq!(s.current(), Some(&a));

    let advanced = s.advance(1);
    assert_eq!(advanced, AdvanceOutcome::Advanced(PlayRequest { item: b.clone(), token: 2 }));
    assert_eq!(s.state(), PlaybackState::Playing);
    assert_eq!(s.current(), Some(&b));
    assert_eq!(s.track_token(), 2);
    assert_eq!(s.queue_len(), 0);

    let stale = s.advance(1);
    assert_eq!(stale, AdvanceOutcome::Stale);
    assert_eq!(s.state(), PlaybackState::Playing);
    assert_eq!(s.current(), Some(&b));
    assert_eq!(s.track_token(), 2);
    assert_eq!(s.queue_len(), 0);

    let done = s.advance(2);
    assert_eq!(done, AdvanceOutcome::Idle);
    assert_eq!(s.state(), PlaybackState::Idle);
    assert_eq!(s.current(), None);
    assert_eq!(s.queue_len(), 0);
}

#[test]
fn three_start_failures_fall_back_to_idle() {
    let mut s = playing(&["A", "B", "C", "D"]);
    let mut reported = Vec::new();

    match s.start_failed(1) {
        FailureOutcome::Retried { failed, next } => {
            reported.push(failed.title().clone());
            assert_eq!(next.item.title(), "B");
            assert_eq!(next.token, 2);
        }
        other => panic!("unexpected {other:?}"),
    }
    assert_eq!(s.failures(), 1);
    match s.start_failed(2) {
        FailureOutcome::Retried { failed, next } => {
            reported.push(failed.title().clone());
            assert_eq!(next.item.title(), "C");
            assert_eq!(next.token, 3);
        }
        other => panic!("unexpected {other:?}"),
    }
    assert_eq!(s.failures(), 2);
    match s.start_failed(3) {
        FailureOutcome::GaveUp { failed } => reported.push(failed.title().clone()),
        other => panic!("unexpected {other:?}"),
    }

    assert_eq!(reported, vec!["A".to_string(), "B".to_string(), "C".to_string()]);
    assert_eq!(s.state(), PlaybackState::Idle);
    assert_eq!(s.current(), None);
    assert_eq!(s.track_token(), 3);
    assert_eq!(s.failures(), 0);
    assert_eq!(queue_titles(&s), vec!["D".to_string()]);
    assert_eq!(s.start_failed(3), FailureOutcome::Stale);
    assert_eq!(queue_titles(&s), vec!["D".to_string()]);
}

#[test]
fn failure_limit_is_three() {
    assert_eq!(MAX_START_FAILURES, 3);
}

#[test]
fn enqueues_keep_the_order_of_the_calls() {
    let names = ["one", "two", "three", "four", "five"];
    let s = playing(&names);
    assert_eq!(s.state(), PlaybackState::Playing);
    assert_eq!(s.track_token(), 1);
    assert_eq!(s.current().unwrap().title(), "one");
    assert_eq!(queue_titles(&s), vec!["two", "three", "four", "five"]);
    assert_eq!(s.queue_len(), 4);
}

#[test]
fn enqueue_positions_count_from_one() {
    let mut s = Session::new();
    assert_eq!(s.enqueue(track("a", 1)).unwrap().position, 0);
    assert_eq!(s.enqueue(track("b", 2)).unwrap().position, 1);
    assert_eq!(s.enqueue(track("c", 3)).unwrap().position, 2);
    assert_eq!(s.enqueue(track("d", 4)).unwrap().position, 3);
}

#[test]
fn same_item_twice_is_queued_twice() {
    let mut s = Session::new();
    s.enqueue(track("same", 1)).unwrap();
    s.enqueue(track("same", 1)).unwrap();
    s.enqueue(track("same", 1)).unwrap();
    assert_eq!(s.queue_len(), 2);
    assert_eq!(s.current(), Some(&track("same", 1)));
}

#[test]
fn stale_advance_after_skip_changes_nothing() {
    let mut s = playing(&["A", "B", "C"]);
    let skipped_token = s.track_token();
    let skipped = s.skip();
    assert_eq!(skipped, AdvanceOutcome::Advanced(PlayRequest { item: track("B", 2), token: 2 }));

    let stale = s.advance(skipped_token);
    assert_eq!(stale, AdvanceOutcome::Stale);
    assert_eq!(s.state(), PlaybackState::Playing);
    assert_eq!(s.current(), Some(&track("B", 2)));
    assert_eq!(s.track_token(), 2);
    assert_eq!(queue_titles(&s), vec!["C".to_string()]);
}

#[test]
fn advance_with_future_token_is_stale() {
    let mut s = playing(&["A", "B"]);
    assert_eq!(s.advance(2), AdvanceOutcome::Stale);
    assert_eq!(s.advance(0), AdvanceOutcome::Stale);
    assert_eq!(s.advance(u64::MAX), AdvanceOutcome::Stale);
    assert_eq!(s.current(), Some(&track("A", 1)));
    assert_eq!(s.queue_len(), 1);
}

#[test]
fn advance_on_idle_session_is_stale() {
    let mut s = Session::new();
    assert_eq!(s.advance(0), AdvanceOutcome::Stale);
    assert_eq!(s.state(), PlaybackState::Idle);
    let mut drained = playing(&["A"]);
    assert_eq!(drained.advance(1), AdvanceOutcome::Idle);
    assert_eq!(drained.advance(1), AdvanceOutcome::Stale);
    assert_eq!(drained.track_token(), 1);
}

#[test]
fn round_trip_plays_every_item_once_in_order() {
    let names = ["n1", "n2", "n3", "n4"];
    let mut s = Session::new();
    let mut announced: Vec<(String, u64)> = Vec::new();
    for (i, name) in names.iter().enumerate() {
        let out = s.enqueue(track(name, i as u64)).unwrap();
        if let Some(req) = out.start {
            announced.push((req.item.title().clone(), req.token));
        }
    }
    for _ in 0..names.len() {
        let token = s.track_token();
        match s.advance(token) {
            AdvanceOutcome::Advanced(req) => announced.push((req.item.title().clone(), req.token)),
            AdvanceOutcome::Idle => {}
            AdvanceOutcome::Stale => panic!("the current token cannot be stale"),
        }
    }
    assert_eq!(s.state(), PlaybackState::Idle);
    assert_eq!(s.queue_len(), 0);
    assert_eq!(s.current(), None);
    assert_eq!(
        announced,
        vec![
            ("n1".to_string(), 1),
            ("n2".to_string(), 2),
            ("n3".to_string(), 3),
            ("n4".to_string(), 4)
        ]
    );
}

#[test]
fn round_trip_of_nothing_changes_nothing() {
    let s = playing(&[]);
    assert_eq!(s.state(), PlaybackState::Idle);
    assert_eq!(s.track_token(), 0);
}

#[test]
fn second_round_continues_the_tokens() {
    let mut s = playing(&["A"]);
    assert_eq!(s.advance(1), AdvanceOutcome::Idle);
    let again = s.enqueue(track("B", 2)).unwrap();
    assert_eq!(again.position, 0);
    assert_eq!(again.start, Some(PlayRequest { item: track("B", 2), token: 2 }));
    assert_eq!(s.advance(1), AdvanceOutcome::Stale);
    assert_eq!(s.advance(2), AdvanceOutcome::Idle);
}

#[test]
fn stop_is_terminal() {
    let mut s = playing(&["A", "B", "C"]);
    assert!(s.stop());
    assert_eq!(s.state(), PlaybackState::Stopped);
    assert_eq!(s.current(), None);
    assert_eq!(s.queue_len(), 0);
    assert_eq!(s.track_token(), 1);

    assert_eq!(s.enqueue(track("late", 9)), Err(EnqueueError::Stopped));
    assert_eq!(s.advance(1), AdvanceOutcome::Stale);
    assert_eq!(s.start_failed(1), FailureOutcome::Stale);
    assert_eq!(s.skip(), AdvanceOutcome::Idle);
    assert!(!s.pause());
    assert!(!s.resume());
    assert!(!s.stop());

    assert_eq!(s.state(), PlaybackState::Stopped);
    assert_eq!(s.current(), None);
    assert_eq!(s.queue_len(), 0);
    assert_eq!(s.track_token(), 1);
    assert!(s.is_vacant());
}

#[test]
fn stop_on_idle_session_releases_once() {
    let mut s = Session::new();
    assert!(s.stop());
    assert!(!s.stop());
    assert_eq!(s.state(), PlaybackState::Stopped);
}

#[test]
fn skip_without_track_reports_idle() {
    let mut s = Session::new();
    assert_eq!(s.skip(), AdvanceOutcome::Idle);
    assert_eq!(s.state(), PlaybackState::Idle);
    assert_eq!(s.track_token(), 0);
}

#[test]
fn skip_of_last_track_goes_idle() {
    let mut s = playing(&["only"]);
    assert_eq!(s.skip(), AdvanceOutcome::Idle);
    assert_eq!(s.state(), PlaybackState::Idle);
    assert_eq!(s.current(), None);
}

#[test]
fn pause_and_resume_toggle() {
    let mut s = playing(&["A", "B"]);
    assert!(!s.resume());
    assert!(s.pause());
    assert_eq!(s.state(), PlaybackState::Paused);
    assert!(!s.pause());
    assert_eq!(s.current(), Some(&track("A", 1)));
    assert_eq!(s.track_token(), 1);
    assert_eq!(s.queue_len(), 1);
    assert!(s.resume());
    assert_eq!(s.state(), PlaybackState::Playing);
    assert_eq!(s.current(), Some(&track("A", 1)));
    assert_eq!(s.track_token(), 1);
    assert_eq!(s.queue_len(), 1);
}

#[test]
fn pause_and_resume_do_nothing_when_idle() {
    let mut s = Session::new();
    assert!(!s.pause());
    assert!(!s.resume());
    assert_eq!(s.state(), PlaybackState::Idle);
}

#[test]
fn enqueue_while_paused_only_queues() {
    let mut s = playing(&["A"]);
    s.pause();
    let out = s.enqueue(track("B", 2)).unwrap();
    assert_eq!(out, Enqueued { position: 1, start: None });
    assert_eq!(s.state(), PlaybackState::Paused);
}

#[test]
fn advance_while_paused_starts_next_track() {
    let mut s = playing(&["A", "B"]);
    s.pause();
    let out = s.advance(1);
    assert_eq!(out, AdvanceOutcome::Advanced(PlayRequest { item: track("B", 2), token: 2 }));
    assert_eq!(s.state(), PlaybackState::Playing);
}

#[test]
fn start_failure_with_empty_queue_drains() {
    let mut s = playing(&["A"]);
    assert_eq!(s.start_failed(1), FailureOutcome::Drained { failed: track("A", 1) });
    assert_eq!(s.state(), PlaybackState::Idle);
    assert_eq!(s.failures(), 0);
    assert!(s.is_vacant());
}

#[test]
fn start_failure_with_stale_token_changes_nothing() {
    let mut s = playing(&["A", "B"]);
    assert_eq!(s.start_failed(7), FailureOutcome::Stale);
    assert_eq!(s.failures(), 0);
    assert_eq!(s.current(), Some(&track("A", 1)));
    assert_eq!(s.queue_len(), 1);
}

#[test]
fn a_track_that_ends_clears_the_failure_count() {
    let mut s = playing(&["A", "B", "C", "D", "E"]);
    assert!(matches!(s.start_failed(1), FailureOutcome::Retried { .. }));
    assert!(matches!(s.start_failed(2), FailureOutcome::Retried { .. }));
    assert_eq!(s.failures(), 2);
    assert!(matches!(s.advance(3), AdvanceOutcome::Advanced(_)));
    assert_eq!(s.failures(), 0);
    assert!(matches!(s.start_failed(4), FailureOutcome::Retried { .. }));
    assert_eq!(s.failures(), 1);
    assert_eq!(s.current().unwrap().title(), "E");
}

#[test]
fn enqueue_after_giving_up_resumes_with_the_waiting_track() {
    let mut s = playing(&["A", "B", "C", "D"]);
    s.start_failed(1);
    s.start_failed(2);
    s.start_failed(3);
    assert_eq!(s.state(), PlaybackState::Idle);
    assert!(!s.is_vacant());

    let out = s.enqueue(track("E", 5)).unwrap();
    assert_eq!(out.position, 1);
    assert_eq!(out.start, Some(PlayRequest { item: track("D", 4), token: 4 }));
    assert_eq!(s.current(), Some(&track("D", 4)));
    assert_eq!(queue_titles(&s), vec!["E".to_string()]);
}

#[test]
fn queued_is_none_past_the_end() {
    let s = playing(&["A", "B", "C"]);
    assert_eq!(s.queued(0), Some(&track("B", 2)));
    assert_eq!(s.queued(1), Some(&track("C", 3)));
    assert_eq!(s.queued(2), None);
    assert_eq!(s.queued(usize::MAX), None);
}

#[test]
fn playing_session_is_not_vacant() {
    let mut s = playing(&["A"]);
    assert!(!s.is_vacant());
    s.pause();
    assert!(!s.is_vacant());
}

#[test]
fn default_session_is_new() {
    let s = Session::default();
    assert_eq!(s.state(), PlaybackState::Idle);
    assert_eq!(s.track_token(), 0);
    assert!(s.is_vacant());
}

#[test]
fn session_starting_after_a_token_goes_on_from_there() {
    let mut s = Session::starting_after(41);
    assert_eq!(s.state(), PlaybackState::Idle);
    assert_eq!(s.track_token(), 41);
    assert_eq!(s.current(), None);
    assert!(s.is_vacant());
    assert_eq!(s.advance(41), AdvanceOutcome::Stale);
    let out = s.enqueue(track("A", 1)).unwrap();
    assert_eq!(
        out,
        Enqueued { position: 0, start: Some(PlayRequest { item: track("A", 1), token: 42 }) }
    );
    assert_eq!(s.advance(41), AdvanceOutcome::Stale);
    assert_eq!(s.advance(42), AdvanceOutcome::Idle);
}
