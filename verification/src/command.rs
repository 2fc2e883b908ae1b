//! The play command: how it is announced, and what is decided while one
//! request is handled.
//!
//! Handling a request takes several exchanges with the outside: the voice
//! channel is joined, the connection looked up, the request resolved. [`run`]
//! makes every decision in between. It is called with where the handling
//! stands and what has just happened, and answers with where it stands now
//! and what is to be done next.

use crate::item::PlaylistItem;
use crate::resolver::{classify, is_direct_locator, Locator, ResolutionError, ResolvedTrack};
use vstd::prelude::*;
use vstd::string::*;

verus! {

/// An option of a command whose value is a text.
#[derive(Debug, PartialEq, Eq)]
pub struct StringOption {
    pub name: String,
    pub description: String,
    pub required: bool,
}

/// A command as it is announced to the chat service.
#[derive(Debug, PartialEq, Eq)]
pub struct SlashCommand {
    pub name: String,
    pub description: String,
    pub options: Vec<StringOption>,
}

/// The name of the option that carries the request.
pub open spec fn query_option() -> Seq<char> {
    "url_search"@
}

/// The play command: named `play`, with one required text option, the
/// address or the phrase to search for.
pub fn register() -> (command: SlashCommand)
    ensures
        command.name@ == "play"@,
        command.description@
            == "Reproduce musica en un canal de voz. Puedes escribir una busqueda o una url"@,
        command.options@.len() == 1,
        command.options@[0].name@ == query_option(),
        command.options@[0].description@ == "URL del video de Youtube / Busqueda"@,
        command.options@[0].required,
{
    let mut options: Vec<StringOption> = Vec::new();
    options.push(
        StringOption {
            name: String::from_str("url_search"),
            description: String::from_str("URL del video de Youtube / Busqueda"),
            required: true,
        },
    );
    SlashCommand {
        name: String::from_str("play"),
        description: String::from_str(
            "Reproduce musica en un canal de voz. Puedes escribir una busqueda o una url",
        ),
        options,
    }
}

/// Where the handling of one request stands.
#[derive(Debug, PartialEq, Eq)]
pub enum PlayState {
    /// The command has not been looked at yet.
    Start,
    /// The voice channel is being joined.
    Joining { query: String },
    /// The destination's voice connection is being looked up.
    Connecting { query: String },
    /// The request is being resolved.
    Resolving { query: String },
    /// The command has been answered.
    Done,
}

/// What has just happened.
#[derive(Debug, PartialEq, Eq)]
pub enum PlayEvent {
    /// The command came in, with the value of its request option if it has
    /// that option.
    Invoked { query: Option<String> },
    /// The voice channel was joined, or could not be, for the reason given.
    Joined { joined: Result<(), String> },
    /// The destination has a voice connection, or has none.
    Connection { found: bool },
    /// The request was resolved, or could not be, for the reason given.
    Resolved { resolved: Result<ResolvedTrack, ResolutionError> },
}

/// What is to be done next.
#[derive(Debug, PartialEq, Eq)]
pub enum PlayAction {
    /// Join the requester's voice channel and come back with `Joined`.
    Join,
    /// Look up the destination's voice connection and come back with
    /// `Connection`.
    Connect,
    /// Get the destination's session from the registry, tell the requester
    /// `notice`, resolve `locator` while nothing of the session is held, and
    /// come back with `Resolved`.
    Resolve { notice: String, locator: Locator },
    /// Hand `item` to that session, put `notice` in place of the earlier
    /// notice and end the command with `reply`.
    Submit { item: PlaylistItem, notice: String, reply: String },
    /// Put `notice` in place of the earlier notice and end the command with
    /// `reply`.
    Fail { notice: String, reply: String },
    /// End the command with `reply`.
    Reply { reply: String },
    /// The event does not belong to this state: do nothing.
    Ignore,
}

/// What [`run`] answers to `event` in `state`.
///
/// - A command without a request is answered at once.
/// - A channel that cannot be joined ends the command with the reason.
/// - A destination without a voice connection ends it with a fixed reply.
/// - A request that cannot be resolved reaches no session: the notice names
///   the reason.
/// - A resolved request becomes an item, with the request as its original
///   query, and the notice names its title.
/// - Any other event leaves the state as it is.
pub open spec fn run_answer(
    state: PlayState,
    event: PlayEvent,
    next: PlayState,
    action: PlayAction,
) -> bool {
    match (state, event) {
        (PlayState::Start, PlayEvent::Invoked { query: None }) => {
            &&& next is Done
            &&& action matches PlayAction::Reply { reply }
            &&& reply@ == "Falta la URL o busqueda"@
        },
        (PlayState::Start, PlayEvent::Invoked { query: Some(query) }) => {
            &&& next == PlayState::Joining { query }
            &&& action is Join
        },
        (PlayState::Joining { query }, PlayEvent::Joined { joined: Ok(_) }) => {
            &&& next == PlayState::Connecting { query }
            &&& action is Connect
        },
        (PlayState::Joining { query }, PlayEvent::Joined { joined: Err(reason) }) => {
            &&& next is Done
            &&& action == PlayAction::Reply { reply: reason }
        },
        (PlayState::Connecting { query }, PlayEvent::Connection { found: false }) => {
            &&& next is Done
            &&& action matches PlayAction::Reply { reply }
            &&& reply@ == "El bot no se encuentra en un canal de voz"@
        },
        (PlayState::Connecting { query }, PlayEvent::Connection { found: true }) => {
            &&& next == PlayState::Resolving { query }
            &&& action matches PlayAction::Resolve { notice, locator }
            &&& notice@ == "Procesando cancion"@
            &&& locator == if is_direct_locator(query@) {
                Locator::DirectLocator(query)
            } else {
                Locator::SearchPhrase(query)
            }
        },
        (PlayState::Resolving { query }, PlayEvent::Resolved { resolved: Err(error) }) => {
            &&& next is Done
            &&& action matches PlayAction::Fail { notice, reply }
            &&& notice@ == "No se pudo obtener la cancion: "@ + error.reason@
            &&& reply@ == Seq::<char>::empty()
        },
        (PlayState::Resolving { query }, PlayEvent::Resolved { resolved: Ok(track) }) => {
            &&& next is Done
            &&& action matches PlayAction::Submit { item, notice, reply }
            &&& item@.title == match track.metadata.title {
                Some(title) => title@,
                None => crate::item::placeholder_title(),
            }
            &&& item@.duration == track.metadata.duration
            &&& item@.source_reference == track.source_reference
            &&& item@.original_query == query@
            &&& notice@ == "Reproduciendo \""@ + item@.title + "\""@
            &&& reply@ == Seq::<char>::empty()
        },
        _ => {
            &&& next == state
            &&& action is Ignore
        },
    }
}

/// One step in the handling of a request: takes where the handling stands
/// and what has just happened, and gives where it stands now and what is to
/// be done next, as [`run_answer`] says.
pub fn run(state: PlayState, event: PlayEvent) -> (r: (PlayState, PlayAction))
    ensures
        run_answer(state, event, r.0, r.1),
{
    match (state, event) {
        (PlayState::Start, PlayEvent::Invoked { query }) => match query {
            None => (
                PlayState::Done,
                PlayAction::Reply { reply: String::from_str("Falta la URL o busqueda") },
            ),
            Some(query) => (PlayState::Joining { query }, PlayAction::Join),
        },
        (PlayState::Joining { query }, PlayEvent::Joined { joined }) => match joined {
            Ok(_) => (PlayState::Connecting { query }, PlayAction::Connect),
            Err(reason) => (PlayState::Done, PlayAction::Reply { reply: reason }),
        },
        (PlayState::Connecting { query }, PlayEvent::Connection { found }) => {
            if found {
                let locator = classify(query.clone());
                let notice = String::from_str("Procesando cancion");
                (PlayState::Resolving { query }, PlayAction::Resolve { notice, locator })
            } else {
                (
                    PlayState::Done,
                    PlayAction::Reply {
                        reply: String::from_str("El bot no se encuentra en un canal de voz"),
                    },
                )
            }
        },
        (PlayState::Resolving { query }, PlayEvent::Resolved { resolved }) => match resolved {
            Ok(track) => {
                let item = PlaylistItem::from_metadata(
                    track.metadata,
                    track.source_reference,
                    query,
                );
                let notice = String::from_str("Reproduciendo \"").concat(
                    item.title().as_str(),
                ).concat("\"");
                (PlayState::Done, PlayAction::Submit { item, notice, reply: String::new() })
            },
            Err(error) => {
                let notice = String::from_str("No se pudo obtener la cancion: ").concat(
                    error.reason.as_str(),
                );
                (PlayState::Done, PlayAction::Fail { notice, reply: String::new() })
            },
        },
        (state, _) => (state, PlayAction::Ignore),
    }
}

} // verus!
