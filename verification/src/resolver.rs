//! What the session logic asks of a resolver, and how a request is told
//! apart: a request that starts like a web address names its track directly,
//! every other request is a phrase to search for.
//!
//! Resolving itself is the caller's business and happens before anything is
//! handed to a session: a request that cannot be resolved never reaches one.

use crate::item::TrackMetadata;
use vstd::prelude::*;
use vstd::string::*;

verus! {

/// A request, told apart once, before it is resolved.
#[derive(Debug, PartialEq, Eq)]
pub enum Locator {
    /// The request names its track by address.
    DirectLocator(String),
    /// The request is a phrase to search for.
    SearchPhrase(String),
}

/// What a resolver hands back for a request: what it learned about the
/// track, and the handle by which the transport can start it once.
#[derive(Debug, PartialEq, Eq)]
pub struct ResolvedTrack {
    pub metadata: TrackMetadata,
    pub source_reference: u64,
}

/// Why a request could not be resolved: the network failed, nothing was
/// found, or the address is of a kind the resolver does not know.
#[derive(Debug, PartialEq, Eq)]
pub struct ResolutionError {
    /// The reason in words, as the requester is to read it.
    pub reason: String,
}

/// The letters by which a direct locator begins.
pub open spec fn locator_prefix() -> Seq<char> {
    "http"@
}

/// Whether `query` names its track directly: it begins with
/// [`locator_prefix`].
pub open spec fn is_direct_locator(query: Seq<char>) -> bool {
    locator_prefix().is_prefix_of(query)
}

/// Whether `query` begins like a web address.
pub fn begins_like_address(query: &str) -> (direct: bool)
    ensures
        direct == is_direct_locator(query@),
{
    proof {
        reveal_strlit("http");
    }
    let prefix = "http";
    if query.unicode_len() < 4 {
        return false;
    }
    let mut i: usize = 0;
    while i < 4
        invariant
            i <= 4,
            prefix@ == locator_prefix(),
            prefix@.len() == 4,
            query@.len() >= 4,
            forall|j: int| 0 <= j < i ==> query@[j] == prefix@[j],
        decreases 4 - i,
    {
        if query.get_char(i) != prefix.get_char(i) {
            return false;
        }
        i = i + 1;
    }
    true
}

/// Tells a request apart: a direct locator where it begins like a web
/// address, else a search phrase. The request itself is kept as it is.
pub fn classify(query: String) -> (locator: Locator)
    ensures
        locator == if is_direct_locator(query@) {
            Locator::DirectLocator(query)
        } else {
            Locator::SearchPhrase(query)
        },
{
    if begins_like_address(query.as_str()) {
        Locator::DirectLocator(query)
    } else {
        Locator::SearchPhrase(query)
    }
}

} // verus!
