//! What holds of every session, proved over [`SessionModel`].
//!
//! The executable methods of [`crate::session::Session`] make exactly the
//! model's steps, so each law here holds of every run of a session.

use crate::item::PlaylistItem;
use crate::session::{EnqueueError, Enqueued, FailureOutcome, SessionModel, MAX_START_FAILURES};
use vstd::prelude::*;

verus! {

/// One call on a session.
pub enum Operation {
    Enqueue(PlaylistItem),
    Advance(nat),
    StartFailed(nat),
    Skip,
    Stop,
    Pause,
    Resume,
}

/// The state after one call.
pub open spec fn apply(m: SessionModel, op: Operation) -> SessionModel {
    match op {
        Operation::Enqueue(item) => m.enqueue(item),
        Operation::Advance(token) => m.advance(token),
        Operation::StartFailed(token) => m.start_failed(token),
        Operation::Skip => m.skip(),
        Operation::Stop => m.stop(),
        Operation::Pause => m.pause(),
        Operation::Resume => m.resume(),
    }
}

/// The state after a run of calls, the first of `ops` made first.
pub open spec fn apply_all(m: SessionModel, ops: Seq<Operation>) -> SessionModel
    decreases ops.len(),
{
    if ops.len() == 0 {
        m
    } else {
        apply(apply_all(m, ops.drop_last()), ops.last())
    }
}

/// The tracks a session holds in the order in which they play: the current
/// one, then the queue.
pub open spec fn lineup(m: SessionModel) -> Seq<PlaylistItem> {
    match m.current {
        Some(item) => seq![item] + m.queue,
        None => m.queue,
    }
}

/// The state after `items` were enqueued one after another.
pub open spec fn enqueue_all(m: SessionModel, items: Seq<PlaylistItem>) -> SessionModel
    decreases items.len(),
{
    if items.len() == 0 {
        m
    } else {
        enqueue_all(m, items.drop_last()).enqueue(items.last())
    }
}

/// Of `calls`, those that task `task` made, in the order in which it made
/// them; `owner` names the task of each call.
pub open spec fn calls_of(calls: Seq<PlaylistItem>, owner: Seq<nat>, task: nat) -> Seq<
    PlaylistItem,
>
    decreases calls.len(),
{
    if calls.len() == 0 || owner.len() == 0 {
        Seq::empty()
    } else if owner.last() == task {
        calls_of(calls.drop_last(), owner.drop_last(), task).push(calls.last())
    } else {
        calls_of(calls.drop_last(), owner.drop_last(), task)
    }
}

/// The state after `n` calls of `advance`, each with the token that is
/// current when it is made.
pub open spec fn advance_n(m: SessionModel, n: nat) -> SessionModel
    decreases n,
{
    if n == 0 {
        m
    } else {
        advance_n(m.advance(m.token), (n - 1) as nat)
    }
}

/// What a step announced as now playing: the track and its token where the
/// step started one, else nothing. A step starts a track exactly when it
/// gives out a token.
pub open spec fn announced(before: SessionModel, after: SessionModel) -> Seq<(PlaylistItem, nat)> {
    if after.token > before.token && after.current is Some {
        seq![(after.current->0, after.token)]
    } else {
        Seq::empty()
    }
}

/// What the calls of [`enqueue_all`] announced, in order.
pub open spec fn announced_by_enqueues(m: SessionModel, items: Seq<PlaylistItem>) -> Seq<
    (PlaylistItem, nat),
>
    decreases items.len(),
{
    if items.len() == 0 {
        Seq::empty()
    } else {
        announced_by_enqueues(m, items.drop_last()) + announced(
            enqueue_all(m, items.drop_last()),
            enqueue_all(m, items),
        )
    }
}

/// What the calls of [`advance_n`] announced, in order.
pub open spec fn announced_by_advances(m: SessionModel, n: nat) -> Seq<(PlaylistItem, nat)>
    decreases n,
{
    if n == 0 {
        Seq::empty()
    } else {
        announced(m, m.advance(m.token)) + announced_by_advances(
            m.advance(m.token),
            (n - 1) as nat,
        )
    }
}

/// Every call keeps the session's invariant.
pub proof fn law_step_keeps_invariant(m: SessionModel, op: Operation)
    requires
        m.wf(),
    ensures
        apply(m, op).wf(),
{
}

/// The invariant holds in every state that calls can reach from a new
/// session: a track is loaded exactly while the session plays or is paused.
pub proof fn law_invariant_always_holds(ops: Seq<Operation>)
    ensures
        apply_all(SessionModel::fresh(), ops).wf(),
    decreases ops.len(),
{
    if ops.len() > 0 {
        law_invariant_always_holds(ops.drop_last());
        law_step_keeps_invariant(apply_all(SessionModel::fresh(), ops.drop_last()), ops.last());
    }
}

/// The token never goes back. It grows, by one, exactly with a step that
/// starts a track: such a step leaves the session playing the head of what
/// was queued, and a step that keeps the token loads no track. So two
/// playbacks of one session never share a token.
pub proof fn law_token_grows_with_each_start(m: SessionModel, op: Operation)
    requires
        m.wf(),
    ensures
        apply(m, op).token == m.token || apply(m, op).token == m.token + 1,
        apply(m, op).token == m.token + 1 ==> {
            &&& apply(m, op).state is Playing
            &&& apply(m, op).current == Some(
                if m.queue.len() > 0 {
                    m.queue[0]
                } else {
                    op->Enqueue_0
                },
            )
        },
        apply(m, op).token == m.token ==> {
            ||| apply(m, op).current == m.current
            ||| apply(m, op).current is None
        },
{
}

/// A signal counts once: after the end or the failure of a playback was
/// reported, a second report under the same token changes nothing.
pub proof fn law_signal_counts_once(m: SessionModel, token: nat)
    requires
        m.wf(),
    ensures
        m.advance(token).advance(token) == m.advance(token),
        m.advance(token).start_failed(token) == m.advance(token),
        m.start_failed(token).start_failed(token) == m.start_failed(token),
        m.start_failed(token).advance(token) == m.start_failed(token),
{
}

/// Enqueueing loses no item, repeats none and keeps the order of the calls:
/// the tracks held afterwards are those held before, followed by the new
/// ones as they came. A session with a track loaded keeps it; one without
/// starts the first track in line, and only that one.
pub proof fn law_enqueues_keep_order(m: SessionModel, items: Seq<PlaylistItem>)
    requires
        m.wf(),
        !(m.state is Stopped),
    ensures
        enqueue_all(m, items).wf(),
        !(enqueue_all(m, items).state is Stopped),
        lineup(enqueue_all(m, items)) == lineup(m) + items,
        m.current is Some || items.len() == 0 ==> {
            &&& enqueue_all(m, items).current == m.current
            &&& enqueue_all(m, items).state == m.state
            &&& enqueue_all(m, items).token == m.token
        },
        m.current is None && items.len() > 0 ==> {
            &&& enqueue_all(m, items).state is Playing
            &&& enqueue_all(m, items).current == Some((m.queue + items)[0])
            &&& enqueue_all(m, items).token == m.token + 1
        },
    decreases items.len(),
{
    if items.len() > 0 {
        // By induction the claim holds before the last call; the last call
        // appends its item to the lineup, whether or not it starts a track.
        let before = enqueue_all(m, items.drop_last());
        law_enqueues_keep_order(m, items.drop_last());
        assert(items =~= items.drop_last().push(items.last()));
        assert(lineup(before.enqueue(items.last())) =~= lineup(before).push(items.last()));
    }
}

/// On a new session the first item enqueued becomes the one current track,
/// under token 1, and the others wait behind it in the order of the calls.
pub proof fn law_first_enqueue_starts_playback(items: Seq<PlaylistItem>)
    requires
        items.len() > 0,
    ensures
        enqueue_all(SessionModel::fresh(), items).state is Playing,
        enqueue_all(SessionModel::fresh(), items).current == Some(items[0]),
        enqueue_all(SessionModel::fresh(), items).queue == items.drop_first(),
        enqueue_all(SessionModel::fresh(), items).token == 1,
{
    law_enqueues_keep_order(SessionModel::fresh(), items);
    assert(lineup(SessionModel::fresh()) + items =~= items);
}

/// Where several tasks enqueue into a new session, their calls reach it in
/// some order, one after another. Whatever that order is, the session then
/// holds the items of each task in the order in which that task enqueued
/// them.
pub proof fn law_each_task_keeps_its_order(calls: Seq<PlaylistItem>, owner: Seq<nat>, task: nat)
    requires
        calls.len() == owner.len(),
    ensures
        calls_of(lineup(enqueue_all(SessionModel::fresh(), calls)), owner, task) == calls_of(
            calls,
            owner,
            task,
        ),
{
    law_enqueues_keep_order(SessionModel::fresh(), calls);
    assert(lineup(SessionModel::fresh()) + calls =~= calls);
}

/// A call of `advance` with a token that is not the current one changes
/// nothing and reports `Stale`.
pub proof fn law_stale_advance_changes_nothing(m: SessionModel, token: nat)
    requires
        !m.is_current(token),
    ensures
        m.advance(token) == m,
        m.advance_outcome(token) is Stale,
{
}

/// After a skip the token of the skipped track is stale: advancing with it
/// changes nothing.
pub proof fn law_token_is_stale_after_skip(m: SessionModel)
    requires
        m.wf(),
        m.current is Some,
    ensures
        m.skip().advance(m.token) == m.skip(),
        m.skip().advance_outcome(m.token) is Stale,
{
}

/// Once stopped, a session stays as it is whatever is called on it, and it
/// refuses every item.
pub proof fn law_stop_is_final(m: SessionModel, op: Operation)
    ensures
        apply(m.stop(), op) == m.stop(),
        op matches Operation::Enqueue(item) ==> m.stop().enqueue_outcome(item) == Err::<
            Enqueued,
            EnqueueError,
        >(EnqueueError::Stopped),
{
}

/// Failed starts are bounded. When the tracks of a session fail to start one
/// after another, the third failure in a row ends the attempt: the session
/// is idle, the tracks behind the third stay queued and none of them is
/// started, and each of the three calls reported the one track that failed
/// under its token.
pub proof fn law_third_failure_gives_up(m: SessionModel)
    requires
        m.wf(),
        m.current is Some,
        m.failures == 0,
        m.queue.len() >= 2,
    ensures
        MAX_START_FAILURES == 3,
        ({
            let first = m.start_failed(m.token);
            let second = first.start_failed(first.token);
            let third = second.start_failed(second.token);
            &&& m.start_failed_outcome(m.token) == FailureOutcome::Retried {
                failed: m.current->0,
                next: first.request(),
            }
            &&& first.current == Some(m.queue[0])
            &&& first.start_failed_outcome(first.token) == FailureOutcome::Retried {
                failed: m.queue[0],
                next: second.request(),
            }
            &&& second.current == Some(m.queue[1])
            &&& second.start_failed_outcome(second.token) == FailureOutcome::GaveUp {
                failed: m.queue[1],
            }
            &&& third.state is Idle
            &&& third.current is None
            &&& third.failures == 0
            &&& third.token == m.token + 2
            &&& third.queue == m.queue.subrange(2, m.queue.len() as int)
        }),
{
}

/// A session with a track loaded and `k` tracks queued is drained by `k + 1`
/// advances: it ends idle and empty, and the advances announce the queued
/// tracks in order under the tokens that follow the current one.
pub proof fn law_advances_drain_queue(m: SessionModel)
    requires
        m.wf(),
        m.current is Some,
    ensures
        advance_n(m, m.queue.len() + 1).state is Idle,
        advance_n(m, m.queue.len() + 1).current is None,
        advance_n(m, m.queue.len() + 1).queue.len() == 0,
        advance_n(m, m.queue.len() + 1).token == m.token + m.queue.len(),
        announced_by_advances(m, m.queue.len() + 1) == Seq::new(
            m.queue.len(),
            |i: int| (m.queue[i], (m.token + 1 + i) as nat),
        ),
    decreases m.queue.len(),
{
    let next = m.advance(m.token);
    if m.queue.len() == 0 {
        // The one advance finds nothing to start.
        assert(advance_n(next, 0) == next);
        assert(announced(m, next) + announced_by_advances(next, 0) =~= Seq::empty());
    } else {
        // The first advance starts the head of the queue under the next
        // token; by induction the others drain what is left.
        law_advances_drain_queue(next);
        assert(announced(m, next) == seq![(m.queue[0], m.token + 1)]);
    }
}

/// Round trip: after `n` items are enqueued into an idle, empty session and
/// `advance` is then called `n` times with the current token, the session is
/// idle and empty again, and the items were announced as now playing once
/// each, in the order in which they came, under `n` tokens in a row.
pub proof fn law_round_trip(m: SessionModel, items: Seq<PlaylistItem>)
    requires
        m.wf(),
        m.state is Idle,
        m.queue.len() == 0,
    ensures
        advance_n(enqueue_all(m, items), items.len()).state is Idle,
        advance_n(enqueue_all(m, items), items.len()).current is None,
        advance_n(enqueue_all(m, items), items.len()).queue.len() == 0,
        announced_by_enqueues(m, items) + announced_by_advances(
            enqueue_all(m, items),
            items.len(),
        ) == Seq::new(items.len(), |i: int| (items[i], (m.token + 1 + i) as nat)),
{
    if items.len() > 0 {
        // The enqueues start the first item and queue the others; the
        // advances then drain that queue.
        let loaded = enqueue_all(m, items);
        law_enqueues_keep_order(m, items);
        lemma_one_announcement(m, items);
        assert(lineup(m) + items =~= items);
        assert(loaded.queue =~= items.drop_first());
        law_advances_drain_queue(loaded);
    }
}

/// Enqueueing into an idle, empty session announces the first item and no
/// other.
proof fn lemma_one_announcement(m: SessionModel, items: Seq<PlaylistItem>)
    requires
        m.wf(),
        m.state is Idle,
        m.queue.len() == 0,
        items.len() > 0,
    ensures
        announced_by_enqueues(m, items) == seq![(items[0], m.token + 1)],
    decreases items.len(),
{
    law_enqueues_keep_order(m, items.drop_last());
    law_enqueues_keep_order(m, items);
    if items.len() == 1 {
        assert(announced_by_enqueues(m, items.drop_last()) =~= Seq::empty());
    } else {
        lemma_one_announcement(m, items.drop_last());
    }
}

} // verus!
