use vstd::prelude::*;

use crate::message_set::{is_sequential_replay, DispatchPhase, MessageSet, MessageSetReceiver};

verus! {

/// Exclusive and shared handler access never coexist. Whenever the engine is
/// inside an exclusive invocation — a sequential-blocking one runs entirely
/// within `dispatch`, a sequential-suspending one spans the `Exclusive`
/// phase — no concurrent invocation is in flight; and whenever a burst is
/// admitting or running concurrent work, no exclusive slot is held. Together
/// with the phase preconditions of the stepping functions this rules out two
/// exclusive invocations overlapping as well: a second one can only start
/// from `Idle`, after the first has reported back. Concurrent invocations of
/// one burst are free to overlap each other.
pub proof fn lemma_exclusive_excludes_concurrent<MS: MessageSet>(r: &MessageSetReceiver<MS>)
    requires
        r.wf(),
    ensures
        r.phase == DispatchPhase::Exclusive ==> r.pending@.len() == 0,
        r.phase == DispatchPhase::Admitting || r.phase == DispatchPhase::Running
            ==> r.exclusive is None,
        r.phase == DispatchPhase::Idle ==> r.pending@.len() == 0 && r.exclusive is None,
{
}

/// No request is ever answered twice, and no reply still owed has already
/// been routed: the delivery trace never holds two replies for one ticket,
/// every in-flight concurrent invocation's ticket is absent from the trace,
/// and so is the ticket of an exclusive invocation still in flight. Each
/// completion step removes exactly the one invocation it answers, so every
/// admitted request is answered at most once — and is answered, unless its
/// burst is torn down by a disconnect or a worker failure first.
pub proof fn lemma_reply_delivered_at_most_once<MS: MessageSet>(r: &MessageSetReceiver<MS>)
    requires
        r.wf(),
    ensures
        forall |i: int, j: int| 0 <= i < j < r.delivered@.len()
            ==> (#[trigger] r.delivered@[i]).0 != (#[trigger] r.delivered@[j]).0,
        forall |i: int, j: int| 0 <= i < r.pending@.len() && 0 <= j < r.delivered@.len()
            ==> (#[trigger] r.pending@[i]).ticket != (#[trigger] r.delivered@[j]).0,
        r.exclusive matches Some(e) ==> !r.ticket_delivered(e.0),
{
}

/// Sequential work is never reordered. Tickets are handed out in dispatch
/// order, and replies to sequential requests appear in the delivery trace in
/// strictly increasing ticket order: a sequential reply routed earlier
/// always answers a sequentially-dispatched request that entered the engine
/// earlier. Concurrent replies of one burst carry no such promise — they
/// land in whichever order their invocations complete.
pub proof fn lemma_sequential_replies_in_dispatch_order<MS: MessageSet>(
    r: &MessageSetReceiver<MS>,
)
    requires
        r.wf(),
    ensures
        forall |i: int, j: int|
            0 <= i < j < r.delivered@.len()
                && is_sequential_replay((#[trigger] r.delivered@[i]).1)
                && is_sequential_replay((#[trigger] r.delivered@[j]).1)
            ==> r.delivered@[i].0 < r.delivered@[j].0,
{
}

/// A burst never inherits work: whenever the engine stands idle — which is
/// the only phase a new burst can be opened from — nothing is in flight, so
/// every burst starts from an empty pending set, and a sequential item
/// captured in the requeue buffer is only ever served after the burst that
/// captured it has fully drained.
pub proof fn lemma_burst_starts_clean<MS: MessageSet>(r: &MessageSetReceiver<MS>)
    requires
        r.wf(),
        r.phase == DispatchPhase::Idle,
    ensures
        r.pending@.len() == 0,
        r.exclusive is None,
{
}

} // verus!
