use vstd::prelude::*;

use crate::channel::{new_oneshot, oneshot_deliver, try_next, unbounded_send, TryNext};
use crate::handle::{
    HandleAsync, HandleAsyncConcurrent, HandleSync, HandleSyncConcurrent,
};

verus! {

/// The closed set of message variants one handler understands, one variant
/// type per handling mode.
pub trait MessageVariantSet {
    type AsyncVariant;

    type SyncVariant;

    type AsyncConcurrentVariant;

    type SyncConcurrentVariant;
}

/// A message set together with the handler that serves it. The bounds tie
/// every variant type to the handler trait of its mode, so each variant has
/// exactly one invocation path and one reply type.
pub trait MessageSet: MessageVariantSet where
    Self::Handler: HandleAsync<Self::AsyncVariant>,
    Self::Handler: HandleSync<Self::SyncVariant>,
    Self::Handler: HandleAsyncConcurrent<Self::AsyncConcurrentVariant>,
    Self::Handler: HandleSyncConcurrent<Self::SyncConcurrentVariant>,
{
    type Handler;

    type Async;

    type Sync;

    type AsyncConcurrent;

    type SyncConcurrent;
}

/// A request tagged with its handling mode: the tag alone decides whether the
/// dispatch loop runs it inline with exclusive access or admits it into a
/// concurrent burst with shared access.
#[verifier::reject_recursive_types(MS)]
pub enum MessageSetItem<MS> where MS: MessageSet {
    Async(MS::AsyncVariant),
    Sync(MS::SyncVariant),
    AsyncConcurrent(MS::AsyncConcurrentVariant),
    SyncConcurrent(MS::SyncConcurrentVariant),
}

/// A reply tagged with the mode of the request it answers; the dispatch loop
/// only ever delivers a reply whose tag matches the request's tag.
#[verifier::reject_recursive_types(MS)]
pub enum MessageSetReplayItem<MS> where MS: MessageSet {
    Async(<MS::Handler as HandleAsync<MS::AsyncVariant>>::Replay),
    Sync(<MS::Handler as HandleSync<MS::SyncVariant>>::Replay),
    AsyncConcurrent(<MS::Handler as HandleAsyncConcurrent<MS::AsyncConcurrentVariant>>::Replay),
    SyncConcurrent(<MS::Handler as HandleSyncConcurrent<MS::SyncConcurrentVariant>>::Replay),
}

/// True of the two modes the loop serves inline with exclusive access.
pub open spec fn is_sequential<MS: MessageSet>(item: MessageSetItem<MS>) -> bool {
    item matches MessageSetItem::Sync(_) || item matches MessageSetItem::Async(_)
}

/// True of the two modes the loop admits into a concurrent burst.
pub open spec fn is_concurrent<MS: MessageSet>(item: MessageSetItem<MS>) -> bool {
    item matches MessageSetItem::SyncConcurrent(_)
        || item matches MessageSetItem::AsyncConcurrent(_)
}

/// True of a reply that answers a sequential request.
pub open spec fn is_sequential_replay<MS: MessageSet>(r: MessageSetReplayItem<MS>) -> bool {
    r matches MessageSetReplayItem::Sync(_) || r matches MessageSetReplayItem::Async(_)
}

/// The producer half of the channel: enqueues requests paired with fresh
/// reply slots. Any number of producers may hold clones of the inner sender.
#[verifier::reject_recursive_types(MS)]
pub struct MessageSetSender<MS> where MS: MessageSet {
    pub sender: tokio::sync::mpsc::UnboundedSender<(
        MessageSetItem<MS>,
        tokio::sync::oneshot::Sender<MessageSetReplayItem<MS>>,
    )>,
}

impl<MS> MessageSetSender<MS> where MS: MessageSet {
    /// Atomically enqueues the request paired with a single-use reply slot
    /// and returns the waiter for that slot; the waiter yields exactly the
    /// reply produced for this request and no other. When the consumer has
    /// been torn down nothing is enqueued and the request comes back
    /// unchanged, so a failed send is never silently dropped.
    pub fn send(&self, msg: MessageSetItem<MS>) -> (r: Result<
        tokio::sync::oneshot::Receiver<MessageSetReplayItem<MS>>,
        MessageSetItem<MS>,
    >)
        ensures
            r matches Err(m) ==> m == msg,
    {
        let (replay_sender, replay_receiver) = new_oneshot();
        match unbounded_send(&self.sender, (msg, replay_sender)) {
            Ok(()) => Ok(replay_receiver),
            Err((m, _abandoned_slot)) => Err(m),
        }
    }
}

/// Why the dispatch loop stopped making progress.
#[derive(Debug)]
pub enum MsgSetRecvError {
    /// Every producer is gone and the queue is drained: clean shutdown.
    Disconnected,
    /// A blocking-offloaded worker failed to complete its invocation: fatal
    /// to the current burst, and distinct from a plain disconnect.
    JoinError,
}

/// Where the dispatch loop stands between two steps.
#[derive(Clone, Copy, PartialEq, Eq, Structural, Debug)]
pub enum DispatchPhase {
    /// No burst is active and no invocation is in flight.
    Idle,
    /// One sequential-suspending invocation runs with exclusive access;
    /// nothing else runs until it reports back.
    Exclusive,
    /// A burst is active and still greedily draining further concurrent
    /// items from the queue.
    Admitting,
    /// A burst is active, admission is over, and the loop multiplexes the
    /// completions of the invocations still in flight.
    Running,
}

/// Which completion source a concurrent invocation reports through.
#[derive(Clone, Copy, PartialEq, Eq, Structural, Debug)]
pub enum InvocationFamily {
    /// Offloaded to a blocking-capable worker.
    Blocking,
    /// A cooperatively scheduled task.
    Cooperative,
}

/// One in-flight concurrent invocation of the current burst: the ticket that
/// identifies it, the completion source it reports through, and the reply
/// slot its result must be routed to.
#[verifier::reject_recursive_types(MS)]
pub struct PendingInvocation<MS> where MS: MessageSet {
    pub ticket: u64,
    pub family: InvocationFamily,
    pub slot: tokio::sync::oneshot::Sender<MessageSetReplayItem<MS>>,
}

/// The consumer half of the channel: the dispatch engine. It pulls items
/// off the queue, serves sequential ones with exclusive access, runs
/// concurrent ones as bursts of shared-access invocations, and routes every
/// reply back through the slot of the request that caused it.
///
/// Each step of the loop is a call on this type; the waiting itself (for a
/// queued item or for a completion) is left to the execution context that
/// drives it, so the engine never blocks.
#[verifier::reject_recursive_types(MS)]
pub struct MessageSetReceiver<MS> where MS: MessageSet {
    /// The raw arrival-ordered queue, shared with every producer.
    pub receiver: tokio::sync::mpsc::UnboundedReceiver<(
        MessageSetItem<MS>,
        tokio::sync::oneshot::Sender<MessageSetReplayItem<MS>>,
    )>,
    /// Head-of-line requeue buffer: holds the sequential item that ended a
    /// burst's admission, and is consulted before the raw queue.
    pub msg_queue: Vec<(
        MessageSetItem<MS>,
        tokio::sync::oneshot::Sender<MessageSetReplayItem<MS>>,
    )>,
    /// The concurrent invocations of the current burst still in flight.
    pub pending: Vec<PendingInvocation<MS>>,
    /// Source of tickets; strictly increasing, so no two requests ever share
    /// one.
    pub next_ticket: u64,
    /// Where the loop stands between two steps.
    pub phase: DispatchPhase,
    /// Ticket and reply slot of the sequential-suspending invocation in
    /// flight while the phase is `Exclusive`.
    pub exclusive: Option<(u64, tokio::sync::oneshot::Sender<MessageSetReplayItem<MS>>)>,
    /// Trace of fulfillment attempts: each reply routed out, with the ticket
    /// of the request it answers, in delivery order.
    pub delivered: Ghost<Seq<(u64, MessageSetReplayItem<MS>)>>,
}

impl<MS> MessageSetReceiver<MS> where MS: MessageSet {
    /// True when some in-flight invocation holds this ticket.
    pub open spec fn ticket_in_pending(&self, t: u64) -> bool {
        exists |i: int| 0 <= i < self.pending@.len() && (#[trigger] self.pending@[i]).ticket == t
    }

    /// True when a reply has already been routed out for this ticket.
    pub open spec fn ticket_delivered(&self, t: u64) -> bool {
        exists |i: int| 0 <= i < self.delivered@.len() && (#[trigger] self.delivered@[i]).0 == t
    }

    /// The engine's central invariant. In particular: the requeue buffer
    /// never holds more than the one sequential item captured by the current
    /// burst; tickets are unique, every reply still owed is undelivered; and
    /// exclusive and concurrent work never coexist — an exclusive invocation
    /// is only ever in flight while the pending set is empty, and a burst
    /// only ever runs while no exclusive slot is held.
    pub open spec fn wf(&self) -> bool {
        &&& self.msg_queue@.len() <= 1
        &&& forall |i: int| 0 <= i < self.pending@.len()
                ==> (#[trigger] self.pending@[i]).ticket < self.next_ticket
        &&& forall |i: int, j: int| 0 <= i < j < self.pending@.len()
                ==> (#[trigger] self.pending@[i]).ticket != (#[trigger] self.pending@[j]).ticket
        &&& forall |i: int| 0 <= i < self.delivered@.len()
                ==> (#[trigger] self.delivered@[i]).0 < self.next_ticket
        &&& forall |i: int, j: int| 0 <= i < j < self.delivered@.len()
                ==> (#[trigger] self.delivered@[i]).0 != (#[trigger] self.delivered@[j]).0
        &&& forall |i: int, j: int|
                0 <= i < self.pending@.len() && 0 <= j < self.delivered@.len()
                ==> (#[trigger] self.pending@[i]).ticket != (#[trigger] self.delivered@[j]).0
        &&& forall |i: int, j: int|
                0 <= i < j < self.delivered@.len()
                    && is_sequential_replay((#[trigger] self.delivered@[i]).1)
                    && is_sequential_replay((#[trigger] self.delivered@[j]).1)
                ==> self.delivered@[i].0 < self.delivered@[j].0
        &&& match self.exclusive {
            Some(e) => e.0 < self.next_ticket && forall |j: int|
                0 <= j < self.delivered@.len() ==> (#[trigger] self.delivered@[j]).0 < e.0,
            None => true,
        }
        &&& match self.phase {
            DispatchPhase::Idle => self.pending@.len() == 0 && self.exclusive is None,
            DispatchPhase::Exclusive => self.pending@.len() == 0 && self.exclusive is Some,
            DispatchPhase::Admitting => self.exclusive is None && self.msg_queue@.len() == 0,
            DispatchPhase::Running => self.exclusive is None && self.pending@.len() >= 1,
        }
    }

    /// A fresh engine for a connected queue: idle, with nothing buffered,
    /// nothing in flight and nothing delivered.
    pub(crate) fn new(
        receiver: tokio::sync::mpsc::UnboundedReceiver<(
            MessageSetItem<MS>,
            tokio::sync::oneshot::Sender<MessageSetReplayItem<MS>>,
        )>,
    ) -> (r: Self)
        ensures
            r.wf(),
            r.phase == DispatchPhase::Idle,
            r.msg_queue@.len() == 0,
            r.pending@.len() == 0,
            r.delivered@.len() == 0,
            r.exclusive is None,
            r.next_ticket == 0,
    {
        MessageSetReceiver {
            receiver,
            msg_queue: Vec::new(),
            pending: Vec::new(),
            next_ticket: 0,
            phase: DispatchPhase::Idle,
            exclusive: None,
            delivered: Ghost(Seq::empty()),
        }
    }

    /// One idle receive attempt, never waiting: the requeue buffer is
    /// consulted first — its item precedes everything still in the raw
    /// queue — and only when it is empty is the raw queue polled. `Empty`
    /// asks the caller to wait on the raw queue itself; `Closed` is the
    /// clean-shutdown signal.
    pub fn try_receive(&mut self) -> (r: ReceiveOutcome<MS>)
        requires
            old(self).wf(),
            old(self).phase == DispatchPhase::Idle,
        ensures
            final(self).wf(),
            final(self).phase == DispatchPhase::Idle,
            final(self).pending@ == old(self).pending@,
            final(self).delivered == old(self).delivered,
            final(self).next_ticket == old(self).next_ticket,
            final(self).exclusive == old(self).exclusive,
            old(self).msg_queue@.len() > 0 ==> {
                &&& r matches ReceiveOutcome::Item(m, s) && (m, s) == old(self).msg_queue@.last()
                &&& final(self).msg_queue@ == old(self).msg_queue@.drop_last()
            },
            old(self).msg_queue@.len() == 0 ==> final(self).msg_queue@ == old(self).msg_queue@,
            r matches ReceiveOutcome::Item(_, _) ==> final(self).msg_queue@.len() == 0,
    {
        if self.msg_queue.len() > 0 {
            let (m, s) = self.msg_queue.pop().unwrap();
            ReceiveOutcome::Item(m, s)
        } else {
            match try_next(&mut self.receiver) {
                TryNext::Item((m, s)) => ReceiveOutcome::Item(m, s),
                TryNext::Empty => ReceiveOutcome::Empty,
                TryNext::Closed => ReceiveOutcome::Closed,
            }
        }
    }

    /// One dispatch step for a received request. A sequential-blocking
    /// request is served on the spot: the handler runs with exclusive access
    /// (no invocation is pending, and the mutable borrow admits no sharing),
    /// and its reply — tagged with the request's own mode — is routed
    /// through the request's slot before the call returns. A
    /// sequential-suspending request parks its slot and hands the invocation
    /// to the caller, to be reported back through `async_done`. A concurrent
    /// request opens a burst: the pending set starts empty, and the seed
    /// comes back to be admitted like every later burst member.
    pub fn dispatch(
        &mut self,
        handler: &mut MS::Handler,
        item: MessageSetItem<MS>,
        slot: tokio::sync::oneshot::Sender<MessageSetReplayItem<MS>>,
    ) -> (r: DispatchOutcome<MS>)
        requires
            old(self).wf(),
            old(self).phase == DispatchPhase::Idle,
            old(self).msg_queue@.len() == 0,
            old(self).next_ticket < u64::MAX,
        ensures
            final(self).wf(),
            final(self).msg_queue@ == old(self).msg_queue@,
            // the classifier in one line: sequential modes are served under
            // exclusive access, concurrent modes open a burst from zero
            is_sequential(item) ==> final(self).phase == DispatchPhase::Idle
                || final(self).phase == DispatchPhase::Exclusive,
            is_concurrent(item) ==> final(self).phase == DispatchPhase::Admitting
                && final(self).pending@.len() == 0,
            item matches MessageSetItem::Sync(_) ==> {
                &&& r is Handled
                &&& final(self).phase == DispatchPhase::Idle
                &&& final(self).pending@ == old(self).pending@
                &&& final(self).delivered@.len() == old(self).delivered@.len() + 1
                &&& final(self).delivered@.drop_last() == old(self).delivered@
                &&& final(self).delivered@.last().0 == old(self).next_ticket
                &&& final(self).delivered@.last().1 matches MessageSetReplayItem::Sync(_)
                &&& final(self).next_ticket == old(self).next_ticket + 1
            },
            item matches MessageSetItem::Async(m) ==> {
                &&& r matches DispatchOutcome::AwaitAsync(m2) && m2 == m
                &&& final(self).phase == DispatchPhase::Exclusive
                &&& final(self).exclusive == Some((old(self).next_ticket, slot))
                &&& final(self).pending@ == old(self).pending@
                &&& final(self).delivered == old(self).delivered
                &&& final(self).next_ticket == old(self).next_ticket + 1
            },
            item matches MessageSetItem::SyncConcurrent(m) ==> {
                &&& r matches DispatchOutcome::BurstSyncSeed(m2, s2) && m2 == m && s2 == slot
                &&& final(self).phase == DispatchPhase::Admitting
                &&& final(self).pending@.len() == 0
                &&& final(self).delivered == old(self).delivered
                &&& final(self).next_ticket == old(self).next_ticket
            },
            item matches MessageSetItem::AsyncConcurrent(m) ==> {
                &&& r matches DispatchOutcome::BurstAsyncSeed(m2, s2) && m2 == m && s2 == slot
                &&& final(self).phase == DispatchPhase::Admitting
                &&& final(self).pending@.len() == 0
                &&& final(self).delivered == old(self).delivered
                &&& final(self).next_ticket == old(self).next_ticket
            },
    {
        match item {
            MessageSetItem::Sync(m) => {
                let replay = HandleSync::handle(handler, m);
                let t = self.next_ticket;
                self.next_ticket = t + 1;
                let wrapped = MessageSetReplayItem::Sync(replay);
                let ghost w = wrapped;
                self.delivered = Ghost(self.delivered@.push((t, w)));
                proof {
                    assert(self.delivered@.drop_last() =~= old(self).delivered@);
                }
                let _ = oneshot_deliver(slot, wrapped);
                DispatchOutcome::Handled
            }
            MessageSetItem::Async(m) => {
                let t = self.next_ticket;
                self.next_ticket = t + 1;
                self.exclusive = Some((t, slot));
                self.phase = DispatchPhase::Exclusive;
                DispatchOutcome::AwaitAsync(m)
            }
            MessageSetItem::SyncConcurrent(m) => {
                self.phase = DispatchPhase::Admitting;
                DispatchOutcome::BurstSyncSeed(m, slot)
            }
            MessageSetItem::AsyncConcurrent(m) => {
                self.phase = DispatchPhase::Admitting;
                DispatchOutcome::BurstAsyncSeed(m, slot)
            }
        }
    }

    /// Completes the sequential-suspending invocation in flight: its reply,
    /// tagged with its mode, is routed through the slot parked at dispatch
    /// time, and the loop returns to idle. Returns whether the waiter was
    /// still there to take the reply.
    pub fn async_done(
        &mut self,
        replay: <MS::Handler as HandleAsync<MS::AsyncVariant>>::Replay,
    ) -> (delivered: bool)
        requires
            old(self).wf(),
            old(self).phase == DispatchPhase::Exclusive,
        ensures
            final(self).wf(),
            final(self).phase == DispatchPhase::Idle,
            final(self).exclusive is None,
            final(self).pending@ == old(self).pending@,
            final(self).msg_queue@ == old(self).msg_queue@,
            final(self).next_ticket == old(self).next_ticket,
            old(self).exclusive matches Some(e)
                ==> final(self).delivered@ == old(self).delivered@.push(
                    (e.0, MessageSetReplayItem::Async(replay)),
                ),
    {
        let e = self.exclusive.take();
        match e {
            Some((t, slot)) => {
                self.phase = DispatchPhase::Idle;
                let wrapped = MessageSetReplayItem::Async(replay);
                let ghost w = wrapped;
                self.delivered = Ghost(self.delivered@.push((t, w)));
                oneshot_deliver(slot, wrapped)
            }
            None => {
                proof {
                    assert(false);
                }
                false
            }
        }
    }

    /// One step of a burst's admission drain: a non-blocking pop from the
    /// raw queue, never waiting. A further concurrent item is handed back to
    /// be admitted; a sequential item ends admission and goes to the requeue
    /// buffer, to be served ahead of the raw queue once the burst's
    /// in-flight work has drained; an empty queue ends admission normally;
    /// a disconnected queue aborts the burst, abandoning its in-flight
    /// replies. When admission ends with nothing in flight the burst is
    /// already over and the loop returns to idle.
    pub fn pull_next(&mut self) -> (r: PullOutcome<MS>)
        requires
            old(self).wf(),
            old(self).phase == DispatchPhase::Admitting,
        ensures
            final(self).wf(),
            final(self).delivered == old(self).delivered,
            final(self).next_ticket == old(self).next_ticket,
            match r {
                PullOutcome::SyncConcurrentItem(_, _) | PullOutcome::AsyncConcurrentItem(_, _) => {
                    &&& final(self).phase == DispatchPhase::Admitting
                    &&& final(self).pending@ == old(self).pending@
                    &&& final(self).msg_queue@ == old(self).msg_queue@
                },
                PullOutcome::SequentialCaptured => {
                    &&& final(self).msg_queue@.len() == old(self).msg_queue@.len() + 1
                    &&& final(self).msg_queue@.drop_last() == old(self).msg_queue@
                    &&& is_sequential(final(self).msg_queue@.last().0)
                    &&& final(self).pending@ == old(self).pending@
                    &&& final(self).phase == (if old(self).pending@.len() == 0 {
                        DispatchPhase::Idle
                    } else {
                        DispatchPhase::Running
                    })
                },
                PullOutcome::Drained => {
                    &&& final(self).msg_queue@ == old(self).msg_queue@
                    &&& final(self).pending@ == old(self).pending@
                    &&& final(self).phase == (if old(self).pending@.len() == 0 {
                        DispatchPhase::Idle
                    } else {
                        DispatchPhase::Running
                    })
                },
                PullOutcome::ChannelClosed => {
                    &&& final(self).phase == DispatchPhase::Idle
                    &&& final(self).pending@.len() == 0
                    &&& final(self).msg_queue@ == old(self).msg_queue@
                },
            },
    {
        match try_next(&mut self.receiver) {
            TryNext::Item((msg, slot)) => match msg {
                MessageSetItem::SyncConcurrent(m) => PullOutcome::SyncConcurrentItem(m, slot),
                MessageSetItem::AsyncConcurrent(m) => PullOutcome::AsyncConcurrentItem(m, slot),
                other => {
                    self.msg_queue.push((other, slot));
                    self.phase = if self.pending.len() == 0 {
                        DispatchPhase::Idle
                    } else {
                        DispatchPhase::Running
                    };
                    proof {
                        assert(self.msg_queue@.drop_last() =~= old(self).msg_queue@);
                    }
                    PullOutcome::SequentialCaptured
                }
            },
            TryNext::Empty => {
                self.phase = if self.pending.len() == 0 {
                    DispatchPhase::Idle
                } else {
                    DispatchPhase::Running
                };
                PullOutcome::Drained
            }
            TryNext::Closed => {
                self.pending = Vec::new();
                self.phase = DispatchPhase::Idle;
                PullOutcome::ChannelClosed
            }
        }
    }

    /// Admits one concurrent-blocking request into the current burst,
    /// choosing between its two paths by the verdict the handler's blocking
    /// predicate gave for this message. A non-blocking invocation runs
    /// inline on the spot — it never occupies a worker, and its reply is
    /// routed before the call returns. A blocking one is handed back to be
    /// offloaded to a worker, identified from then on by its ticket.
    pub fn admit_sync_concurrent(
        &mut self,
        handler: &MS::Handler,
        msg: MS::SyncConcurrentVariant,
        slot: tokio::sync::oneshot::Sender<MessageSetReplayItem<MS>>,
        blocking: bool,
    ) -> (r: SyncAdmission<MS>)
        requires
            old(self).wf(),
            old(self).phase == DispatchPhase::Admitting,
            old(self).next_ticket < u64::MAX,
        ensures
            final(self).wf(),
            final(self).phase == DispatchPhase::Admitting,
            final(self).msg_queue@ == old(self).msg_queue@,
            final(self).next_ticket == old(self).next_ticket + 1,
            !blocking ==> {
                &&& r is Inline
                &&& final(self).pending@ == old(self).pending@
                &&& final(self).delivered@.len() == old(self).delivered@.len() + 1
                &&& final(self).delivered@.drop_last() == old(self).delivered@
                &&& final(self).delivered@.last().0 == old(self).next_ticket
                &&& final(self).delivered@.last().1 matches MessageSetReplayItem::SyncConcurrent(_)
            },
            blocking ==> {
                &&& r matches SyncAdmission::Offload(m2, t) && m2 == msg && t == old(
                    self,
                ).next_ticket
                &&& final(self).delivered == old(self).delivered
                &&& final(self).pending@.len() == old(self).pending@.len() + 1
                &&& final(self).pending@.drop_last() == old(self).pending@
                &&& final(self).pending@.last() == (PendingInvocation {
                    ticket: old(self).next_ticket,
                    family: InvocationFamily::Blocking,
                    slot: slot,
                })
            },
    {
        let t = self.next_ticket;
        self.next_ticket = t + 1;
        if !blocking {
            let replay = HandleSyncConcurrent::handle(handler, msg);
            let wrapped = MessageSetReplayItem::SyncConcurrent(replay);
            let ghost w = wrapped;
            self.delivered = Ghost(self.delivered@.push((t, w)));
            proof {
                assert(self.delivered@.drop_last() =~= old(self).delivered@);
            }
            let _ = oneshot_deliver(slot, wrapped);
            SyncAdmission::Inline
        } else {
            self.pending.push(PendingInvocation {
                ticket: t,
                family: InvocationFamily::Blocking,
                slot,
            });
            proof {
                assert(self.pending@.drop_last() =~= old(self).pending@);
            }
            SyncAdmission::Offload(msg, t)
        }
    }

    /// Admits one concurrent-suspending request into the current burst: its
    /// slot is parked against a fresh ticket, and the caller starts the
    /// cooperative task whose result comes back through
    /// `on_cooperative_completion` under that ticket.
    pub fn admit_async_concurrent(
        &mut self,
        slot: tokio::sync::oneshot::Sender<MessageSetReplayItem<MS>>,
    ) -> (ticket: u64)
        requires
            old(self).wf(),
            old(self).phase == DispatchPhase::Admitting,
            old(self).next_ticket < u64::MAX,
        ensures
            final(self).wf(),
            final(self).phase == DispatchPhase::Admitting,
            final(self).msg_queue@ == old(self).msg_queue@,
            final(self).delivered == old(self).delivered,
            final(self).next_ticket == old(self).next_ticket + 1,
            ticket == old(self).next_ticket,
            final(self).pending@.len() == old(self).pending@.len() + 1,
            final(self).pending@.drop_last() == old(self).pending@,
            final(self).pending@.last() == (PendingInvocation {
                ticket: ticket,
                family: InvocationFamily::Cooperative,
                slot: slot,
            }),
    {
        let t = self.next_ticket;
        self.next_ticket = t + 1;
        self.pending.push(PendingInvocation {
            ticket: t,
            family: InvocationFamily::Cooperative,
            slot,
        });
        proof {
            assert(self.pending@.drop_last() =~= old(self).pending@);
        }
        t
    }

    /// Finds the in-flight invocation holding this ticket.
    fn find_pending(&self, ticket: u64) -> (i: usize)
        requires
            self.ticket_in_pending(ticket),
        ensures
            i < self.pending@.len(),
            self.pending@[i as int].ticket == ticket,
    {
        let mut i: usize = 0;
        while i < self.pending.len()
            invariant
                i <= self.pending@.len(),
                self.ticket_in_pending(ticket),
                forall |k: int| 0 <= k < i ==> (#[trigger] self.pending@[k]).ticket != ticket,
            decreases self.pending@.len() - i,
        {
            if self.pending[i].ticket == ticket {
                return i;
            }
            i = i + 1;
        }
        proof {
            let w = choose |w: int| 0 <= w < self.pending@.len()
                && (#[trigger] self.pending@[w]).ticket == ticket;
            assert(self.pending@[w].ticket != ticket);
        }
        0
    }

    /// Retires the in-flight invocation holding this ticket: removes exactly
    /// it from the pending set, records its reply in the delivery trace, and
    /// ends the burst when it was the last one. Hands back its slot with the
    /// reply, for the routing step.
    fn settle(&mut self, ticket: u64, wrapped: MessageSetReplayItem<MS>) -> (r: (
        tokio::sync::oneshot::Sender<MessageSetReplayItem<MS>>,
        MessageSetReplayItem<MS>,
    ))
        requires
            old(self).wf(),
            old(self).phase == DispatchPhase::Running,
            old(self).ticket_in_pending(ticket),
            !is_sequential_replay(wrapped),
        ensures
            final(self).wf(),
            r.1 == wrapped,
            final(self).msg_queue@ == old(self).msg_queue@,
            final(self).next_ticket == old(self).next_ticket,
            exists |i: int| {
                &&& 0 <= i < old(self).pending@.len()
                &&& (#[trigger] old(self).pending@[i]).ticket == ticket
                &&& r.0 == old(self).pending@[i].slot
                &&& final(self).pending@ == old(self).pending@.remove(i)
            },
            !final(self).ticket_in_pending(ticket),
            final(self).delivered@ == old(self).delivered@.push((ticket, wrapped)),
            final(self).phase == (if old(self).pending@.len() == 1 {
                DispatchPhase::Idle
            } else {
                DispatchPhase::Running
            }),
    {
        let i = self.find_pending(ticket);
        let entry = self.pending.remove(i);
        let ghost w = wrapped;
        self.delivered = Ghost(self.delivered@.push((ticket, w)));
        self.phase = if self.pending.len() == 0 {
            DispatchPhase::Idle
        } else {
            DispatchPhase::Running
        };
        proof {
            let s0 = old(self).pending@;
            let s1 = self.pending@;
            assert forall |k: int| 0 <= k < s1.len() implies (#[trigger] s1[k]).ticket != ticket by {
                if k < i {
                    assert(s1[k] == s0[k]);
                    assert(s0[k].ticket != s0[i as int].ticket);
                } else {
                    assert(s1[k] == s0[k + 1]);
                    assert(s0[i as int].ticket != s0[k + 1].ticket);
                }
            }
            assert forall |k: int, l: int| 0 <= k < l < s1.len() implies
                (#[trigger] s1[k]).ticket != (#[trigger] s1[l]).ticket by {
                let k0: int = if k < i { k } else { k + 1 };
                let l0: int = if l < i { l } else { l + 1 };
                assert(s1[k] == s0[k0]);
                assert(s1[l] == s0[l0]);
            }
            assert forall |k: int| 0 <= k < s1.len() implies
                (#[trigger] s1[k]).ticket < self.next_ticket by {
                let k0: int = if k < i { k } else { k + 1 };
                assert(s1[k] == s0[k0]);
            }
            assert forall |k: int, l: int|
                0 <= k < s1.len() && 0 <= l < self.delivered@.len() implies
                (#[trigger] s1[k]).ticket != (#[trigger] self.delivered@[l]).0 by {
                let k0: int = if k < i { k } else { k + 1 };
                assert(s1[k] == s0[k0]);
                if l < self.delivered@.len() - 1 {
                    assert(self.delivered@[l] == old(self).delivered@[l]);
                }
            }
            assert forall |k: int, l: int| 0 <= k < l < self.delivered@.len() implies
                (#[trigger] self.delivered@[k]).0 != (#[trigger] self.delivered@[l]).0 by {
                if l < self.delivered@.len() - 1 {
                    assert(self.delivered@[k] == old(self).delivered@[k]);
                    assert(self.delivered@[l] == old(self).delivered@[l]);
                } else {
                    assert(self.delivered@[k] == old(self).delivered@[k]);
                    assert(self.delivered@[l].0 == ticket);
                    assert(s0[i as int].ticket == ticket);
                }
            }
            assert forall |k: int, l: int|
                0 <= k < l < self.delivered@.len()
                    && is_sequential_replay((#[trigger] self.delivered@[k]).1)
                    && is_sequential_replay((#[trigger] self.delivered@[l]).1)
                implies self.delivered@[k].0 < self.delivered@[l].0 by {
                assert(self.delivered@[k] == old(self).delivered@[k]);
                if l < self.delivered@.len() - 1 {
                    assert(self.delivered@[l] == old(self).delivered@[l]);
                } else {
                    assert(self.delivered@[l].1 == wrapped);
                }
            }
        }
        (entry.slot, wrapped)
    }

    /// Completes one blocking-offloaded invocation of the current burst: its
    /// reply, tagged with its mode, is routed through its own slot the
    /// moment it is ready, independent of the concurrent work still in
    /// flight, and the burst ends exactly when nothing is left pending.
    /// Returns whether the waiter was still there to take the reply.
    pub fn on_blocking_completion(
        &mut self,
        ticket: u64,
        replay: <MS::Handler as HandleSyncConcurrent<MS::SyncConcurrentVariant>>::Replay,
    ) -> (delivered: bool)
        requires
            old(self).wf(),
            old(self).phase == DispatchPhase::Running,
            old(self).ticket_in_pending(ticket),
        ensures
            final(self).wf(),
            final(self).msg_queue@ == old(self).msg_queue@,
            final(self).next_ticket == old(self).next_ticket,
            exists |i: int| {
                &&& 0 <= i < old(self).pending@.len()
                &&& (#[trigger] old(self).pending@[i]).ticket == ticket
                &&& final(self).pending@ == old(self).pending@.remove(i)
            },
            !final(self).ticket_in_pending(ticket),
            final(self).delivered@ == old(self).delivered@.push(
                (ticket, MessageSetReplayItem::SyncConcurrent(replay)),
            ),
            final(self).phase == (if old(self).pending@.len() == 1 {
                DispatchPhase::Idle
            } else {
                DispatchPhase::Running
            }),
    {
        let (slot, wrapped) = self.settle(ticket, MessageSetReplayItem::SyncConcurrent(replay));
        oneshot_deliver(slot, wrapped)
    }

    /// Completes one cooperative invocation of the current burst, the
    /// counterpart of `on_blocking_completion` for the suspending family.
    pub fn on_cooperative_completion(
        &mut self,
        ticket: u64,
        replay: <MS::Handler as HandleAsyncConcurrent<MS::AsyncConcurrentVariant>>::Replay,
    ) -> (delivered: bool)
        requires
            old(self).wf(),
            old(self).phase == DispatchPhase::Running,
            old(self).ticket_in_pending(ticket),
        ensures
            final(self).wf(),
            final(self).msg_queue@ == old(self).msg_queue@,
            final(self).next_ticket == old(self).next_ticket,
            exists |i: int| {
                &&& 0 <= i < old(self).pending@.len()
                &&& (#[trigger] old(self).pending@[i]).ticket == ticket
                &&& final(self).pending@ == old(self).pending@.remove(i)
            },
            !final(self).ticket_in_pending(ticket),
            final(self).delivered@ == old(self).delivered@.push(
                (ticket, MessageSetReplayItem::AsyncConcurrent(replay)),
            ),
            final(self).phase == (if old(self).pending@.len() == 1 {
                DispatchPhase::Idle
            } else {
                DispatchPhase::Running
            }),
    {
        let (slot, wrapped) = self.settle(ticket, MessageSetReplayItem::AsyncConcurrent(replay));
        oneshot_deliver(slot, wrapped)
    }

    /// Aborts the current burst after a worker failed to complete its
    /// invocation. The replies still owed by this burst are abandoned — their
    /// waiters fail explicitly rather than hang — and the error is distinct
    /// from a plain disconnect, so the loop's caller can tell infrastructure
    /// failure from normal shutdown.
    pub fn on_worker_failure(&mut self) -> (e: MsgSetRecvError)
        requires
            old(self).wf(),
            old(self).phase == DispatchPhase::Running,
        ensures
            final(self).wf(),
            final(self).phase == DispatchPhase::Idle,
            final(self).pending@.len() == 0,
            final(self).msg_queue@ == old(self).msg_queue@,
            final(self).delivered == old(self).delivered,
            final(self).next_ticket == old(self).next_ticket,
            e == MsgSetRecvError::JoinError,
    {
        self.pending = Vec::new();
        self.phase = DispatchPhase::Idle;
        MsgSetRecvError::JoinError
    }
}

/// What one dispatch step asks of its caller.
#[verifier::reject_recursive_types(MS)]
pub enum DispatchOutcome<MS> where MS: MessageSet {
    /// A sequential-blocking request was handled and its reply routed;
    /// nothing is left to do for it.
    Handled,
    /// Run the handler on this sequential-suspending message — cooperatively,
    /// waiting for nothing else meanwhile — and report the result through
    /// `async_done`.
    AwaitAsync(MS::AsyncVariant),
    /// A burst was opened by this concurrent-blocking seed: evaluate the
    /// handler's blocking predicate on it and hand it to
    /// `admit_sync_concurrent`.
    BurstSyncSeed(
        MS::SyncConcurrentVariant,
        tokio::sync::oneshot::Sender<MessageSetReplayItem<MS>>,
    ),
    /// A burst was opened by this concurrent-suspending seed: register it
    /// with `admit_async_concurrent` and start its cooperative task.
    BurstAsyncSeed(
        MS::AsyncConcurrentVariant,
        tokio::sync::oneshot::Sender<MessageSetReplayItem<MS>>,
    ),
}

/// What one admission-drain step produced.
#[verifier::reject_recursive_types(MS)]
pub enum PullOutcome<MS> where MS: MessageSet {
    /// A further concurrent-blocking item: admit it with
    /// `admit_sync_concurrent` and keep draining.
    SyncConcurrentItem(
        MS::SyncConcurrentVariant,
        tokio::sync::oneshot::Sender<MessageSetReplayItem<MS>>,
    ),
    /// A further concurrent-suspending item: admit it with
    /// `admit_async_concurrent` and keep draining.
    AsyncConcurrentItem(
        MS::AsyncConcurrentVariant,
        tokio::sync::oneshot::Sender<MessageSetReplayItem<MS>>,
    ),
    /// A sequential item ended admission; it waits at head-of-line priority
    /// in the requeue buffer.
    SequentialCaptured,
    /// The queue is momentarily empty; admission ended normally.
    Drained,
    /// The queue disconnected mid-drain; the burst was aborted.
    ChannelClosed,
}

/// How a concurrent-blocking request was admitted.
#[verifier::reject_recursive_types(MS)]
pub enum SyncAdmission<MS> where MS: MessageSet {
    /// The blocking predicate said no: the invocation ran inline and its
    /// reply is already routed; no worker was involved.
    Inline,
    /// The blocking predicate said yes: run the handler on a
    /// blocking-capable worker and report the result through
    /// `on_blocking_completion` under this ticket.
    Offload(MS::SyncConcurrentVariant, u64),
}

/// What one idle receive attempt produced.
#[verifier::reject_recursive_types(MS)]
pub enum ReceiveOutcome<MS> where MS: MessageSet {
    /// The next request to serve, with its reply slot.
    Item(
        MessageSetItem<MS>,
        tokio::sync::oneshot::Sender<MessageSetReplayItem<MS>>,
    ),
    /// Nothing to do right now; wait on the raw queue before trying again.
    Empty,
    /// Clean shutdown: no producers are left and everything has been served.
    Closed,
}

} // verus!
