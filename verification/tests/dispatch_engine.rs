use msg_channel::handle::{
    HandleAsync, HandleAsyncConcurrent, HandleSync, HandleSyncConcurrent,
};
use msg_channel::message_set::{
    DispatchOutcome, MessageSet, MessageSetItem, MessageSetReplayItem, MessageVariantSet,
    MsgSetRecvError, PullOutcome, ReceiveOutcome, SyncAdmission,
};
use msg_channel::msg_channel;

struct CalcSet;

struct Calc {
    total: u64,
}

/// Sequential-suspending: add to the running total.
struct AddSuspending(u64);

/// Sequential-blocking: add to the running total.
struct AddBlocking(u64);

/// Concurrent-suspending: double, read-only against the handler.
struct DoubleConcurrent(u64);

/// Concurrent-blocking: offset, read-only; `heavy` drives the blocking
/// predicate.
struct OffsetConcurrent {
    value: u64,
    heavy: bool,
}

impl MessageVariantSet for CalcSet {
    type AsyncVariant = AddSuspending;
    type SyncVariant = AddBlocking;
    type AsyncConcurrentVariant = DoubleConcurrent;
    type SyncConcurrentVariant = OffsetConcurrent;
}

impl MessageSet for CalcSet {
    type Handler = Calc;
    type Async = ();
    type Sync = ();
    type AsyncConcurrent = ();
    type SyncConcurrent = ();
}

impl HandleSync<AddBlocking> for Calc {
    type Replay = u64;

    fn handle(&mut self, msg: AddBlocking) -> u64 {
        self.total += msg.0;
        self.total
    }
}

impl HandleAsync<AddSuspending> for Calc {
    type Replay = u64;

    fn handle(&mut self, msg: AddSuspending) -> u64 {
        self.total += msg.0;
        self.total
    }
}

impl HandleAsyncConcurrent<DoubleConcurrent> for Calc {
    type Replay = u64;

    fn handle(&self, msg: DoubleConcurrent) -> u64 {
        msg.0 * 2
    }
}

impl HandleSyncConcurrent<OffsetConcurrent> for Calc {
    type Replay = u64;

    fn is_blocking(&self, msg: &OffsetConcurrent) -> bool {
        msg.heavy
    }

    fn handle(&self, msg: OffsetConcurrent) -> u64 {
        msg.value + self.total
    }
}

type Reply = MessageSetReplayItem<CalcSet>;
type Waiter = tokio::sync::oneshot::Receiver<Reply>;

fn reply_sync(rx: &mut Waiter) -> u64 {
    match rx.try_recv().expect("reply should be ready") {
        MessageSetReplayItem::Sync(v) => v,
        _ => panic!("reply tag does not match the request's mode"),
    }
}

fn reply_async(rx: &mut Waiter) -> u64 {
    match rx.try_recv().expect("reply should be ready") {
        MessageSetReplayItem::Async(v) => v,
        _ => panic!("reply tag does not match the request's mode"),
    }
}

fn reply_sync_concurrent(rx: &mut Waiter) -> u64 {
    match rx.try_recv().expect("reply should be ready") {
        MessageSetReplayItem::SyncConcurrent(v) => v,
        _ => panic!("reply tag does not match the request's mode"),
    }
}

fn reply_async_concurrent(rx: &mut Waiter) -> u64 {
    match rx.try_recv().expect("reply should be ready") {
        MessageSetReplayItem::AsyncConcurrent(v) => v,
        _ => panic!("reply tag does not match the request's mode"),
    }
}

#[test]
fn two_sequential_replies_in_send_order() {
    let (tx, mut rx) = msg_channel::<CalcSet>();
    let mut calc = Calc { total: 0 };

    let mut wait_a = tx
        .send(MessageSetItem::Sync(AddBlocking(1)))
        .unwrap_or_else(|_| panic!("send should succeed"));
    let mut wait_b = tx
        .send(MessageSetItem::Sync(AddBlocking(2)))
        .unwrap_or_else(|_| panic!("send should succeed"));

    let (item, slot) = match rx.try_receive() {
        ReceiveOutcome::Item(item, slot) => (item, slot),
        _ => panic!("first item expected"),
    };
    assert!(matches!(
        rx.dispatch(&mut calc, item, slot),
        DispatchOutcome::Handled
    ));
    // the first reply is out before the second request is even looked at
    assert_eq!(reply_sync(&mut wait_a), 1);
    assert!(wait_b.try_recv().is_err());

    let (item, slot) = match rx.try_receive() {
        ReceiveOutcome::Item(item, slot) => (item, slot),
        _ => panic!("second item expected"),
    };
    assert!(matches!(
        rx.dispatch(&mut calc, item, slot),
        DispatchOutcome::Handled
    ));
    assert_eq!(reply_sync(&mut wait_b), 3);
}

#[test]
fn sequential_suspending_runs_alone() {
    let (tx, mut rx) = msg_channel::<CalcSet>();
    let mut calc = Calc { total: 10 };

    let mut waiter = tx
        .send(MessageSetItem::Async(AddSuspending(5)))
        .unwrap_or_else(|_| panic!("send should succeed"));

    let (item, slot) = match rx.try_receive() {
        ReceiveOutcome::Item(item, slot) => (item, slot),
        _ => panic!("item expected"),
    };
    let msg = match rx.dispatch(&mut calc, item, slot) {
        DispatchOutcome::AwaitAsync(msg) => msg,
        _ => panic!("suspending invocation expected"),
    };
    // the loop waits for this invocation: no reply before it reports back
    assert!(waiter.try_recv().is_err());
    let replay = HandleAsync::handle(&mut calc, msg);
    assert!(rx.async_done(replay));
    assert_eq!(reply_async(&mut waiter), 15);
}

#[test]
fn burst_replies_in_completion_order() {
    // three concurrent sends whose artificial delays finish in the order
    // second, third, first: replies come out in completion order, not send
    // order
    let (tx, mut rx) = msg_channel::<CalcSet>();
    let mut calc = Calc { total: 0 };

    let mut wait_1 = tx
        .send(MessageSetItem::AsyncConcurrent(DoubleConcurrent(300)))
        .unwrap_or_else(|_| panic!("send should succeed"));
    let mut wait_2 = tx
        .send(MessageSetItem::AsyncConcurrent(DoubleConcurrent(100)))
        .unwrap_or_else(|_| panic!("send should succeed"));
    let mut wait_3 = tx
        .send(MessageSetItem::AsyncConcurrent(DoubleConcurrent(200)))
        .unwrap_or_else(|_| panic!("send should succeed"));

    let (item, slot) = match rx.try_receive() {
        ReceiveOutcome::Item(item, slot) => (item, slot),
        _ => panic!("seed expected"),
    };
    let (msg_1, slot_1) = match rx.dispatch(&mut calc, item, slot) {
        DispatchOutcome::BurstAsyncSeed(msg, slot) => (msg, slot),
        _ => panic!("burst seed expected"),
    };
    let t1 = rx.admit_async_concurrent(slot_1);
    let (msg_2, t2) = match rx.pull_next() {
        PullOutcome::AsyncConcurrentItem(msg, slot) => {
            let t = rx.admit_async_concurrent(slot);
            (msg, t)
        }
        _ => panic!("second burst member expected"),
    };
    let (msg_3, t3) = match rx.pull_next() {
        PullOutcome::AsyncConcurrentItem(msg, slot) => {
            let t = rx.admit_async_concurrent(slot);
            (msg, t)
        }
        _ => panic!("third burst member expected"),
    };
    assert!(matches!(rx.pull_next(), PullOutcome::Drained));

    // completions arrive in delay order: 100 first, then 200, then 300
    assert!(rx.on_cooperative_completion(t2, HandleAsyncConcurrent::handle(&calc, msg_2)));
    assert_eq!(reply_async_concurrent(&mut wait_2), 200);
    assert!(wait_1.try_recv().is_err());
    assert!(wait_3.try_recv().is_err());

    assert!(rx.on_cooperative_completion(t3, HandleAsyncConcurrent::handle(&calc, msg_3)));
    assert_eq!(reply_async_concurrent(&mut wait_3), 400);
    assert!(wait_1.try_recv().is_err());

    assert!(rx.on_cooperative_completion(t1, HandleAsyncConcurrent::handle(&calc, msg_1)));
    assert_eq!(reply_async_concurrent(&mut wait_1), 600);
}

#[test]
fn sequential_item_waits_for_burst_then_goes_first() {
    let (tx, mut rx) = msg_channel::<CalcSet>();
    let mut calc = Calc { total: 0 };

    let _burst_waiter = {
        let mut waiters = Vec::new();
        waiters.push(
            tx.send(MessageSetItem::AsyncConcurrent(DoubleConcurrent(7)))
                .unwrap_or_else(|_| panic!("send should succeed")),
        );
        waiters
    };

    // open the burst on the concurrent seed
    let (item, slot) = match rx.try_receive() {
        ReceiveOutcome::Item(item, slot) => (item, slot),
        _ => panic!("seed expected"),
    };
    let (seed_msg, seed_slot) = match rx.dispatch(&mut calc, item, slot) {
        DispatchOutcome::BurstAsyncSeed(msg, slot) => (msg, slot),
        _ => panic!("burst seed expected"),
    };
    let seed_ticket = rx.admit_async_concurrent(seed_slot);

    // a sequential request lands during the admission window...
    let mut wait_mid = tx
        .send(MessageSetItem::Sync(AddBlocking(10)))
        .unwrap_or_else(|_| panic!("send should succeed"));
    // ...and another request after it
    let mut wait_late = tx
        .send(MessageSetItem::Sync(AddBlocking(20)))
        .unwrap_or_else(|_| panic!("send should succeed"));

    // the drain captures the sequential item and ends admission
    assert!(matches!(rx.pull_next(), PullOutcome::SequentialCaptured));

    // the captured item is not served while the burst is still in flight;
    // once the burst drains, it goes first, ahead of the later request
    assert!(rx.on_cooperative_completion(
        seed_ticket,
        HandleAsyncConcurrent::handle(&calc, seed_msg),
    ));

    let (item, slot) = match rx.try_receive() {
        ReceiveOutcome::Item(item, slot) => (item, slot),
        _ => panic!("captured item expected"),
    };
    assert!(matches!(
        rx.dispatch(&mut calc, item, slot),
        DispatchOutcome::Handled
    ));
    assert_eq!(reply_sync(&mut wait_mid), 10);
    assert!(wait_late.try_recv().is_err());

    let (item, slot) = match rx.try_receive() {
        ReceiveOutcome::Item(item, slot) => (item, slot),
        _ => panic!("later item expected"),
    };
    assert!(matches!(
        rx.dispatch(&mut calc, item, slot),
        DispatchOutcome::Handled
    ));
    assert_eq!(reply_sync(&mut wait_late), 30);
}

#[test]
fn non_blocking_concurrent_completes_inline() {
    let (tx, mut rx) = msg_channel::<CalcSet>();
    let mut calc = Calc { total: 1000 };

    let mut waiter = tx
        .send(MessageSetItem::SyncConcurrent(OffsetConcurrent {
            value: 5,
            heavy: false,
        }))
        .unwrap_or_else(|_| panic!("send should succeed"));

    let (item, slot) = match rx.try_receive() {
        ReceiveOutcome::Item(item, slot) => (item, slot),
        _ => panic!("seed expected"),
    };
    let (msg, slot) = match rx.dispatch(&mut calc, item, slot) {
        DispatchOutcome::BurstSyncSeed(msg, slot) => (msg, slot),
        _ => panic!("burst seed expected"),
    };
    let blocking = HandleSyncConcurrent::is_blocking(&calc, &msg);
    assert!(!blocking);
    // the predicate said no: no worker is involved and the reply is
    // available the moment admission returns
    assert!(matches!(
        rx.admit_sync_concurrent(&calc, msg, slot, blocking),
        SyncAdmission::Inline
    ));
    assert_eq!(reply_sync_concurrent(&mut waiter), 1005);
    assert!(matches!(rx.pull_next(), PullOutcome::Drained));
}

#[test]
fn blocking_concurrent_goes_to_worker() {
    let (tx, mut rx) = msg_channel::<CalcSet>();
    let mut calc = Calc { total: 1000 };

    let mut waiter = tx
        .send(MessageSetItem::SyncConcurrent(OffsetConcurrent {
            value: 5,
            heavy: true,
        }))
        .unwrap_or_else(|_| panic!("send should succeed"));

    let (item, slot) = match rx.try_receive() {
        ReceiveOutcome::Item(item, slot) => (item, slot),
        _ => panic!("seed expected"),
    };
    let (msg, slot) = match rx.dispatch(&mut calc, item, slot) {
        DispatchOutcome::BurstSyncSeed(msg, slot) => (msg, slot),
        _ => panic!("burst seed expected"),
    };
    let blocking = HandleSyncConcurrent::is_blocking(&calc, &msg);
    assert!(blocking);
    let (msg, ticket) = match rx.admit_sync_concurrent(&calc, msg, slot, blocking) {
        SyncAdmission::Offload(msg, ticket) => (msg, ticket),
        _ => panic!("offload expected"),
    };
    // the worker has not reported back yet: no reply
    assert!(waiter.try_recv().is_err());
    assert!(matches!(rx.pull_next(), PullOutcome::Drained));

    // the worker reports; the reply is routed at once
    let replay = HandleSyncConcurrent::handle(&calc, msg);
    assert!(rx.on_blocking_completion(ticket, replay));
    assert_eq!(reply_sync_concurrent(&mut waiter), 1005);
}

#[test]
fn mixed_families_complete_in_any_order() {
    let (tx, mut rx) = msg_channel::<CalcSet>();
    let mut calc = Calc { total: 0 };

    let mut wait_worker = tx
        .send(MessageSetItem::SyncConcurrent(OffsetConcurrent {
            value: 1,
            heavy: true,
        }))
        .unwrap_or_else(|_| panic!("send should succeed"));
    let mut wait_task = tx
        .send(MessageSetItem::AsyncConcurrent(DoubleConcurrent(4)))
        .unwrap_or_else(|_| panic!("send should succeed"));
    let mut wait_inline = tx
        .send(MessageSetItem::SyncConcurrent(OffsetConcurrent {
            value: 2,
            heavy: false,
        }))
        .unwrap_or_else(|_| panic!("send should succeed"));

    let (item, slot) = match rx.try_receive() {
        ReceiveOutcome::Item(item, slot) => (item, slot),
        _ => panic!("seed expected"),
    };
    let (msg, slot) = match rx.dispatch(&mut calc, item, slot) {
        DispatchOutcome::BurstSyncSeed(msg, slot) => (msg, slot),
        _ => panic!("burst seed expected"),
    };
    let verdict = HandleSyncConcurrent::is_blocking(&calc, &msg);
    let (worker_msg, worker_ticket) = match rx.admit_sync_concurrent(&calc, msg, slot, verdict) {
        SyncAdmission::Offload(msg, ticket) => (msg, ticket),
        _ => panic!("offload expected"),
    };
    let (task_msg, task_ticket) = match rx.pull_next() {
        PullOutcome::AsyncConcurrentItem(msg, slot) => (msg, rx.admit_async_concurrent(slot)),
        _ => panic!("suspending burst member expected"),
    };
    match rx.pull_next() {
        PullOutcome::SyncConcurrentItem(msg, slot) => {
            let verdict = HandleSyncConcurrent::is_blocking(&calc, &msg);
            assert!(!verdict);
            assert!(matches!(
                rx.admit_sync_concurrent(&calc, msg, slot, verdict),
                SyncAdmission::Inline
            ));
        }
        _ => panic!("blocking burst member expected"),
    }
    // the inline invocation's reply is out already, mid-admission
    assert_eq!(reply_sync_concurrent(&mut wait_inline), 2);
    assert!(matches!(rx.pull_next(), PullOutcome::Drained));

    // the two families' completions interleave freely: the cooperative task
    // may finish before the offloaded worker
    assert!(rx.on_cooperative_completion(task_ticket, HandleAsyncConcurrent::handle(&calc, task_msg)));
    assert_eq!(reply_async_concurrent(&mut wait_task), 8);
    assert!(wait_worker.try_recv().is_err());

    assert!(rx.on_blocking_completion(
        worker_ticket,
        HandleSyncConcurrent::handle(&calc, worker_msg),
    ));
    assert_eq!(reply_sync_concurrent(&mut wait_worker), 1);
}

#[test]
fn clean_shutdown_with_nothing_pending() {
    let (tx, mut rx) = msg_channel::<CalcSet>();
    drop(tx);
    assert!(matches!(rx.try_receive(), ReceiveOutcome::Closed));
}

#[test]
fn disconnect_during_admission_aborts_burst() {
    let (tx, mut rx) = msg_channel::<CalcSet>();
    let mut calc = Calc { total: 0 };

    let mut waiter = tx
        .send(MessageSetItem::AsyncConcurrent(DoubleConcurrent(1)))
        .unwrap_or_else(|_| panic!("send should succeed"));

    let (item, slot) = match rx.try_receive() {
        ReceiveOutcome::Item(item, slot) => (item, slot),
        _ => panic!("seed expected"),
    };
    let (_msg, slot) = match rx.dispatch(&mut calc, item, slot) {
        DispatchOutcome::BurstAsyncSeed(msg, slot) => (msg, slot),
        _ => panic!("burst seed expected"),
    };
    let _ticket = rx.admit_async_concurrent(slot);

    drop(tx);
    assert!(matches!(rx.pull_next(), PullOutcome::ChannelClosed));
    // the aborted burst's waiter fails explicitly instead of hanging
    assert!(matches!(
        waiter.try_recv(),
        Err(tokio::sync::oneshot::error::TryRecvError::Closed)
    ));
}

#[test]
fn worker_failure_is_distinct_and_frees_waiters() {
    let (tx, mut rx) = msg_channel::<CalcSet>();
    let mut calc = Calc { total: 0 };

    let mut failed_waiter = tx
        .send(MessageSetItem::SyncConcurrent(OffsetConcurrent {
            value: 1,
            heavy: true,
        }))
        .unwrap_or_else(|_| panic!("send should succeed"));
    let mut innocent_waiter = tx
        .send(MessageSetItem::AsyncConcurrent(DoubleConcurrent(2)))
        .unwrap_or_else(|_| panic!("send should succeed"));

    let (item, slot) = match rx.try_receive() {
        ReceiveOutcome::Item(item, slot) => (item, slot),
        _ => panic!("seed expected"),
    };
    let (msg, slot) = match rx.dispatch(&mut calc, item, slot) {
        DispatchOutcome::BurstSyncSeed(msg, slot) => (msg, slot),
        _ => panic!("burst seed expected"),
    };
    let blocking = HandleSyncConcurrent::is_blocking(&calc, &msg);
    let _offload = rx.admit_sync_concurrent(&calc, msg, slot, blocking);
    match rx.pull_next() {
        PullOutcome::AsyncConcurrentItem(_msg, slot) => {
            rx.admit_async_concurrent(slot);
        }
        _ => panic!("second burst member expected"),
    }
    assert!(matches!(rx.pull_next(), PullOutcome::Drained));

    // the worker fails: a distinct error, not a plain disconnect
    let e = rx.on_worker_failure();
    assert!(matches!(e, MsgSetRecvError::JoinError));
    assert!(!matches!(e, MsgSetRecvError::Disconnected));

    // the non-failed invocation of the same burst does not hang its waiter:
    // both fail explicitly
    assert!(matches!(
        failed_waiter.try_recv(),
        Err(tokio::sync::oneshot::error::TryRecvError::Closed)
    ));
    assert!(matches!(
        innocent_waiter.try_recv(),
        Err(tokio::sync::oneshot::error::TryRecvError::Closed)
    ));
}

#[test]
fn delivery_still_completes_after_queue_closes() {
    let (tx, mut rx) = msg_channel::<CalcSet>();
    let mut calc = Calc { total: 0 };

    let mut waiter = tx
        .send(MessageSetItem::AsyncConcurrent(DoubleConcurrent(21)))
        .unwrap_or_else(|_| panic!("send should succeed"));

    let (item, slot) = match rx.try_receive() {
        ReceiveOutcome::Item(item, slot) => (item, slot),
        _ => panic!("seed expected"),
    };
    let (msg, slot) = match rx.dispatch(&mut calc, item, slot) {
        DispatchOutcome::BurstAsyncSeed(msg, slot) => (msg, slot),
        _ => panic!("burst seed expected"),
    };
    let ticket = rx.admit_async_concurrent(slot);
    assert!(matches!(rx.pull_next(), PullOutcome::Drained));

    // every producer goes away while the reply is still pending delivery:
    // the delivery, already computed, completes normally
    drop(tx);
    assert!(rx.on_cooperative_completion(ticket, HandleAsyncConcurrent::handle(&calc, msg)));
    assert_eq!(reply_async_concurrent(&mut waiter), 42);
}

#[test]
fn abandoned_waiter_discards_reply_without_error() {
    let (tx, mut rx) = msg_channel::<CalcSet>();
    let mut calc = Calc { total: 0 };

    let waiter = tx
        .send(MessageSetItem::Sync(AddBlocking(4)))
        .unwrap_or_else(|_| panic!("send should succeed"));
    // the producer stops waiting before the reply is ready
    drop(waiter);

    let (item, slot) = match rx.try_receive() {
        ReceiveOutcome::Item(item, slot) => (item, slot),
        _ => panic!("item expected"),
    };
    // the loop shrugs the abandoned slot off and keeps going
    assert!(matches!(
        rx.dispatch(&mut calc, item, slot),
        DispatchOutcome::Handled
    ));
    assert!(matches!(rx.try_receive(), ReceiveOutcome::Empty));
}

#[test]
fn send_fails_when_receiver_is_gone() {
    let (tx, rx) = msg_channel::<CalcSet>();
    drop(rx);
    match tx.send(MessageSetItem::Sync(AddBlocking(9))) {
        Err(MessageSetItem::Sync(AddBlocking(v))) => assert_eq!(v, 9),
        _ => panic!("a send to a torn-down receiver reports failure and hands the request back"),
    }
}
