use vstd::prelude::*;

verus! {

/// Ties one message type to the reply its handler produces and to the
/// envelope type that carries that reply back out of the channel.
pub trait HandleReplay<M> {
    type Replay;

    type MsgReplay;
}

/// A handler for a sequential-blocking message: the dispatch loop calls
/// `handle` with exclusive access and waits for it to return before it
/// touches anything else.
pub trait HandleSync<M> {
    type Replay;

    fn is_blocking(&self, msg: &M) -> bool {
        true
    }

    fn handle(&mut self, msg: M) -> Self::Replay;
}

impl<T> HandleSync<()> for T {
    type Replay = ();

    fn handle(&mut self, _msg: ()) -> Self::Replay {
    }
}

/// A handler for a sequential-suspending message: the invocation may yield
/// cooperatively, but the dispatch loop still waits for its completion
/// before processing anything else. The suspension itself is the concern of
/// the execution context that drives the loop.
pub trait HandleAsync<M> {
    type Replay;

    fn handle(&mut self, msg: M) -> Self::Replay;
}

impl<T> HandleAsync<()> for T {
    type Replay = ();

    fn handle(&mut self, _msg: ()) -> Self::Replay {
    }
}

/// A handler for a concurrent-suspending message: many invocations may be in
/// flight at once, so the handler is only given shared access.
pub trait HandleAsyncConcurrent<M> {
    type Replay;

    fn handle(&self, msg: M) -> Self::Replay;
}

impl<T> HandleAsyncConcurrent<()> for T {
    type Replay = ();

    fn handle(&self, _msg: ()) -> Self::Replay {
    }
}

/// A handler for a concurrent-blocking message: shared access, and a
/// per-message predicate that says whether this particular invocation would
/// block the calling thread and so needs a dedicated worker.
pub trait HandleSyncConcurrent<M> {
    type Replay;

    fn is_blocking(&self, msg: &M) -> bool {
        true
    }

    fn handle(&self, msg: M) -> Self::Replay;
}

impl<T> HandleSyncConcurrent<()> for T {
    type Replay = ();

    fn handle(&self, _msg: ()) -> Self::Replay {
    }
}

} // verus!
