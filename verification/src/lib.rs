use vstd::prelude::*;

pub mod channel;
pub mod handle;
pub mod laws;
pub mod message_set;

use message_set::{DispatchPhase, MessageSet, MessageSetReceiver, MessageSetSender};

verus! {

/// Builds a connected channel for one message set: a cloneable producer
/// handle and the single consumer-side dispatch engine, idle and empty.
pub fn msg_channel<MS: MessageSet>() -> (r: (MessageSetSender<MS>, MessageSetReceiver<MS>))
    ensures
        r.1.wf(),
        r.1.phase == DispatchPhase::Idle,
        r.1.msg_queue@.len() == 0,
        r.1.pending@.len() == 0,
        r.1.delivered@.len() == 0,
        r.1.next_ticket == 0,
{
    let (sender, receiver) = channel::new_unbounded();
    (MessageSetSender { sender }, MessageSetReceiver::new(receiver))
}

} // verus!
