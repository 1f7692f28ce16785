//! Event handoff from the producing context to the consumer loop.
//!
//! Each pipeline owns one [`DispatchChannel`]: an unbounded FIFO queue
//! filled by the hardware-triggered producer (whose enqueue never blocks)
//! and drained by a dedicated consumer. [`poll_step`] is one iteration of
//! the consumer loop without the platform wait: it takes at most one event
//! and decides whether to deliver it to the user callback or, when the
//! callback lock is contended, to drop it. Delivery is at most once, in
//! production order, and deliberately lossy under contention: a dropped
//! event is never retried or queued for later invocation.

use vstd::prelude::*;

verus! {

/// Unbounded FIFO queue of pending events, viewed as the sequence of
/// events produced and not yet consumed, oldest first.
pub struct DispatchChannel<T> {
    queue: Vec<T>,
}

impl<T> View for DispatchChannel<T> {
    type V = Seq<T>;

    closed spec fn view(&self) -> Seq<T> {
        self.queue@
    }
}

impl<T> DispatchChannel<T> {
    /// An empty channel.
    pub fn new() -> (channel: Self)
        ensures
            channel@ == Seq::<T>::empty(),
    {
        DispatchChannel { queue: Vec::new() }
    }

    /// Producer side: appends one event. Never blocks and never fails, so
    /// it is safe to call from the hardware-triggered context.
    pub fn send(&mut self, event: T)
        ensures
            final(self)@ == old(self)@.push(event),
    {
        self.queue.push(event);
    }

    /// Consumer side: removes and returns the oldest pending event, or
    /// `None` when nothing is pending.
    pub fn try_recv(&mut self) -> (received: Option<T>)
        ensures
            old(self)@.len() == 0 ==> received is None && final(self)@ == old(self)@,
            old(self)@.len() > 0 ==> received == Some(old(self)@[0]) && final(self)@ == old(
                self,
            )@.drop_first(),
    {
        if self.queue.len() == 0 {
            None
        } else {
            let event = self.queue.remove(0);
            proof {
                assert(self.queue@ =~= old(self).queue@.drop_first());
            }
            Some(event)
        }
    }
}

/// What one consumer iteration decided: nothing was pending, one event is
/// to be handed to the user callback, or one event was discarded because
/// the callback lock was contended.
#[derive(Debug, PartialEq, Eq)]
pub enum PollOutcome<T> {
    Idle,
    Deliver(T),
    Dropped,
}

/// One iteration of the consumer loop, without the fixed poll wait.
///
/// At most one event leaves the channel. With the channel empty nothing
/// happens at all; otherwise the oldest event leaves, and it is delivered
/// only if the callback lock was observed free (`lock_free`) — a contended
/// lock costs exactly that one event, with no retry.
pub fn poll_step<T>(channel: &mut DispatchChannel<T>, lock_free: bool) -> (outcome: PollOutcome<
    T,
>)
    ensures
        old(channel)@.len() == 0 ==> outcome is Idle && final(channel)@ == old(channel)@,
        old(channel)@.len() > 0 ==> final(channel)@ == old(channel)@.drop_first() && (if lock_free {
            outcome == PollOutcome::Deliver(old(channel)@[0])
        } else {
            outcome is Dropped
        }),
{
    match channel.try_recv() {
        Some(event) => {
            if lock_free {
                PollOutcome::Deliver(event)
            } else {
                PollOutcome::Dropped
            }
        },
        None => PollOutcome::Idle,
    }
}

} // verus!
