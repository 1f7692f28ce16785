use rotary_input::dispatch::{poll_step, DispatchChannel, PollOutcome};

#[test]
fn events_come_out_in_production_order() {
    let mut channel: DispatchChannel<i8> = DispatchChannel::new();
    channel.send(1);
    channel.send(-1);
    channel.send(1);
    assert_eq!(channel.try_recv(), Some(1));
    assert_eq!(channel.try_recv(), Some(-1));
    assert_eq!(channel.try_recv(), Some(1));
    assert_eq!(channel.try_recv(), None);
}

#[test]
fn polling_an_empty_channel_does_nothing() {
    let mut channel: DispatchChannel<i8> = DispatchChannel::new();
    // However often the consumer polls an empty channel, no callback
    // invocation is ever decided on.
    for _ in 0..5 {
        assert_eq!(poll_step(&mut channel, true), PollOutcome::Idle);
        assert_eq!(poll_step(&mut channel, false), PollOutcome::Idle);
    }
    // The channel is untouched by the idle polls.
    channel.send(7);
    assert_eq!(channel.try_recv(), Some(7));
}

#[test]
fn contended_lock_drops_exactly_the_pending_event() {
    let mut channel: DispatchChannel<i8> = DispatchChannel::new();
    channel.send(1);
    // The callback lock is held for the whole time the event is pending:
    // the event is discarded, not delivered and not requeued.
    assert_eq!(poll_step(&mut channel, false), PollOutcome::Dropped);
    assert_eq!(poll_step(&mut channel, false), PollOutcome::Idle);
    assert_eq!(poll_step(&mut channel, true), PollOutcome::Idle);
    // Later events are unaffected by the earlier drop.
    channel.send(-1);
    assert_eq!(poll_step(&mut channel, true), PollOutcome::Deliver(-1));
}
