use rotary_input::dispatch::{poll_step, DispatchChannel, PollOutcome};
use rotary_input::rotencoder::{phase_of, QuadratureDecoder};

// The four clockwise level pairs, one detent: phases 0 -> 3 -> 2 -> 1 -> 0
// shifted so the last sample closes the detent.
const CLOCKWISE: [(bool, bool); 4] = [(true, false), (true, true), (false, true), (false, false)];

// The reverse rotation: phases 0 -> 1 -> 2 -> 3 -> 0.
const COUNTER_CLOCKWISE: [(bool, bool); 4] =
    [(false, true), (true, true), (true, false), (false, false)];

#[test]
fn gray_code_mapping_is_total_and_injective() {
    assert_eq!(phase_of(false, false), 0);
    assert_eq!(phase_of(false, true), 1);
    assert_eq!(phase_of(true, true), 2);
    assert_eq!(phase_of(true, false), 3);

    let combos = [(false, false), (false, true), (true, true), (true, false)];
    for &(a1, b1) in combos.iter() {
        let p1 = phase_of(a1, b1);
        assert!(p1 <= 3);
        for &(a2, b2) in combos.iter() {
            let p2 = phase_of(a2, b2);
            if (a1, b1) != (a2, b2) {
                assert_ne!(p1, p2);
            }
        }
    }
}

#[test]
fn one_clockwise_detent_emits_one_plus_tick() {
    let mut decoder = QuadratureDecoder::new();
    let mut ticks: Vec<i8> = Vec::new();
    for &(a, b) in CLOCKWISE.iter() {
        if let Some(t) = decoder.sample(a, b) {
            ticks.push(t);
        }
    }
    assert_eq!(ticks, vec![1]);
    // The accumulator rested again: replaying the same detent emits again.
    let mut more: Vec<i8> = Vec::new();
    for &(a, b) in CLOCKWISE.iter() {
        if let Some(t) = decoder.sample(a, b) {
            more.push(t);
        }
    }
    assert_eq!(more, vec![1]);
}

#[test]
fn one_counter_clockwise_detent_emits_one_minus_tick() {
    let mut decoder = QuadratureDecoder::new();
    let mut ticks: Vec<i8> = Vec::new();
    for &(a, b) in COUNTER_CLOCKWISE.iter() {
        if let Some(t) = decoder.sample(a, b) {
            ticks.push(t);
        }
    }
    assert_eq!(ticks, vec![-1]);
}

#[test]
fn skipped_phase_step_is_ignored() {
    let mut decoder = QuadratureDecoder::new();
    // From phase 0, a jump straight to phase 2 (both lines high) is an
    // illegal two-step transition: no tick, nothing adopted.
    assert_eq!(decoder.sample(true, true), None);
    // A repeated reading of the current phase changes nothing either.
    assert_eq!(decoder.sample(false, false), None);
    // The decoder still needs a full four valid steps for a detent,
    // proving that the skip neither moved the accumulator nor the phase.
    let mut ticks: Vec<i8> = Vec::new();
    for &(a, b) in CLOCKWISE.iter() {
        if let Some(t) = decoder.sample(a, b) {
            ticks.push(t);
        }
    }
    assert_eq!(ticks, vec![1]);
}

#[test]
fn four_detents_clockwise_reach_the_callback_as_four_plus_ticks() {
    // End to end: sampler -> channel -> consumer poll -> callback effect.
    let mut decoder = QuadratureDecoder::new();
    let mut channel: DispatchChannel<i8> = DispatchChannel::new();
    for _ in 0..4 {
        for &(a, b) in CLOCKWISE.iter() {
            if let Some(t) = decoder.sample(a, b) {
                channel.send(t);
            }
        }
    }
    let mut counter: i32 = 0;
    let mut delivered = 0;
    loop {
        match poll_step(&mut channel, true) {
            PollOutcome::Deliver(t) => {
                delivered += 1;
                match t {
                    1 => counter += 1,
                    -1 => counter -= 1,
                    _ => {}
                }
            }
            PollOutcome::Dropped => panic!("nothing contended the lock"),
            PollOutcome::Idle => break,
        }
    }
    assert_eq!(delivered, 4);
    assert_eq!(counter, 4);
}
