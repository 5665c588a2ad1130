use rekt::socd::{resolve_memoryless, AxisEvent, AxisPair, Side};

fn press(side: Side) -> AxisEvent {
    AxisEvent { side, pressed: true }
}

fn release(side: Side) -> AxisEvent {
    AxisEvent { side, pressed: false }
}

fn run(events: &[AxisEvent]) -> AxisPair {
    let mut pair = AxisPair::new();
    for event in events {
        pair.apply(*event);
    }
    pair
}

#[test]
fn new_pair_is_neutral() {
    let pair = AxisPair::new();
    assert!(!pair.negative);
    assert!(!pair.positive);
    assert_eq!(pair.last, None);
    assert_eq!(pair.resolve(), 0);
}

#[test]
fn single_key_gives_its_sign() {
    assert_eq!(run(&[press(Side::Negative)]).resolve(), -1);
    assert_eq!(run(&[press(Side::Positive)]).resolve(), 1);
    assert_eq!(run(&[press(Side::Negative)]).last, Some(Side::Negative));
    assert_eq!(run(&[press(Side::Positive)]).last, Some(Side::Positive));
}

#[test]
fn both_held_keeps_the_side_last_held_alone() {
    let pair = run(&[press(Side::Negative), press(Side::Positive)]);
    assert!(pair.negative && pair.positive);
    assert_eq!(pair.last, Some(Side::Negative));
    assert_eq!(pair.resolve(), -1);

    let pair = run(&[press(Side::Positive), press(Side::Negative)]);
    assert_eq!(pair.last, Some(Side::Positive));
    assert_eq!(pair.resolve(), 1);
}

#[test]
fn releasing_the_dominant_key_flips_at_once() {
    let mut pair = run(&[press(Side::Negative), press(Side::Positive)]);
    assert_eq!(pair.resolve(), -1);
    pair.release(Side::Negative);
    assert_eq!(pair.resolve(), 1);
    assert_eq!(pair.last, Some(Side::Positive));
    // Pressing the released key again does not take the axis back.
    pair.press(Side::Negative);
    assert_eq!(pair.resolve(), 1);
}

#[test]
fn releasing_the_other_key_keeps_the_sign() {
    let mut pair = run(&[press(Side::Negative), press(Side::Positive)]);
    pair.release(Side::Positive);
    assert_eq!(pair.resolve(), -1);
    assert_eq!(pair.last, Some(Side::Negative));
}

#[test]
fn releasing_everything_forgets() {
    let pair = run(&[
        press(Side::Negative),
        press(Side::Positive),
        release(Side::Negative),
        release(Side::Positive),
    ]);
    assert_eq!(pair, AxisPair::new());
    assert_eq!(pair.resolve(), 0);
}

#[test]
fn both_held_without_memory_is_neutral() {
    let pair = AxisPair { negative: true, positive: true, last: None };
    assert_eq!(pair.resolve(), 0);
}

#[test]
fn repeated_press_changes_nothing_on_an_axis() {
    let mut pair = run(&[press(Side::Negative), press(Side::Positive)]);
    let before = pair;
    pair.press(Side::Positive);
    assert_eq!(pair, before);
    pair.press(Side::Negative);
    assert_eq!(pair, before);
}

#[test]
fn release_of_a_key_that_is_not_held_changes_nothing() {
    let mut pair = run(&[press(Side::Positive)]);
    let before = pair;
    pair.release(Side::Negative);
    assert_eq!(pair, before);
}

#[test]
fn output_is_always_a_sign() {
    let sides = [Side::Negative, Side::Positive];
    let mut pair = AxisPair::new();
    // Walks every event from every state that the walk reaches.
    let mut seen: Vec<AxisPair> = vec![pair];
    let mut at = 0;
    while at < seen.len() {
        for side in sides {
            for pressed in [true, false] {
                pair = seen[at];
                pair.apply(AxisEvent { side, pressed });
                let sign = pair.resolve();
                assert!(sign == -1 || sign == 0 || sign == 1);
                if pair.negative && pair.positive {
                    assert!(pair.last.is_some());
                }
                if !seen.contains(&pair) {
                    seen.push(pair);
                }
            }
        }
        at += 1;
    }
    assert_eq!(seen.len(), 5);
}

#[test]
fn is_held_reads_the_right_key() {
    let pair = run(&[press(Side::Positive)]);
    assert!(pair.is_held(Side::Positive));
    assert!(!pair.is_held(Side::Negative));
}

#[test]
fn memoryless_axis_cancels() {
    assert_eq!(resolve_memoryless(false, false), 0);
    assert_eq!(resolve_memoryless(true, false), -1);
    assert_eq!(resolve_memoryless(false, true), 1);
    assert_eq!(resolve_memoryless(true, true), 0);
}
