//! Resolution of simultaneous opposite directions on one axis.
//!
//! An axis has a negative and a positive key. The pair remembers which of the
//! two was last held alone, and that side keeps the axis while both are held.

use vstd::prelude::*;

verus! {

/// One of the two ends of an axis.
#[derive(Clone, Copy, Debug, PartialEq, Eq, Structural)]
pub enum Side {
    Negative,
    Positive,
}

impl Side {
    /// -1 for the negative end, 1 for the positive end.
    pub open spec fn sign(self) -> int {
        match self {
            Side::Negative => -1,
            Side::Positive => 1,
        }
    }

    /// The other end.
    pub open spec fn opposite(self) -> Side {
        match self {
            Side::Negative => Side::Positive,
            Side::Positive => Side::Negative,
        }
    }
}

/// The sign of a remembered side, 0 where none is remembered.
pub open spec fn sign_of(last: Option<Side>) -> int {
    match last {
        Some(side) => side.sign(),
        None => 0,
    }
}

/// The two keys of one axis and the side that was last held alone.
#[derive(Clone, Copy, Debug, PartialEq, Eq, Structural)]
pub struct AxisPair {
    pub negative: bool,
    pub positive: bool,
    pub last: Option<Side>,
}

/// A press or release of one of the two keys of an axis.
#[derive(Clone, Copy, Debug, PartialEq, Eq, Structural)]
pub struct AxisEvent {
    pub side: Side,
    pub pressed: bool,
}

impl AxisPair {
    /// Nothing held, nothing remembered.
    pub open spec fn neutral() -> AxisPair {
        AxisPair { negative: false, positive: false, last: None }
    }

    /// Whether the key of `side` is held.
    pub open spec fn held(self, side: Side) -> bool {
        match side {
            Side::Negative => self.negative,
            Side::Positive => self.positive,
        }
    }

    /// Both keys are held at once.
    pub open spec fn both_held(self) -> bool {
        self.negative && self.positive
    }

    /// The side that is held alone, if one is.
    pub open spec fn sole(self) -> Option<Side> {
        if self.negative && !self.positive {
            Some(Side::Negative)
        } else if self.positive && !self.negative {
            Some(Side::Positive)
        } else {
            None
        }
    }

    /// The memory agrees with the keys: a side held alone is the remembered
    /// one, and with no key held none is remembered.
    pub open spec fn wf(self) -> bool {
        &&& self.sole() is Some ==> self.last == self.sole()
        &&& !self.negative && !self.positive ==> self.last is None
    }

    /// The memory after looking at the keys: a side held alone is remembered,
    /// no key held forgets, both held keeps what was remembered.
    pub open spec fn settled(self) -> AxisPair {
        if self.sole() is Some {
            AxisPair { last: self.sole(), ..self }
        } else if self.both_held() {
            self
        } else {
            AxisPair { last: None, ..self }
        }
    }

    /// The pair with the key of `side` set, the memory untouched.
    pub open spec fn with_key(self, side: Side, down: bool) -> AxisPair {
        match side {
            Side::Negative => AxisPair { negative: down, ..self },
            Side::Positive => AxisPair { positive: down, ..self },
        }
    }

    /// The pair after a press of `side`. A key that is already held changes
    /// nothing.
    pub open spec fn after_press(self, side: Side) -> AxisPair {
        if self.held(side) {
            self
        } else {
            self.with_key(side, true).settled()
        }
    }

    /// The pair after a release of `side`.
    pub open spec fn after_release(self, side: Side) -> AxisPair {
        self.with_key(side, false).settled()
    }

    /// The pair after one event.
    pub open spec fn after(self, event: AxisEvent) -> AxisPair {
        if event.pressed {
            self.after_press(event.side)
        } else {
            self.after_release(event.side)
        }
    }

    /// The resolved sign of the axis: the remembered side while both keys are
    /// held, the held side while one is, and 0 while none is.
    pub open spec fn output(self) -> int {
        if self.both_held() {
            sign_of(self.last)
        } else {
            sign_of(self.sole())
        }
    }

    /// A pair at rest.
    pub fn new() -> (pair: AxisPair)
        ensures
            pair == AxisPair::neutral(),
            pair.wf(),
    {
        AxisPair { negative: false, positive: false, last: None }
    }

    /// Whether the key of `side` is held.
    pub fn is_held(&self, side: Side) -> (held: bool)
        ensures
            held == self.held(side),
    {
        match side {
            Side::Negative => self.negative,
            Side::Positive => self.positive,
        }
    }

    /// Brings the memory up to date with the keys.
    fn settle(&mut self)
        ensures
            *final(self) == old(self).settled(),
    {
        if self.negative && !self.positive {
            self.last = Some(Side::Negative);
        } else if self.positive && !self.negative {
            self.last = Some(Side::Positive);
        } else if !self.negative && !self.positive {
            self.last = None;
        }
    }

    /// Records a press of `side`.
    pub fn press(&mut self, side: Side)
        ensures
            *final(self) == old(self).after_press(side),
            old(self).held(side) ==> *final(self) == *old(self),
            old(self).wf() ==> final(self).wf(),
    {
        if !self.is_held(side) {
            match side {
                Side::Negative => {
                    self.negative = true;
                },
                Side::Positive => {
                    self.positive = true;
                },
            }
            self.settle();
        }
    }

    /// Records a release of `side`.
    pub fn release(&mut self, side: Side)
        ensures
            *final(self) == old(self).after_release(side),
            !final(self).held(side),
            old(self).wf() ==> final(self).wf(),
            old(self).wf() && !old(self).held(side) ==> *final(self) == *old(self),
    {
        match side {
            Side::Negative => {
                self.negative = false;
            },
            Side::Positive => {
                self.positive = false;
            },
        }
        self.settle();
    }

    /// Records one event.
    pub fn apply(&mut self, event: AxisEvent)
        ensures
            *final(self) == old(self).after(event),
            old(self).wf() ==> final(self).wf(),
    {
        if event.pressed {
            self.press(event.side);
        } else {
            self.release(event.side);
        }
    }

    /// Resolves the axis to -1, 0 or 1.
    pub fn resolve(&self) -> (sign: i8)
        ensures
            sign == self.output(),
            sign == -1 || sign == 0 || sign == 1,
            self.wf() ==> sign == sign_of(self.last),
    {
        if self.negative && self.positive {
            match self.last {
                Some(Side::Negative) => -1,
                Some(Side::Positive) => 1,
                None => 0,
            }
        } else if self.negative {
            -1
        } else if self.positive {
            1
        } else {
            0
        }
    }
}

/// The sign of an axis that keeps no memory: the held side while one key is
/// held, and 0 while none or both are.
pub open spec fn memoryless_output(negative: bool, positive: bool) -> int {
    if positive == negative {
        0
    } else if positive {
        1
    } else {
        -1
    }
}

/// Resolves an axis that keeps no memory; both keys held cancel each other.
pub fn resolve_memoryless(negative: bool, positive: bool) -> (sign: i8)
    ensures
        sign == memoryless_output(negative, positive),
        sign == -1 || sign == 0 || sign == 1,
{
    if positive == negative {
        0
    } else if positive {
        1
    } else {
        -1
    }
}

/// The pair that a sequence of events leaves behind, starting with no key
/// held.
pub open spec fn run(events: Seq<AxisEvent>) -> AxisPair
    decreases events.len(),
{
    if events.len() == 0 {
        AxisPair::neutral()
    } else {
        run(events.drop_last()).after(events.last())
    }
}

/// The keys alone after a sequence of events, with no regard to the memory:
/// whether each side is held.
pub open spec fn key_down(events: Seq<AxisEvent>, side: Side) -> bool
    decreases events.len(),
{
    if events.len() == 0 {
        false
    } else if events.last().side == side {
        events.last().pressed
    } else {
        key_down(events.drop_last(), side)
    }
}

/// The side that was most recently held alone in the course of `events`.
pub open spec fn last_exclusive(events: Seq<AxisEvent>) -> Option<Side>
    decreases events.len(),
{
    if events.len() == 0 {
        None
    } else if key_down(events, Side::Negative) && !key_down(events, Side::Positive) {
        Some(Side::Negative)
    } else if key_down(events, Side::Positive) && !key_down(events, Side::Negative) {
        Some(Side::Positive)
    } else {
        last_exclusive(events.drop_last())
    }
}

/// A run leaves the keys as the events say, the memory in agreement with
/// them, and, while a key is held, the side most recently held alone in it.
proof fn lemma_run_tracks_keys(events: Seq<AxisEvent>)
    ensures
        run(events).negative == key_down(events, Side::Negative),
        run(events).positive == key_down(events, Side::Positive),
        run(events).wf(),
        run(events).negative || run(events).positive ==> run(events).last == last_exclusive(
            events,
        ),
    decreases events.len(),
{
    if events.len() > 0 {
        lemma_run_tracks_keys(events.drop_last());
    }
}

/// Whatever keys were pressed and released on an axis, in whatever order, the
/// resolved sign is -1, 0 or 1, and while both keys are held it is the sign of
/// the side that was most recently held alone.
pub proof fn lemma_resolution_follows_last_exclusive(events: Seq<AxisEvent>)
    ensures
        run(events).output() == -1 || run(events).output() == 0 || run(events).output() == 1,
        run(events).both_held() ==> run(events).output() == sign_of(last_exclusive(events)),
        run(events).both_held() ==> last_exclusive(events) is Some,
{
    lemma_run_tracks_keys(events);
    lemma_both_held_has_history(events);
}

/// Once a key is held, some side has been held alone.
proof fn lemma_both_held_has_history(events: Seq<AxisEvent>)
    ensures
        key_down(events, Side::Negative) || key_down(events, Side::Positive) ==> last_exclusive(
            events,
        ) is Some,
    decreases events.len(),
{
    if events.len() > 0 {
        lemma_both_held_has_history(events.drop_last());
    }
}

/// A side is remembered only while its key is held.
pub proof fn lemma_remembered_side_is_held(pair: AxisPair, side: Side)
    requires
        pair.wf(),
        pair.last == Some(side),
    ensures
        pair.held(side),
{
}

/// Events keep the memory in agreement with the keys.
pub proof fn lemma_events_keep_wf(pair: AxisPair, event: AxisEvent)
    requires
        pair.wf(),
    ensures
        pair.after(event).wf(),
{
}

/// A press of a key that is already held leaves the pair as it was.
pub proof fn lemma_repeated_press_changes_nothing(pair: AxisPair, side: Side)
    requires
        pair.held(side),
    ensures
        pair.after_press(side) == pair,
{
}

/// While both keys are held, releasing either hands the axis to the other at
/// once.
pub proof fn lemma_release_flips_to_remaining(pair: AxisPair, side: Side)
    requires
        pair.both_held(),
    ensures
        pair.after_release(side).output() == side.opposite().sign(),
        pair.after_release(side).last == Some(side.opposite()),
{
}

} // verus!
