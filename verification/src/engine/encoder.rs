//! Wheel encoder pulse counting.
//!
//! The encoders are read through 16-bit hardware counters that wrap around;
//! the change between two reads is their two's complement difference.
use vstd::prelude::*;

verus! {

/// `d` is the change of a 16-bit wrapping counter from `prev` to `now`:
/// it is congruent to `now - prev` modulo 2^16 and fits in an `i16`.
pub open spec fn is_count_delta(prev: u16, now: u16, d: int) -> bool {
    &&& -0x8000 <= d < 0x8000
    &&& (now - prev - d) % 0x1_0000 == 0
}

/// The change of a 16-bit wrapping counter from `prev` to `now`.
pub fn count_delta(prev: u16, now: u16) -> (d: i16)
    ensures
        is_count_delta(prev, now, d as int),
{
    let diff: i32 = now as i32 - prev as i32;
    let d: i32 = if diff >= 0x8000 {
        diff - 0x1_0000
    } else if diff < -0x8000 {
        diff + 0x1_0000
    } else {
        diff
    };
    d as i16
}

/// A wrapping counter measures every movement of fewer than 2^15 pulses in
/// either direction exactly, across the wrap-around too: whenever the counter
/// moved by `m` pulses, the change read from it is `m`.
pub proof fn law_delta_exact(prev: u16, m: int, d: int)
    requires
        -0x8000 <= m < 0x8000,
        is_count_delta(prev, ((prev + m) % 0x1_0000) as u16, d),
    ensures
        d == m,
{
    let now: int = (prev + m) % 0x1_0000;
    assert((now - prev - d) % 0x1_0000 == 0);
    assert((prev + m - prev - m) % 0x1_0000 == 0);
    assert(((prev + m) - now) % 0x1_0000 == 0) by (nonlinear_arith)
        requires
            now == (prev + m) % 0x1_0000,
    ;
    assert((m - d) % 0x1_0000 == 0) by (nonlinear_arith)
        requires
            (now - prev - d) % 0x1_0000 == 0,
            ((prev + m) - now) % 0x1_0000 == 0,
    ;
}

/// The changes read one after the other add up: two consecutive changes
/// are congruent to the change over both reads.
pub proof fn law_deltas_add_up(a: u16, b: u16, c: u16, d1: int, d2: int, d: int)
    requires
        is_count_delta(a, b, d1),
        is_count_delta(b, c, d2),
        is_count_delta(a, c, d),
    ensures
        (d1 + d2 - d) % 0x1_0000 == 0,
{
    assert((d1 + d2 - d) % 0x1_0000 == 0) by (nonlinear_arith)
        requires
            (b - a - d1) % 0x1_0000 == 0,
            (c - b - d2) % 0x1_0000 == 0,
            (c - a - d) % 0x1_0000 == 0,
    ;
}

/// The last counts read from the left and right encoders.
pub struct PulseCounter {
    prev_left: u16,
    prev_right: u16,
}

impl PulseCounter {
    /// The last counts read, left and right.
    pub closed spec fn last(&self) -> (u16, u16) {
        (self.prev_left, self.prev_right)
    }

    /// Starts counting from the given counts.
    pub fn new(initial_left: u16, initial_right: u16) -> (c: PulseCounter)
        ensures
            c.last() == (initial_left, initial_right),
    {
        PulseCounter { prev_left: initial_left, prev_right: initial_right }
    }

    /// Reads new counts: returns the changes since the last read, left and
    /// right, and remembers the new counts.
    pub fn update(&mut self, left: u16, right: u16) -> (deltas: (i16, i16))
        ensures
            is_count_delta(old(self).last().0, left, deltas.0 as int),
            is_count_delta(old(self).last().1, right, deltas.1 as int),
            final(self).last() == (left, right),
    {
        let dl: i16 = count_delta(self.prev_left, left);
        let dr: i16 = count_delta(self.prev_right, right);
        self.prev_left = left;
        self.prev_right = right;
        (dl, dr)
    }
}

} // verus!
