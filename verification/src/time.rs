//! Timestamps in milliseconds, modulo 2^32.

use vstd::prelude::*;
use vstd::std_specs::cmp::PartialEqSpecImpl;
use vstd::std_specs::ops::{AddSpecImpl, SubSpecImpl};

verus! {

/// The number of distinct timestamps: 2^32.
pub open spec fn span() -> int {
    0x1_0000_0000
}

/// Half of the timestamp range: distances are reported in `[-half_span(), half_span())`.
pub open spec fn half_span() -> int {
    0x8000_0000
}

/// The signed distance from raw value `from` to raw value `to`: the one `d` in
/// `[-2^31, 2^31)` with `to == from + d` modulo 2^32.
pub open spec fn signed_distance(from: int, to: int) -> int {
    let forward = (to - from) % span();
    if forward < half_span() {
        forward
    } else {
        forward - span()
    }
}

/// A point in time on the 32 bit RTMP clock. The clock wraps: one millisecond
/// after `0xFFFF_FFFF` comes `0`.
#[derive(Debug, Clone, Copy, Eq)]
pub struct RtmpTimestamp {
    pub value: u32,
}

impl RtmpTimestamp {
    pub fn new(initial_value: u32) -> (r: RtmpTimestamp)
        ensures
            r.value == initial_value,
    {
        RtmpTimestamp { value: initial_value }
    }

    /// Replaces the raw value.
    pub fn set(&mut self, new_value: u32)
        ensures
            final(self).value == new_value,
    {
        self.value = new_value;
    }

    /// `self` moved by `delta` milliseconds, which may be negative.
    pub open spec fn shifted(self, delta: int) -> RtmpTimestamp {
        RtmpTimestamp { value: ((self.value + delta) % span()) as u32 }
    }

    /// The signed distance from `self` to `later`, in `[-2^31, 2^31)`.
    pub open spec fn distance(self, later: RtmpTimestamp) -> int {
        signed_distance(self.value as int, later.value as int)
    }

    /// The timestamp `delta` milliseconds after `self`, modulo 2^32.
    pub fn plus(self, delta: u32) -> (r: RtmpTimestamp)
        ensures
            r == self.shifted(delta as int),
    {
        RtmpTimestamp { value: self.value.wrapping_add(delta) }
    }

    /// The timestamp `delta` milliseconds before `self`, modulo 2^32.
    pub fn minus(self, delta: u32) -> (r: RtmpTimestamp)
        ensures
            r == self.shifted(-(delta as int)),
    {
        RtmpTimestamp { value: self.value.wrapping_sub(delta) }
    }

    /// The number of milliseconds that `self` lies after `earlier` when the
    /// clock is read forward from `earlier`, in `[0, 2^32)`.
    pub fn elapsed_since(self, earlier: RtmpTimestamp) -> (r: u32)
        ensures
            r == (self.value - earlier.value) % span(),
            earlier.shifted(r as int) == self,
    {
        self.value.wrapping_sub(earlier.value)
    }

    /// The signed distance from `self` to `later`. A `later` less than half the
    /// range ahead gives a positive distance even where the raw value wrapped.
    pub fn distance_to(self, later: RtmpTimestamp) -> (r: i64)
        ensures
            r == self.distance(later),
            -half_span() <= r < half_span(),
    {
        let forward: u32 = later.value.wrapping_sub(self.value);
        if forward < 0x8000_0000u32 {
            forward as i64
        } else {
            forward as i64 - 0x1_0000_0000i64
        }
    }

    /// Whether `self` comes before `other` on the wrapping clock.
    pub fn is_before(self, other: RtmpTimestamp) -> (r: bool)
        ensures
            r == (self.distance(other) > 0),
    {
        self.distance_to(other) > 0
    }
}

impl PartialEq for RtmpTimestamp {
    fn eq(&self, other: &RtmpTimestamp) -> (r: bool) {
        self.value == other.value
    }
}

impl PartialEqSpecImpl for RtmpTimestamp {
    open spec fn obeys_eq_spec() -> bool {
        true
    }

    open spec fn eq_spec(&self, other: &RtmpTimestamp) -> bool {
        self.value == other.value
    }
}

/// `timestamp + delta` is the timestamp `delta` milliseconds later, modulo 2^32.
impl core::ops::Add<u32> for RtmpTimestamp {
    type Output = RtmpTimestamp;

    fn add(self, delta: u32) -> (r: RtmpTimestamp) {
        self.plus(delta)
    }
}

impl AddSpecImpl<u32> for RtmpTimestamp {
    open spec fn obeys_add_spec() -> bool {
        true
    }

    open spec fn add_req(self, delta: u32) -> bool {
        true
    }

    open spec fn add_spec(self, delta: u32) -> RtmpTimestamp {
        self.shifted(delta as int)
    }
}

/// `timestamp - delta` is the timestamp `delta` milliseconds earlier, modulo 2^32.
impl core::ops::Sub<u32> for RtmpTimestamp {
    type Output = RtmpTimestamp;

    fn sub(self, delta: u32) -> (r: RtmpTimestamp) {
        self.minus(delta)
    }
}

impl SubSpecImpl<u32> for RtmpTimestamp {
    open spec fn obeys_sub_spec() -> bool {
        true
    }

    open spec fn sub_req(self, delta: u32) -> bool {
        true
    }

    open spec fn sub_spec(self, delta: u32) -> RtmpTimestamp {
        self.shifted(-(delta as int))
    }
}

/// Against a plain integer a timestamp compares by its raw value.
impl PartialEq<u32> for RtmpTimestamp {
    fn eq(&self, other: &u32) -> (r: bool) {
        self.value == *other
    }
}

impl PartialEqSpecImpl<u32> for RtmpTimestamp {
    open spec fn obeys_eq_spec() -> bool {
        true
    }

    open spec fn eq_spec(&self, other: &u32) -> bool {
        self.value == *other
    }
}

/// Moving forward and then back by the same amount returns to the start.
pub proof fn lemma_plus_minus_cancel(t: RtmpTimestamp, delta: u32)
    ensures
        t.shifted(delta as int).shifted(-(delta as int)) == t,
        t.shifted(-(delta as int)).shifted(delta as int) == t,
{
}

/// Shifts compose: two in a row are one shift by the sum.
pub proof fn lemma_shift_composes(t: RtmpTimestamp, a: int, b: int)
    ensures
        t.shifted(a).shifted(b) == t.shifted(a + b),
{
    let m = span();
    let x = t.value as int;
    assert(((x + a) % m + b) % m == (x + a + b) % m) by {
        vstd::arithmetic::div_mod::lemma_add_mod_noop(x + a, b, m);
        vstd::arithmetic::div_mod::lemma_mod_twice(x + a, m);
        vstd::arithmetic::div_mod::lemma_add_mod_noop((x + a) % m, b, m);
    }
}

/// The distance is the one value in `[-2^31, 2^31)` that leads from the first
/// timestamp to the second.
pub proof fn lemma_distance_characterised(a: RtmpTimestamp, b: RtmpTimestamp)
    ensures
        -half_span() <= a.distance(b) < half_span(),
        a.shifted(a.distance(b)) == b,
        forall|d: int| -half_span() <= d < half_span() && a.shifted(d) == b ==> d == a.distance(b),
{
    let m = span();
    let x = a.value as int;
    let y = b.value as int;
    let f = (y - x) % m;
    assert((x + f) % m == y) by {
        vstd::arithmetic::div_mod::lemma_add_mod_noop(x, y - x, m);
        vstd::arithmetic::div_mod::lemma_small_mod(x as nat, m as nat);
        vstd::arithmetic::div_mod::lemma_small_mod(y as nat, m as nat);
    }
    assert((x + f - m) % m == (x + f) % m) by {
        vstd::arithmetic::div_mod::lemma_mod_sub_multiples_vanish(x + f, m);
    }
    assert forall|d: int| -half_span() <= d < half_span() && a.shifted(d) == b implies d
        == a.distance(b) by {
        // (x + d) % m == y, so d and y - x agree modulo m
        vstd::arithmetic::div_mod::lemma_fundamental_div_mod(x + d, m);
        vstd::arithmetic::div_mod::lemma_fundamental_div_mod(y - x, m);
        let q1 = (x + d) / m;
        let q2 = (y - x) / m;
        assert(x + d == m * q1 + y);
        assert(y - x == m * q2 + f);
        assert(d == m * (q1 + q2) + f) by (nonlinear_arith)
            requires
                x + d == m * q1 + y,
                y - x == m * q2 + f,
        ;
        let k = q1 + q2;
        assert(k == 0 || k == -1) by (nonlinear_arith)
            requires
                d == m * k + f,
                0 <= f < m,
                -m <= 2 * d < m,
                m > 0,
        ;
        if k == 0 {
            assert(d == f);
        } else {
            assert(d == f - m);
        }
    }
}

} // verus!
