use vstd::prelude::*;

verus! {

/// A rational time base: one timestamp unit lasts `num / den` seconds.
#[derive(Debug, Clone, Copy, PartialEq, Eq, Structural)]
pub struct TimeBase {
    pub num: i32,
    pub den: i32,
}

/// Timing of one compressed packet; `None` stands for "no timestamp".
#[derive(Debug, Clone, Copy, PartialEq, Eq, Structural)]
pub struct PacketTiming {
    pub pts: Option<i64>,
    pub dts: Option<i64>,
    pub duration: i64,
}

impl TimeBase {
    /// A time base is usable when both its terms are positive.
    pub open spec fn valid(self) -> bool {
        self.num > 0 && self.den > 0
    }

    /// Whether this time base is usable for rescaling.
    pub fn is_valid(&self) -> (r: bool)
        ensures
            r == self.valid(),
    {
        self.num > 0 && self.den > 0
    }
}

/// `p / q` rounded to the nearest integer, halves away from zero.
pub open spec fn round_div(p: int, q: int) -> int
    recommends
        q > 0,
{
    if p >= 0 {
        (p + q / 2) / q
    } else {
        -((-p + q / 2) / q)
    }
}

/// `a` units of `from` expressed in units of `to`, rounded to the nearest unit:
/// `a * from.num * to.den / (from.den * to.num)`.
pub open spec fn rescaled(a: int, from: TimeBase, to: TimeBase) -> int {
    round_div(a * from.num * to.den, from.den * to.num)
}

pub open spec fn fits_i64(x: int) -> bool {
    i64::MIN <= x && x <= i64::MAX
}

/// What rescaling yields: the rounded value where both time bases are usable
/// and it fits in 64 bits, no timestamp otherwise.
pub open spec fn rescale_result(a: int, from: TimeBase, to: TimeBase) -> Option<i64> {
    if from.valid() && to.valid() && fits_i64(rescaled(a, from, to)) {
        Some(rescaled(a, from, to) as i64)
    } else {
        None
    }
}

proof fn lemma_product_bound(m: int, b: int, c: int)
    requires
        0 <= m <= 0x8000_0000_0000_0000,
        0 <= b <= 0x7fff_ffff * 0x7fff_ffff,
        0 < c <= 0x7fff_ffff * 0x7fff_ffff,
    ensures
        0 <= m * b + c / 2 < 0x1_0000_0000_0000_0000_0000_0000_0000_0000,
{
    assert(m * b <= 0x8000_0000_0000_0000 * (0x7fff_ffff * 0x7fff_ffff)) by (nonlinear_arith)
        requires
            0 <= m <= 0x8000_0000_0000_0000,
            0 <= b <= 0x7fff_ffff * 0x7fff_ffff,
    ;
    assert(0 <= m * b) by (nonlinear_arith)
        requires
            0 <= m,
            0 <= b,
    ;
}

proof fn lemma_term_bound(x: int, y: int)
    requires
        0 < x <= 0x7fff_ffff,
        0 < y <= 0x7fff_ffff,
    ensures
        0 < x * y <= 0x7fff_ffff * 0x7fff_ffff,
{
    assert(0 < x * y <= 0x7fff_ffff * 0x7fff_ffff) by (nonlinear_arith)
        requires
            0 < x <= 0x7fff_ffff,
            0 < y <= 0x7fff_ffff,
    ;
}

/// Rescales a timestamp from one time base to another with exact integer
/// arithmetic, rounding to the nearest unit (halves away from zero).
/// Returns `None` where a time base is unusable or the result does not fit.
pub fn rescale(a: i64, from: TimeBase, to: TimeBase) -> (r: Option<i64>)
    ensures
        r == rescale_result(a as int, from, to),
{
    if !from.is_valid() || !to.is_valid() {
        return None;
    }
    proof {
        lemma_term_bound(from.num as int, to.den as int);
        lemma_term_bound(from.den as int, to.num as int);
    }
    let b: u128 = (from.num as u128) * (to.den as u128);
    let c: u128 = (from.den as u128) * (to.num as u128);
    let m: u128 = if a >= 0 { a as u128 } else { (0i128 - (a as i128)) as u128 };
    proof {
        lemma_product_bound(m as int, b as int, c as int);
    }
    let q: u128 = (m * b + c / 2) / c;
    proof {
        assert(a as int * from.num * to.den == a as int * (from.num * to.den)) by (nonlinear_arith);
        assert(c as int == from.den * to.num);
        if a < 0 {
            assert(-(a as int * (from.num * to.den)) == m as int * b as int) by (nonlinear_arith)
                requires
                    m as int == -(a as int),
                    b as int == from.num * to.den,
            ;
            assert(a as int * (from.num * to.den) < 0) by (nonlinear_arith)
                requires
                    a < 0,
                    from.num * to.den > 0,
            ;
            assert(rescaled(a as int, from, to) == -(q as int));
        } else {
            assert(a as int * (from.num * to.den) == m as int * b as int);
            assert(a as int * (from.num * to.den) >= 0) by (nonlinear_arith)
                requires
                    a >= 0,
                    from.num * to.den > 0,
            ;
            assert(rescaled(a as int, from, to) == q as int);
        }
    }
    if a >= 0 {
        if q <= 0x7fff_ffff_ffff_ffffu128 {
            Some(q as i64)
        } else {
            None
        }
    } else {
        if q <= 0x8000_0000_0000_0000u128 {
            Some((0i128 - (q as i128)) as i64)
        } else {
            None
        }
    }
}

/// The timing of a packet moved from one time base to another: timestamps
/// that are present are rescaled; a positive duration is rescaled, and
/// becomes zero (unknown) where it cannot be.
pub open spec fn rescaled_timing(t: PacketTiming, from: TimeBase, to: TimeBase) -> PacketTiming {
    PacketTiming {
        pts: match t.pts {
            Some(p) => rescale_result(p as int, from, to),
            None => None,
        },
        dts: match t.dts {
            Some(d) => rescale_result(d as int, from, to),
            None => None,
        },
        duration: if t.duration > 0 {
            match rescale_result(t.duration as int, from, to) {
                Some(d) => d,
                None => 0,
            }
        } else {
            t.duration
        },
    }
}

/// Moves a packet's timing from one time base to another.
pub fn rescale_timing(t: PacketTiming, from: TimeBase, to: TimeBase) -> (r: PacketTiming)
    ensures
        r == rescaled_timing(t, from, to),
{
    let pts = match t.pts {
        Some(p) => rescale(p, from, to),
        None => None,
    };
    let dts = match t.dts {
        Some(d) => rescale(d, from, to),
        None => None,
    };
    let duration = if t.duration > 0 {
        match rescale(t.duration, from, to) {
            Some(d) => d,
            None => 0,
        }
    } else {
        t.duration
    };
    PacketTiming { pts, dts, duration }
}

} // verus!
