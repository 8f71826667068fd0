//! The channel-layout bitrate estimator's target step: from a channel
//! equivalent of `t` tenths of a channel, the target is
//! `round(128 * (t/20)^(3/4))` kbps, the power law that keeps stereo at
//! 128 kbps and scales sub-linearly with more channels.
//!
//! The rounding is characterized exactly in integers. For `n >= 1`,
//! `n == round(128 * (t/20)^(3/4))` (half rounding up) means
//! `n - 1/2 <= 128 * (t/20)^(3/4) < n + 1/2`; raising the three
//! non-negative sides to the fourth power, which preserves order, and
//! clearing denominators (`16 * 128^4 / 20^3 == 2^27 / 250`) turns this
//! into `250*(2n-1)^4 <= 2^27 * t^3 < 250*(2n+1)^4`, which
//! [`is_bitrate_of`] states and [`bitrate_from_tenths`] satisfies.

use vstd::prelude::*;

use crate::layout::spec_channel_equivalent_tenths;
use crate::layout::MAX_EQUIVALENT_TENTHS;
use crate::layout::get_channel_layout_tenths;
use crate::media::StreamInfo;

verus! {

/// The fourth power.
pub open spec fn pow4(x: int) -> int {
    x * x * x * x
}

/// `2^27 * t^3`: the cube of the channel equivalent (in tenths), scaled
/// so that the rounding bounds below are integers.
pub open spec fn scaled_cube(t: int) -> int {
    0x8000000 * t * t * t
}

/// `n` is the bitrate target, in kbps, for a channel equivalent of `t`
/// tenths: exactly `round(128 * (t/20)^(3/4))`, stated by fourth powers
/// as derived in the module documentation.
pub open spec fn is_bitrate_of(t: int, n: int) -> bool {
    &&& 0 <= n
    &&& scaled_cube(t) < 250 * pow4(2 * n + 1)
    &&& n > 0 ==> 250 * pow4(2 * n - 1) <= scaled_cube(t)
}

/// The fourth power preserves order on non-negative values.
proof fn lemma_pow4_monotone(x: int, y: int)
    requires
        0 <= x <= y,
    ensures
        pow4(x) <= pow4(y),
{
    assert(x * x * x * x <= y * y * y * y) by (nonlinear_arith)
        requires
            0 <= x <= y,
    ;
}

/// At most one integer satisfies [`is_bitrate_of`] for a given `t`: the
/// contract of [`bitrate_from_tenths`] pins its result.
pub proof fn lemma_bitrate_unique(t: int, a: int, b: int)
    requires
        0 <= t,
        is_bitrate_of(t, a),
        is_bitrate_of(t, b),
    ensures
        a == b,
{
    if a < b {
        lemma_pow4_monotone(2 * a + 1, 2 * b - 1);
        assert(false);
    }
    if b < a {
        lemma_pow4_monotone(2 * b + 1, 2 * a - 1);
        assert(false);
    }
}

/// The initial upper bound of the search is large enough: the target for
/// `t` tenths is below `128 * t + 1`.
proof fn lemma_search_bound(t: int)
    requires
        0 <= t,
    ensures
        scaled_cube(t) < 250 * pow4(2 * (128 * t + 1) + 1),
{
    if t == 0 {
        assert(0x8000000 * t * t * t < 250 * (3 * 3 * 3 * 3)) by (nonlinear_arith)
            requires
                t == 0,
        ;
        assert(2 * (128 * t + 1) + 1 == 3);
    } else {
        assert(0x8000000 * t * t * t < 250 * ((256 * t) * (256 * t) * (256 * t) * (256 * t)))
            by (nonlinear_arith)
            requires
                1 <= t,
        ;
        lemma_pow4_monotone(256 * t, 256 * t + 3);
        assert(pow4(256 * t) == (256 * t) * (256 * t) * (256 * t) * (256 * t));
        assert(2 * (128 * t + 1) + 1 == 256 * t + 3);
    }
}

/// Products of non-negative values grow with their factors.
proof fn lemma_mul_le(a: int, b: int, c: int, d: int)
    requires
        0 <= a <= c,
        0 <= b <= d,
    ensures
        a * b <= c * d,
{
    assert(a * b <= c * d) by (nonlinear_arith)
        requires
            0 <= a <= c,
            0 <= b <= d,
    ;
}

/// `250 * pow4(2m + 1)`, as the exec search computes it.
fn bound_term(m: u64) -> (c: u128)
    requires
        m <= 0x8000000,
    ensures
        c == 250 * pow4(2 * m + 1),
{
    let x: u128 = 2 * (m as u128) + 1;
    proof {
        lemma_mul_le(x as int, x as int, 0x10000001, 0x10000001);
    }
    let sq: u128 = x * x;
    proof {
        lemma_mul_le(sq as int, sq as int, 0x100000020000001, 0x100000020000001);
    }
    let q: u128 = sq * sq;
    proof {
        lemma_mul_le(250, q as int, 250, 0x100000020000001int * 0x100000020000001);
    }
    let c: u128 = 250 * q;
    assert(c == 250 * pow4(x as int)) by {
        let xi = x as int;
        assert((xi * xi) * (xi * xi) == xi * xi * xi * xi) by (nonlinear_arith);
    };
    c
}

/// The bitrate target, in kbps, for a channel equivalent of `t` tenths of
/// a channel: exactly `round(128 * (t/20)^(3/4))`, found by binary search
/// over the fourth-power characterization.
pub fn bitrate_from_tenths(t: u64) -> (n: u64)
    requires
        t <= MAX_EQUIVALENT_TENTHS,
    ensures
        is_bitrate_of(t as int, n as int),
{
    let t128: u128 = t as u128;
    proof {
        lemma_mul_le(t128 as int, t128 as int, 655350, 655350);
    }
    let sq: u128 = t128 * t128;
    proof {
        lemma_mul_le(sq as int, t128 as int, 655350int * 655350, 655350);
    }
    let cube: u128 = sq * t128;
    proof {
        lemma_mul_le(0x8000000, cube as int, 0x8000000, 655350int * 655350 * 655350);
    }
    let target: u128 = 0x8000000 * cube;
    assert(target == scaled_cube(t as int)) by {
        let ti = t as int;
        assert(0x8000000 * ((ti * ti) * ti) == 0x8000000 * ti * ti * ti) by (nonlinear_arith);
    };
    let mut lo: u64 = 0;
    let mut hi: u64 = 128 * t + 1;
    proof {
        lemma_search_bound(t as int);
    }
    while lo < hi
        invariant
            lo <= hi <= 128 * t + 1,
            target == scaled_cube(t as int),
            t <= MAX_EQUIVALENT_TENTHS,
            scaled_cube(t as int) < 250 * pow4(2 * hi + 1),
            lo > 0 ==> 250 * pow4(2 * lo - 1) <= scaled_cube(t as int),
        decreases hi - lo,
    {
        let m: u64 = lo + (hi - lo) / 2;
        let c: u128 = bound_term(m);
        if target < c {
            hi = m;
        } else {
            lo = m + 1;
        }
    }
    lo
}

/// The bitrate target, in kbps, for one stream: the classification of
/// its channel layout fed through the power law.
pub fn stream_bitrate_kbps(stream: &StreamInfo) -> (n: u64)
    ensures
        is_bitrate_of(spec_channel_equivalent_tenths(stream.channel_layout, stream.channels), n as int),
{
    let t = get_channel_layout_tenths(stream);
    bitrate_from_tenths(t)
}

} // verus!
