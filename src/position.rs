//! Mapping a value on a periodic scale (an hour of twelve, a minute of sixty)
//! onto a position of a ring of lights.

use vstd::arithmetic::div_mod::{
    lemma_add_mod_noop_right, lemma_div_is_ordered, lemma_fundamental_div_mod,
    lemma_fundamental_div_mod_converse, lemma_mod_multiples_vanish,
};
use vstd::prelude::*;

verus! {

/// The ring position of `value` on a scale of `period` steps, for a ring of
/// `ring_size` lights whose zero sits `offset` lights round.
pub open spec fn ring_position(value: int, period: int, ring_size: int, offset: int) -> int {
    ((value * ring_size) / period + offset) % ring_size
}

/// How far round the ring `value` lies, counted from the offset: the position
/// before the ring wraps.
pub open spec fn ring_distance(value: int, period: int, ring_size: int) -> int {
    (value * ring_size) / period
}

/// The position of `value` depends only on `value` modulo `period`.
proof fn lemma_position_of_remainder(value: int, period: int, ring_size: int, offset: int)
    requires
        value >= 0,
        offset >= 0,
        period > 0,
        ring_size > 0,
    ensures
        ring_position(value, period, ring_size, offset) == (((value % period) * ring_size)
            / period + offset % ring_size) % ring_size,
{
    let v = value;
    let p = period;
    let n = ring_size;
    let q = v / p;
    let r = v % p;
    lemma_fundamental_div_mod(v, p);
    let s = (r * n) / p;
    let t = (r * n) % p;
    lemma_fundamental_div_mod(r * n, p);
    assert(0 <= t < p);
    assert(q >= 0) by {
        vstd::arithmetic::div_mod::lemma_div_pos_is_pos(v, p);
    }
    assert(v * n == (q * n + s) * p + t) by (nonlinear_arith)
        requires
            v == p * q + r,
            r * n == p * s + t,
    ;
    lemma_fundamental_div_mod_converse(v * n, p, q * n + s, t);
    assert((v * n) / p == q * n + s);
    lemma_mod_multiples_vanish(q, s + offset, n);
    assert(n * q == q * n) by (nonlinear_arith);
    assert((q * n + s + offset) % n == (s + offset) % n);
    lemma_add_mod_noop_right(s, offset, n);
}

/// A value below the period lands less than a whole turn from the offset.
proof fn lemma_distance_below_ring(value: int, period: int, ring_size: int)
    requires
        0 <= value < period,
        ring_size >= 0,
    ensures
        0 <= ring_distance(value, period, ring_size),
        ring_size > 0 ==> ring_distance(value, period, ring_size) < ring_size,
{
    let v = value;
    let p = period;
    let n = ring_size;
    assert(0 <= v * n) by (nonlinear_arith)
        requires
            v >= 0,
            n >= 0,
    ;
    assert(v * n <= (p - 1) * n) by (nonlinear_arith)
        requires
            v <= p - 1,
            n >= 0,
    ;
    vstd::arithmetic::div_mod::lemma_div_pos_is_pos(v * n, p);
    if n > 0 {
        let d = (v * n) / p;
        lemma_fundamental_div_mod(v * n, p);
        assert(p * d <= v * n);
        assert(p * d < p * n) by (nonlinear_arith)
            requires
                p * d <= v * n,
                v * n <= (p - 1) * n,
                n > 0,
        ;
        assert(d < n) by (nonlinear_arith)
            requires
                p * d < p * n,
                p > 0,
        ;
    } else {
        assert(v * n == 0) by (nonlinear_arith)
            requires
                n == 0,
        ;
    }
}

/// Computes `((value * ring_size) / period + offset) mod ring_size` without
/// overflow, for any value, period, ring size and offset.
pub fn map_position(value: usize, period: usize, ring_size: usize, offset: usize) -> (r: usize)
    requires
        period > 0,
        ring_size > 0,
    ensures
        r == ring_position(value as int, period as int, ring_size as int, offset as int),
        r < ring_size,
{
    proof {
        lemma_position_of_remainder(value as int, period as int, ring_size as int, offset as int);
        lemma_distance_below_ring((value % period) as int, period as int, ring_size as int);
    }
    let rem: u128 = (value % period) as u128;
    assert(rem * (ring_size as u128) <= u128::MAX) by (nonlinear_arith)
        requires
            rem <= usize::MAX,
            ring_size <= usize::MAX,
            usize::MAX < 0x1_0000_0000_0000_0000,
    ;
    let scaled: u128 = rem * (ring_size as u128) / (period as u128);
    let shift: u128 = (offset % ring_size) as u128;
    let pos: u128 = (scaled + shift) % (ring_size as u128);
    pos as usize
}

/// Every value is mapped onto a light of the ring.
pub proof fn lemma_position_in_ring(value: int, period: int, ring_size: int, offset: int)
    requires
        value >= 0,
        offset >= 0,
        period > 0,
        ring_size > 0,
    ensures
        0 <= ring_position(value, period, ring_size, offset) < ring_size,
{
}

/// Counted from the offset, positions never go backwards as the value grows
/// through one period: `map` is non-decreasing modulo the wrap of the ring.
pub proof fn lemma_position_monotonic(
    earlier: int,
    later: int,
    period: int,
    ring_size: int,
    offset: int,
)
    requires
        0 <= earlier <= later < period,
        ring_size > 0,
        offset >= 0,
    ensures
        (ring_position(earlier, period, ring_size, offset) + ring_size - offset % ring_size)
            % ring_size == ring_distance(earlier, period, ring_size),
        (ring_position(later, period, ring_size, offset) + ring_size - offset % ring_size)
            % ring_size == ring_distance(later, period, ring_size),
        ring_distance(earlier, period, ring_size) <= ring_distance(later, period, ring_size),
{
    lemma_distance_from_offset(earlier, period, ring_size, offset);
    lemma_distance_from_offset(later, period, ring_size, offset);
    assert(earlier * ring_size <= later * ring_size) by (nonlinear_arith)
        requires
            earlier <= later,
            ring_size > 0,
    ;
    lemma_div_is_ordered(earlier * ring_size, later * ring_size, period);
}

/// Turning a position back by the offset recovers the distance round the ring.
proof fn lemma_distance_from_offset(value: int, period: int, ring_size: int, offset: int)
    requires
        0 <= value < period,
        ring_size > 0,
        offset >= 0,
    ensures
        (ring_position(value, period, ring_size, offset) + ring_size - offset % ring_size)
            % ring_size == ring_distance(value, period, ring_size),
{
    let n = ring_size;
    let d = ring_distance(value, period, n);
    let o = offset % n;
    lemma_distance_below_ring(value, period, ring_size);
    lemma_add_mod_noop_right(d, offset, n);
    let pos = (d + o) % n;
    assert(pos == ring_position(value, period, n, offset));
    if d + o < n {
        assert(pos == d + o) by {
            vstd::arithmetic::div_mod::lemma_small_mod((d + o) as nat, n as nat);
        }
        assert(pos + n - o == n + d);
        lemma_mod_multiples_vanish(1, d, n);
        vstd::arithmetic::div_mod::lemma_small_mod(d as nat, n as nat);
    } else {
        lemma_fundamental_div_mod_converse(d + o, n, 1, d + o - n);
        assert(pos == d + o - n);
        vstd::arithmetic::div_mod::lemma_small_mod(d as nat, n as nat);
    }
}

} // verus!
