//! The pool's 1024-bit tick-array bitmap and the search over it.
//!
//! Bit `p` flags the tick array whose start index is `(p - 512) * c`, where
//! `c = tick_spacing * TICK_ARRAY_SIZE` is the number of ticks one array
//! spans. The bitmap thus covers start indices in `[-512 * c, 512 * c)`.
use vstd::prelude::*;
use vstd::arithmetic::div_mod::{lemma_fundamental_div_mod, lemma_fundamental_div_mod_converse};
use crate::types::ClmmError;

verus! {

/// Ticks held by one tick array, per unit of tick spacing.
pub const TICK_ARRAY_SIZE: i64 = 60;
/// Lowest tick a price can take.
pub const MIN_TICK: i32 = -443636;
/// Highest tick a price can take.
pub const MAX_TICK: i32 = 443636;

/// Number of ticks one tick array spans.
pub open spec fn tick_count(spacing: int) -> int {
    spacing * 60
}

/// Index of the bitmap bit for the tick array that contains `tick`.
pub open spec fn pos_of_tick(tick: int, spacing: int) -> int {
    tick / tick_count(spacing) + 512
}

/// Start index of the tick array that contains `tick`.
pub open spec fn array_start(tick: int, spacing: int) -> int {
    (tick / tick_count(spacing)) * tick_count(spacing)
}

/// Start index of the tick array flagged by bit `p`.
pub open spec fn start_of_pos(p: int, spacing: int) -> int {
    (p - 512) * tick_count(spacing)
}

pub open spec fn in_bitmap(p: int) -> bool {
    0 <= p < 1024
}

/// Whether bit `p` of the bitmap is set.
pub open spec fn bit_set(bm: [u64; 16], p: int) -> bool {
    (bm@[p / 64] >> ((p % 64) as u64)) & 1u64 == 1u64
}

/// The lowest set bit at `p` or above.
pub open spec fn first_set_up(bm: [u64; 16], p: int) -> Option<int>
    decreases 1024 - p,
{
    if p < 0 || p >= 1024 {
        None
    } else if bit_set(bm, p) {
        Some(p)
    } else {
        first_set_up(bm, p + 1)
    }
}

/// The highest set bit at `p` or below.
pub open spec fn first_set_down(bm: [u64; 16], p: int) -> Option<int>
    decreases p + 1,
{
    if p < 0 || p >= 1024 {
        None
    } else if bit_set(bm, p) {
        Some(p)
    } else {
        first_set_down(bm, p - 1)
    }
}

/// The nearest set bit strictly beyond `p`, toward lower ticks when
/// `zero_for_one` holds and toward higher ones otherwise.
pub open spec fn next_set(bm: [u64; 16], p: int, zero_for_one: bool) -> Option<int> {
    if zero_for_one {
        first_set_down(bm, p - 1)
    } else {
        first_set_up(bm, p + 1)
    }
}

/// A tick the price can take and whose tick array the bitmap covers.
pub open spec fn representable(tick: int, spacing: int) -> bool {
    MIN_TICK <= tick <= MAX_TICK && in_bitmap(pos_of_tick(tick, spacing))
}

/// What the search from the tick array containing `last` finds: the start
/// index of the nearest initialized tick array beyond it in the direction.
pub open spec fn next_start_spec(bm: [u64; 16], last: int, spacing: int, zero_for_one: bool) -> Option<int> {
    let from = pos_of_tick(last, spacing);
    if !in_bitmap(from) {
        None
    } else {
        match next_set(bm, from, zero_for_one) {
            Some(p) => Some(start_of_pos(p, spacing)),
            None => None,
        }
    }
}

pub open spec fn opt_i32(r: Option<i32>) -> Option<int> {
    match r {
        Some(x) => Some(x as int),
        None => None,
    }
}

pub open spec fn opt_u32(r: Option<u32>) -> Option<int> {
    match r {
        Some(x) => Some(x as int),
        None => None,
    }
}

pub proof fn lemma_first_set_up(bm: [u64; 16], p: int)
    ensures
        first_set_up(bm, p) matches Some(q) ==> p <= q < 1024 && bit_set(bm, q)
            && forall|k: int| p <= k < q ==> !bit_set(bm, k),
        first_set_up(bm, p) is None && 0 <= p ==> forall|k: int| p <= k < 1024 ==> !bit_set(bm, k),
    decreases 1024 - p,
{
    if 0 <= p < 1024 && !bit_set(bm, p) {
        lemma_first_set_up(bm, p + 1);
    }
}

pub proof fn lemma_first_set_down(bm: [u64; 16], p: int)
    ensures
        first_set_down(bm, p) matches Some(q) ==> 0 <= q <= p && bit_set(bm, q)
            && forall|k: int| q < k <= p ==> !bit_set(bm, k),
        first_set_down(bm, p) is None && p < 1024 ==> forall|k: int| 0 <= k <= p ==> !bit_set(bm, k),
    decreases p + 1,
{
    if 0 <= p < 1024 && !bit_set(bm, p) {
        lemma_first_set_down(bm, p - 1);
    }
}

/// Floor division of `t` by a positive `c`.
fn floor_div(t: i64, c: i64) -> (q: i64)
    requires
        60 <= c <= 0x10000 * 60,
        i32::MIN <= t <= i32::MAX,
    ensures
        q == t / c,
{
    let k: i64 = 40_000_000;
    let shifted = t + c * k;
    proof {
        let ti = t as int;
        let ci = c as int;
        let ki = k as int;
        lemma_fundamental_div_mod(ti, ci);
        assert(ti + ci * ki == (ti / ci + ki) * ci + ti % ci) by (nonlinear_arith)
            requires
                ti == ci * (ti / ci) + ti % ci;
        assert(ci * ki > 0x8000_0000 && ci * ki <= 0x10000 * 60 * 40_000_000) by (nonlinear_arith)
            requires 60 <= ci <= 0x10000 * 60, ki == 40_000_000;
        lemma_fundamental_div_mod_converse(ti + ci * ki, ci, ti / ci + ki, ti % ci);
    }
    shifted / c - k
}

/// Whether bit `p` of the bitmap is set.
pub fn is_bit_set(bm: &[u64; 16], p: u32) -> (r: bool)
    requires
        p < 1024,
    ensures
        r == bit_set(*bm, p as int),
{
    let w = bm[(p / 64) as usize];
    (w >> ((p % 64) as u64)) & 1u64 == 1u64
}

/// The nearest set bit strictly beyond `p` in the direction.
pub fn next_set_bit(bm: &[u64; 16], p: u32, zero_for_one: bool) -> (r: Option<u32>)
    requires
        p < 1024,
    ensures
        opt_u32(r) == next_set(*bm, p as int, zero_for_one),
        r matches Some(q) ==> q < 1024,
{
    if zero_for_one {
        let mut q: u32 = p;
        while q > 0
            invariant
                q <= p < 1024,
                zero_for_one,
                first_set_down(*bm, p as int - 1) == first_set_down(*bm, q as int - 1),
            decreases q,
        {
            if is_bit_set(bm, q - 1) {
                let r = Some(q - 1);
                assert(first_set_down(*bm, q as int - 1) == Some(q as int - 1));
                return r;
            }
            q = q - 1;
        }
        None
    } else {
        let mut q: u32 = p + 1;
        while q < 1024
            invariant
                p < q <= 1024,
                !zero_for_one,
                first_set_up(*bm, p as int + 1) == first_set_up(*bm, q as int),
            decreases 1024 - q,
        {
            if is_bit_set(bm, q) {
                let r = Some(q);
                assert(first_set_up(*bm, q as int) == Some(q as int));
                return r;
            }
            q = q + 1;
        }
        None
    }
}

/// Start index of the tick array that contains `tick`.
pub fn get_array_start_index(tick: i32, tick_spacing: u16) -> (r: i32)
    requires
        tick_spacing > 0,
        MIN_TICK <= tick <= MAX_TICK,
    ensures
        r == array_start(tick as int, tick_spacing as int),
{
    let c: i64 = tick_spacing as i64 * TICK_ARRAY_SIZE;
    let q = floor_div(tick as i64, c);
    proof {
        let ti = tick as int;
        let ci = c as int;
        lemma_fundamental_div_mod(ti, ci);
        assert(q * ci <= ti && ti - ci < q * ci) by (nonlinear_arith)
            requires
                ti == ci * q + ti % ci,
                0 <= ti % ci < ci;
    }
    (q * c) as i32
}

/// Position of the tick array containing `tick` in the bitmap, where the
/// bitmap covers it.
pub fn pos_in_bitmap(tick: i32, tick_spacing: u16) -> (r: Option<u32>)
    requires
        tick_spacing > 0,
    ensures
        r matches Some(p) ==> in_bitmap(pos_of_tick(tick as int, tick_spacing as int))
            && p == pos_of_tick(tick as int, tick_spacing as int),
        r is None ==> !in_bitmap(pos_of_tick(tick as int, tick_spacing as int)),
{
    let c: i64 = tick_spacing as i64 * TICK_ARRAY_SIZE;
    let q = floor_div(tick as i64, c);
    if q < -512 || q >= 512 {
        None
    } else {
        Some((q + 512) as u32)
    }
}

/// Start index of the tick array flagged by bit `p`.
pub fn start_index_of_pos(p: u32, tick_spacing: u16) -> (r: i32)
    requires
        p < 1024,
        tick_spacing > 0,
    ensures
        r == start_of_pos(p as int, tick_spacing as int),
{
    let c: i64 = tick_spacing as i64 * TICK_ARRAY_SIZE;
    let d: i64 = p as i64 - 512;
    assert(-512 * c <= d * c < 512 * c) by (nonlinear_arith)
        requires -512 <= d < 512, 0 < c <= 0x10000 * 60;
    (d * c) as i32
}

/// The start index of the nearest initialized tick array beyond the one that
/// contains `last_tick_array_start_index`, toward lower ticks when
/// `zero_for_one` holds; `None` where there is none within the bitmap, or the
/// bitmap does not cover the starting array.
pub fn next_initialized_tick_array_start_index(
    bm: &[u64; 16],
    last_tick_array_start_index: i32,
    tick_spacing: u16,
    zero_for_one: bool,
) -> (r: Option<i32>)
    requires
        tick_spacing > 0,
    ensures
        opt_i32(r) == next_start_spec(*bm, last_tick_array_start_index as int, tick_spacing as int, zero_for_one),
{
    match pos_in_bitmap(last_tick_array_start_index, tick_spacing) {
        None => None,
        Some(from) => match next_set_bit(bm, from, zero_for_one) {
            Some(p) => Some(start_index_of_pos(p, tick_spacing)),
            None => None,
        },
    }
}

/// Whether the tick array containing `tick_current` is flagged initialized,
/// with its start index. Fails with `UnrepresentableRange` where the tick lies
/// outside the price range or outside what the bitmap covers.
pub fn check_current_tick_array_is_initialized(
    bm: &[u64; 16],
    tick_current: i32,
    tick_spacing: u16,
) -> (r: Result<(bool, i32), ClmmError>)
    requires
        tick_spacing > 0,
    ensures
        r is Ok <==> representable(tick_current as int, tick_spacing as int),
        r matches Ok((init, start)) ==> init == bit_set(*bm, pos_of_tick(tick_current as int, tick_spacing as int))
            && start == array_start(tick_current as int, tick_spacing as int),
        r matches Err(e) ==> e == ClmmError::UnrepresentableRange,
{
    if tick_current < MIN_TICK || tick_current > MAX_TICK {
        return Err(ClmmError::UnrepresentableRange);
    }
    match pos_in_bitmap(tick_current, tick_spacing) {
        None => Err(ClmmError::UnrepresentableRange),
        Some(p) => Ok((is_bit_set(bm, p), get_array_start_index(tick_current, tick_spacing))),
    }
}

} // verus!
