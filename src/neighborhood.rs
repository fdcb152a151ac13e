//! The tick arrays around the current price, found through the bitmap.
use vstd::prelude::*;
use crate::types::ClmmError;
use crate::pool::PoolState;
use crate::bitmap::{
    bit_set, next_set, in_bitmap, pos_of_tick, start_of_pos, representable,
    check_current_tick_array_is_initialized, pos_in_bitmap, is_bit_set, next_set_bit,
    start_index_of_pos, lemma_first_set_up, lemma_first_set_down,
};

verus! {
/// Bitmap position of the first tick array in a direction: the current one
/// where it is initialized, else the nearest initialized one beyond it, else
/// the current one.
pub open spec fn first_pos(bm: [u64; 16], cur: int, zero_for_one: bool) -> int {
    if bit_set(bm, cur) {
        cur
    } else {
        match next_set(bm, cur, zero_for_one) {
            Some(p) => p,
            None => cur,
        }
    }
}

/// Up to `k` initialized positions beyond `p`, nearest first.
pub open spec fn chain(bm: [u64; 16], p: int, zero_for_one: bool, k: nat) -> Seq<int>
    decreases k,
{
    if k == 0 {
        seq![]
    } else {
        match next_set(bm, p, zero_for_one) {
            Some(q) => seq![q] + chain(bm, q, zero_for_one, (k - 1) as nat),
            None => seq![],
        }
    }
}

/// The `n` bitmap positions of the neighborhood in one direction.
pub open spec fn neighborhood(bm: [u64; 16], cur: int, zero_for_one: bool, n: nat) -> Seq<int> {
    if n == 0 {
        seq![]
    } else {
        seq![first_pos(bm, cur, zero_for_one)] + chain(bm, first_pos(bm, cur, zero_for_one), zero_for_one, (n - 1) as nat)
    }
}

/// Start indices of the neighborhood of `pool` in one direction.
pub open spec fn neighborhood_starts(pool: PoolState, zero_for_one: bool, n: nat) -> Seq<int> {
    let s = neighborhood(pool.tick_array_bitmap, pos_of_tick(pool.tick_current as int, pool.tick_spacing as int), zero_for_one, n);
    Seq::new(s.len(), |i: int| start_of_pos(s[i], pool.tick_spacing as int))
}

/// Positions in `s` move strictly away from `p` in the direction.
pub open spec fn strictly_beyond(s: Seq<int>, p: int, zero_for_one: bool) -> bool {
    &&& forall|i: int| 0 <= i < s.len() ==> (if zero_for_one { s[i] < p } else { s[i] > p })
    &&& forall|i: int, j: int| 0 <= i < j < s.len() ==> (if zero_for_one { s[j] < s[i] } else { s[j] > s[i] })
    &&& forall|i: int| 0 <= i < s.len() ==> in_bitmap(#[trigger] s[i])
}

pub(crate) proof fn lemma_next_set_in_bitmap(bm: [u64; 16], p: int, zero_for_one: bool)
    ensures
        next_set(bm, p, zero_for_one) matches Some(q) ==> in_bitmap(q) && bit_set(bm, q)
            && (if zero_for_one { q < p } else { q > p }),
{
    lemma_first_set_up(bm, p + 1);
    lemma_first_set_down(bm, p - 1);
}

pub(crate) proof fn lemma_chain(bm: [u64; 16], p: int, zero_for_one: bool, k: nat)
    ensures
        chain(bm, p, zero_for_one, k).len() <= k,
        strictly_beyond(chain(bm, p, zero_for_one, k), p, zero_for_one),
    decreases k,
{
    if k > 0 {
        lemma_next_set_in_bitmap(bm, p, zero_for_one);
        if let Some(q) = next_set(bm, p, zero_for_one) {
            lemma_chain(bm, q, zero_for_one, (k - 1) as nat);
            let rest = chain(bm, q, zero_for_one, (k - 1) as nat);
            let s = seq![q] + rest;
            assert(forall|i: int| 0 < i < s.len() ==> s[i] == rest[i - 1]);
        }
    }
}

/// Each neighborhood list holds at most `n` tick arrays, ordered strictly
/// away from the current price, so no start index appears twice in a list.
pub proof fn lemma_neighborhood_bounded_distinct(pool: PoolState, zero_for_one: bool, n: nat)
    requires
        pool.wf(),
        representable(pool.tick_current as int, pool.tick_spacing as int),
    ensures
        neighborhood_starts(pool, zero_for_one, n).len() <= n,
        forall|i: int, j: int| 0 <= i < j < neighborhood_starts(pool, zero_for_one, n).len() ==>
            (if zero_for_one {
                neighborhood_starts(pool, zero_for_one, n)[j] < neighborhood_starts(pool, zero_for_one, n)[i]
            } else {
                neighborhood_starts(pool, zero_for_one, n)[j] > neighborhood_starts(pool, zero_for_one, n)[i]
            }),
        forall|i: int, j: int| 0 <= i < j < neighborhood_starts(pool, zero_for_one, n).len() ==>
            neighborhood_starts(pool, zero_for_one, n)[i] != neighborhood_starts(pool, zero_for_one, n)[j],
{
    let bm = pool.tick_array_bitmap;
    let c = pool.tick_spacing as int * 60;
    let cur = pos_of_tick(pool.tick_current as int, pool.tick_spacing as int);
    if n > 0 {
        let f = first_pos(bm, cur, zero_for_one);
        lemma_next_set_in_bitmap(bm, cur, zero_for_one);
        lemma_chain(bm, f, zero_for_one, (n - 1) as nat);
        let rest = chain(bm, f, zero_for_one, (n - 1) as nat);
        let s = neighborhood(bm, cur, zero_for_one, n);
        assert(s == seq![f] + rest);
        assert forall|i: int, j: int| 0 <= i < j < s.len() implies
            (if zero_for_one { s[j] < s[i] } else { s[j] > s[i] }) by {
            if i > 0 {
                assert(s[i] == rest[i - 1] && s[j] == rest[j - 1]);
            } else {
                assert(s[j] == rest[j - 1]);
            }
        }
        let t = neighborhood_starts(pool, zero_for_one, n);
        assert forall|i: int, j: int| 0 <= i < j < t.len() implies
            (if zero_for_one { t[j] < t[i] } else { t[j] > t[i] }) by {
            let a = s[i] - 512;
            let b = s[j] - 512;
            if zero_for_one {
                assert(b * c < a * c) by (nonlinear_arith) requires b < a, c > 0;
            } else {
                assert(b * c > a * c) by (nonlinear_arith) requires b > a, c > 0;
            }
        }
    }
}

/// Where the tick array containing the current price is initialized, both
/// neighborhood lists start with it.
pub proof fn lemma_current_array_shared(pool: PoolState, n: nat)
    requires
        pool.wf(),
        representable(pool.tick_current as int, pool.tick_spacing as int),
        bit_set(pool.tick_array_bitmap, pos_of_tick(pool.tick_current as int, pool.tick_spacing as int)),
        n > 0,
    ensures
        neighborhood_starts(pool, true, n)[0] == neighborhood_starts(pool, false, n)[0],
        neighborhood_starts(pool, true, n)[0]
            == start_of_pos(pos_of_tick(pool.tick_current as int, pool.tick_spacing as int), pool.tick_spacing as int),
{
}

/// The start indices of the tick arrays around the current price in one
/// direction (toward lower prices when `zero_for_one` holds), nearest first:
/// the first one as `first_pos` gives it, then up to `n - 1` initialized ones
/// beyond it. Fails with `UnrepresentableRange` where the bitmap does not
/// cover the current tick.
pub fn nearest_tick_array_starts(pool: &PoolState, n: u8, zero_for_one: bool) -> (r: Result<Vec<i32>, ClmmError>)
    requires
        pool.wf(),
    ensures
        r is Ok <==> representable(pool.tick_current as int, pool.tick_spacing as int),
        r matches Err(e) ==> e == ClmmError::UnrepresentableRange,
        r matches Ok(v) ==> v@.len() == neighborhood_starts(*pool, zero_for_one, n as nat).len()
            && forall|i: int| 0 <= i < v@.len() ==> v@[i] as int == #[trigger] neighborhood_starts(*pool, zero_for_one, n as nat)[i],
{
    let bm = &pool.tick_array_bitmap;
    let spacing = pool.tick_spacing;
    match check_current_tick_array_is_initialized(bm, pool.tick_current, spacing) {
        Err(e) => {
            return Err(e);
        },
        Ok(_) => {},
    }
    let cur = match pos_in_bitmap(pool.tick_current, spacing) {
        Some(p) => p,
        None => {
            return Err(ClmmError::UnrepresentableRange);
        },
    };
    let ghost full = neighborhood(*bm, cur as int, zero_for_one, n as nat);
    let mut out: Vec<i32> = Vec::new();
    if n == 0 {
        return Ok(out);
    }
    let first: u32 = if is_bit_set(bm, cur) {
        cur
    } else {
        match next_set_bit(bm, cur, zero_for_one) {
            Some(p) => p,
            None => cur,
        }
    };
    out.push(start_index_of_pos(first, spacing));
    let ghost mut got: Seq<int> = seq![first as int];
    let mut p: u32 = first;
    let mut left: u8 = n - 1;
    while left > 0
        invariant
            p < 1024,
            spacing > 0,
            spacing == pool.tick_spacing,
            *bm == pool.tick_array_bitmap,
            got + chain(*bm, p as int, zero_for_one, left as nat) == full,
            out@.len() == got.len(),
            forall|i: int| 0 <= i < out@.len() ==> out@[i] as int == start_of_pos(got[i], spacing as int),
        decreases left,
    {
        match next_set_bit(bm, p, zero_for_one) {
            Some(q) => {
                out.push(start_index_of_pos(q, spacing));
                proof {
                    assert(chain(*bm, p as int, zero_for_one, left as nat)
                        == seq![q as int] + chain(*bm, q as int, zero_for_one, (left - 1) as nat));
                    assert(got + chain(*bm, p as int, zero_for_one, left as nat)
                        == got.push(q as int) + chain(*bm, q as int, zero_for_one, (left - 1) as nat));
                    got = got.push(q as int);
                }
                p = q;
                left = left - 1;
            },
            None => {
                proof {
                    assert(chain(*bm, p as int, zero_for_one, left as nat) == Seq::<int>::empty());
                    assert(got + Seq::<int>::empty() == got);
                }
                left = 0;
            },
        }
    }
    proof {
        assert(got + chain(*bm, p as int, zero_for_one, 0) == got);
    }
    Ok(out)
}

/// The tick arrays to fetch: the upward list, then the downward list without
/// its first entry where both lists start with the same array.
pub open spec fn fetch_starts<T>(up: Seq<T>, down: Seq<T>) -> Seq<T> {
    if up.len() > 0 && down.len() > 0 && up[0] == down[0] {
        up + down.drop_first()
    } else {
        up + down
    }
}

proof fn lemma_neighborhood_sides(bm: [u64; 16], cur: int, zero_for_one: bool, n: nat)
    requires
        in_bitmap(cur),
    ensures
        forall|i: int| 0 <= i < neighborhood(bm, cur, zero_for_one, n).len() ==>
            (if zero_for_one {
                #[trigger] neighborhood(bm, cur, zero_for_one, n)[i] <= cur
            } else {
                neighborhood(bm, cur, zero_for_one, n)[i] >= cur
            }),
        forall|i: int| 1 <= i < neighborhood(bm, cur, zero_for_one, n).len() ==>
            (if zero_for_one {
                #[trigger] neighborhood(bm, cur, zero_for_one, n)[i] < cur
            } else {
                neighborhood(bm, cur, zero_for_one, n)[i] > cur
            }),
{
    if n > 0 {
        let f = first_pos(bm, cur, zero_for_one);
        lemma_next_set_in_bitmap(bm, cur, zero_for_one);
        lemma_chain(bm, f, zero_for_one, (n - 1) as nat);
        let rest = chain(bm, f, zero_for_one, (n - 1) as nat);
        let s = neighborhood(bm, cur, zero_for_one, n);
        assert(s == seq![f] + rest);
        assert forall|i: int| 1 <= i < s.len() implies (if zero_for_one { s[i] < cur } else { s[i] > cur }) by {
            assert(s[i] == rest[i - 1]);
        }
    }
}

/// The tick arrays to fetch hold no start index twice: within a direction the
/// lists move strictly away from the price, and the only array both
/// directions can hold, the one containing the current price, is kept once.
pub proof fn lemma_fetch_list_distinct(pool: PoolState, n: nat)
    requires
        pool.wf(),
        representable(pool.tick_current as int, pool.tick_spacing as int),
    ensures
        ({
            let f = fetch_starts(neighborhood_starts(pool, false, n), neighborhood_starts(pool, true, n));
            forall|i: int, j: int| 0 <= i < j < f.len() ==> f[i] != f[j]
        }),
{
    let bm = pool.tick_array_bitmap;
    let sp = pool.tick_spacing as int;
    let c = sp * 60;
    let cur = pos_of_tick(pool.tick_current as int, sp);
    let up = neighborhood_starts(pool, false, n);
    let down = neighborhood_starts(pool, true, n);
    let pu = neighborhood(bm, cur, false, n);
    let pd = neighborhood(bm, cur, true, n);
    lemma_neighborhood_bounded_distinct(pool, false, n);
    lemma_neighborhood_bounded_distinct(pool, true, n);
    lemma_neighborhood_sides(bm, cur, false, n);
    lemma_neighborhood_sides(bm, cur, true, n);
    let cs = start_of_pos(cur, sp);
    // up lies at or above the current array, down at or below; only the first
    // entry of each can be the current array
    assert forall|i: int| 0 <= i < up.len() implies up[i] >= cs && (i >= 1 ==> up[i] > cs) by {
        assert(up[i] == start_of_pos(pu[i], sp));
        assert((pu[i] - 512) * c >= (cur - 512) * c) by (nonlinear_arith) requires pu[i] >= cur, c > 0;
        if i >= 1 {
            assert((pu[i] - 512) * c > (cur - 512) * c) by (nonlinear_arith) requires pu[i] > cur, c > 0;
        }
    }
    assert forall|i: int| 0 <= i < down.len() implies down[i] <= cs && (i >= 1 ==> down[i] < cs) by {
        assert(down[i] == start_of_pos(pd[i], sp));
        assert((pd[i] - 512) * c <= (cur - 512) * c) by (nonlinear_arith) requires pd[i] <= cur, c > 0;
        if i >= 1 {
            assert((pd[i] - 512) * c < (cur - 512) * c) by (nonlinear_arith) requires pd[i] < cur, c > 0;
        }
    }
    let f = fetch_starts(up, down);
    let shared = up.len() > 0 && down.len() > 0 && up[0] == down[0];
    let d = if shared { down.drop_first() } else { down };
    let k: int = if shared { 1 } else { 0 };
    assert(f == up + d);
    assert forall|i: int, j: int| 0 <= i < j < f.len() implies f[i] != f[j] by {
        if j < up.len() {
        } else if i >= up.len() {
            assert(f[i] == down[i - up.len() + k] && f[j] == down[j - up.len() + k]);
        } else {
            assert(f[i] == up[i] && f[j] == down[j - up.len() + k]);
            if up[i] == down[j - up.len() + k] {
                assert(up[i] == cs);
                assert(i == 0 && j - up.len() + k == 0);
            }
        }
    }
}

pub(crate) fn fetch_start_list(up: &Vec<i32>, down: &Vec<i32>) -> (r: Vec<i32>)
    ensures
        r@ == fetch_starts(up@, down@),
{
    let mut r: Vec<i32> = up.clone();
    assert(r@ =~= up@);
    let skip: usize = if up.len() > 0 && down.len() > 0 && up[0] == down[0] { 1 } else { 0 };
    let ghost tail = down@.skip(skip as int);
    let mut i: usize = skip;
    while i < down.len()
        invariant
            skip <= i <= down@.len(),
            r@ == up@ + down@.subrange(skip as int, i as int),
        decreases down@.len() - i,
    {
        r.push(down[i]);
        i = i + 1;
        assert(r@ =~= up@ + down@.subrange(skip as int, i as int));
    }
    assert(down@.subrange(skip as int, down@.len() as int) =~= tail);
    assert(down@.drop_first() =~= down@.skip(1));
    assert(down@.skip(0) =~= down@);
    r
}

} // verus!
