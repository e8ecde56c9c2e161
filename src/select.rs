use crate::random::draw_between;
use vstd::prelude::*;

verus! {

/// The index reached from `last` by stepping `offset` places around a
/// category of `n` entries.
pub open spec fn step_around(last: int, offset: int, n: int) -> int {
    (last + offset) % n
}

/// The index chosen after `last` in a category of `n` entries when the drawn
/// offset is `offset` (between 1 and `n - 1`): never `last` itself.
pub fn next_index(last: usize, offset: usize, n: usize) -> (r: usize)
    requires
        2 <= n,
        last < n,
        1 <= offset < n,
    ensures
        r as int == step_around(last as int, offset as int, n as int),
        r < n,
        r != last,
{
    let r: usize = ((last as u128 + offset as u128) % (n as u128)) as usize;
    proof {
        lemma_step_never_returns(last as int, offset as int, n as int);
    }
    r
}

/// Picks a new index in a category of `n` entries, other than `last`, by
/// drawing the offset uniformly from `1..=n-1`.
pub fn pick_index(rng: &mut rand::rngs::StdRng, last: usize, n: usize) -> (r: usize)
    requires
        2 <= n,
        last < n,
    ensures
        r < n,
        r != last,
        exists|offset: int| 1 <= offset < n && r as int == step_around(last as int, offset, n as int),
{
    let offset = draw_between(rng, 1, n - 1);
    next_index(last, offset, n)
}

/// Stepping a non-zero offset smaller than `n` around the category never
/// lands back on the starting index, and stays inside the category.
pub proof fn lemma_step_never_returns(last: int, offset: int, n: int)
    requires
        2 <= n,
        0 <= last < n,
        1 <= offset < n,
    ensures
        0 <= step_around(last, offset, n) < n,
        step_around(last, offset, n) != last,
{
    let s = last + offset;
    assert(n <= s < 2 * n || 0 <= s < n);
    if s < n {
        assert(s % n == s) by (nonlinear_arith) requires 0 <= s < n;
    } else {
        assert(s % n == s - n) by (nonlinear_arith) requires n <= s < 2 * n;
    }
}

/// The offset that leads from `last` to `v` around a category of `n`
/// entries.
pub open spec fn offset_to(last: int, v: int, n: int) -> int {
    if v > last { v - last } else { v + n - last }
}

/// Every index other than `last` is reached by exactly one offset in
/// `1..=n-1`: a uniform offset gives a uniform choice among the other
/// `n - 1` entries.
pub proof fn lemma_step_is_one_to_one(last: int, n: int)
    requires
        2 <= n,
        0 <= last < n,
    ensures
        forall|v: int|
            0 <= v < n && v != last ==> 1 <= #[trigger] offset_to(last, v, n) < n
                && step_around(last, offset_to(last, v, n), n) == v,
        forall|a: int, b: int|
            1 <= a < n && 1 <= b < n && #[trigger] step_around(last, a, n) == #[trigger] step_around(last, b, n)
                ==> a == b,
{
    assert forall|v: int| 0 <= v < n && v != last implies 1 <= #[trigger] offset_to(last, v, n) < n
        && step_around(last, offset_to(last, v, n), n) == v by {
        let offset = offset_to(last, v, n);
        let s = last + offset;
        if v > last {
            assert(s == v);
            assert(s % n == s) by (nonlinear_arith) requires 0 <= s < n;
        } else {
            assert(s == v + n);
            assert(s % n == s - n) by (nonlinear_arith) requires n <= s < 2 * n;
        }
    }
    assert forall|a: int, b: int|
        1 <= a < n && 1 <= b < n && #[trigger] step_around(last, a, n) == #[trigger] step_around(last, b, n)
        implies a == b by {
        let sa = last + a;
        let sb = last + b;
        let ra = if sa < n { sa } else { sa - n };
        let rb = if sb < n { sb } else { sb - n };
        if sa < n {
            assert(sa % n == sa) by (nonlinear_arith) requires 0 <= sa < n;
        } else {
            assert(sa % n == sa - n) by (nonlinear_arith) requires n <= sa < 2 * n;
        }
        if sb < n {
            assert(sb % n == sb) by (nonlinear_arith) requires 0 <= sb < n;
        } else {
            assert(sb % n == sb - n) by (nonlinear_arith) requires n <= sb < 2 * n;
        }
        assert(ra == rb);
    }
}

} // verus!
