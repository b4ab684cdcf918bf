//! Facts of integer arithmetic on which the grid's indexing and its
//! wraparound rest.

use vstd::prelude::*;

verus! {

/// The flat index of a position of a `w` by `h` grid lies within the grid.
pub proof fn lemma_index_in_range(w: int, h: int, x: int, y: int)
    requires
        0 <= x < w,
        0 <= y < h,
    ensures
        0 <= x + y * w < w * h,
        y * w <= x + y * w,
{
    assert(0 <= y * w && y * w + w <= h * w && h * w == w * h) by (nonlinear_arith)
        requires
            0 < w,
            0 <= y < h,
    ;
}

/// Column and row are recovered from a flat index by remainder and quotient.
pub proof fn lemma_index_coords(w: int, x: int, y: int)
    requires
        0 <= x < w,
    ensures
        (x + y * w) % w == x,
        (x + y * w) / w == y,
{
    vstd::arithmetic::div_mod::lemma_fundamental_div_mod_converse(x + y * w, w, y, x);
}

/// A flat index within a `w` by `h` grid names the position given by its
/// remainder and its quotient by `w`.
pub proof fn lemma_flat_index(w: int, h: int, i: int)
    requires
        0 < w,
        0 <= i < w * h,
    ensures
        0 <= i % w < w,
        0 <= i / w < h,
        i == i % w + (i / w) * w,
{
    vstd::arithmetic::div_mod::lemma_fundamental_div_mod(i, w);
    let q = i / w;
    assert(0 <= q < h) by (nonlinear_arith)
        requires
            0 < w,
            0 <= i < w * h,
            0 <= i - w * q < w,
    ;
    assert(w * q == q * w) by (nonlinear_arith);
}

/// The coordinate before `c` on a torus of circumference `n`.
pub open spec fn wrap_prev(c: int, n: int) -> int {
    if c == 0 {
        n - 1
    } else {
        c - 1
    }
}

/// The coordinate after `c` on a torus of circumference `n`.
pub open spec fn wrap_next(c: int, n: int) -> int {
    if c == n - 1 {
        0
    } else {
        c + 1
    }
}

/// Reducing the neighbours of a coordinate in `0..n` modulo `n` steps over
/// the edge to the opposite side and changes nothing elsewhere.
pub proof fn lemma_wrap_step(c: int, n: int)
    requires
        0 <= c < n,
    ensures
        (c - 1) % n == wrap_prev(c, n),
        c % n == c,
        (c + 1) % n == wrap_next(c, n),
{
    vstd::arithmetic::div_mod::lemma_small_mod(c as nat, n as nat);
    if c == 0 {
        vstd::arithmetic::div_mod::lemma_fundamental_div_mod_converse(c - 1, n, -1, n - 1);
    } else {
        vstd::arithmetic::div_mod::lemma_small_mod((c - 1) as nat, n as nat);
    }
    if c == n - 1 {
        vstd::arithmetic::div_mod::lemma_fundamental_div_mod_converse(c + 1, n, 1, 0);
    } else {
        vstd::arithmetic::div_mod::lemma_small_mod((c + 1) as nat, n as nat);
    }
}

/// The neighbours of a coordinate are those of its reduction modulo `n`.
pub proof fn lemma_wrap_shift(c: int, d: int, n: int)
    requires
        0 < n,
    ensures
        0 <= c % n < n,
        (c + d) % n == (c % n + d) % n,
{
    vstd::arithmetic::div_mod::lemma_mod_bound(c, n);
    vstd::arithmetic::div_mod::lemma_add_mod_noop(c, d, n);
    vstd::arithmetic::div_mod::lemma_add_mod_noop(c % n, d, n);
    vstd::arithmetic::div_mod::lemma_mod_twice(c, n);
}

} // verus!
