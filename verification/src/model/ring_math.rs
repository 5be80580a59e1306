//! Arithmetic on positions of a ring of `n` slots.
//!
//! Every function here works on plain integers, so that the same rules serve the
//! verified handles of this crate and any other front end that keeps its indices
//! elsewhere (for instance in atomics).

use vstd::prelude::*;

verus! {

/// Number of steps walked forward around a ring of `n` slots to get from `from` to `to`.
pub open spec fn ring_dist(from: int, to: int, n: int) -> int {
    if from <= to {
        to - from
    } else {
        n - from + to
    }
}

/// Position reached from `i` after `k` steps forward around a ring of `n` slots.
pub open spec fn ring_add(i: int, k: int, n: int) -> int {
    if i + k >= n {
        i + k - n
    } else {
        i + k
    }
}

/// Position reached from `i` after `k` steps backward around a ring of `n` slots.
pub open spec fn ring_sub(i: int, k: int, n: int) -> int {
    if i < k {
        n - (k - i)
    } else {
        i - k
    }
}

/// Slots a producer standing at `prod` may fill when the consumer stands at `cons`.
/// One slot always stays empty, which is how a full ring is told from an empty one.
pub open spec fn free_slots(prod: int, cons: int, n: int) -> int {
    if prod < cons {
        cons - prod - 1
    } else {
        n - prod + cons - 1
    }
}

/// `x` lies on the forward walk from `a` to `b` (both ends included).
pub open spec fn ring_between(a: int, x: int, b: int, n: int) -> bool {
    ring_dist(a, x, n) + ring_dist(x, b, n) == ring_dist(a, b, n)
}

/// Length of the first of the two pieces that a window of `count` slots starting at
/// `index` is cut into: the piece that ends at the end of the storage at the latest.
pub open spec fn head_len(index: int, count: int, n: int) -> int {
    if count <= n - index {
        count
    } else {
        n - index
    }
}

/// Length of the second piece of such a window: what wrapped around to position 0.
pub open spec fn tail_len(index: int, count: int, n: int) -> int {
    count - head_len(index, count, n)
}

/// Largest multiple of `m` that is at most `avail`.
pub open spec fn largest_multiple(avail: int, m: int) -> int {
    avail - avail % m
}

/// Smallest multiple of `page_size` that is at least `min_size`.
pub open spec fn page_multiple(min_size: int, page_size: int) -> int {
    if min_size % page_size == 0 {
        min_size
    } else {
        (min_size / page_size + 1) * page_size
    }
}

/// The walk from `from` to `to` is the difference of the two positions modulo `n`.
pub proof fn lemma_ring_dist_is_mod(from: int, to: int, n: int)
    requires
        0 <= from < n,
        0 <= to < n,
    ensures
        ring_dist(from, to, n) == (to - from) % n,
        0 <= ring_dist(from, to, n) < n,
{
    if from <= to {
        vstd::arithmetic::div_mod::lemma_small_mod((to - from) as nat, n as nat);
    } else {
        vstd::arithmetic::div_mod::lemma_small_mod((n - from + to) as nat, n as nat);
        vstd::arithmetic::div_mod::lemma_mod_add_multiples_vanish(to - from, n);
    }
}

/// The producer's room is `(cons - prod - 1) mod n`.
pub proof fn lemma_free_slots_is_mod(prod: int, cons: int, n: int)
    requires
        0 <= prod < n,
        0 <= cons < n,
    ensures
        free_slots(prod, cons, n) == (cons - prod - 1) % n,
        0 <= free_slots(prod, cons, n) < n,
        free_slots(prod, cons, n) == n - 1 - ring_dist(cons, prod, n),
{
    if prod < cons {
        vstd::arithmetic::div_mod::lemma_small_mod((cons - prod - 1) as nat, n as nat);
    } else {
        vstd::arithmetic::div_mod::lemma_small_mod((n - prod + cons - 1) as nat, n as nat);
        vstd::arithmetic::div_mod::lemma_mod_add_multiples_vanish(cons - prod - 1, n);
    }
}

/// Stepping forward is addition modulo `n`, and undoes stepping backward.
pub proof fn lemma_ring_add_is_mod(i: int, k: int, n: int)
    requires
        0 <= i < n,
        0 <= k <= n,
    ensures
        ring_add(i, k, n) == (i + k) % n,
        0 <= ring_add(i, k, n) < n,
        ring_sub(ring_add(i, k, n), k, n) == i,
{
    if i + k >= n {
        vstd::arithmetic::div_mod::lemma_small_mod((i + k - n) as nat, n as nat);
        vstd::arithmetic::div_mod::lemma_mod_add_multiples_vanish(i + k - n, n);
    } else {
        vstd::arithmetic::div_mod::lemma_small_mod((i + k) as nat, n as nat);
    }
}

/// Stepping backward is subtraction modulo `n`, and undoes stepping forward.
pub proof fn lemma_ring_sub_is_mod(i: int, k: int, n: int)
    requires
        0 <= i < n,
        0 <= k <= n,
    ensures
        ring_sub(i, k, n) == (i - k) % n,
        0 <= ring_sub(i, k, n) < n,
        ring_add(ring_sub(i, k, n), k, n) == i,
{
    if i < k {
        vstd::arithmetic::div_mod::lemma_small_mod((n - (k - i)) as nat, n as nat);
        vstd::arithmetic::div_mod::lemma_mod_add_multiples_vanish(i - k, n);
    } else {
        vstd::arithmetic::div_mod::lemma_small_mod((i - k) as nat, n as nat);
    }
}

/// Slots between `index` and `succ` that a worker or a consumer standing at `index`
/// may take.
pub fn pending_slots(index: usize, succ: usize, len: usize) -> (r: usize)
    requires
        index < len,
        succ < len,
    ensures
        r == ring_dist(index as int, succ as int, len as int),
        r < len,
{
    if index <= succ {
        succ - index
    } else {
        len - index + succ
    }
}

/// Slots that a producer standing at `index` may fill while the consumer stands at `succ`.
pub fn vacant_slots(index: usize, succ: usize, len: usize) -> (r: usize)
    requires
        index < len,
        succ < len,
    ensures
        r == free_slots(index as int, succ as int, len as int),
        r < len,
{
    if index < succ {
        succ - index - 1
    } else {
        len - index + succ - 1
    }
}

/// Moves `index` forward by `count`, wrapping at `len`.
pub fn step_forward(index: usize, count: usize, len: usize) -> (r: usize)
    requires
        index < len,
        count <= len,
    ensures
        r == ring_add(index as int, count as int, len as int),
        r < len,
{
    if count >= len - index {
        count - (len - index)
    } else {
        index + count
    }
}

/// Moves `index` backward by `count`, wrapping at position 0.
pub fn step_backward(index: usize, count: usize, len: usize) -> (r: usize)
    requires
        index < len,
        count <= len,
    ensures
        r == ring_sub(index as int, count as int, len as int),
        r < len,
{
    if index < count {
        len - (count - index)
    } else {
        index - count
    }
}

/// Lengths of the two pieces of a window of `count` slots that starts at `index`.
pub fn window_lengths(index: usize, count: usize, len: usize) -> (r: (usize, usize))
    requires
        index < len,
        count <= len,
    ensures
        r.0 == head_len(index as int, count as int, len as int),
        r.1 == tail_len(index as int, count as int, len as int),
        r.0 + r.1 == count,
        index + r.0 <= len,
        r.1 <= index,
{
    if count <= len - index {
        (count, 0)
    } else {
        (len - index, count - (len - index))
    }
}

/// Rounds `min_size` up to a multiple of `page_size`, the size of a memory page of
/// the machine, which the caller has asked the system for.
pub fn get_page_size_mul(min_size: usize, page_size: usize) -> (r: usize)
    requires
        page_size > 0,
        page_multiple(min_size as int, page_size as int) <= usize::MAX,
    ensures
        r == page_multiple(min_size as int, page_size as int),
{
    let rem: usize = min_size % page_size;
    if rem == 0 {
        min_size
    } else {
        proof {
            lemma_page_multiple_gap(min_size as int, page_size as int);
        }
        min_size + (page_size - rem)
    }
}

/// Where `min_size` is no multiple of `page_size`, the next multiple lies
/// `page_size - min_size % page_size` further on.
pub proof fn lemma_page_multiple_gap(min_size: int, page_size: int)
    requires
        0 <= min_size,
        0 < page_size,
        min_size % page_size != 0,
    ensures
        page_multiple(min_size, page_size) == min_size + (page_size - min_size % page_size),
{
    vstd::arithmetic::div_mod::lemma_fundamental_div_mod(min_size, page_size);
    assert((min_size / page_size + 1) * page_size == page_size * (min_size / page_size)
        + page_size) by (nonlinear_arith);
}

/// What `get_page_size_mul` computes is the least multiple of the page size that
/// holds `min_size` slots.
pub proof fn lemma_page_multiple_is_least(min_size: int, page_size: int, m: int)
    requires
        0 <= min_size,
        0 < page_size,
        m % page_size == 0,
        min_size <= m,
    ensures
        page_multiple(min_size, page_size) % page_size == 0,
        min_size <= page_multiple(min_size, page_size) <= m,
{
    vstd::arithmetic::div_mod::lemma_fundamental_div_mod(min_size, page_size);
    vstd::arithmetic::div_mod::lemma_fundamental_div_mod(m, page_size);
    let q = min_size / page_size;
    let p = m / page_size;
    if min_size % page_size != 0 {
        lemma_page_multiple_gap(min_size, page_size);
        vstd::arithmetic::div_mod::lemma_mod_multiples_basic(q + 1, page_size);
        assert(p > q) by (nonlinear_arith)
            requires
                page_size * p >= page_size * q + min_size % page_size,
                min_size % page_size > 0,
                page_size > 0,
        ;
        assert(page_size * p >= page_size * (q + 1)) by (nonlinear_arith)
            requires
                p >= q + 1,
                page_size > 0,
        ;
        assert((q + 1) * page_size == page_size * (q + 1)) by (nonlinear_arith);
    }
}

} // verus!
