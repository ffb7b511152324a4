//! How the pending files are cut into groups, one transaction each.

use vstd::prelude::*;
use itertools::Itertools;

verus! {

/// The number of groups that `n` files make when each group takes at most
/// `size` of them: `n / size`, rounded up.
pub open spec fn batch_count(n: nat, size: nat) -> nat {
    if size == 0 {
        0
    } else {
        ((n + size - 1) / (size as int)) as nat
    }
}

/// The position of the first file of group `k`.
pub open spec fn batch_start(n: nat, size: nat, k: nat) -> nat {
    if k * size <= n {
        k * size
    } else {
        n
    }
}

/// The position just behind the last file of group `k`.
pub open spec fn batch_end(n: nat, size: nat, k: nat) -> nat {
    batch_start(n, size, k + 1)
}

/// The files of group `k`, in their order.
pub open spec fn batch<T>(items: Seq<T>, size: nat, k: nat) -> Seq<T> {
    items.subrange(
        batch_start(items.len(), size, k) as int,
        batch_end(items.len(), size, k) as int,
    )
}

/// The number of groups is the quotient rounded up: the groups hold all `n`
/// files, and one group fewer would not.
pub proof fn law_batch_count_is_ceiling(n: nat, size: nat)
    requires
        size >= 1,
    ensures
        batch_count(n, size) * size >= n,
        n > 0 ==> (batch_count(n, size) - 1) * size < n,
        n == 0 ==> batch_count(n, size) == 0,
{
    let c = batch_count(n, size) as int;
    let s = size as int;
    let m = (n + size - 1) as int;
    assert(c == m / s);
    assert(m == s * (m / s) + m % s && 0 <= m % s < s) by {
        vstd::arithmetic::div_mod::lemma_fundamental_div_mod(m, s);
        vstd::arithmetic::div_mod::lemma_mod_bound(m, s);
    }
    assert(c * s == s * c) by (nonlinear_arith);
    assert((c - 1) * s == c * s - s) by (nonlinear_arith);
    if n == 0 {
        vstd::arithmetic::div_mod::lemma_basic_div(m, s);
    }
}

/// Group `k` of `n` files, for `k` below the number of groups, starts at
/// `k * size`, is not empty and holds at most `size` files; the last group
/// ends with the last file.
pub proof fn lemma_batch_bounds(n: nat, size: nat, k: nat)
    requires
        size >= 1,
        k < batch_count(n, size),
    ensures
        batch_start(n, size, k) == k * size,
        batch_start(n, size, k) < batch_end(n, size, k) <= n,
        batch_end(n, size, k) - batch_start(n, size, k) <= size,
        k + 1 == batch_count(n, size) ==> batch_end(n, size, k) == n,
        k + 1 < batch_count(n, size) ==> batch_end(n, size, k) == (k + 1) * size,
{
    law_batch_count_is_ceiling(n, size);
    let c = batch_count(n, size) as int;
    let s = size as int;
    let ki = k as int;
    assert(ki * s <= (c - 1) * s) by (nonlinear_arith)
        requires
            ki <= c - 1,
            s >= 1,
    ;
    assert((ki + 1) * s == ki * s + s) by (nonlinear_arith);
    if k + 1 < batch_count(n, size) {
        assert((ki + 1) * s <= (c - 1) * s) by (nonlinear_arith)
            requires
                ki + 1 <= c - 1,
                s >= 1,
        ;
    } else {
        assert((ki + 1) * s == c * s);
    }
}

/// The groups cut the files into consecutive pieces: the first starts with
/// the first file, each next one starts where the one before it ended, none
/// is empty or longer than `size`, two different groups share no position,
/// and the last ends with the last file.
pub proof fn law_batches_partition(n: nat, size: nat)
    requires
        size >= 1,
    ensures
        batch_start(n, size, 0) == 0,
        forall|k: nat|
            k < batch_count(n, size) ==> #[trigger] batch_end(n, size, k) == batch_start(
                n,
                size,
                k + 1,
            ),
        forall|k: nat|
            k < batch_count(n, size) ==> 0 < #[trigger] batch_end(n, size, k) - batch_start(
                n,
                size,
                k,
            ) <= size,
        forall|j: nat, k: nat|
            j < k < batch_count(n, size) ==> #[trigger] batch_end(n, size, j)
                <= #[trigger] batch_start(n, size, k),
        batch_start(n, size, batch_count(n, size)) == n,
{
    law_batch_count_is_ceiling(n, size);
    assert(0 * size == 0) by (nonlinear_arith);
    assert forall|k: nat| k < batch_count(n, size) implies 0 < #[trigger] batch_end(n, size, k)
        - batch_start(n, size, k) <= size by {
        lemma_batch_bounds(n, size, k);
    }
    assert forall|j: nat, k: nat| j < k < batch_count(n, size) implies #[trigger] batch_end(
        n,
        size,
        j,
    ) <= #[trigger] batch_start(n, size, k) by {
        lemma_batch_bounds(n, size, j);
        lemma_batch_bounds(n, size, k);
        let ji = j as int;
        let ki = k as int;
        let s = size as int;
        assert((ji + 1) * s <= ki * s) by (nonlinear_arith)
            requires
                ji + 1 <= ki,
                s >= 1,
        ;
    }
    let c = batch_count(n, size);
    if c * size > n {
    } else {
        assert(c * size == n);
    }
}

/// Cuts `items` into consecutive groups of `size`, the last one possibly
/// shorter, keeping the order.
///
/// Trusted: `itertools::Itertools::chunks`, which yields the items in
/// consecutive chunks of `size` with a shorter last chunk when the count is
/// no multiple of `size`, and panics when `size` is zero.
#[verifier::external_body]
pub(crate) fn into_batches<T>(items: Vec<T>, size: usize) -> (groups: Vec<Vec<T>>)
    requires
        size > 0,
    ensures
        groups@.len() == batch_count(items@.len(), size as nat),
        forall|k: int|
            0 <= k < groups@.len() ==> (#[trigger] groups@[k])@ == batch(
                items@,
                size as nat,
                k as nat,
            ),
{
    items.into_iter().chunks(size).into_iter().map(|chunk| chunk.collect()).collect()
}

} // verus!
