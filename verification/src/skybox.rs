//! Which cubemap the skybox shows: the first format the hardware
//! supports at startup, then cycling to the next supported one at each
//! swap.

use vstd::prelude::*;

verus! {

/// `i` is the first supported slot.
pub open spec fn is_first_supported(supported: Seq<bool>, i: int) -> bool {
    &&& 0 <= i < supported.len()
    &&& supported[i]
    &&& forall|j: int| 0 <= j < i ==> !supported[j]
}

/// Picks the cubemap to start with: the first slot the hardware
/// supports, or the first slot at all when it supports none.
pub fn pick_initial_cubemap(supported: &[bool]) -> (r: usize)
    ensures
        (exists|i: int| is_first_supported(supported@, i)) ==> is_first_supported(
            supported@,
            r as int,
        ),
        !(exists|i: int| is_first_supported(supported@, i)) ==> r == 0,
{
    let mut k: usize = 0;
    while k < supported.len()
        invariant
            k <= supported@.len(),
            forall|j: int| 0 <= j < k ==> !supported@[j],
        decreases supported@.len() - k,
    {
        if supported[k] {
            proof {
                assert(is_first_supported(supported@, k as int));
            }
            return k;
        }
        k = k + 1;
    }
    proof {
        assert forall|i: int| !is_first_supported(supported@, i) by {}
    }
    0
}

/// The slot `steps` places after `current`, around the cycle of `n`
/// slots (for `current < n` and `steps <= n`).
pub open spec fn cycle_pos(current: int, steps: int, n: int) -> int {
    if current + steps < n {
        current + steps
    } else {
        current + steps - n
    }
}

/// `k` is the number of steps to the next supported slot after
/// `current`: the slot `k` places on is supported and no slot strictly
/// between is.
pub open spec fn is_first_step(supported: Seq<bool>, current: int, k: int) -> bool {
    &&& 1 <= k <= supported.len()
    &&& supported[cycle_pos(current, k, supported.len() as int)]
    &&& forall|m: int| 1 <= m < k ==> !supported[cycle_pos(current, m, supported.len() as int)]
}

/// The slot the swap moves to: the next supported slot after `current`
/// around the cycle (possibly `current` itself again), or `current` when
/// no slot is supported. The caller treats landing on `current` as no
/// swap at all.
pub open spec fn next_supported(supported: Seq<bool>, current: int) -> int {
    if exists|k: int| is_first_step(supported, current, k) {
        cycle_pos(current, choose|k: int| is_first_step(supported, current, k), supported.len() as int)
    } else {
        current
    }
}

/// Cycles to the next supported cubemap slot.
pub fn next_cubemap_index(current: usize, supported: &[bool]) -> (r: usize)
    requires
        current < supported@.len(),
    ensures
        r < supported@.len(),
        r == next_supported(supported@, current as int),
{
    let n = supported.len();
    let mut idx = current;
    let mut count: usize = 0;
    while count < n
        invariant
            current < n == supported@.len(),
            count <= n,
            idx == cycle_pos(current as int, count as int, n as int),
            idx < n,
            forall|m: int| 1 <= m <= count ==> !supported@[cycle_pos(current as int, m, n as int)],
        decreases n - count,
    {
        idx = if idx + 1 == n {
            0
        } else {
            idx + 1
        };
        assert(idx == cycle_pos(current as int, count + 1, n as int));
        if supported[idx] {
            proof {
                assert(is_first_step(supported@, current as int, count + 1));
                let w = choose|k: int| is_first_step(supported@, current as int, k);
                if w < count + 1 {
                    assert(!supported@[cycle_pos(current as int, w, n as int)]);
                } else if w > count + 1 {
                    assert(!supported@[cycle_pos(current as int, count + 1, n as int)]);
                }
                assert(w == count + 1);
            }
            return idx;
        }
        count = count + 1;
    }
    proof {
        assert forall|k: int| !is_first_step(supported@, current as int, k) by {}
        assert(cycle_pos(current as int, n as int, n as int) == current);
    }
    idx
}

} // verus!
