//! The arithmetic of throughput samples.

use vstd::prelude::*;

verus! {

/// How far a counter moved from the reading `previous` to the reading
/// `current`. The counter only moves forward, and starts again at zero after
/// its largest value.
pub open spec fn spec_throughput(previous: usize, current: usize) -> usize {
    if current >= previous {
        (current - previous) as usize
    } else {
        (current + (usize::MAX - previous) + 1) as usize
    }
}

/// The reading of a counter that stood at `previous` after `completed` more
/// responses.
pub open spec fn spec_counter_after(previous: usize, completed: nat) -> usize {
    ((previous + completed) % (usize::MAX + 1)) as usize
}

/// How far a counter moved between two readings.
pub fn throughput_between(previous: usize, current: usize) -> (moved: usize)
    ensures
        moved == spec_throughput(previous, current),
{
    if current >= previous {
        current - previous
    } else {
        current + (usize::MAX - previous) + 1
    }
}

/// The published throughput is the number of responses completed in the
/// interval: if `completed` responses were counted since the last reading,
/// the distance between the two readings is `completed`, whether or not the
/// counter started again at zero in between.
pub proof fn lemma_throughput_is_completed(previous: usize, completed: nat)
    requires
        completed <= usize::MAX,
    ensures
        spec_throughput(previous, spec_counter_after(previous, completed)) == completed,
{
    let modulus = usize::MAX + 1;
    let sum = previous + completed;
    if sum < modulus {
        assert(sum % modulus == sum);
    } else {
        assert(sum % modulus == sum - modulus) by {
            assert(sum - modulus < modulus);
            vstd::arithmetic::div_mod::lemma_fundamental_div_mod_converse(
                sum as int,
                modulus as int,
                1,
                sum - modulus,
            );
        }
    }
}

} // verus!
