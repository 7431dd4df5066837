use vstd::prelude::*;

verus! {

/// A counter after adding to it: the sum, held at the largest number the
/// counter can store.
pub open spec fn capped_sum(counter: u64, added: int) -> u64 {
    if counter + added > u64::MAX {
        u64::MAX
    } else {
        (counter + added) as u64
    }
}

/// The time from the clock reading `then` to the clock reading `now`, zero
/// if `now` is the earlier one.
pub open spec fn time_since(now: u64, then: u64) -> u64 {
    if now >= then {
        (now - then) as u64
    } else {
        0
    }
}

} // verus!
