//! The rule by which a result limit caps a collection.
//!
//! A collection never holds more records than its limit. Of the records
//! that become available it takes as many as still fit, in their order, and
//! it is full as soon as none fits any more. A limit of 0 takes nothing.

use vstd::prelude::*;

verus! {

/// How many records still fit into a collection that holds `have` under
/// the limit `most`.
pub open spec fn room(most: usize, have: nat) -> nat {
    if most > have {
        (most - have) as nat
    } else {
        0
    }
}

/// Whether a collection that holds `have` still takes records.
pub open spec fn has_room(limit: Option<usize>, have: nat) -> bool {
    limit matches Some(most) ==> have < most
}

/// How many of `available` new records a collection that holds `have` takes.
pub open spec fn take_count(limit: Option<usize>, have: nat, available: nat) -> nat {
    match limit {
        None => available,
        Some(most) => if room(most, have) <= available {
            room(most, have)
        } else {
            available
        },
    }
}

/// Whether taking from `available` new records fills the limit.
pub open spec fn fills(limit: Option<usize>, have: nat, available: nat) -> bool {
    limit matches Some(most) && room(most, have) <= available
}

/// Tests whether a collection that holds `have` still takes records.
pub fn fits(limit: Option<usize>, have: usize) -> (open: bool)
    ensures
        open == has_room(limit, have as nat),
{
    match limit {
        Some(most) => have < most,
        None => true,
    }
}

/// Computes how many of `available` new records to take, and whether that
/// fills the limit.
pub fn measure(limit: Option<usize>, have: usize, available: usize) -> (taken: (usize, bool))
    ensures
        taken.0 == take_count(limit, have as nat, available as nat),
        taken.1 == fills(limit, have as nat, available as nat),
        taken.0 <= available,
        limit is Some && have <= limit->0 ==> have + taken.0 <= limit->0,
{
    match limit {
        None => (available, false),
        Some(most) => {
            let room = if most > have {
                most - have
            } else {
                0
            };
            if room <= available {
                (room, true)
            } else {
                (available, false)
            }
        },
    }
}

} // verus!
