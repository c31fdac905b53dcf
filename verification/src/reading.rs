//! The load-average snapshot and how it is put together from what the
//! operating system reported.

use vstd::prelude::*;
use crate::sample::{
    is_finite_non_negative, lemma_finite_non_negative_bits, sample_is_finite_non_negative, ZERO_BITS,
};

verus! {

/// The number of averages the operating system is asked for: the 1-, 5- and
/// 15-minute windows.
pub const SAMPLE_COUNT: usize = 3;

/// Why a snapshot could not be taken.
#[derive(Clone, Copy, Debug, PartialEq, Eq, Structural)]
pub enum LoadError {
    /// The operating system has no load-average facility, or its query failed.
    UnsupportedPlatform,
}

/// One snapshot of the load averages. Each field is the bit pattern of a
/// binary64 number.
#[derive(Clone, Copy, Debug, PartialEq, Eq, Structural)]
pub struct LoadAvg {
    /// The 1-minute average.
    pub last: u64,
    /// The 5-minute average.
    pub last5: u64,
    /// The 15-minute average.
    pub last15: u64,
}

/// What slot `index` of a snapshot holds when the operating system filled the
/// first `reported` slots of `samples`: the sample if it was filled, zero if not.
pub open spec fn slot(reported: int, samples: Seq<u64>, index: int) -> u64 {
    if index < reported {
        samples[index]
    } else {
        ZERO_BITS
    }
}

/// The outcome of a query that returned `reported` and left `samples` behind.
/// A negative `reported` is the facility's way of saying that it failed.
pub open spec fn snapshot_of(reported: int, samples: Seq<u64>) -> Result<LoadAvg, LoadError> {
    if reported < 0 {
        Err(LoadError::UnsupportedPlatform)
    } else {
        Ok(
            LoadAvg {
                last: slot(reported, samples, 0),
                last5: slot(reported, samples, 1),
                last15: slot(reported, samples, 2),
            },
        )
    }
}

/// Every slot that the operating system filled holds a finite non-negative number.
pub open spec fn filled_slots_are_valid(reported: int, samples: Seq<u64>) -> bool {
    forall|i: int|
        0 <= i < reported && i < samples.len() ==> is_finite_non_negative(#[trigger] samples[i])
}

impl LoadAvg {
    /// All three averages are finite non-negative numbers.
    pub open spec fn valid(&self) -> bool {
        &&& is_finite_non_negative(self.last)
        &&& is_finite_non_negative(self.last5)
        &&& is_finite_non_negative(self.last15)
    }

    /// Builds the snapshot from the result of one query: `reported` is what the
    /// query returned, `samples` the buffer it wrote to. Slots that the query
    /// did not fill read as zero; a failed query gives `UnsupportedPlatform`.
    pub fn new(reported: i32, samples: [u64; SAMPLE_COUNT]) -> (r: Result<LoadAvg, LoadError>)
        ensures
            r == snapshot_of(reported as int, samples@),
            r is Err <==> reported < 0,
            filled_slots_are_valid(reported as int, samples@) ==> (r matches Ok(snapshot)
                ==> snapshot.valid()),
    {
        if reported < 0 {
            return Err(LoadError::UnsupportedPlatform);
        }
        let last = if reported > 0 { samples[0] } else { ZERO_BITS };
        let last5 = if reported > 1 { samples[1] } else { ZERO_BITS };
        let last15 = if reported > 2 { samples[2] } else { ZERO_BITS };
        proof {
            lemma_zero_fill_keeps_validity(reported as int, samples@);
        }
        Ok(LoadAvg { last, last5, last15 })
    }

    /// Decides whether all three averages are finite non-negative numbers.
    #[verifier::when_used_as_spec(valid)]
    pub fn is_valid(&self) -> (r: bool)
        ensures
            r == self.valid(),
    {
        sample_is_finite_non_negative(self.last) && sample_is_finite_non_negative(self.last5)
            && sample_is_finite_non_negative(self.last15)
    }
}

/// Zero is a finite non-negative number.
pub proof fn lemma_zero_is_valid()
    ensures
        is_finite_non_negative(ZERO_BITS),
{
    lemma_finite_non_negative_bits(ZERO_BITS);
}

/// A snapshot built from a buffer of three samples whose filled slots are
/// finite and non-negative is itself valid: filling the rest with zero cannot
/// break validity.
pub proof fn lemma_zero_fill_keeps_validity(reported: int, samples: Seq<u64>)
    requires
        samples.len() == SAMPLE_COUNT,
    ensures
        filled_slots_are_valid(reported, samples) ==> (snapshot_of(reported, samples) matches Ok(
            snapshot,
        ) ==> snapshot.valid()),
{
    lemma_zero_is_valid();
}

} // verus!
