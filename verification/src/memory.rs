//! A memory reading in bytes and the share of it that is free.

use crate::error::ScoreError;
use crate::score::Score;
use vstd::prelude::*;

verus! {

/// How much memory a host has and how much of it is free, both in bytes.
///
/// A reading always has a total above zero and never more free than total,
/// so the free share is a percentage between 0 and 100.
#[derive(Clone, Copy, Debug)]
pub struct MemoryReading {
    total: u64,
    free: u64,
}

impl MemoryReading {
    #[verifier::type_invariant]
    spec fn consistent(self) -> bool {
        0 < self.total && self.free <= self.total
    }

    /// The total number of bytes.
    pub closed spec fn total_bytes(self) -> int {
        self.total as int
    }

    /// The number of free bytes.
    pub closed spec fn free_bytes(self) -> int {
        self.free as int
    }

    /// The number of bytes in use.
    pub open spec fn used_bytes(self) -> int {
        self.total_bytes() - self.free_bytes()
    }

    /// The free share in percent, rounded down.
    pub open spec fn percent_free(self) -> int {
        self.free_bytes() * 100 / self.total_bytes()
    }

    /// Accepts a pair of byte counts as a reading. A total of zero is refused
    /// first, then a free count above the total.
    pub fn new(total: u64, free: u64) -> (res: Result<MemoryReading, ScoreError>)
        ensures
            total == 0 ==> res matches Err(ScoreError::ZeroTotal),
            total > 0 && free > total ==> res matches Err(ScoreError::OutOfRange),
            0 < total && free <= total ==> (res matches Ok(reading) && reading.total_bytes()
                == total && reading.free_bytes() == free),
    {
        if total == 0 {
            Err(ScoreError::ZeroTotal)
        } else if free > total {
            Err(ScoreError::OutOfRange)
        } else {
            Ok(MemoryReading { total, free })
        }
    }

    /// The total number of bytes, which is never zero.
    pub fn total(&self) -> (bytes: u64)
        ensures
            bytes == self.total_bytes(),
            bytes > 0,
    {
        proof {
            use_type_invariant(self);
        }
        self.total
    }

    /// The number of free bytes, which never exceeds the total.
    pub fn free(&self) -> (bytes: u64)
        ensures
            bytes == self.free_bytes(),
            bytes <= self.total_bytes(),
    {
        proof {
            use_type_invariant(self);
        }
        self.free
    }

    /// The number of bytes in use: the total less the free ones.
    pub fn used(&self) -> (bytes: u64)
        ensures
            bytes == self.used_bytes(),
    {
        proof {
            use_type_invariant(self);
        }
        self.total - self.free
    }

    /// The free share in percent: a hundred times the free bytes, divided by
    /// the total with the remainder dropped.
    pub fn percent(&self) -> (percent: u8)
        ensures
            percent == self.percent_free(),
            percent <= 100,
    {
        proof {
            use_type_invariant(self);
        }
        let scaled: u128 = (self.free as u128) * 100;
        let share: u128 = scaled / (self.total as u128);
        proof {
            assert(share <= 100) by (nonlinear_arith)
                requires
                    share == scaled / (self.total as u128),
                    scaled <= 100 * self.total,
                    self.total > 0,
            ;
        }
        share as u8
    }
}

/// Rates a memory reading by its free share.
pub fn score_mem(mem: &MemoryReading) -> (score: Score)
    ensures
        score == Score::of_percent(mem.percent_free()),
{
    Score::from_percent(mem.percent())
}

} // verus!
