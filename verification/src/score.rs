//! The six-level score, its rank table, the two classifiers and the average.

use crate::error::ScoreError;
use crate::laws::lemma_rank_sum_bounds;
use vstd::prelude::*;

verus! {

/// An ordinal rating with six levels, listed from worst to best.
#[derive(Clone, Copy, Debug, PartialEq, Eq, Structural, PartialOrd, Ord)]
pub enum Score {
    Awful,
    Bad,
    Poor,
    Fair,
    Good,
    Perfect,
}

impl Score {
    /// The position of a level in the order, from 0 for `Awful` to 5 for `Perfect`.
    pub open spec fn rank(self) -> int {
        match self {
            Score::Awful => 0,
            Score::Bad => 1,
            Score::Poor => 2,
            Score::Fair => 3,
            Score::Good => 4,
            Score::Perfect => 5,
        }
    }

    /// The level at position `rank`; meaningful for ranks 0 to 5.
    pub open spec fn of_rank(rank: int) -> Score
        recommends
            0 <= rank <= 5,
    {
        if rank <= 0 {
            Score::Awful
        } else if rank == 1 {
            Score::Bad
        } else if rank == 2 {
            Score::Poor
        } else if rank == 3 {
            Score::Fair
        } else if rank == 4 {
            Score::Good
        } else {
            Score::Perfect
        }
    }

    /// The level that a percentage falls into, where more is better.
    pub open spec fn of_percent(percent: int) -> Score
        recommends
            0 <= percent <= 100,
    {
        if percent <= 9 {
            Score::Awful
        } else if percent <= 24 {
            Score::Bad
        } else if percent <= 49 {
            Score::Poor
        } else if percent <= 66 {
            Score::Fair
        } else if percent <= 89 {
            Score::Good
        } else {
            Score::Perfect
        }
    }

    /// The level that a temperature in whole degrees falls into, where less
    /// is better. Anything below zero or above 85 is `Awful`.
    pub open spec fn of_temp(degrees: int) -> Score {
        if degrees < 0 {
            Score::Awful
        } else if degrees <= 30 {
            Score::Perfect
        } else if degrees <= 45 {
            Score::Good
        } else if degrees <= 60 {
            Score::Fair
        } else if degrees <= 75 {
            Score::Poor
        } else if degrees <= 85 {
            Score::Bad
        } else {
            Score::Awful
        }
    }

    /// The English name of a level.
    pub open spec fn name(self) -> Seq<char> {
        match self {
            Score::Awful => "Awful"@,
            Score::Bad => "Bad"@,
            Score::Poor => "Poor"@,
            Score::Fair => "Fair"@,
            Score::Good => "Good"@,
            Score::Perfect => "Perfect"@,
        }
    }

    /// The sum of the ranks of a sequence of scores.
    pub open spec fn rank_sum(scores: Seq<Score>) -> int
        decreases scores.len(),
    {
        if scores.len() == 0 {
            0
        } else {
            Score::rank_sum(scores.drop_last()) + scores.last().rank()
        }
    }

    /// The level whose rank is the mean rank of `scores`, rounded down.
    pub open spec fn mean(scores: Seq<Score>) -> Score
        recommends
            scores.len() > 0,
    {
        Score::of_rank(Score::rank_sum(scores) / (scores.len() as int))
    }

    /// Classifies a percentage between 0 and 100.
    pub fn from_percent(percent: u8) -> (score: Score)
        requires
            percent <= 100,
        ensures
            score == Score::of_percent(percent as int),
    {
        match percent {
            0..=9 => Score::Awful,
            10..=24 => Score::Bad,
            25..=49 => Score::Poor,
            50..=66 => Score::Fair,
            67..=89 => Score::Good,
            _ => Score::Perfect,
        }
    }

    /// Classifies any integer as a percentage, refusing what lies outside 0 to 100.
    pub fn try_from_percent(value: i64) -> (res: Result<Score, ScoreError>)
        ensures
            res == (if 0 <= value <= 100 {
                Ok(Score::of_percent(value as int))
            } else {
                Err(ScoreError::OutOfRange)
            }),
    {
        if 0 <= value && value <= 100 {
            Ok(Score::from_percent(value as u8))
        } else {
            Err(ScoreError::OutOfRange)
        }
    }

    /// Classifies a temperature in whole degrees. No input is refused.
    pub fn from_temp(temp: i64) -> (score: Score)
        ensures
            score == Score::of_temp(temp as int),
    {
        match temp {
            0..=30 => Score::Perfect,
            31..=45 => Score::Good,
            46..=60 => Score::Fair,
            61..=75 => Score::Poor,
            76..=85 => Score::Bad,
            _ => Score::Awful,
        }
    }

    /// The level with the given rank.
    pub fn from_int(rank: usize) -> (score: Score)
        requires
            rank <= 5,
        ensures
            score == Score::of_rank(rank as int),
            score.rank() == rank,
    {
        match rank {
            0 => Score::Awful,
            1 => Score::Bad,
            2 => Score::Poor,
            3 => Score::Fair,
            4 => Score::Good,
            _ => Score::Perfect,
        }
    }

    /// The level with the given rank, or an error where no level has it.
    pub fn try_from_int(rank: usize) -> (res: Result<Score, ScoreError>)
        ensures
            res == (if rank <= 5 {
                Ok(Score::of_rank(rank as int))
            } else {
                Err(ScoreError::UnknownRank)
            }),
    {
        if rank <= 5 {
            Ok(Score::from_int(rank))
        } else {
            Err(ScoreError::UnknownRank)
        }
    }

    /// The rank of a level as a machine integer.
    pub fn to_int(self) -> (rank: usize)
        ensures
            rank == self.rank(),
    {
        match self {
            Score::Awful => 0,
            Score::Bad => 1,
            Score::Poor => 2,
            Score::Fair => 3,
            Score::Good => 4,
            Score::Perfect => 5,
        }
    }

    /// The name of a level as an owned string.
    pub fn to_string(self) -> (text: String)
        ensures
            text@ == self.name(),
    {
        match self {
            Score::Awful => String::from_str("Awful"),
            Score::Bad => String::from_str("Bad"),
            Score::Poor => String::from_str("Poor"),
            Score::Fair => String::from_str("Fair"),
            Score::Good => String::from_str("Good"),
            Score::Perfect => String::from_str("Perfect"),
        }
    }

    /// Averages a non-empty list of scores: the ranks are summed, the sum is
    /// divided by the count with the remainder dropped, and the quotient is
    /// read back as a level.
    pub fn avg(vec: &Vec<Score>) -> (score: Score)
        requires
            vec@.len() > 0,
        ensures
            score == Score::mean(vec@),
    {
        let count: usize = vec.len();
        let mut sum: u128 = 0;
        let mut i: usize = 0;
        while i < count
            invariant
                count == vec@.len(),
                i <= count,
                sum == Score::rank_sum(vec@.take(i as int)),
                sum <= 5 * i,
            decreases count - i,
        {
            proof {
                assert(vec@.take(i + 1).drop_last() =~= vec@.take(i as int));
            }
            sum = sum + vec[i].to_int() as u128;
            i = i + 1;
        }
        proof {
            assert(vec@.take(count as int) =~= vec@);
            lemma_rank_sum_bounds(vec@);
            assert(sum / (count as u128) <= 5) by (nonlinear_arith)
                requires
                    0 <= sum <= 5 * count,
                    count > 0,
            ;
        }
        let mean: u128 = sum / (count as u128);
        Score::from_int(mean as usize)
    }

    /// Averages a list of scores, refusing an empty one.
    pub fn try_avg(vec: &Vec<Score>) -> (res: Result<Score, ScoreError>)
        ensures
            res == (if vec@.len() > 0 {
                Ok(Score::mean(vec@))
            } else {
                Err(ScoreError::NoScores)
            }),
    {
        if vec.len() > 0 {
            Ok(Score::avg(vec))
        } else {
            Err(ScoreError::NoScores)
        }
    }
}

} // verus!
