//! Properties of the rank table, the classifiers and the average.

use crate::report::Scorecard;
use crate::score::Score;
use vstd::prelude::*;

verus! {

/// Every level has a rank between 0 and 5, and the level at that rank is the
/// level itself.
pub proof fn lemma_rank_round_trip(score: Score)
    ensures
        0 <= score.rank() <= 5,
        Score::of_rank(score.rank()) == score,
{
}

/// Every rank between 0 and 5 is the rank of the level found at it.
pub proof fn lemma_of_rank_round_trip(rank: int)
    requires
        0 <= rank <= 5,
    ensures
        Score::of_rank(rank).rank() == rank,
{
}

/// A higher percentage never rates worse than a lower one.
pub proof fn lemma_percent_monotonic(low: int, high: int)
    requires
        0 <= low <= high <= 100,
    ensures
        Score::of_percent(low).rank() <= Score::of_percent(high).rank(),
{
}

/// From zero degrees up, a higher temperature never rates better than a
/// lower one.
pub proof fn lemma_temp_monotonic(low: int, high: int)
    requires
        0 <= low <= high,
    ensures
        Score::of_temp(low).rank() >= Score::of_temp(high).rank(),
{
}

/// Appending a score adds its rank to the sum of the ranks.
pub proof fn lemma_rank_sum_push(scores: Seq<Score>, score: Score)
    ensures
        Score::rank_sum(scores.push(score)) == Score::rank_sum(scores) + score.rank(),
{
    assert(scores.push(score).drop_last() =~= scores);
}

/// The ranks of any sequence of scores add up to at least zero and at most
/// five times its length.
pub proof fn lemma_rank_sum_bounds(scores: Seq<Score>)
    ensures
        0 <= Score::rank_sum(scores) <= 5 * scores.len(),
    decreases scores.len(),
{
    if scores.len() > 0 {
        lemma_rank_sum_bounds(scores.drop_last());
    }
}

/// The mean of a single score is that score.
pub proof fn lemma_mean_singleton(score: Score)
    ensures
        Score::mean(seq![score]) == score,
{
    let one = seq![score];
    assert(one =~= Seq::<Score>::empty().push(score));
    lemma_rank_sum_push(Seq::<Score>::empty(), score);
    let sum = Score::rank_sum(one);
    let count = one.len() as int;
    assert(sum / count == sum) by (nonlinear_arith)
        requires
            count == 1,
    ;
}

/// The mean rounds down: its rank is the largest whole number whose product
/// with the count does not exceed the sum of the ranks.
pub proof fn lemma_mean_is_floor(scores: Seq<Score>)
    requires
        scores.len() > 0,
    ensures
        0 <= Score::mean(scores).rank() <= 5,
        Score::mean(scores).rank() == Score::rank_sum(scores) / (scores.len() as int),
        Score::mean(scores).rank() * scores.len() <= Score::rank_sum(scores),
        Score::rank_sum(scores) < (Score::mean(scores).rank() + 1) * scores.len(),
{
    let sum = Score::rank_sum(scores);
    let count = scores.len() as int;
    lemma_rank_sum_bounds(scores);
    assert(0 <= sum / count <= 5 && (sum / count) * count <= sum < (sum / count + 1) * count)
        by (nonlinear_arith)
        requires
            0 <= sum <= 5 * count,
            count > 0,
    ;
}

/// The overall score of a scorecard, without reference to a sequence: the
/// ranks of the scores present are added up and divided by their number,
/// which is two, three or four.
pub proof fn lemma_overall_by_parts(card: Scorecard)
    ensures
        card.listed().len() == card.count(),
        Score::rank_sum(card.listed()) == card.rank_total(),
        card.overall() == Score::of_rank(card.rank_total() / card.count()),
        card.count() == 2 ==> card.overall() == Score::of_rank(card.rank_total() / 2),
        card.count() == 3 ==> card.overall() == Score::of_rank(card.rank_total() / 3),
        card.count() == 4 ==> card.overall() == Score::of_rank(card.rank_total() / 4),
{
    let base = seq![card.memory, card.cpu];
    assert(base =~= Seq::<Score>::empty().push(card.memory).push(card.cpu));
    lemma_rank_sum_push(Seq::<Score>::empty(), card.memory);
    lemma_rank_sum_push(Seq::<Score>::empty().push(card.memory), card.cpu);
    let with_battery = base + crate::report::present(card.battery);
    if let Some(score) = card.battery {
        assert(with_battery =~= base.push(score));
        lemma_rank_sum_push(base, score);
    } else {
        assert(with_battery =~= base);
    }
    if let Some(score) = card.temperature {
        assert(card.listed() =~= with_battery.push(score));
        lemma_rank_sum_push(with_battery, score);
    } else {
        assert(card.listed() =~= with_battery);
    }
    let total = card.rank_total();
    let count = card.count();
    assert(count == 2 ==> total / count == total / 2) by (nonlinear_arith);
    assert(count == 3 ==> total / count == total / 3) by (nonlinear_arith);
    assert(count == 4 ==> total / count == total / 4) by (nonlinear_arith);
}

} // verus!
