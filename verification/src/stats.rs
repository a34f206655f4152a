//! Statistics over the votes of a round.
//!
//! Everything is kept in whole numbers: the sum of the votes in place of
//! their average, and twice the median in place of the median. Whoever
//! presents them divides.

use vstd::prelude::*;
use vstd::relations::{sorted_by, total_ordering};
use vstd::seq_lib::lemma_sorted_unique;

verus! {

/// The statistics of a round.
#[derive(Debug, Clone, Copy, PartialEq, Eq)]
pub struct VoteStatistics {
    /// How many participants there are.
    pub total_voters: usize,
    /// How many votes were cast.
    pub votes_cast: usize,
    /// The sum of the votes cast; the average is this over `votes_cast`.
    pub sum: u128,
    /// Twice the median of the votes cast, if there are any.
    pub twice_median: Option<u64>,
    /// The smallest vote, if there are any.
    pub min: Option<u32>,
    /// The largest vote, if there are any.
    pub max: Option<u32>,
    /// The most frequent vote, the smallest of them where several are, if
    /// there are any.
    pub mode: Option<u32>,
}

/// The order of the votes.
pub open spec fn at_most() -> spec_fn(u32, u32) -> bool {
    |a: u32, b: u32| a <= b
}

/// The votes in ascending order.
pub open spec fn ascending(votes: Seq<u32>) -> Seq<u32> {
    votes.sort_by(at_most())
}

/// The sum of the votes.
pub open spec fn sum_of(votes: Seq<u32>) -> nat
    decreases votes.len(),
{
    if votes.len() == 0 {
        0
    } else {
        sum_of(votes.drop_last()) + votes.last() as nat
    }
}

/// How often `value` occurs among the votes.
pub open spec fn occurrences(votes: Seq<u32>, value: u32) -> nat
    decreases votes.len(),
{
    if votes.len() == 0 {
        0
    } else {
        occurrences(votes.drop_last(), value) + if votes.last() == value {
            1nat
        } else {
            0nat
        }
    }
}

/// Twice the median of the votes: twice the middle one of an odd number
/// in ascending order, the sum of the two middle ones of an even number.
pub open spec fn twice_median_of(votes: Seq<u32>) -> nat
    recommends
        votes.len() > 0,
{
    let sorted = ascending(votes);
    let half = sorted.len() as int / 2;
    if sorted.len() % 2 == 0 {
        (sorted[half - 1] + sorted[half]) as nat
    } else {
        (2 * sorted[half]) as nat
    }
}

/// Whether `value` is the most frequent of the votes, and the smallest of
/// the most frequent ones.
pub open spec fn is_mode(votes: Seq<u32>, value: u32) -> bool {
    &&& votes.contains(value)
    &&& forall|i: int|
        0 <= i < votes.len() ==> occurrences(votes, #[trigger] votes[i]) <= occurrences(
            votes,
            value,
        )
    &&& forall|i: int|
        0 <= i < votes.len() && occurrences(votes, #[trigger] votes[i]) == occurrences(
            votes,
            value,
        ) ==> value <= votes[i]
}

/// Whether `value` is the smallest of the votes.
pub open spec fn is_smallest(votes: Seq<u32>, value: u32) -> bool {
    votes.contains(value) && forall|i: int| 0 <= i < votes.len() ==> value <= #[trigger] votes[i]
}

/// Whether `value` is the largest of the votes.
pub open spec fn is_largest(votes: Seq<u32>, value: u32) -> bool {
    votes.contains(value) && forall|i: int| 0 <= i < votes.len() ==> value >= #[trigger] votes[i]
}

/// Whether `stats` are the statistics of the votes cast among
/// `total_players` participants.
pub open spec fn is_statistics_of(
    stats: VoteStatistics,
    votes: Seq<u32>,
    total_players: usize,
) -> bool {
    &&& stats.total_voters == total_players
    &&& stats.votes_cast == votes.len()
    &&& stats.sum == sum_of(votes)
    &&& if votes.len() == 0 {
        &&& stats.twice_median is None
        &&& stats.min is None
        &&& stats.max is None
        &&& stats.mode is None
    } else {
        &&& stats.twice_median == Some(twice_median_of(votes) as u64)
        &&& stats.min is Some && is_smallest(votes, stats.min->0)
        &&& stats.max is Some && is_largest(votes, stats.max->0)
        &&& stats.mode is Some && is_mode(votes, stats.mode->0)
    }
}

/// The order of the votes is total.
pub proof fn lemma_at_most_is_total()
    ensures
        total_ordering(at_most()),
{
    let leq = at_most();
    assert(vstd::relations::reflexive(leq));
    assert(vstd::relations::antisymmetric(leq)) by {
        assert forall|x: u32, y: u32| #[trigger] leq(x, y) && #[trigger] leq(y, x) implies x == y by {}
    }
    assert(vstd::relations::transitive(leq)) by {
        assert forall|x: u32, y: u32, z: u32| #[trigger] leq(x, y) && #[trigger] leq(y, z) implies leq(x, z) by {}
    }
    assert(vstd::relations::strongly_connected(leq)) by {
        assert forall|x: u32, y: u32| #[trigger] leq(x, y) || #[trigger] leq(y, x) by {}
    }
}

/// The sum of votes is at most as many times the largest number of 32 bits.
pub proof fn lemma_sum_bound(votes: Seq<u32>)
    ensures
        sum_of(votes) <= votes.len() * 0xffff_ffff,
    decreases votes.len(),
{
    if votes.len() > 0 {
        lemma_sum_bound(votes.drop_last());
    }
}

/// Sorts in ascending order, by `<[u32]>::sort` of the standard library.
///
/// Trusted: afterwards the vector holds the same values as often as
/// before, and none is followed by a smaller one.
#[verifier::external_body]
fn sort_ascending(values: &mut Vec<u32>)
    ensures
        final(values)@.to_multiset() == old(values)@.to_multiset(),
        forall|i: int, j: int|
            0 <= i < j < final(values)@.len() ==> final(values)@[i] <= final(values)@[j],
{
    values.sort()
}

/// The votes in ascending order.
pub fn sorted_votes(votes: &Vec<u32>) -> (sorted: Vec<u32>)
    ensures
        sorted@ == ascending(votes@),
        sorted@.len() == votes@.len(),
        sorted@.to_multiset() == votes@.to_multiset(),
        forall|i: int, j: int| 0 <= i < j < sorted@.len() ==> sorted@[i] <= sorted@[j],
{
    let mut sorted = votes.clone();
    assert(sorted@ =~= votes@);
    sort_ascending(&mut sorted);
    proof {
        lemma_at_most_is_total();
        votes@.lemma_sort_by_ensures(at_most());
        assert(sorted_by(sorted@, at_most()));
        lemma_sorted_unique(sorted@, ascending(votes@), at_most());
        sorted@.to_multiset_ensures();
        votes@.to_multiset_ensures();
    }
    sorted
}

/// The sum of the votes.
pub fn sum_votes(votes: &Vec<u32>) -> (total: u128)
    ensures
        total == sum_of(votes@),
{
    let mut total: u128 = 0;
    let mut i: usize = 0;
    assert(votes@.take(0) =~= Seq::<u32>::empty());
    while i < votes.len()
        invariant
            i <= votes.len(),
            total == sum_of(votes@.take(i as int)),
        decreases votes.len() - i,
    {
        proof {
            assert(votes@.take(i + 1).drop_last() =~= votes@.take(i as int));
            lemma_sum_bound(votes@.take(i as int));
            assert(i * 0xffff_ffff <= usize::MAX * 0xffff_ffff) by (nonlinear_arith)
                requires
                    i <= usize::MAX,
            ;
        }
        total = total + votes[i] as u128;
        i += 1;
    }
    assert(votes@.take(i as int) =~= votes@);
    total
}

/// How often `value` occurs among the votes.
pub fn count_of(votes: &Vec<u32>, value: u32) -> (count: usize)
    ensures
        count == occurrences(votes@, value),
{
    let mut count: usize = 0;
    let mut i: usize = 0;
    assert(votes@.take(0) =~= Seq::<u32>::empty());
    while i < votes.len()
        invariant
            i <= votes.len(),
            count == occurrences(votes@.take(i as int), value),
            count <= i,
        decreases votes.len() - i,
    {
        assert(votes@.take(i + 1).drop_last() =~= votes@.take(i as int));
        if votes[i] == value {
            count += 1;
        }
        i += 1;
    }
    assert(votes@.take(i as int) =~= votes@);
    count
}

/// The most frequent of the votes, the smallest of them where several
/// are; none where there is no vote.
pub fn mode_of(votes: &Vec<u32>) -> (mode: Option<u32>)
    ensures
        votes@.len() == 0 <==> mode is None,
        mode is Some ==> is_mode(votes@, mode->0),
{
    if votes.len() == 0 {
        return None;
    }
    let mut best: u32 = votes[0];
    let mut best_count: usize = count_of(votes, best);
    let mut i: usize = 1;
    while i < votes.len()
        invariant
            1 <= i <= votes.len(),
            votes@.contains(best),
            best_count == occurrences(votes@, best),
            forall|j: int|
                0 <= j < i ==> occurrences(votes@, #[trigger] votes@[j]) <= best_count,
            forall|j: int|
                0 <= j < i && occurrences(votes@, #[trigger] votes@[j]) == best_count ==> best
                    <= votes@[j],
        decreases votes.len() - i,
    {
        let candidate: u32 = votes[i];
        let count: usize = count_of(votes, candidate);
        if count > best_count || (count == best_count && candidate < best) {
            best = candidate;
            best_count = count;
        }
        i += 1;
    }
    Some(best)
}

/// The statistics of the votes cast among `total_players` participants.
pub fn calculate_statistics(votes: &Vec<u32>, total_players: usize) -> (stats: VoteStatistics)
    ensures
        is_statistics_of(stats, votes@, total_players),
{
    let sum: u128 = sum_votes(votes);
    if votes.len() == 0 {
        return VoteStatistics {
            total_voters: total_players,
            votes_cast: 0,
            sum,
            twice_median: None,
            min: None,
            max: None,
            mode: None,
        };
    }
    let sorted = sorted_votes(votes);
    let count: usize = sorted.len();
    let half: usize = count / 2;
    let twice_median: u64 = if count % 2 == 0 {
        sorted[half - 1] as u64 + sorted[half] as u64
    } else {
        2 * (sorted[half] as u64)
    };
    let min: u32 = sorted[0];
    let max: u32 = sorted[count - 1];
    proof {
        sorted@.to_multiset_ensures();
        votes@.to_multiset_ensures();
        assert(sorted@.contains(min));
        assert(sorted@.contains(max));
        assert(sorted@.to_multiset().count(min) > 0);
        assert(sorted@.to_multiset().count(max) > 0);
        assert(votes@.to_multiset().count(min) > 0);
        assert(votes@.to_multiset().count(max) > 0);
        assert forall|i: int| 0 <= i < votes@.len() implies min <= #[trigger] votes@[i] && max
            >= votes@[i] by {
            assert(votes@.contains(votes@[i]));
            assert(votes@.to_multiset().count(votes@[i]) > 0);
            assert(sorted@.to_multiset().count(votes@[i]) > 0);
            assert(sorted@.contains(votes@[i]));
            let k = choose|k: int| 0 <= k < sorted@.len() && sorted@[k] == votes@[i];
            assert(sorted@[0] <= sorted@[k] || k == 0);
            assert(sorted@[k] <= sorted@[count - 1] || k == count - 1);
        }
    }
    let mode = mode_of(votes);
    VoteStatistics {
        total_voters: total_players,
        votes_cast: votes.len(),
        sum,
        twice_median: Some(twice_median),
        min: Some(min),
        max: Some(max),
        mode,
    }
}

} // verus!
