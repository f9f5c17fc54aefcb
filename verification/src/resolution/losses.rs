//! How a loss of unit points is taken from a player's areas and cities.
use vstd::prelude::*;
use crate::calamities::epidemic::sum_counts;

verus! {

/// Tokens taken from each area in turn when `points` are owed: as many as
/// are still owed, at most all the area holds.
pub open spec fn removal_in_order(counts: Seq<usize>, points: nat) -> Seq<usize>
    decreases counts.len(),
{
    if counts.len() == 0 {
        Seq::empty()
    } else {
        let take: nat = if counts[0] as nat <= points { counts[0] as nat } else { points };
        seq![take as usize] + removal_in_order(counts.drop_first(), (points - take) as nat)
    }
}

/// Every area loses at most what it holds, and exactly the points owed are
/// taken, or every token when there are fewer.
pub proof fn lemma_removal_in_order(counts: Seq<usize>, points: nat)
    ensures
        removal_in_order(counts, points).len() == counts.len(),
        forall|i: int| 0 <= i < counts.len() ==> #[trigger] removal_in_order(counts, points)[i] <= counts[i],
        sum_counts(removal_in_order(counts, points)) == if points <= sum_counts(counts) {
            points
        } else {
            sum_counts(counts)
        },
    decreases counts.len(),
{
    if counts.len() > 0 {
        let take: nat = if counts[0] as nat <= points { counts[0] as nat } else { points };
        let rest = counts.drop_first();
        lemma_removal_in_order(rest, (points - take) as nat);
        let tail = removal_in_order(rest, (points - take) as nat);
        let whole = removal_in_order(counts, points);
        assert(whole.drop_first() =~= tail);
        assert forall|i: int| 0 <= i < counts.len() implies #[trigger] whole[i] <= counts[i] by {
            if i > 0 {
                assert(whole[i] == tail[i - 1]);
                assert(rest[i - 1] == counts[i]);
            }
        }
    }
}

/// The unit-point loss common to most calamities: `points` tokens (one
/// point each) come off the player's areas in the order given, each area
/// giving up all it holds before the next is touched. A loss of no points or
/// less takes nothing.
pub fn remove_unit_points(counts: &Vec<usize>, points: i32) -> (r: Vec<usize>)
    ensures
        r@ == removal_in_order(counts@, if points < 0 { 0 } else { points as nat }),
{
    let mut remaining: usize = if points < 0 { 0 } else { points as usize };
    let ghost start = remaining as nat;
    let mut result: Vec<usize> = Vec::new();
    let mut i: usize = 0;
    assert(counts@.skip(0) =~= counts@);
    while i < counts.len()
        invariant
            i <= counts@.len(),
            start == if points < 0 { 0 } else { points as nat },
            removal_in_order(counts@, start) == result@ + removal_in_order(
                counts@.skip(i as int),
                remaining as nat,
            ),
        decreases counts@.len() - i,
    {
        let count = counts[i];
        let take: usize = if count <= remaining { count } else { remaining };
        let ghost rest = counts@.skip(i as int);
        assert(rest[0] == count);
        assert(rest.drop_first() =~= counts@.skip(i + 1));
        result.push(take);
        remaining = remaining - take;
        assert(removal_in_order(counts@, start) =~= result@ + removal_in_order(
            counts@.skip(i + 1),
            remaining as nat,
        ));
        i += 1;
    }
    assert(counts@.skip(i as int) =~= Seq::<usize>::empty());
    assert(result@ =~= result@ + Seq::<usize>::empty());
    result
}

/// Cities an Epidemic loss of `points` eliminates from a player with
/// `cities` cities: each costs four points of the loss, or what is left of
/// it (rule 30.612), until the loss or the cities run out.
pub open spec fn epidemic_cities_taken(cities: nat, points: int) -> nat {
    if points <= 0 {
        0
    } else {
        let needed: nat = if points % 4 == 0 { (points / 4) as nat } else { (points / 4 + 1) as nat };
        if needed <= cities { needed } else { cities }
    }
}

/// What is left of an Epidemic loss of `points` once cities are paid for;
/// a loss of no points or less is left as it was.
pub open spec fn epidemic_points_left(cities: nat, points: int) -> int {
    if points <= 0 {
        points
    } else if points <= 4 * cities {
        0
    } else {
        points - 4 * cities
    }
}

/// Rule 30.612: cities eliminated by Epidemic count four points each. Gives
/// how many of the player's cities are eliminated (the first ones listed)
/// and the points left to take from tokens.
pub fn spend_epidemic_budget_on_cities(city_count: usize, points: i32) -> (r: (usize, i32))
    ensures
        r.0 == epidemic_cities_taken(city_count as nat, points as int),
        r.1 == epidemic_points_left(city_count as nat, points as int),
{
    let mut remaining: i32 = points;
    let mut n: usize = 0;
    while n < city_count && remaining > 0
        invariant
            n <= city_count,
            points <= 0 ==> n == 0 && remaining == points,
            points > 0 ==> remaining == (if points - 4 * n > 0 { points - 4 * n } else { 0 }),
            points > 0 && n > 0 ==> 4 * (n - 1) < points,
        decreases city_count - n,
    {
        let cost: i32 = if remaining < 4 { remaining } else { 4 };
        remaining = remaining - cost;
        n = n + 1;
    }
    (n, remaining)
}

/// Rule 30.612, as a whole: a positive loss eliminates no more cities than
/// the player has; each eliminated city absorbs four points of it, the last
/// one possibly fewer; what is left for tokens is never negative, and is
/// positive only when every city is gone.
pub proof fn lemma_epidemic_city_budget(cities: nat, points: int)
    requires
        points > 0,
    ensures
        epidemic_cities_taken(cities, points) <= cities,
        epidemic_points_left(cities, points) >= 0,
        points - epidemic_points_left(cities, points) <= 4 * epidemic_cities_taken(cities, points),
        epidemic_cities_taken(cities, points) > 0 ==> points - epidemic_points_left(cities, points) > 4 * (
        epidemic_cities_taken(cities, points) - 1),
        epidemic_points_left(cities, points) > 0 ==> epidemic_cities_taken(cities, points) == cities,
{
}

} // verus!
