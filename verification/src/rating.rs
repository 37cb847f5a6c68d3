//! The rating aggregate: the floor-divided mean of every rating ever
//! submitted for a listing, recomputed from the whole review log on each
//! submission rather than kept as a running average.

use vstd::prelude::*;
use crate::data::Review;

verus! {

/// The sum of all ratings in a review log.
pub open spec fn sum_ratings(rs: Seq<Review>) -> int
    decreases rs.len(),
{
    if rs.len() == 0 {
        0
    } else {
        sum_ratings(rs.drop_last()) + rs.last().rating
    }
}

/// Every rating in the log lies in the accepted range `[1, 5]`.
pub open spec fn ratings_in_range(rs: Seq<Review>) -> bool {
    forall|i: int| 0 <= i < rs.len() ==> 1 <= (#[trigger] rs[i]).rating <= 5
}

/// The listing's average rating: `floor(sum / count)` over the whole log,
/// and 0 while the log is empty.
pub open spec fn average_rating(rs: Seq<Review>) -> int {
    if rs.len() == 0 {
        0
    } else {
        sum_ratings(rs) / (rs.len() as int)
    }
}

/// With every rating in `[1, 5]`, the sum lies between the count and five
/// times the count.
pub proof fn lemma_sum_ratings_bounds(rs: Seq<Review>)
    requires
        ratings_in_range(rs),
    ensures
        rs.len() <= sum_ratings(rs) <= 5 * rs.len(),
    decreases rs.len(),
{
    if rs.len() > 0 {
        assert(ratings_in_range(rs.drop_last()));
        lemma_sum_ratings_bounds(rs.drop_last());
        assert(1 <= rs[rs.len() - 1].rating <= 5);
    }
}

/// The average of a log of in-range ratings lies in `[0, 5]`, and in `[1, 5]`
/// once the log is non-empty.
pub proof fn lemma_average_rating_in_range(rs: Seq<Review>)
    requires
        ratings_in_range(rs),
    ensures
        0 <= average_rating(rs) <= 5,
        rs.len() > 0 ==> 1 <= average_rating(rs),
{
    if rs.len() > 0 {
        let n = rs.len() as int;
        lemma_sum_ratings_bounds(rs);
        vstd::arithmetic::div_mod::lemma_div_is_ordered(n, sum_ratings(rs), n);
        vstd::arithmetic::div_mod::lemma_div_is_ordered(sum_ratings(rs), 5 * n, n);
        vstd::arithmetic::div_mod::lemma_div_multiples_vanish(1, n);
        vstd::arithmetic::div_mod::lemma_div_multiples_vanish(5, n);
        assert(n * 1 == n) by (nonlinear_arith);
        assert(n * 5 == 5 * n) by (nonlinear_arith);
    }
}

/// Recomputes the average rating of a review log by integer division over the
/// entire log.
pub fn compute_average(reviews: &Vec<Review>) -> (avg: u8)
    requires
        ratings_in_range(reviews@),
    ensures
        avg as int == average_rating(reviews@),
{
    if reviews.len() == 0 {
        return 0;
    }
    let mut total: u128 = 0;
    let mut i: usize = 0;
    while i < reviews.len()
        invariant
            ratings_in_range(reviews@),
            i <= reviews@.len(),
            total == sum_ratings(reviews@.take(i as int)),
            total <= 5 * i,
        decreases reviews@.len() - i,
    {
        proof {
            assert(reviews@.take(i + 1).drop_last() =~= reviews@.take(i as int));
            assert(reviews@.take(i + 1).last() == reviews@[i as int]);
        }
        total = total + reviews[i].rating as u128;
        i = i + 1;
    }
    proof {
        assert(reviews@.take(i as int) =~= reviews@);
        lemma_average_rating_in_range(reviews@);
        let n = reviews@.len() as int;
        vstd::arithmetic::div_mod::lemma_div_pos_is_pos(sum_ratings(reviews@), n);
    }
    let avg_wide: u128 = total / (reviews.len() as u128);
    avg_wide as u8
}

} // verus!
