//! The marketplace's global laws, stated once over any well-formed state and
//! proved from the operations' contracts and the state invariant.

use vstd::prelude::*;
use crate::data::AccountId;
use crate::data::Balance;
use crate::data::Error;
use crate::data::Project;
use crate::events::ReviewSubmitted;
use crate::portfolio::DotgoPortfolio;
use crate::portfolio::owned_ids;
use crate::portfolio::PaymentSplit;
use crate::rating::average_rating;
use crate::rating::lemma_average_rating_in_range;

verus! {

/// Unique monotonic ids: the listing created i-th holds id exactly `i`, so N
/// sequential creations yield ids `0..N-1` in order, with no gaps and no
/// reuse, whatever failed unlock or review calls run in between (failures
/// leave the state unchanged).
pub proof fn lemma_ids_dense(s: DotgoPortfolio, i: int)
    requires
        s.wf(),
        0 <= i < s.projects@.len(),
    ensures
        s.projects@[i].id == i as u64,
{
}

/// At most one unlock per (listing, account) pair: once the pair is
/// recorded, every further unlock request for it is rejected as
/// `AlreadyUnlocked` — a rejection, so it mutates nothing and leaves the
/// unlock counter as it is.
pub proof fn lemma_unlock_at_most_once(
    s: DotgoPortfolio,
    project_id: u64,
    reviewer: AccountId,
    payment: Balance,
)
    requires
        s.wf(),
        s.spec_is_unlocked(project_id, reviewer),
    ensures
        s.spec_unlock_outcome(project_id, reviewer, payment) == Err::<PaymentSplit, Error>(
            Error::AlreadyUnlocked,
        ),
{
    assert(s.unlocked@[project_id as int]@.contains(reviewer));
    assert(!s.unlocked@[project_id as int]@.contains(s.projects@[project_id as int].student));
}

/// No self-unlock: a listing's owner is always turned away with
/// `CannotReviewOwnProject`, whatever they pay.
pub proof fn lemma_no_self_unlock(s: DotgoPortfolio, project_id: u64, payment: Balance)
    requires
        s.wf(),
        s.has_project(project_id),
    ensures
        s.spec_unlock_outcome(project_id, s.spec_project(project_id).student, payment)
            == Err::<PaymentSplit, Error>(Error::CannotReviewOwnProject),
{
}

/// Payment floor: with the listing present, the caller not the owner and the
/// pair not yet unlocked, any payment under the price is rejected as
/// `InsufficientPayment`, and any payment at or over it succeeds with the
/// configured split.
pub proof fn lemma_payment_floor(
    s: DotgoPortfolio,
    project_id: u64,
    reviewer: AccountId,
    payment: Balance,
)
    requires
        s.wf(),
        s.has_project(project_id),
        reviewer != s.spec_project(project_id).student,
        !s.spec_is_unlocked(project_id, reviewer),
    ensures
        payment < s.unlock_price ==> s.spec_unlock_outcome(project_id, reviewer, payment)
            == Err::<PaymentSplit, Error>(Error::InsufficientPayment),
        payment >= s.unlock_price ==> s.spec_unlock_outcome(project_id, reviewer, payment)
            == Ok::<PaymentSplit, Error>(s.spec_split(project_id)),
{
}

/// A successful unlock pays out exactly the unlock price: the owner's share
/// and the treasury's share sum to it, and go to the listing's owner and the
/// configured treasury.
pub proof fn lemma_split_conserves_price(
    s: DotgoPortfolio,
    project_id: u64,
    reviewer: AccountId,
    payment: Balance,
)
    requires
        s.wf(),
        s.spec_unlock_outcome(project_id, reviewer, payment) is Ok,
    ensures
        ({
            let split = s.spec_unlock_outcome(project_id, reviewer, payment)->Ok_0;
            &&& split.student_amount + split.platform_amount == s.unlock_price
            &&& split.student == s.spec_project(project_id).student
            &&& split.treasury == s.platform_treasury
        }),
{
}

/// Review requires unlock: while a (listing, account) pair has no unlock
/// record, every submission by that account is rejected as `NotUnlocked`.
pub proof fn lemma_review_requires_unlock(
    s: DotgoPortfolio,
    project_id: u64,
    rating: u8,
    reviewer: AccountId,
)
    requires
        !s.spec_is_unlocked(project_id, reviewer),
    ensures
        s.spec_review_outcome(project_id, rating, reviewer) == Err::<ReviewSubmitted, Error>(
            Error::NotUnlocked,
        ),
{
}

/// Rating bounds: a rating of 0, or above 5, never lands — for an unlocked
/// pair it is rejected as `InvalidRating` (and otherwise the unlock check
/// already rejects the call).
pub proof fn lemma_invalid_rating_rejected(
    s: DotgoPortfolio,
    project_id: u64,
    rating: u8,
    reviewer: AccountId,
)
    requires
        rating == 0 || rating > 5,
    ensures
        s.spec_review_outcome(project_id, rating, reviewer) is Err,
        s.spec_is_unlocked(project_id, reviewer) ==> s.spec_review_outcome(
            project_id,
            rating,
            reviewer,
        ) == Err::<ReviewSubmitted, Error>(Error::InvalidRating),
{
}

/// Self-review is structurally forbidden: in any well-formed state, no
/// listing's unlock ledger holds the listing's own owner.
pub proof fn lemma_owner_never_unlocked(s: DotgoPortfolio, project_id: u64)
    requires
        s.wf(),
    ensures
        !s.spec_is_unlocked(project_id, s.spec_project(project_id).student),
{
}

/// The owner index is sound, complete and ordered: for dense ids,
/// `owned_ids` lists exactly the ids of the listings the student owns, in
/// strictly increasing order.
pub proof fn lemma_owned_ids_correct(projects: Seq<Project>, student: AccountId)
    requires
        projects.len() <= u64::MAX,
        forall|i: int| 0 <= i < projects.len() ==> (#[trigger] projects[i]).id == i as u64,
    ensures
        forall|k: int|
            0 <= k < owned_ids(projects, student).len() ==> (((#[trigger] owned_ids(
                projects,
                student,
            )[k]) as int) < projects.len() && projects[owned_ids(projects, student)[k] as int].student
                == student),
        forall|i: int|
            0 <= i < projects.len() && (#[trigger] projects[i]).student == student ==> owned_ids(
                projects,
                student,
            ).contains(i as u64),
        forall|k1: int, k2: int|
            0 <= k1 < k2 < owned_ids(projects, student).len() ==> owned_ids(projects, student)[k1]
                < owned_ids(projects, student)[k2],
    decreases projects.len(),
{
    if projects.len() > 0 {
        let prefix = projects.drop_last();
        let last = projects.last();
        let rest = owned_ids(prefix, student);
        let whole = owned_ids(projects, student);
        assert forall|i: int| 0 <= i < prefix.len() implies (#[trigger] prefix[i]).id
            == i as u64 by {
            assert(prefix[i] == projects[i]);
        }
        lemma_owned_ids_correct(prefix, student);
        assert(last.id == (projects.len() - 1) as u64);
        if last.student == student {
            assert(whole == rest.push(last.id));
            assert forall|i: int|
                0 <= i < projects.len() && (#[trigger] projects[i]).student
                    == student implies whole.contains(i as u64) by {
                if i < projects.len() - 1 {
                    assert(prefix[i] == projects[i]);
                    assert(rest.contains(i as u64));
                    let k = choose|k: int| 0 <= k < rest.len() && rest[k] == i as u64;
                    assert(whole[k] == i as u64);
                } else {
                    assert(whole[rest.len() as int] == last.id);
                }
            }
            assert forall|k: int|
                0 <= k < whole.len() implies ((((#[trigger] whole[k]) as int) < projects.len())
                && projects[whole[k] as int].student == student) by {
                if k < rest.len() {
                    assert(whole[k] == rest[k]);
                    assert(prefix[rest[k] as int] == projects[rest[k] as int]);
                } else {
                    assert(whole[k] == last.id);
                }
            }
            assert forall|k1: int, k2: int|
                0 <= k1 < k2 < whole.len() implies whole[k1] < whole[k2] by {
                if k2 < rest.len() {
                    assert(whole[k1] == rest[k1] && whole[k2] == rest[k2]);
                } else {
                    assert(whole[k2] == last.id);
                    assert(whole[k1] == rest[k1]);
                    assert((rest[k1] as int) < prefix.len());
                }
            }
        } else {
            assert(whole == rest);
            assert forall|i: int|
                0 <= i < projects.len() && (#[trigger] projects[i]).student
                    == student implies whole.contains(i as u64) by {
                assert(i < projects.len() - 1);
                assert(prefix[i] == projects[i]);
            }
            assert forall|k: int|
                0 <= k < whole.len() implies ((((#[trigger] whole[k]) as int) < projects.len())
                && projects[whole[k] as int].student == student) by {
                assert(prefix[whole[k] as int] == projects[whole[k] as int]);
            }
        }
    }
}

/// Aggregate correctness: in any well-formed state, each listing's stored
/// average equals the floor-divided mean of its entire review log, and lies
/// in `[0, 5]` — 0 exactly while the log is empty.
pub proof fn lemma_average_rating_correct(s: DotgoPortfolio, project_id: u64)
    requires
        s.wf(),
        s.has_project(project_id),
    ensures
        s.spec_project(project_id).avg_rating as int == average_rating(
            s.reviews@[project_id as int]@,
        ),
        0 <= s.spec_project(project_id).avg_rating <= 5,
{
    lemma_average_rating_in_range(s.reviews@[project_id as int]@);
}

/// Unlock counter correctness: in any well-formed state, each listing's
/// counter equals exactly the number of distinct accounts that have unlocked
/// it.
pub proof fn lemma_unlock_count_correct(s: DotgoPortfolio, project_id: u64)
    requires
        s.wf(),
        s.has_project(project_id),
    ensures
        s.spec_project(project_id).unlock_count as int == s.unlocked@[project_id as int]@.len(),
{
}

} // verus!
