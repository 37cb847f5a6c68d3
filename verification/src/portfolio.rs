//! The marketplace state and its operations: listing creation and lookup, the
//! one-time-unlock ledger with its split payment, and the review aggregator.
//!
//! The surrounding ledger runtime owns value transfer and event delivery, so
//! an unlock runs in two steps: [`DotgoPortfolio::unlock_project`] validates a
//! request and, when it passes, names the two transfers the host must make;
//! [`DotgoPortfolio::record_unlock`] then commits the unlock once the host
//! reports that both transfers went through, and mutates nothing otherwise.

use vstd::prelude::*;
use crate::data::AccountId;
use crate::data::Balance;
use crate::data::Error;
use crate::data::Project;
use crate::data::Review;
use crate::data::Timestamp;
use crate::events::ProjectUnlocked;
use crate::events::ReviewSubmitted;
use crate::rating::average_rating;
use crate::rating::compute_average;
use crate::rating::ratings_in_range;

verus! {

/// The fixed fee paid to unlock one listing.
pub const UNLOCK_PRICE: Balance = 3_000_000_000_000;

/// The part of the fee forwarded to the listing's owner.
pub const STUDENT_SHARE: Balance = 2_500_000_000_000;

/// The part of the fee forwarded to the platform treasury.
pub const PLATFORM_SHARE: Balance = 500_000_000_000;

/// The two transfers the host ledger must perform for one unlock.
///
/// The engine never touches balances itself: it hands this split to the
/// caller, who runs both transfers against the ledger and reports the outcome
/// to [`DotgoPortfolio::record_unlock`].
#[derive(Debug, Clone, Copy, PartialEq, Eq, Structural)]
pub struct PaymentSplit {
    pub student: AccountId,
    pub student_amount: Balance,
    pub treasury: AccountId,
    pub platform_amount: Balance,
}

/// The whole marketplace state.
///
/// Listing identifiers are dense: the listing with id `i` sits at index `i`
/// of `projects`, and `reviews` and `unlocked` run parallel to it.
pub struct DotgoPortfolio {
    /// One record per listing, at the index equal to its id.
    pub projects: Vec<Project>,
    /// The append-only review log of each listing.
    pub reviews: Vec<Vec<Review>>,
    /// The distinct accounts that have unlocked each listing.
    pub unlocked: Vec<Vec<AccountId>>,
    /// Fee configuration, fixed at construction.
    pub unlock_price: Balance,
    pub student_share: Balance,
    pub platform_share: Balance,
    /// The account that receives the platform's share of every fee.
    pub platform_treasury: AccountId,
}

/// The ids of the listings owned by `student`, in creation order (and so in
/// increasing order, ids being dense).
pub open spec fn owned_ids(projects: Seq<Project>, student: AccountId) -> Seq<u64>
    decreases projects.len(),
{
    if projects.len() == 0 {
        Seq::empty()
    } else if projects.last().student == student {
        owned_ids(projects.drop_last(), student).push(projects.last().id)
    } else {
        owned_ids(projects.drop_last(), student)
    }
}

impl DotgoPortfolio {
    /// Well-formedness: the three tables run parallel, ids are dense, every
    /// stored aggregate matches its log, unlock sets hold no duplicates and
    /// never the owner, and the two shares split the price exactly.
    pub open spec fn wf(self) -> bool {
        &&& self.reviews@.len() == self.projects@.len()
        &&& self.unlocked@.len() == self.projects@.len()
        &&& (forall|i: int|
            0 <= i < self.projects@.len() ==> (#[trigger] self.projects@[i]).id == i as u64)
        &&& (forall|i: int|
            0 <= i < self.projects@.len() ==> ratings_in_range((#[trigger] self.reviews@[i])@))
        &&& (forall|i: int|
            0 <= i < self.projects@.len() ==> (#[trigger] self.projects@[i]).avg_rating as int
                == average_rating(self.reviews@[i]@))
        &&& (forall|i: int|
            0 <= i < self.projects@.len() ==> (#[trigger] self.projects@[i]).unlock_count as int
                == self.unlocked@[i]@.len() as int)
        &&& (forall|i: int|
            0 <= i < self.projects@.len() ==> (#[trigger] self.unlocked@[i])@.no_duplicates())
        &&& (forall|i: int|
            0 <= i < self.projects@.len() ==> !(#[trigger] self.unlocked@[i])@.contains(
                self.projects@[i].student,
            ))
        &&& self.student_share + self.platform_share == self.unlock_price
    }

    /// A listing with this id exists.
    pub open spec fn has_project(self, project_id: u64) -> bool {
        (project_id as int) < self.projects@.len()
    }

    /// The stored record of an existing listing.
    pub open spec fn spec_project(self, project_id: u64) -> Project {
        self.projects@[project_id as int]
    }

    /// This account has unlocked this listing.
    pub open spec fn spec_is_unlocked(self, project_id: u64, account: AccountId) -> bool {
        self.has_project(project_id) && self.unlocked@[project_id as int]@.contains(account)
    }

    /// The split an unlock of this listing pays out.
    pub open spec fn spec_split(self, project_id: u64) -> PaymentSplit {
        PaymentSplit {
            student: self.spec_project(project_id).student,
            student_amount: self.student_share,
            treasury: self.platform_treasury,
            platform_amount: self.platform_share,
        }
    }

    /// The outcome of an unlock request, with the checks in their fixed
    /// order: existence, self-review, one-time unlock, payment floor.
    pub open spec fn spec_unlock_outcome(
        self,
        project_id: u64,
        reviewer: AccountId,
        payment: Balance,
    ) -> Result<PaymentSplit, Error> {
        if !self.has_project(project_id) {
            Err(Error::ProjectNotFound)
        } else if self.spec_project(project_id).student == reviewer {
            Err(Error::CannotReviewOwnProject)
        } else if self.spec_is_unlocked(project_id, reviewer) {
            Err(Error::AlreadyUnlocked)
        } else if payment < self.unlock_price {
            Err(Error::InsufficientPayment)
        } else {
            Ok(self.spec_split(project_id))
        }
    }

    /// The outcome of a review submission: unlock first, then the rating
    /// range. A missing listing cannot arise, since an unlock record exists
    /// only for a stored listing and listings are never deleted.
    pub open spec fn spec_review_outcome(
        self,
        project_id: u64,
        rating: u8,
        reviewer: AccountId,
    ) -> Result<ReviewSubmitted, Error> {
        if !self.spec_is_unlocked(project_id, reviewer) {
            Err(Error::NotUnlocked)
        } else if rating == 0 || rating > 5 {
            Err(Error::InvalidRating)
        } else {
            Ok(ReviewSubmitted { project_id, reviewer, rating })
        }
    }

    /// An empty marketplace with the fixed fee configuration.
    pub fn new(platform_treasury: AccountId) -> (c: Self)
        ensures
            c.wf(),
            c.projects@.len() == 0,
            c.unlock_price == UNLOCK_PRICE,
            c.student_share == STUDENT_SHARE,
            c.platform_share == PLATFORM_SHARE,
            c.platform_treasury == platform_treasury,
    {
        DotgoPortfolio {
            projects: Vec::new(),
            reviews: Vec::new(),
            unlocked: Vec::new(),
            unlock_price: UNLOCK_PRICE,
            student_share: STUDENT_SHARE,
            platform_share: PLATFORM_SHARE,
            platform_treasury,
        }
    }

    /// Publishes a new listing for `student`: allocates the next dense id,
    /// stores the record with a zeroed counter and rating and an empty review
    /// log, and returns the id. Creation has no failure mode.
    pub fn create_project(
        &mut self,
        student: AccountId,
        title: String,
        description: String,
        github_url: String,
        demo_url: String,
        skills: Vec<String>,
        now: Timestamp,
    ) -> (id: u64)
        requires
            old(self).wf(),
        ensures
            final(self).wf(),
            id as int == old(self).projects@.len(),
            final(self).projects@ == old(self).projects@.push(
                (Project {
                    id,
                    student,
                    title,
                    description,
                    github_url,
                    demo_url,
                    skills,
                    created_at: now,
                    unlock_count: 0,
                    avg_rating: 0,
                }),
            ),
            final(self).reviews@.len() == old(self).reviews@.len() + 1,
            forall|i: int|
                0 <= i < old(self).reviews@.len() ==> final(self).reviews@[i] == old(self).reviews@[i],
            final(self).reviews@[id as int]@ == Seq::<Review>::empty(),
            final(self).unlocked@.len() == old(self).unlocked@.len() + 1,
            forall|i: int|
                0 <= i < old(self).unlocked@.len() ==> final(self).unlocked@[i] == old(self).unlocked@[i],
            final(self).unlocked@[id as int]@ == Seq::<AccountId>::empty(),
            final(self).unlock_price == old(self).unlock_price,
            final(self).student_share == old(self).student_share,
            final(self).platform_share == old(self).platform_share,
            final(self).platform_treasury == old(self).platform_treasury,
    {
        let id: u64 = self.projects.len() as u64;
        let project = Project {
            id,
            student,
            title,
            description,
            github_url,
            demo_url,
            skills,
            created_at: now,
            unlock_count: 0,
            avg_rating: 0,
        };
        self.projects.push(project);
        self.reviews.push(Vec::new());
        self.unlocked.push(Vec::new());
        id
    }

    /// Validates an unlock request against the listing registry, the unlock
    /// ledger and the payment floor, in that fixed order, and mutates
    /// nothing. On success it returns the two transfers the host must
    /// perform; the unlock is committed by [`Self::record_unlock`] once both
    /// went through.
    pub fn unlock_project(
        &self,
        project_id: u64,
        reviewer: AccountId,
        payment: Balance,
    ) -> (r: Result<PaymentSplit, Error>)
        requires
            self.wf(),
        ensures
            r == self.spec_unlock_outcome(project_id, reviewer, payment),
    {
        if project_id >= self.projects.len() as u64 {
            return Err(Error::ProjectNotFound);
        }
        let student = self.projects[project_id as usize].student;
        if student == reviewer {
            return Err(Error::CannotReviewOwnProject);
        }
        if self.is_unlocked(project_id, reviewer) {
            return Err(Error::AlreadyUnlocked);
        }
        if payment < self.unlock_price {
            return Err(Error::InsufficientPayment);
        }
        Ok(PaymentSplit {
            student,
            student_amount: self.student_share,
            treasury: self.platform_treasury,
            platform_amount: self.platform_share,
        })
    }

    /// Commits an unlock after the host reports the outcome of the two
    /// transfers. The request is validated again, so a request that
    /// [`Self::unlock_project`] rejects is rejected here identically and
    /// nothing moves. With `transfers_ok` false the call fails with
    /// `TransferFailed` and the state is exactly as before; otherwise the
    /// one-way unlock record is written, the listing's counter steps up, and
    /// the notification record is returned.
    pub fn record_unlock(
        &mut self,
        project_id: u64,
        reviewer: AccountId,
        payment: Balance,
        transfers_ok: bool,
    ) -> (r: Result<ProjectUnlocked, Error>)
        requires
            old(self).wf(),
        ensures
            final(self).wf(),
            old(self).spec_unlock_outcome(project_id, reviewer, payment) is Err ==> r
                == Err::<ProjectUnlocked, Error>(
                old(self).spec_unlock_outcome(project_id, reviewer, payment)->Err_0,
            ) && *final(self) == *old(self),
            old(self).spec_unlock_outcome(project_id, reviewer, payment) is Ok && !transfers_ok
                ==> r == Err::<ProjectUnlocked, Error>(Error::TransferFailed) && *final(self)
                == *old(self),
            old(self).spec_unlock_outcome(project_id, reviewer, payment) is Ok && transfers_ok
                ==> {
                &&& r == Ok::<ProjectUnlocked, Error>(
                    (ProjectUnlocked { project_id, reviewer, amount_paid: payment }),
                )
                &&& final(self).projects@ == old(self).projects@.update(
                    project_id as int,
                    (Project {
                        unlock_count: (old(self).spec_project(project_id).unlock_count + 1) as u64,
                        ..old(self).spec_project(project_id)
                    }),
                )
                &&& final(self).unlocked@.len() == old(self).unlocked@.len()
                &&& final(self).unlocked@[project_id as int]@ == old(self).unlocked@[project_id as int]@.push(reviewer)
                &&& (forall|i: int|
                    0 <= i < old(self).unlocked@.len() && i != project_id as int ==> final(self).unlocked@[i] == old(self).unlocked@[i])
                &&& final(self).spec_is_unlocked(project_id, reviewer)
                &&& final(self).reviews@ == old(self).reviews@
                &&& final(self).unlock_price == old(self).unlock_price
                &&& final(self).student_share == old(self).student_share
                &&& final(self).platform_share == old(self).platform_share
                &&& final(self).platform_treasury == old(self).platform_treasury
            },
    {
        match self.unlock_project(project_id, reviewer, payment) {
            Err(e) => {
                return Err(e);
            },
            Ok(_) => {},
        }
        if !transfers_ok {
            return Err(Error::TransferFailed);
        }
        let n = self.projects.len();
        let idx = project_id as usize;
        proof {
            assert((project_id as int) < n as int);
            assert(idx as int == project_id as int);
        }
        self.unlocked[idx].push(reviewer);
        // the counter is exactly the size of the unlock set
        let new_count = self.unlocked[idx].len() as u64;
        let p = &mut self.projects[idx];
        p.unlock_count = new_count;
        proof {
            let i0 = project_id as int;
            let olds = *old(self);
            let s = olds.unlocked@[i0]@;
            let t = self.unlocked@[i0]@;
            assert(t == s.push(reviewer));
            assert(!s.contains(reviewer));
            assert(reviewer != olds.projects@[i0].student);
            assert forall|pp: int, q: int|
                0 <= pp < t.len() && 0 <= q < t.len() && pp != q implies t[pp] != t[q] by {
                if pp == s.len() as int {
                    assert(t[q] == s[q]);
                    assert(s[q] != reviewer);
                } else if q == s.len() as int {
                    assert(t[pp] == s[pp]);
                    assert(s[pp] != reviewer);
                } else {
                    assert(t[pp] == s[pp]);
                    assert(t[q] == s[q]);
                }
            }
            assert(t.no_duplicates());
            assert forall|k: int| 0 <= k < t.len() implies t[k] != olds.projects@[i0].student by {
                if k < s.len() as int {
                    assert(t[k] == s[k]);
                } else {
                    assert(t[k] == reviewer);
                }
            }
            assert(!t.contains(olds.projects@[i0].student));
            assert(t[s.len() as int] == reviewer);
            assert(t.contains(reviewer));
            assert forall|i: int|
                0 <= i < self.projects@.len() && i != i0 implies self.projects@[i]
                == olds.projects@[i] && self.unlocked@[i] == olds.unlocked@[i] by {}
            assert forall|i: int|
                0 <= i < self.projects@.len() implies (#[trigger] self.projects@[i]).unlock_count
                as int == self.unlocked@[i]@.len() as int by {
                if i == i0 {
                    assert(olds.projects@[i0].unlock_count as int == s.len() as int);
                    assert(t.len() == s.len() + 1);
                } else {
                    assert(self.projects@[i] == olds.projects@[i]);
                    assert(self.unlocked@[i] == olds.unlocked@[i]);
                }
            }
            assert forall|i: int|
                0 <= i < self.projects@.len() implies (#[trigger] self.projects@[i]).avg_rating
                as int == average_rating(self.reviews@[i]@) by {
                if i != i0 {
                    assert(self.projects@[i] == olds.projects@[i]);
                }
            }
        }
        Ok(ProjectUnlocked { project_id, reviewer, amount_paid: payment })
    }

    /// Accepts a review from an account that has unlocked the listing and
    /// whose rating lies in `[1, 5]`: appends it to the log, recomputes the
    /// average over the entire log, and returns the notification record. On
    /// any failure the state is exactly as before.
    pub fn submit_review(
        &mut self,
        project_id: u64,
        rating: u8,
        comment: String,
        reviewer: AccountId,
        now: Timestamp,
    ) -> (r: Result<ReviewSubmitted, Error>)
        requires
            old(self).wf(),
        ensures
            final(self).wf(),
            r == old(self).spec_review_outcome(project_id, rating, reviewer),
            r is Err ==> *final(self) == *old(self),
            r is Ok ==> {
                &&& final(self).reviews@.len() == old(self).reviews@.len()
                &&& final(self).reviews@[project_id as int]@ == old(self).reviews@[project_id as int]@.push(
                    (Review { reviewer, rating, comment, timestamp: now }),
                )
                &&& (forall|i: int|
                    0 <= i < old(self).reviews@.len() && i != project_id as int ==> final(self).reviews@[i] == old(self).reviews@[i])
                &&& final(self).projects@ == old(self).projects@.update(
                    project_id as int,
                    (Project {
                        avg_rating: (average_rating(
                            old(self).reviews@[project_id as int]@.push(
                                (Review { reviewer, rating, comment, timestamp: now }),
                            ),
                        ) as u8),
                        ..old(self).spec_project(project_id)
                    }),
                )
                &&& final(self).unlocked@ == old(self).unlocked@
                &&& final(self).unlock_price == old(self).unlock_price
                &&& final(self).student_share == old(self).student_share
                &&& final(self).platform_share == old(self).platform_share
                &&& final(self).platform_treasury == old(self).platform_treasury
            },
    {
        if !self.is_unlocked(project_id, reviewer) {
            return Err(Error::NotUnlocked);
        }
        if rating == 0 || rating > 5 {
            return Err(Error::InvalidRating);
        }
        let n = self.projects.len();
        let idx = project_id as usize;
        proof {
            assert((project_id as int) < n as int);
            assert(idx as int == project_id as int);
        }
        self.reviews[idx].push(Review { reviewer, rating, comment, timestamp: now });
        proof {
            let i0 = project_id as int;
            let olds = *old(self);
            let oldlog = olds.reviews@[i0]@;
            let newlog = self.reviews@[i0]@;
            assert(newlog.len() == oldlog.len() + 1);
            assert forall|j: int| 0 <= j < newlog.len() implies 1 <= (#[trigger] newlog[j]).rating
                <= 5 by {
                if j < oldlog.len() {
                    assert(newlog[j] == oldlog[j]);
                } else {
                    assert(newlog[j].rating == rating);
                }
            }
            assert(ratings_in_range(newlog));
            crate::rating::lemma_average_rating_in_range(newlog);
        }
        let avg = compute_average(&self.reviews[idx]);
        let p = &mut self.projects[idx];
        p.avg_rating = avg;
        Ok(ReviewSubmitted { project_id, reviewer, rating })
    }

    /// The fixed unlock fee.
    pub fn get_unlock_price(&self) -> (price: Balance)
        ensures
            price == self.unlock_price,
    {
        self.unlock_price
    }

    /// The stored record of a listing, or `None` if no such id was ever
    /// assigned.
    pub fn get_project(&self, project_id: u64) -> (r: Option<&Project>)
        ensures
            match r {
                Some(p) => self.has_project(project_id) && *p == self.spec_project(project_id),
                None => !self.has_project(project_id),
            },
    {
        if project_id < self.projects.len() as u64 {
            Some(&self.projects[project_id as usize])
        } else {
            None
        }
    }

    /// The full review log of a listing, or `None` if no such id was ever
    /// assigned.
    pub fn get_reviews(&self, project_id: u64) -> (r: Option<&Vec<Review>>)
        requires
            self.wf(),
        ensures
            match r {
                Some(v) => self.has_project(project_id) && v@ == self.reviews@[project_id as int]@,
                None => !self.has_project(project_id),
            },
    {
        if project_id < self.projects.len() as u64 {
            Some(&self.reviews[project_id as usize])
        } else {
            None
        }
    }

    /// The ids of the listings `student` created, in creation order; empty
    /// if they created none.
    pub fn get_student_projects(&self, student: AccountId) -> (ids: Vec<u64>)
        ensures
            ids@ == owned_ids(self.projects@, student),
    {
        let mut ids: Vec<u64> = Vec::new();
        let mut i: usize = 0;
        while i < self.projects.len()
            invariant
                i <= self.projects@.len(),
                ids@ == owned_ids(self.projects@.take(i as int), student),
            decreases self.projects@.len() - i,
        {
            proof {
                assert(self.projects@.take(i + 1).drop_last() =~= self.projects@.take(i as int));
                assert(self.projects@.take(i + 1).last() == self.projects@[i as int]);
            }
            if self.projects[i].student == student {
                ids.push(self.projects[i].id);
            }
            i = i + 1;
        }
        proof {
            assert(self.projects@.take(i as int) =~= self.projects@);
        }
        ids
    }

    /// Whether this account has unlocked this listing.
    pub fn is_unlocked(&self, project_id: u64, reviewer: AccountId) -> (r: bool)
        requires
            self.wf(),
        ensures
            r == self.spec_is_unlocked(project_id, reviewer),
    {
        if project_id >= self.projects.len() as u64 {
            return false;
        }
        let entry = &self.unlocked[project_id as usize];
        let mut i: usize = 0;
        while i < entry.len()
            invariant
                self.wf(),
                self.has_project(project_id),
                (project_id as int) < self.unlocked@.len(),
                entry@ == self.unlocked@[project_id as int]@,
                i <= entry@.len(),
                forall|j: int| 0 <= j < i ==> entry@[j] != reviewer,
            decreases entry@.len() - i,
        {
            if entry[i] == reviewer {
                assert(self.unlocked@[project_id as int]@.contains(reviewer)) by {
                    assert(entry@[i as int] == reviewer);
                }
                return true;
            }
            i = i + 1;
        }
        assert(!entry@.contains(reviewer));
        false
    }
}

} // verus!
