//! Core data model: accounts, balances, listings, reviews, and the error
//! taxonomy shared by every operation of the marketplace.

use vstd::prelude::*;

verus! {

/// An authenticated caller identity, supplied by the surrounding ledger.
pub type AccountId = u64;

/// An amount of ledger value.
pub type Balance = u128;

/// A logical timestamp, supplied by the surrounding ledger.
pub type Timestamp = u64;

/// A published project listing.
///
/// `id` is assigned once at creation and never reused; `unlock_count` and
/// `avg_rating` are the only fields ever mutated afterwards.
#[derive(Debug, PartialEq, Eq)]
pub struct Project {
    pub id: u64,
    pub student: AccountId,
    pub title: String,
    pub description: String,
    pub github_url: String,
    pub demo_url: String,
    pub skills: Vec<String>,
    pub created_at: Timestamp,
    pub unlock_count: u64,
    pub avg_rating: u8,
}

/// One submitted review: appended to a listing's review log, never edited
/// or removed.
#[derive(Debug, PartialEq, Eq)]
pub struct Review {
    pub reviewer: AccountId,
    pub rating: u8,
    pub comment: String,
    pub timestamp: Timestamp,
}

/// Every caller-visible failure. All are terminal outcomes of a single call;
/// none is retried internally.
#[derive(Debug, Clone, Copy, PartialEq, Eq, Structural)]
pub enum Error {
    ProjectNotFound,
    NotUnlocked,
    AlreadyUnlocked,
    InsufficientPayment,
    CannotReviewOwnProject,
    InvalidRating,
    TransferFailed,
}

} // verus!
