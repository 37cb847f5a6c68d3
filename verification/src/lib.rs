//! A ledger-resident marketplace for paid project reviews.
//!
//! Students publish project listings; another account pays a fixed fee to unlock a
//! listing, which splits the payment between the project owner and a platform
//! treasury; once unlocked, that account may submit ratings with comments, and
//! the listing's average rating is recomputed deterministically over the whole
//! review log.
//!
//! The surrounding ledger runtime supplies caller identities, attached value,
//! timestamps, and the value-transfer primitive; this crate holds the state
//! and every decision, and proves the one-time-unlock, split-payment and
//! rating-aggregate rules.

pub mod data;
pub mod events;
pub mod laws;
pub mod portfolio;
pub mod rating;

pub use data::AccountId;
pub use data::Balance;
pub use data::Error;
pub use data::Project;
pub use data::Review;
pub use data::Timestamp;
pub use events::ProjectCreated;
pub use events::ProjectUnlocked;
pub use events::ReviewSubmitted;
pub use portfolio::DotgoPortfolio;
pub use portfolio::PaymentSplit;
