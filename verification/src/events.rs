//! Notification records handed to the host's event sink after a state
//! transition commits. The sink is fire-and-forget: nothing here is ever read
//! back by the engine.

use vstd::prelude::*;
use crate::data::AccountId;
use crate::data::Balance;

verus! {

/// Emitted after a listing is created.
#[derive(Debug, PartialEq, Eq)]
pub struct ProjectCreated {
    pub project_id: u64,
    pub student: AccountId,
    pub title: String,
}

/// Emitted after a successful unlock.
#[derive(Debug, Clone, Copy, PartialEq, Eq, Structural)]
pub struct ProjectUnlocked {
    pub project_id: u64,
    pub reviewer: AccountId,
    pub amount_paid: Balance,
}

/// Emitted after a review is accepted.
#[derive(Debug, Clone, Copy, PartialEq, Eq, Structural)]
pub struct ReviewSubmitted {
    pub project_id: u64,
    pub reviewer: AccountId,
    pub rating: u8,
}

} // verus!
