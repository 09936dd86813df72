use vstd::prelude::*;

use crate::address::Address;

verus! {

// Notification records that instructions hand back for outside observers.

#[derive(Clone, Copy, Debug)]
pub struct ProgramInitialized {
    pub admin: Address,
    pub timestamp: i64,
}

#[derive(Clone, Copy, Debug)]
pub struct FundsDeposited {
    pub admin: Address,
    pub amount: u64,
    pub total_funds: u64,
}

#[derive(Clone, Debug)]
pub struct AdCreated {
    pub ad_id: String,
    pub reward_amount: u64,
    pub display_duration: i64,
    pub creator: Address,
    pub timestamp: i64,
}

#[derive(Clone, Debug)]
pub struct AdToggled {
    pub ad_id: String,
    pub is_active: bool,
}

/// Carries the advertisement's content so that a viewer can render it.
#[derive(Clone, Debug)]
pub struct TransactionInitiated {
    pub user: Address,
    pub recipient: Address,
    pub amount: u64,
    pub calculated_fee: u64,
    pub ad_id: String,
    pub ad_content: String,
    pub ad_url: String,
    pub display_duration: i64,
}

/// `amount_sent` moves from the user to the recipient; `gas_fee_sponsored`
/// moves from the pool to the fee account.
#[derive(Clone, Debug)]
pub struct TransactionCompleted {
    pub user: Address,
    pub recipient: Address,
    pub amount_sent: u64,
    pub amount_received: u64,
    pub gas_fee_sponsored: u64,
    pub ad_id: String,
    pub view_duration: i64,
    pub timestamp: i64,
}

#[derive(Clone, Debug)]
pub struct AdRetrieved {
    pub ad_id: String,
    pub ad_content: String,
    pub ad_url: String,
    pub display_duration: i64,
    pub reward_amount: u64,
}

#[derive(Clone, Copy, Debug)]
pub struct RequestCancelled {
    pub user: Address,
}

#[derive(Clone, Copy, Debug)]
pub struct BaseFeeUpdated {
    pub old_fee: u64,
    pub new_fee: u64,
    pub admin: Address,
}

#[derive(Clone, Copy, Debug)]
pub struct ProgramToggled {
    pub is_paused: bool,
    pub admin: Address,
}

#[derive(Clone, Copy, Debug)]
pub struct FundsWithdrawn {
    pub amount: u64,
    pub admin: Address,
    pub remaining: u64,
}

} // verus!
