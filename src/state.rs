use vstd::prelude::*;

use crate::address::{is_zero_address, Address};

verus! {

/// Sponsorship fee per viewed advertisement that a fresh pool starts with.
pub const DEFAULT_FEE_PER_AD: u64 = 5_000;

/// Base transaction fee that a fresh pool starts with.
pub const BASE_TRANSACTION_FEE: u64 = 5_000;

/// Largest amount a single deposit may bring.
pub const MAX_SINGLE_DEPOSIT: u64 = 10_000_000_000;

/// Time window, in seconds, during which a request may be settled.
pub const TRANSACTION_TIMEOUT: i64 = 300;

/// Longest advertisement id, in bytes.
pub const MAX_AD_ID_LENGTH: usize = 32;

/// Longest advertisement URL, in bytes.
pub const MAX_AD_URL_LENGTH: usize = 200;

/// Longest advertisement content, in bytes.
pub const MAX_AD_CONTENT_LENGTH: usize = 500;

/// Smallest reward an advertisement may carry.
pub const MIN_AD_REWARD: u64 = 1_000;

/// Shortest display time, in seconds, an advertisement may require.
pub const MIN_AD_VIEW_TIME: i64 = 5;

/// The pool: custodial balance, fee parameters, pause flag and counters.
#[derive(Clone, Copy, Debug)]
pub struct ProgramState {
    pub admin: Address,
    pub total_funds: u64,
    pub total_ads_viewed: u64,
    pub total_transactions: u64,
    pub fee_per_ad: u64,
    pub base_transaction_fee: u64,
    pub is_paused: bool,
    pub bump: u8,
}

/// A gating task: content a user must view for a minimum time.
/// `reward_amount` is recorded but takes no part in fees or payouts.
#[derive(Clone, Debug)]
pub struct Advertisement {
    pub id: String,
    pub url: String,
    pub content: String,
    pub reward_amount: u64,
    pub display_duration: i64,
    pub is_active: bool,
    pub view_count: u64,
    pub created_at: i64,
    pub bump: u8,
}

/// Lifecycle of a request: `WaitingForAd` is the only non-terminal state.
#[derive(Clone, Copy, Debug, PartialEq, Eq, Structural)]
pub enum RequestStatus {
    WaitingForAd,
    Completed,
    Cancelled,
}

/// A user's pending instruction to send `amount` to `recipient`, gated on an advertisement.
#[derive(Clone, Debug)]
pub struct TransactionRequest {
    pub user: Address,
    pub recipient: Address,
    pub amount: u64,
    pub calculated_fee: u64,
    pub status: RequestStatus,
    pub selected_ad_id: String,
    pub created_at: i64,
    pub expires_at: i64,
    pub ad_display_started_at: Option<i64>,
    pub completed_at: Option<i64>,
    pub cancelled_at: Option<i64>,
    pub ad_view_duration: Option<i64>,
    pub bump: u8,
}

impl ProgramState {
    /// Fee parameters stay strictly positive.
    pub open spec fn wf(&self) -> bool {
        self.base_transaction_fee > 0 && self.fee_per_ad > 0
    }
}

impl TransactionRequest {
    /// The fields a request carries agree with its place in the lifecycle.
    pub open spec fn wf(&self) -> bool {
        &&& self.amount > 0
        &&& !is_zero_address(self.recipient@)
        &&& self.expires_at == self.created_at + TRANSACTION_TIMEOUT
        &&& self.ad_display_started_at == Some(self.created_at)
        &&& match self.status {
            RequestStatus::WaitingForAd => {
                &&& self.completed_at is None
                &&& self.cancelled_at is None
                &&& self.ad_view_duration is None
            },
            RequestStatus::Completed => {
                &&& self.completed_at is Some
                &&& self.ad_view_duration is Some
                &&& self.cancelled_at is None
            },
            RequestStatus::Cancelled => {
                &&& self.cancelled_at is Some
                &&& self.completed_at is None
                &&& self.ad_view_duration is None
            },
        }
    }
}

} // verus!
