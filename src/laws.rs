use vstd::prelude::*;

use crate::address::Address;
use crate::error::FeePaymentError;
use crate::pool::{deposit_outcome, initial_state, withdraw_outcome};
use crate::requests::{
    cancel_outcome, completed_event, initiate_outcome, settle_outcome, view_time_met,
};
use crate::state::{Advertisement, ProgramState, RequestStatus, TransactionRequest, MAX_SINGLE_DEPOSIT};

verus! {

/// Two valid deposits by the admin add exactly their amounts to the pool, and
/// the order in which they come does not matter. Where the sum does not fit,
/// the two never both succeed.
pub proof fn lemma_deposits_add_up(state: ProgramState, admin: Address, d1: u64, d2: u64)
    requires
        admin@ == state.admin@,
        !state.is_paused,
        0 < d1 <= MAX_SINGLE_DEPOSIT,
        0 < d2 <= MAX_SINGLE_DEPOSIT,
    ensures
        state.total_funds + d1 + d2 <= u64::MAX ==> {
            &&& deposit_outcome(state, admin, d1) is Ok
            &&& deposit_outcome(state, admin, d2) is Ok
            &&& deposit_outcome(deposit_outcome(state, admin, d1)->Ok_0, admin, d2) is Ok
            &&& deposit_outcome(deposit_outcome(state, admin, d1)->Ok_0, admin, d2)->Ok_0.total_funds
                == state.total_funds + d1 + d2
            &&& deposit_outcome(deposit_outcome(state, admin, d1)->Ok_0, admin, d2)
                == deposit_outcome(deposit_outcome(state, admin, d2)->Ok_0, admin, d1)
        },
        state.total_funds + d1 + d2 > u64::MAX ==> {
            ||| deposit_outcome(state, admin, d1) is Err
            ||| deposit_outcome(deposit_outcome(state, admin, d1)->Ok_0, admin, d2)
                == Err::<ProgramState, FeePaymentError>(FeePaymentError::MathOverflow)
        },
{
}

/// A settlement takes exactly the request's fee from the pool, and the
/// recipient is credited exactly the amount the request was opened for.
pub proof fn lemma_settlement_moves_fee_only(
    state: ProgramState,
    ad: Advertisement,
    req: TransactionRequest,
    user: Address,
    recipient: Address,
    view_duration: i64,
    now: i64,
)
    requires
        settle_outcome(state, ad, req, user, recipient, view_duration, now) is Ok,
    ensures
        ({
            let (s, a, q) = settle_outcome(state, ad, req, user, recipient, view_duration, now)->Ok_0;
            &&& s.total_funds == state.total_funds - req.calculated_fee
            &&& q.amount == req.amount
            &&& q.calculated_fee == req.calculated_fee
            &&& completed_event(req, ad, view_duration, now).amount_received == req.amount
            &&& completed_event(req, ad, view_duration, now).gas_fee_sponsored == req.calculated_fee
        }),
{
}

/// Only a pending request whose view-time gate is met can become `Completed`,
/// and cancellation never completes a request.
pub proof fn lemma_completion_requires_view(
    state: ProgramState,
    ad: Advertisement,
    req: TransactionRequest,
    user: Address,
    recipient: Address,
    view_duration: i64,
    now: i64,
)
    ensures
        settle_outcome(state, ad, req, user, recipient, view_duration, now) is Ok ==> {
            &&& req.status == RequestStatus::WaitingForAd
            &&& req.ad_display_started_at is Some
            &&& view_time_met(
                view_duration,
                req.ad_display_started_at->Some_0,
                now,
                ad.display_duration,
            )
            &&& settle_outcome(state, ad, req, user, recipient, view_duration, now)->Ok_0.2.status
                == RequestStatus::Completed
        },
        cancel_outcome(req, user, now) is Ok ==> {
            &&& req.status == RequestStatus::WaitingForAd
            &&& cancel_outcome(req, user, now)->Ok_0.status == RequestStatus::Cancelled
        },
{
}

/// A request that is already `Completed` or `Cancelled` cannot be settled.
pub proof fn lemma_no_double_settlement(
    state: ProgramState,
    ad: Advertisement,
    req: TransactionRequest,
    user: Address,
    recipient: Address,
    view_duration: i64,
    now: i64,
)
    requires
        req.status == RequestStatus::Completed || req.status == RequestStatus::Cancelled,
    ensures
        settle_outcome(state, ad, req, user, recipient, view_duration, now) == Err::<
            (ProgramState, Advertisement, TransactionRequest),
            FeePaymentError,
        >(FeePaymentError::InvalidStatus),
{
}

/// A pending request cannot be settled after it expires, whatever the view time.
pub proof fn lemma_no_settlement_after_expiry(
    state: ProgramState,
    ad: Advertisement,
    req: TransactionRequest,
    user: Address,
    recipient: Address,
    view_duration: i64,
    now: i64,
)
    requires
        req.status == RequestStatus::WaitingForAd,
        now > req.expires_at,
    ensures
        settle_outcome(state, ad, req, user, recipient, view_duration, now) == Err::<
            (ProgramState, Advertisement, TransactionRequest),
            FeePaymentError,
        >(FeePaymentError::RequestExpired),
{
}

/// Withdrawing more than the pool holds always fails; for the admin the
/// failure is `InsufficientProgramFunds`.
pub proof fn lemma_overdraw_refused(state: ProgramState, caller: Address, amount: u64)
    requires
        amount > state.total_funds,
    ensures
        withdraw_outcome(state, caller, amount) is Err,
        caller@ == state.admin@ ==> withdraw_outcome(state, caller, amount) == Err::<
            ProgramState,
            FeePaymentError,
        >(FeePaymentError::InsufficientProgramFunds),
{
}

/// A fresh pool is well formed, and deposits, withdrawals and settlements keep
/// it so.
pub proof fn lemma_pool_stays_well_formed(
    state: ProgramState,
    ad: Advertisement,
    req: TransactionRequest,
    caller: Address,
    recipient: Address,
    amount: u64,
    view_duration: i64,
    now: i64,
    bump: u8,
)
    requires
        state.wf(),
    ensures
        initial_state(caller, bump).wf(),
        deposit_outcome(state, caller, amount) is Ok ==> deposit_outcome(
            state,
            caller,
            amount,
        )->Ok_0.wf(),
        withdraw_outcome(state, caller, amount) is Ok ==> withdraw_outcome(
            state,
            caller,
            amount,
        )->Ok_0.wf(),
        settle_outcome(state, ad, req, caller, recipient, view_duration, now) is Ok
            ==> settle_outcome(state, ad, req, caller, recipient, view_duration, now)->Ok_0.0.wf(),
{
}

/// A new request is well formed, and settling or cancelling keeps it so.
pub proof fn lemma_request_stays_well_formed(
    state: ProgramState,
    ad: Advertisement,
    req: TransactionRequest,
    user: Address,
    recipient: Address,
    amount: u64,
    view_duration: i64,
    now: i64,
    bump: u8,
)
    ensures
        initiate_outcome(state, ad, user, recipient, amount, now, bump) is Ok ==> initiate_outcome(
            state,
            ad,
            user,
            recipient,
            amount,
            now,
            bump,
        )->Ok_0.wf(),
        req.wf() && settle_outcome(state, ad, req, user, recipient, view_duration, now) is Ok
            ==> settle_outcome(state, ad, req, user, recipient, view_duration, now)->Ok_0.2.wf(),
        req.wf() && cancel_outcome(req, user, now) is Ok ==> cancel_outcome(
            req,
            user,
            now,
        )->Ok_0.wf(),
{
}

/// A request in a terminal state can be neither settled nor cancelled.
pub proof fn lemma_terminal_requests_are_final(
    state: ProgramState,
    ad: Advertisement,
    req: TransactionRequest,
    user: Address,
    recipient: Address,
    view_duration: i64,
    now: i64,
)
    requires
        req.status != RequestStatus::WaitingForAd,
    ensures
        settle_outcome(state, ad, req, user, recipient, view_duration, now) is Err,
        cancel_outcome(req, user, now) is Err,
{
}

} // verus!
