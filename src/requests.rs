use vstd::prelude::*;

use crate::address::{is_zero_address, Address};
use crate::error::FeePaymentError;
use crate::events::{RequestCancelled, TransactionCompleted, TransactionInitiated};
use crate::fees::{calculate_gas_fee, gas_fee};
use crate::state::{
    Advertisement, ProgramState, RequestStatus, TransactionRequest, TRANSACTION_TIMEOUT,
};

verus! {

/// The request that `initiate_send_transaction` creates, or the first check it fails.
pub open spec fn initiate_outcome(
    state: ProgramState,
    ad: Advertisement,
    user: Address,
    recipient: Address,
    amount: u64,
    now: i64,
    bump: u8,
) -> Result<TransactionRequest, FeePaymentError> {
    let fee = gas_fee(state.base_transaction_fee, amount);
    if !ad.is_active {
        Err(FeePaymentError::AdNotActive)
    } else if state.is_paused {
        Err(FeePaymentError::ProgramPaused)
    } else if is_zero_address(recipient@) {
        Err(FeePaymentError::InvalidRecipient)
    } else if amount == 0 {
        Err(FeePaymentError::InvalidAmount)
    } else if fee > u64::MAX {
        Err(FeePaymentError::MathOverflow)
    } else if state.total_funds < fee {
        Err(FeePaymentError::InsufficientProgramFunds)
    } else if now + TRANSACTION_TIMEOUT > i64::MAX {
        Err(FeePaymentError::MathOverflow)
    } else {
        Ok(
            TransactionRequest {
                user,
                recipient,
                amount,
                calculated_fee: fee as u64,
                status: RequestStatus::WaitingForAd,
                selected_ad_id: ad.id,
                created_at: now,
                expires_at: (now + TRANSACTION_TIMEOUT) as i64,
                ad_display_started_at: Some(now),
                completed_at: None,
                cancelled_at: None,
                ad_view_duration: None,
                bump,
            },
        )
    }
}

/// The notification that announces a new request and the advertisement to show.
pub open spec fn initiated_event(req: TransactionRequest, ad: Advertisement) -> TransactionInitiated {
    TransactionInitiated {
        user: req.user,
        recipient: req.recipient,
        amount: req.amount,
        calculated_fee: req.calculated_fee,
        ad_id: ad.id,
        ad_content: ad.content,
        ad_url: ad.url,
        display_duration: ad.display_duration,
    }
}

/// Opens a request from `user` to send `amount` to `recipient`, gated on `ad`.
/// An inactive advertisement is refused before any other check.
/// The fee is fixed here and not re-derived at settlement. `now` is the
/// trusted clock's reading; the request expires `TRANSACTION_TIMEOUT` later.
pub fn initiate_send_transaction(
    state: &ProgramState,
    ad: &Advertisement,
    user: &Address,
    recipient: &Address,
    amount: u64,
    now: i64,
    bump: u8,
) -> (r: Result<(TransactionRequest, TransactionInitiated), FeePaymentError>)
    ensures
        match initiate_outcome(*state, *ad, *user, *recipient, amount, now, bump) {
            Ok(req) => r == Ok::<(TransactionRequest, TransactionInitiated), FeePaymentError>(
                (req, initiated_event(req, *ad)),
            ),
            Err(e) => r == Err::<(TransactionRequest, TransactionInitiated), FeePaymentError>(e),
        },
{
    if !ad.is_active {
        return Err(FeePaymentError::AdNotActive);
    }
    if state.is_paused {
        return Err(FeePaymentError::ProgramPaused);
    }
    if recipient.is_zero() {
        return Err(FeePaymentError::InvalidRecipient);
    }
    if amount == 0 {
        return Err(FeePaymentError::InvalidAmount);
    }
    let calculated_fee: u64 = match calculate_gas_fee(amount, state) {
        Ok(fee) => fee,
        Err(e) => {
            return Err(e);
        },
    };
    if state.total_funds < calculated_fee {
        return Err(FeePaymentError::InsufficientProgramFunds);
    }
    if now > i64::MAX - TRANSACTION_TIMEOUT {
        return Err(FeePaymentError::MathOverflow);
    }
    let request = TransactionRequest {
        user: *user,
        recipient: *recipient,
        amount,
        calculated_fee,
        status: RequestStatus::WaitingForAd,
        selected_ad_id: ad.id.clone(),
        created_at: now,
        expires_at: now + TRANSACTION_TIMEOUT,
        ad_display_started_at: Some(now),
        completed_at: None,
        cancelled_at: None,
        ad_view_duration: None,
        bump,
    };
    let event = TransactionInitiated {
        user: *user,
        recipient: *recipient,
        amount,
        calculated_fee,
        ad_id: ad.id.clone(),
        ad_content: ad.content.clone(),
        ad_url: ad.url.clone(),
        display_duration: ad.display_duration,
    };
    Ok((request, event))
}

/// Whether the view-time gate is met: the reported duration and the time
/// measured since display started both reach the advertisement's minimum.
pub open spec fn view_time_met(
    reported: i64,
    started_at: i64,
    now: i64,
    display_duration: i64,
) -> bool {
    reported >= display_duration && now - started_at >= display_duration
}

/// The records after settling `req`, or the first check it fails.
pub open spec fn settle_outcome(
    state: ProgramState,
    ad: Advertisement,
    req: TransactionRequest,
    user: Address,
    recipient: Address,
    view_duration: i64,
    now: i64,
) -> Result<(ProgramState, Advertisement, TransactionRequest), FeePaymentError> {
    if req.status != RequestStatus::WaitingForAd {
        Err(FeePaymentError::InvalidStatus)
    } else if now > req.expires_at {
        Err(FeePaymentError::RequestExpired)
    } else if req.selected_ad_id@ != ad.id@ {
        Err(FeePaymentError::AdMismatch)
    } else if user@ != req.user@ {
        Err(FeePaymentError::Unauthorized)
    } else if recipient@ != req.recipient@ {
        Err(FeePaymentError::RecipientMismatch)
    } else if req.ad_display_started_at.is_none() {
        Err(FeePaymentError::AdNotStarted)
    } else if !view_time_met(
        view_duration,
        req.ad_display_started_at.unwrap(),
        now,
        ad.display_duration,
    ) {
        Err(FeePaymentError::InsufficientViewTime)
    } else if state.total_funds < req.calculated_fee {
        Err(FeePaymentError::InsufficientProgramFunds)
    } else if ad.view_count == u64::MAX || state.total_ads_viewed == u64::MAX
        || state.total_transactions == u64::MAX {
        Err(FeePaymentError::MathOverflow)
    } else {
        Ok(
            (
                ProgramState {
                    total_funds: (state.total_funds - req.calculated_fee) as u64,
                    total_ads_viewed: (state.total_ads_viewed + 1) as u64,
                    total_transactions: (state.total_transactions + 1) as u64,
                    ..state
                },
                Advertisement { view_count: (ad.view_count + 1) as u64, ..ad },
                TransactionRequest {
                    status: RequestStatus::Completed,
                    completed_at: Some(now),
                    ad_view_duration: Some(view_duration),
                    ..req
                },
            ),
        )
    }
}

/// The notification of a settlement: the user's amount reaches the recipient
/// unchanged, and the pool sponsors the fee fixed at initiation.
pub open spec fn completed_event(
    req: TransactionRequest,
    ad: Advertisement,
    view_duration: i64,
    now: i64,
) -> TransactionCompleted {
    TransactionCompleted {
        user: req.user,
        recipient: req.recipient,
        amount_sent: req.amount,
        amount_received: req.amount,
        gas_fee_sponsored: req.calculated_fee,
        ad_id: ad.id,
        view_duration,
        timestamp: now,
    }
}

/// Settles a pending request once its advertisement has been viewed long enough.
/// On success the caller moves `amount_sent` from the user to the recipient and
/// `gas_fee_sponsored` from the pool to the fee account, both or neither.
/// On failure no record changes. `now` is the trusted clock's reading.
pub fn complete_transaction_after_ad(
    state: &mut ProgramState,
    ad: &mut Advertisement,
    request: &mut TransactionRequest,
    user: &Address,
    recipient: &Address,
    view_duration: i64,
    now: i64,
) -> (r: Result<TransactionCompleted, FeePaymentError>)
    ensures
        match settle_outcome(*old(state), *old(ad), *old(request), *user, *recipient, view_duration, now) {
            Ok((s, a, q)) => {
                &&& *final(state) == s
                &&& *final(ad) == a
                &&& *final(request) == q
                &&& r == Ok::<TransactionCompleted, FeePaymentError>(
                    completed_event(*old(request), *old(ad), view_duration, now),
                )
            },
            Err(e) => {
                &&& *final(state) == *old(state)
                &&& *final(ad) == *old(ad)
                &&& *final(request) == *old(request)
                &&& r == Err::<TransactionCompleted, FeePaymentError>(e)
            },
        },
{
    if request.status != RequestStatus::WaitingForAd {
        return Err(FeePaymentError::InvalidStatus);
    }
    if now > request.expires_at {
        return Err(FeePaymentError::RequestExpired);
    }
    if request.selected_ad_id != ad.id {
        return Err(FeePaymentError::AdMismatch);
    }
    if *user != request.user {
        return Err(FeePaymentError::Unauthorized);
    }
    if *recipient != request.recipient {
        return Err(FeePaymentError::RecipientMismatch);
    }
    let started_at: i64 = match request.ad_display_started_at {
        Some(t) => t,
        None => {
            return Err(FeePaymentError::AdNotStarted);
        },
    };
    let elapsed: i128 = now as i128 - started_at as i128;
    if view_duration < ad.display_duration || elapsed < ad.display_duration as i128 {
        return Err(FeePaymentError::InsufficientViewTime);
    }
    let gas_fee_amount: u64 = request.calculated_fee;
    if state.total_funds < gas_fee_amount {
        return Err(FeePaymentError::InsufficientProgramFunds);
    }
    if ad.view_count == u64::MAX || state.total_ads_viewed == u64::MAX
        || state.total_transactions == u64::MAX {
        return Err(FeePaymentError::MathOverflow);
    }
    let event = TransactionCompleted {
        user: request.user,
        recipient: request.recipient,
        amount_sent: request.amount,
        amount_received: request.amount,
        gas_fee_sponsored: gas_fee_amount,
        ad_id: ad.id.clone(),
        view_duration,
        timestamp: now,
    };
    state.total_funds = state.total_funds - gas_fee_amount;
    state.total_ads_viewed = state.total_ads_viewed + 1;
    state.total_transactions = state.total_transactions + 1;
    ad.view_count = ad.view_count + 1;
    request.status = RequestStatus::Completed;
    request.completed_at = Some(now);
    request.ad_view_duration = Some(view_duration);
    Ok(event)
}

/// The request after its owner cancels it, or the first check it fails.
pub open spec fn cancel_outcome(req: TransactionRequest, user: Address, now: i64) -> Result<
    TransactionRequest,
    FeePaymentError,
> {
    if user@ != req.user@ {
        Err(FeePaymentError::Unauthorized)
    } else if req.status != RequestStatus::WaitingForAd {
        Err(FeePaymentError::InvalidStatus)
    } else {
        Ok(TransactionRequest { status: RequestStatus::Cancelled, cancelled_at: Some(now), ..req })
    }
}

/// Cancels a pending request on behalf of its owner. No funds move and no
/// counter changes; on failure the request is left as it was. `now` is the
/// trusted clock's reading.
pub fn cancel_request(request: &mut TransactionRequest, user: &Address, now: i64) -> (r: Result<
    RequestCancelled,
    FeePaymentError,
>)
    ensures
        match cancel_outcome(*old(request), *user, now) {
            Ok(q) => *final(request) == q && r == Ok::<RequestCancelled, FeePaymentError>(
                RequestCancelled { user: old(request).user },
            ),
            Err(e) => *final(request) == *old(request) && r == Err::<
                RequestCancelled,
                FeePaymentError,
            >(e),
        },
{
    if *user != request.user {
        return Err(FeePaymentError::Unauthorized);
    }
    if request.status != RequestStatus::WaitingForAd {
        return Err(FeePaymentError::InvalidStatus);
    }
    request.status = RequestStatus::Cancelled;
    request.cancelled_at = Some(now);
    Ok(RequestCancelled { user: request.user })
}

} // verus!
