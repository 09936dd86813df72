use vstd::prelude::*;

use crate::address::Address;
use crate::error::FeePaymentError;
use crate::events::{BaseFeeUpdated, FundsDeposited, FundsWithdrawn, ProgramInitialized, ProgramToggled};
use crate::state::{ProgramState, BASE_TRANSACTION_FEE, DEFAULT_FEE_PER_AD, MAX_SINGLE_DEPOSIT};

verus! {

/// A fresh pool administered by `admin`: no funds, zero counters, default fees, running.
pub open spec fn initial_state(admin: Address, bump: u8) -> ProgramState {
    ProgramState {
        admin,
        total_funds: 0,
        total_ads_viewed: 0,
        total_transactions: 0,
        fee_per_ad: DEFAULT_FEE_PER_AD,
        base_transaction_fee: BASE_TRANSACTION_FEE,
        is_paused: false,
        bump,
    }
}

/// Creates the pool with `deployer` as its admin; `now` is the trusted clock's reading.
pub fn initialize(deployer: &Address, bump: u8, now: i64) -> (r: (ProgramState, ProgramInitialized))
    ensures
        r.0 == initial_state(*deployer, bump),
        r.1 == (ProgramInitialized { admin: *deployer, timestamp: now }),
{
    let state = ProgramState {
        admin: *deployer,
        total_funds: 0,
        total_ads_viewed: 0,
        total_transactions: 0,
        fee_per_ad: DEFAULT_FEE_PER_AD,
        base_transaction_fee: BASE_TRANSACTION_FEE,
        is_paused: false,
        bump,
    };
    (state, ProgramInitialized { admin: *deployer, timestamp: now })
}

/// The pool after `caller` deposits `amount`, or the first check it fails.
pub open spec fn deposit_outcome(state: ProgramState, caller: Address, amount: u64) -> Result<
    ProgramState,
    FeePaymentError,
> {
    if caller@ != state.admin@ {
        Err(FeePaymentError::Unauthorized)
    } else if state.is_paused {
        Err(FeePaymentError::ProgramPaused)
    } else if amount == 0 || amount > MAX_SINGLE_DEPOSIT {
        Err(FeePaymentError::InvalidAmount)
    } else if state.total_funds + amount > u64::MAX {
        Err(FeePaymentError::MathOverflow)
    } else {
        Ok(ProgramState { total_funds: (state.total_funds + amount) as u64, ..state })
    }
}

/// Credits `amount` to the pool. On success the caller moves `amount` from
/// the admin to the pool; on failure the pool is unchanged.
pub fn deposit_funds(state: &mut ProgramState, admin: &Address, amount: u64) -> (r: Result<
    FundsDeposited,
    FeePaymentError,
>)
    ensures
        match deposit_outcome(*old(state), *admin, amount) {
            Ok(s) => *final(state) == s && r == Ok::<FundsDeposited, FeePaymentError>(
                FundsDeposited { admin: *admin, amount, total_funds: s.total_funds },
            ),
            Err(e) => *final(state) == *old(state) && r == Err::<FundsDeposited, FeePaymentError>(
                e,
            ),
        },
{
    if *admin != state.admin {
        return Err(FeePaymentError::Unauthorized);
    }
    if state.is_paused {
        return Err(FeePaymentError::ProgramPaused);
    }
    if amount == 0 || amount > MAX_SINGLE_DEPOSIT {
        return Err(FeePaymentError::InvalidAmount);
    }
    if state.total_funds > u64::MAX - amount {
        return Err(FeePaymentError::MathOverflow);
    }
    state.total_funds = state.total_funds + amount;
    Ok(FundsDeposited { admin: *admin, amount, total_funds: state.total_funds })
}

/// The pool after `caller` withdraws `amount`, or the first check it fails.
pub open spec fn withdraw_outcome(state: ProgramState, caller: Address, amount: u64) -> Result<
    ProgramState,
    FeePaymentError,
> {
    if caller@ != state.admin@ {
        Err(FeePaymentError::Unauthorized)
    } else if amount == 0 {
        Err(FeePaymentError::InvalidAmount)
    } else if state.total_funds < amount {
        Err(FeePaymentError::InsufficientProgramFunds)
    } else {
        Ok(ProgramState { total_funds: (state.total_funds - amount) as u64, ..state })
    }
}

/// Debits `amount` from the pool. On success the caller moves `amount` from
/// the pool to the admin; on failure the pool is unchanged.
pub fn withdraw_funds(state: &mut ProgramState, admin: &Address, amount: u64) -> (r: Result<
    FundsWithdrawn,
    FeePaymentError,
>)
    ensures
        match withdraw_outcome(*old(state), *admin, amount) {
            Ok(s) => *final(state) == s && r == Ok::<FundsWithdrawn, FeePaymentError>(
                FundsWithdrawn { amount, admin: *admin, remaining: s.total_funds },
            ),
            Err(e) => *final(state) == *old(state) && r == Err::<FundsWithdrawn, FeePaymentError>(
                e,
            ),
        },
{
    if *admin != state.admin {
        return Err(FeePaymentError::Unauthorized);
    }
    if amount == 0 {
        return Err(FeePaymentError::InvalidAmount);
    }
    if state.total_funds < amount {
        return Err(FeePaymentError::InsufficientProgramFunds);
    }
    state.total_funds = state.total_funds - amount;
    Ok(FundsWithdrawn { amount, admin: *admin, remaining: state.total_funds })
}

/// Sets the base fee that later requests are charged; open requests keep theirs.
pub fn update_base_fee(state: &mut ProgramState, admin: &Address, new_base_fee: u64) -> (r: Result<
    BaseFeeUpdated,
    FeePaymentError,
>)
    ensures
        admin@ != old(state).admin@ ==> *final(state) == *old(state) && r == Err::<
            BaseFeeUpdated,
            FeePaymentError,
        >(FeePaymentError::Unauthorized),
        admin@ == old(state).admin@ && new_base_fee == 0 ==> *final(state) == *old(state) && r
            == Err::<BaseFeeUpdated, FeePaymentError>(FeePaymentError::InvalidAmount),
        admin@ == old(state).admin@ && new_base_fee > 0 ==> *final(state) == (ProgramState {
            base_transaction_fee: new_base_fee,
            ..*old(state)
        }) && r == Ok::<BaseFeeUpdated, FeePaymentError>(
            BaseFeeUpdated {
                old_fee: old(state).base_transaction_fee,
                new_fee: new_base_fee,
                admin: *admin,
            },
        ),
{
    if *admin != state.admin {
        return Err(FeePaymentError::Unauthorized);
    }
    if new_base_fee == 0 {
        return Err(FeePaymentError::InvalidAmount);
    }
    let old_fee: u64 = state.base_transaction_fee;
    state.base_transaction_fee = new_base_fee;
    Ok(BaseFeeUpdated { old_fee, new_fee: new_base_fee, admin: *admin })
}

/// Flips the pause flag. Only the admin may.
pub fn toggle_pause(state: &mut ProgramState, admin: &Address) -> (r: Result<
    ProgramToggled,
    FeePaymentError,
>)
    ensures
        admin@ != old(state).admin@ ==> *final(state) == *old(state) && r == Err::<
            ProgramToggled,
            FeePaymentError,
        >(FeePaymentError::Unauthorized),
        admin@ == old(state).admin@ ==> *final(state) == (ProgramState {
            is_paused: !old(state).is_paused,
            ..*old(state)
        }) && r == Ok::<ProgramToggled, FeePaymentError>(
            ProgramToggled { is_paused: !old(state).is_paused, admin: *admin },
        ),
{
    if *admin != state.admin {
        return Err(FeePaymentError::Unauthorized);
    }
    state.is_paused = !state.is_paused;
    Ok(ProgramToggled { is_paused: state.is_paused, admin: *admin })
}

} // verus!
