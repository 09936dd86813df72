use vstd::prelude::*;

use crate::error::FeePaymentError;
use crate::state::ProgramState;

verus! {

/// Fee for sponsoring a transfer of `amount`: the base fee plus 0.1% of the
/// amount, truncated toward zero.
pub open spec fn gas_fee(base_fee: u64, amount: u64) -> int {
    base_fee + amount / 1000
}

/// Computes the fee for a transfer of `amount` under the pool's current base
/// fee. Fails with `MathOverflow` when the fee does not fit in a `u64`.
pub fn calculate_gas_fee(amount: u64, state: &ProgramState) -> (r: Result<u64, FeePaymentError>)
    ensures
        gas_fee(state.base_transaction_fee, amount) <= u64::MAX ==> r == Ok::<u64, FeePaymentError>(
            gas_fee(state.base_transaction_fee, amount) as u64,
        ),
        gas_fee(state.base_transaction_fee, amount) > u64::MAX ==> r == Err::<u64, FeePaymentError>(
            FeePaymentError::MathOverflow,
        ),
{
    let percentage_fee: u64 = amount / 1000;
    if state.base_transaction_fee > u64::MAX - percentage_fee {
        return Err(FeePaymentError::MathOverflow);
    }
    Ok(state.base_transaction_fee + percentage_fee)
}

} // verus!
