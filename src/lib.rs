use vstd::prelude::*;

pub mod address;
pub mod ads;
pub mod error;
pub mod events;
pub mod fees;
pub mod laws;
pub mod pool;
pub mod requests;
pub mod state;

pub use address::Address;
pub use ads::{create_ad, get_random_ad, toggle_ad};
pub use error::FeePaymentError;
pub use events::{
    AdCreated, AdRetrieved, AdToggled, BaseFeeUpdated, FundsDeposited, FundsWithdrawn,
    ProgramInitialized, ProgramToggled, RequestCancelled, TransactionCompleted,
    TransactionInitiated,
};
pub use fees::calculate_gas_fee;
pub use pool::{deposit_funds, initialize, toggle_pause, update_base_fee, withdraw_funds};
pub use requests::{cancel_request, complete_transaction_after_ad, initiate_send_transaction};
pub use state::{Advertisement, ProgramState, RequestStatus, TransactionRequest};

verus! {

} // verus!
