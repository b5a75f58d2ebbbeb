//! Admin-action dispatcher for a custodial lending-pool vault.
//!
//! A request names an action on a vault. The dispatcher decides who has to
//! authorise the contract call behind it, builds the call's arguments, asks
//! for the call to be simulated and turns the outcome into a status and a
//! message. Reading the ledger and running the simulation are the caller's
//! work: the functions here say which read or simulation comes next, and take
//! the answers back as plain values.

pub mod actions;
pub mod call;
pub mod error;
pub mod identity;
pub mod laws;
pub mod ledger;
pub mod request;
pub mod response;
pub mod step;

pub use actions::{
    add_reserve_vault, claim_emissions, claim_fees, dispatch, initialize, liquidity, set_admin,
    set_take_rate, sign_and_simulate, simulate,
};
pub use call::{CallArg, ContractCall};
pub use error::DispatchError;
pub use identity::{key_hash, strkey_to_hash, DecodedKey};
pub use ledger::{
    get_new_sequence_number, get_reserve_config, get_reserves, DataKey, ReserveConfig,
};
pub use request::{
    ActionRequest, AddReserveRequest, ClaimEmissionsRequest, ClaimFeesRequest, InitializeRequest,
    LiquidityRequest, SetAdminRequest, SetTakeRateRequest,
};
pub use response::{handle_tx_response, SdkError, StandardResponse, TransactionResponse};
pub use step::{Answer, Step};
