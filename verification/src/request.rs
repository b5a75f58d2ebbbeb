//! The requests, one type for each action on a vault.

use vstd::prelude::*;

verus! {

/// Asks to initialize a vault with its first administrator.
#[derive(Debug, Clone, PartialEq, Eq)]
pub struct InitializeRequest {
    pub vault: String,
    pub admin: String,
    pub pool: String,
    pub take_rate: i64,
}

/// Asks to register a reserve of the pool with the vault.
#[derive(Debug, Clone, PartialEq, Eq)]
pub struct AddReserveRequest {
    pub vault: String,
    pub reserve: String,
}

/// Asks to hand the vault over to another administrator.
#[derive(Debug, Clone, PartialEq, Eq)]
pub struct SetAdminRequest {
    pub vault: String,
    pub new_admin: String,
}

/// Asks to change the rate of the fees that the vault takes.
#[derive(Debug, Clone, PartialEq, Eq)]
pub struct SetTakeRateRequest {
    pub vault: String,
    pub take_rate: i64,
}

/// Asks to pay out fees that the vault has collected on a reserve.
#[derive(Debug, Clone, PartialEq, Eq)]
pub struct ClaimFeesRequest {
    pub vault: String,
    pub reserve: String,
    pub to: String,
    pub amount: i64,
}

/// Asks to claim the emissions of every reserve of the vault.
#[derive(Debug, Clone, PartialEq, Eq)]
pub struct ClaimEmissionsRequest {
    pub vault: String,
    pub to: String,
}

/// Asks to move a user's liquidity into or out of the vault.
#[derive(Debug, Clone, PartialEq, Eq)]
pub struct LiquidityRequest {
    pub vault: String,
    /// Either "deposit" or "withdraw"; handed on as the name of the call.
    pub action: String,
    pub reserve: String,
    pub user: String,
    pub amount: i64,
}

/// A request for any of the actions.
#[derive(Debug, Clone, PartialEq, Eq)]
pub enum ActionRequest {
    Initialize(InitializeRequest),
    AddReserveVault(AddReserveRequest),
    SetAdmin(SetAdminRequest),
    SetTakeRate(SetTakeRateRequest),
    ClaimFees(ClaimFeesRequest),
    ClaimEmissions(ClaimEmissionsRequest),
    Liquidity(LiquidityRequest),
}

} // verus!
