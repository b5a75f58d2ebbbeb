//! What passes between the dispatcher and the ledger: the reads and the
//! simulation that it asks for, and the answers that come back.

use vstd::prelude::*;
use crate::call::{CallView, ContractCall};
use crate::error::DispatchError;
use crate::ledger::{DataKey, ReserveConfig};
use crate::response::{ResponseView, SdkError, StandardResponse, TransactionResponse};

verus! {

/// What came back from a read or from the simulator. The inner `None` of a
/// read says that nothing is stored under the key.
#[derive(Debug, PartialEq, Eq)]
pub enum Answer {
    /// The administrator's address, from the vault's storage.
    Admin(Result<Option<String>, SdkError>),
    /// The addresses of the vault's reserves, in the stored order.
    ReserveList(Result<Option<Vec<String>>, SdkError>),
    /// The configuration of one reserve.
    ReserveConfig(Result<Option<ReserveConfig>, SdkError>),
    /// The current sequence counter of an account.
    Account(Result<Option<i64>, SdkError>),
    /// The outcome of a simulation.
    Simulation(Result<TransactionResponse, SdkError>),
}

/// What has to happen next for a request.
#[derive(Debug, Clone, PartialEq, Eq)]
pub enum Step {
    /// Read the administrator from the vault's storage.
    ReadAdmin { vault: [u8; 32], key: DataKey },
    /// Read the list of reserves from the vault's storage.
    ReadReserveList { vault: [u8; 32] },
    /// Read the configuration of a reserve from the vault's storage.
    ReadReserveConfig { vault: [u8; 32], reserve: String },
    /// Read an account's entry from the ledger.
    ReadAccount { account: [u8; 32] },
    /// Simulate a contract call.
    Simulate(ContractCall),
    /// Send the response: the request is done.
    Conclude(StandardResponse),
    /// Give the request up without a response.
    Abort(DispatchError),
}

/// A step as a mathematical value.
pub enum StepView {
    ReadAdmin { vault: [u8; 32], key: DataKey },
    ReadReserveList { vault: [u8; 32] },
    ReadReserveConfig { vault: [u8; 32], reserve: Seq<char> },
    ReadAccount { account: [u8; 32] },
    Simulate(CallView),
    Conclude(ResponseView),
    Abort(DispatchError),
}

impl View for Step {
    type V = StepView;

    open spec fn view(&self) -> StepView {
        match *self {
            Step::ReadAdmin { vault, key } => StepView::ReadAdmin { vault, key },
            Step::ReadReserveList { vault } => StepView::ReadReserveList { vault },
            Step::ReadReserveConfig { vault, reserve } => StepView::ReadReserveConfig {
                vault,
                reserve: reserve@,
            },
            Step::ReadAccount { account } => StepView::ReadAccount { account },
            Step::Simulate(call) => StepView::Simulate(call@),
            Step::Conclude(response) => StepView::Conclude(response@),
            Step::Abort(error) => StepView::Abort(error),
        }
    }
}

} // verus!
