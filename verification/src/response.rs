//! The response normalizer: from a simulation outcome to a status and a message.

use vstd::prelude::*;

verus! {

/// Status of a simulation that succeeded.
pub const STATUS_OK: u32 = 200;

/// Status of a simulation that ran and found the call rejected.
pub const STATUS_REJECTED: u32 = 400;

/// Status of a simulation that could not be run.
pub const STATUS_INTERNAL: u32 = 500;

/// The one shape of every reply: a status class and a message.
#[derive(Debug, Clone, PartialEq, Eq)]
pub struct StandardResponse {
    pub status: u32,
    pub message: String,
}

/// What the simulator hands back when it could be reached: the prepared
/// transaction, or the reason why the call would be rejected.
#[derive(Debug, PartialEq, Eq)]
pub struct TransactionResponse {
    pub tx: Option<String>,
    pub error: Option<String>,
}

impl Clone for TransactionResponse {
    fn clone(&self) -> (copy: Self)
        ensures
            copy == *self,
    {
        let tx = match &self.tx {
            Some(summary) => Some(summary.clone()),
            None => None,
        };
        let error = match &self.error {
            Some(reason) => Some(reason.clone()),
            None => None,
        };
        TransactionResponse { tx, error }
    }
}

/// Why the host could not serve a read or a simulation.
#[derive(Debug, Clone, Copy, PartialEq, Eq)]
pub enum SdkError {
    Conversion,
    DbRead,
    DbWrite,
    NoValOnStack,
    HostConfiguration,
    ReadOnUpdateAction,
    UpdateOnReadAction,
    Unknown,
}

/// A response as a mathematical value.
pub struct ResponseView {
    pub status: int,
    pub message: Seq<char>,
}

impl View for StandardResponse {
    type V = ResponseView;

    open spec fn view(&self) -> ResponseView {
        ResponseView { status: self.status as int, message: self.message@ }
    }
}

/// Message of a rejected call for which the simulator gave no reason.
pub open spec fn unknown_error_message() -> Seq<char> {
    "unknown error"@
}

/// Message of every reply with status 500.
pub open spec fn internal_error_message() -> Seq<char> {
    "Internal simulation error"@
}

/// The response that belongs to a simulation outcome.
pub open spec fn normalized(simulated: Result<TransactionResponse, SdkError>) -> ResponseView {
    match simulated {
        Ok(reply) => match reply.tx {
            Some(summary) => ResponseView { status: 200, message: summary@ },
            None => match reply.error {
                Some(reason) => ResponseView { status: 400, message: reason@ },
                None => ResponseView { status: 400, message: unknown_error_message() },
            },
        },
        Err(_) => ResponseView { status: 500, message: internal_error_message() },
    }
}

/// Maps the outcome of a simulation to the response sent to the caller.
pub fn handle_tx_response(simulated: Result<TransactionResponse, SdkError>) -> (response:
    StandardResponse)
    ensures
        response@ == normalized(simulated),
{
    match simulated {
        Ok(txresult) => match txresult.tx {
            Some(tx) => StandardResponse { status: STATUS_OK, message: tx },
            None => match txresult.error {
                Some(reason) => StandardResponse { status: STATUS_REJECTED, message: reason },
                None => StandardResponse {
                    status: STATUS_REJECTED,
                    message: "unknown error".to_owned(),
                },
            },
        },
        Err(_) => StandardResponse {
            status: STATUS_INTERNAL,
            message: "Internal simulation error".to_owned(),
        },
    }
}

} // verus!
