//! Why a request is given up before any response can be built.

use vstd::prelude::*;
use crate::response::SdkError;

verus! {

/// A failure that ends a request without a response. Outcomes of the
/// simulation are never among these: they are reported as responses.
#[derive(Debug, Clone, Copy, PartialEq, Eq)]
pub enum DispatchError {
    /// An identity string is neither a contract id nor an account id.
    UnsupportedIdentifierFormat,
    /// The vault's storage holds no administrator.
    MissingAdmin,
    /// The vault's storage holds no list of reserves.
    MissingReserveList,
    /// The vault's storage holds no configuration for a reserve.
    MissingReserve,
    /// The ledger holds no entry for the signer's account.
    MissingAccount,
    /// The host could not read an entry or decode what is stored there.
    HostFailure(SdkError),
    /// The account's sequence counter has no successor.
    SequenceOverflow,
    /// A reserve's index is too large for its token ids to exist.
    TokenIdOverflow,
    /// An answer is of another kind than the read or simulation asked for.
    UnexpectedAnswer,
}

} // verus!
