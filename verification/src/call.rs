//! The call argument builder: the contract call behind each action.

use vstd::prelude::*;
use crate::error::DispatchError;
use crate::ledger::ReserveConfig;
use crate::request::{
    ClaimFeesRequest, InitializeRequest, LiquidityRequest, SetAdminRequest, SetTakeRateRequest,
};

verus! {

/// One typed argument of a contract call.
#[derive(Debug, Clone, PartialEq, Eq)]
pub enum CallArg {
    /// An account or a contract, by its address string.
    Address(String),
    /// An amount or a rate, in the width that the contract expects.
    I128(i128),
    /// A reserve's slot.
    U32(u32),
    /// A list of token ids.
    U32Vec(Vec<u32>),
}

/// A list of token ids as mathematical integers.
pub open spec fn ids_view(ids: Seq<u32>) -> Seq<int> {
    ids.map_values(|v: u32| v as int)
}

/// An argument as a mathematical value.
pub enum ArgView {
    Address(Seq<char>),
    I128(int),
    U32(int),
    U32Vec(Seq<int>),
}

impl View for CallArg {
    type V = ArgView;

    open spec fn view(&self) -> ArgView {
        match *self {
            CallArg::Address(address) => ArgView::Address(address@),
            CallArg::I128(value) => ArgView::I128(value as int),
            CallArg::U32(value) => ArgView::U32(value as int),
            CallArg::U32Vec(values) => ArgView::U32Vec(ids_view(values@)),
        }
    }
}

/// The views of a list of arguments, in order.
pub open spec fn args_view(args: Seq<CallArg>) -> Seq<ArgView> {
    args.map_values(|arg: CallArg| arg@)
}

/// A contract call that is ready to be simulated.
#[derive(Debug, Clone, PartialEq, Eq)]
pub struct ContractCall {
    /// Address string of the account that has to authorise the call.
    pub source: String,
    /// The sequence number under which the signer submits the call.
    pub sequence_number: i64,
    /// Identifier of the vault contract.
    pub contract: [u8; 32],
    /// Name of the contract function.
    pub fname: String,
    /// The function's arguments, in the order of its signature.
    pub args: Vec<CallArg>,
}

/// A contract call as a mathematical value.
pub struct CallView {
    pub source: Seq<char>,
    pub sequence_number: int,
    pub contract: [u8; 32],
    pub fname: Seq<char>,
    pub args: Seq<ArgView>,
}

impl View for ContractCall {
    type V = CallView;

    open spec fn view(&self) -> CallView {
        CallView {
            source: self.source@,
            sequence_number: self.sequence_number as int,
            contract: self.contract,
            fname: self.fname@,
            args: args_view(self.args@),
        }
    }
}

/// Arguments of `initialize`: the administrator, the pool, the take rate.
pub open spec fn initialize_args_spec(req: InitializeRequest) -> Seq<ArgView> {
    seq![
        ArgView::Address(req.admin@),
        ArgView::Address(req.pool@),
        ArgView::I128(req.take_rate as int),
    ]
}

/// Arguments of `add_reserve_vault`: the reserve's slot, the reserve.
pub open spec fn add_reserve_args_spec(index: u32, reserve: Seq<char>) -> Seq<ArgView> {
    seq![ArgView::U32(index as int), ArgView::Address(reserve)]
}

/// Arguments of `set_admin`: the new administrator.
pub open spec fn set_admin_args_spec(req: SetAdminRequest) -> Seq<ArgView> {
    seq![ArgView::Address(req.new_admin@)]
}

/// Arguments of `set_take_rate`: the take rate.
pub open spec fn set_take_rate_args_spec(req: SetTakeRateRequest) -> Seq<ArgView> {
    seq![ArgView::I128(req.take_rate as int)]
}

/// Arguments of `claim_fees`: the reserve, the destination, the amount.
pub open spec fn claim_fees_args_spec(req: ClaimFeesRequest) -> Seq<ArgView> {
    seq![
        ArgView::Address(req.reserve@),
        ArgView::Address(req.to@),
        ArgView::I128(req.amount as int),
    ]
}

/// Arguments of `claim_emissions`: the token ids, the destination.
pub open spec fn claim_emissions_args_spec(ids: Seq<int>, to: Seq<char>) -> Seq<ArgView> {
    seq![ArgView::U32Vec(ids), ArgView::Address(to)]
}

/// Arguments of a deposit or a withdrawal: the reserve, the user, the amount.
pub open spec fn liquidity_args_spec(req: LiquidityRequest) -> Seq<ArgView> {
    seq![
        ArgView::Address(req.reserve@),
        ArgView::Address(req.user@),
        ArgView::I128(req.amount as int),
    ]
}

/// The slots of a list of reserves, in order.
pub open spec fn slots(reserves: Seq<ReserveConfig>) -> Seq<int> {
    reserves.map_values(|config: ReserveConfig| config.index as int)
}

/// The token ids of the reserves with the given slots: for each slot, in
/// order, twice the slot and then twice the slot plus one.
pub open spec fn token_ids(slots: Seq<int>) -> Seq<int> {
    Seq::new(2 * slots.len(), |k: int| 2 * slots[k / 2] + k % 2)
}

/// Whether every token id of these slots is a 32-bit number.
pub open spec fn token_ids_fit(slots: Seq<int>) -> bool {
    forall|i: int| 0 <= i < slots.len() ==> 2 * #[trigger] slots[i] + 1 <= u32::MAX
}

/// Widens an amount or a rate to the width of the contract's arguments.
/// Every 64-bit value has its place there, so nothing is cut off.
pub fn widen(amount: i64) -> (wide: i128)
    ensures
        wide == amount,
{
    i128::from(amount)
}

/// Builds the arguments of `initialize`.
pub fn initialize_args(req: &InitializeRequest) -> (args: Vec<CallArg>)
    ensures
        args_view(args@) == initialize_args_spec(*req),
{
    let mut args: Vec<CallArg> = Vec::new();
    args.push(CallArg::Address(req.admin.clone()));
    args.push(CallArg::Address(req.pool.clone()));
    args.push(CallArg::I128(widen(req.take_rate)));
    assert(args_view(args@) =~= initialize_args_spec(*req));
    args
}

/// Builds the arguments of `add_reserve_vault`.
pub fn add_reserve_args(index: u32, reserve: &String) -> (args: Vec<CallArg>)
    ensures
        args_view(args@) == add_reserve_args_spec(index, reserve@),
{
    let mut args: Vec<CallArg> = Vec::new();
    args.push(CallArg::U32(index));
    args.push(CallArg::Address(reserve.clone()));
    assert(args_view(args@) =~= add_reserve_args_spec(index, reserve@));
    args
}

/// Builds the arguments of `set_admin`.
pub fn set_admin_args(req: &SetAdminRequest) -> (args: Vec<CallArg>)
    ensures
        args_view(args@) == set_admin_args_spec(*req),
{
    let mut args: Vec<CallArg> = Vec::new();
    args.push(CallArg::Address(req.new_admin.clone()));
    assert(args_view(args@) =~= set_admin_args_spec(*req));
    args
}

/// Builds the arguments of `set_take_rate`.
pub fn set_take_rate_args(req: &SetTakeRateRequest) -> (args: Vec<CallArg>)
    ensures
        args_view(args@) == set_take_rate_args_spec(*req),
{
    let mut args: Vec<CallArg> = Vec::new();
    args.push(CallArg::I128(widen(req.take_rate)));
    assert(args_view(args@) =~= set_take_rate_args_spec(*req));
    args
}

/// Builds the arguments of `claim_fees`.
pub fn claim_fees_args(req: &ClaimFeesRequest) -> (args: Vec<CallArg>)
    ensures
        args_view(args@) == claim_fees_args_spec(*req),
{
    let mut args: Vec<CallArg> = Vec::new();
    args.push(CallArg::Address(req.reserve.clone()));
    args.push(CallArg::Address(req.to.clone()));
    args.push(CallArg::I128(widen(req.amount)));
    assert(args_view(args@) =~= claim_fees_args_spec(*req));
    args
}

/// Builds the arguments of a deposit or a withdrawal.
pub fn liquidity_args(req: &LiquidityRequest) -> (args: Vec<CallArg>)
    ensures
        args_view(args@) == liquidity_args_spec(*req),
{
    let mut args: Vec<CallArg> = Vec::new();
    args.push(CallArg::Address(req.reserve.clone()));
    args.push(CallArg::Address(req.user.clone()));
    args.push(CallArg::I128(widen(req.amount)));
    assert(args_view(args@) =~= liquidity_args_spec(*req));
    args
}

/// Lists the token ids of the given reserves: two for each reserve, in the
/// order of the reserves. Fails where an id would not be a 32-bit number.
pub fn emission_token_ids(reserves: &Vec<ReserveConfig>) -> (ids: Result<Vec<u32>, DispatchError>)
    ensures
        match ids {
            Ok(list) => token_ids_fit(slots(reserves@)) && ids_view(list@) == token_ids(
                slots(reserves@),
            ),
            Err(e) => e == DispatchError::TokenIdOverflow && !token_ids_fit(slots(reserves@)),
        },
{
    let ghost all = slots(reserves@);
    let mut list: Vec<u32> = Vec::new();
    let mut i: usize = 0;
    assert(ids_view(list@) =~= token_ids(all.take(0)));
    while i < reserves.len()
        invariant
            i <= reserves.len(),
            all == slots(reserves@),
            token_ids_fit(all.take(i as int)),
            ids_view(list@) == token_ids(all.take(i as int)),
        decreases reserves.len() - i,
    {
        let index: u32 = reserves[i].index;
        assert(all[i as int] == index);
        if index > (u32::MAX - 1) / 2 {
            assert(!token_ids_fit(all)) by {
                assert(2 * all[i as int] + 1 > u32::MAX);
            }
            return Err(DispatchError::TokenIdOverflow);
        }
        let ghost before = list@;
        list.push(index * 2);
        list.push(index * 2 + 1);
        proof {
            let done = all.take(i as int);
            let next = all.take(i as int + 1);
            assert(before.len() == 2 * i) by {
                assert(ids_view(before).len() == token_ids(done).len());
            }
            assert(token_ids_fit(next)) by {
                assert forall|j: int| 0 <= j < next.len() implies 2 * #[trigger] next[j] + 1
                    <= u32::MAX by {
                    if j < i {
                        assert(next[j] == done[j]);
                    }
                }
            }
            assert forall|k: int| 0 <= k < 2 * next.len() implies #[trigger] ids_view(list@)[k]
                == token_ids(next)[k] by {
                if k < 2 * i {
                    assert(list@[k] == before[k]);
                    assert(ids_view(before)[k] == token_ids(done)[k]);
                    assert(next[k / 2] == done[k / 2]);
                } else {
                    assert(k / 2 == i);
                    assert(next[k / 2] == index);
                }
            }
            assert(ids_view(list@) =~= token_ids(next));
        }
        i += 1;
    }
    assert(all.take(i as int) =~= all);
    Ok(list)
}

/// Builds the arguments of `claim_emissions` for the vault's reserves.
pub fn claim_emissions_args(reserves: &Vec<ReserveConfig>, to: &String) -> (args: Result<
    Vec<CallArg>,
    DispatchError,
>)
    ensures
        match args {
            Ok(list) => token_ids_fit(slots(reserves@)) && args_view(list@)
                == claim_emissions_args_spec(token_ids(slots(reserves@)), to@),
            Err(e) => e == DispatchError::TokenIdOverflow && !token_ids_fit(slots(reserves@)),
        },
{
    match emission_token_ids(reserves) {
        Ok(ids) => {
            let mut list: Vec<CallArg> = Vec::new();
            list.push(CallArg::U32Vec(ids));
            list.push(CallArg::Address(to.clone()));
            assert(args_view(list@) =~= claim_emissions_args_spec(
                token_ids(slots(reserves@)),
                to@,
            ));
            Ok(list)
        },
        Err(e) => Err(e),
    }
}

} // verus!
