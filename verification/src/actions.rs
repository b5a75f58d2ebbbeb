//! The action dispatcher: one entry point for each action.
//!
//! An entry point takes the request and the answers given so far, in the
//! order in which they were asked for, and says what has to happen next. It
//! reads the answers from the first on each time, so a request needs no state
//! of its own: the caller makes the read or the simulation asked for, appends
//! the answer and asks again, until the step is a response or a failure.

use vstd::prelude::*;
use crate::call::{
    add_reserve_args, add_reserve_args_spec, args_view, claim_emissions_args,
    claim_emissions_args_spec, claim_fees_args, claim_fees_args_spec, initialize_args,
    initialize_args_spec, liquidity_args, liquidity_args_spec, set_admin_args,
    set_admin_args_spec, set_take_rate_args, set_take_rate_args_spec, slots, token_ids,
    token_ids_fit, ArgView, CallArg, CallView, ContractCall,
};
use crate::error::DispatchError;
use crate::identity::{resolved, strkey_to_hash};
use crate::ledger::{
    admin_at, get_new_sequence_number, get_reserve_config, get_reserves, reserve_config_at,
    reserves_at, sequence_at, DataKey,
};
use crate::request::{
    ActionRequest, AddReserveRequest, ClaimEmissionsRequest, ClaimFeesRequest, InitializeRequest,
    LiquidityRequest, SetAdminRequest, SetTakeRateRequest,
};
use crate::response::{handle_tx_response, normalized};
use crate::step::{Answer, Step, StepView};

verus! {

/// The step for a call that is ready: the simulation, or the response to
/// its outcome where the answer at position `at` holds one.
pub open spec fn simulation_step(call: CallView, answers: Seq<Answer>, at: int) -> StepView {
    if at >= answers.len() {
        StepView::Simulate(call)
    } else {
        match answers[at] {
            Answer::Simulation(outcome) => StepView::Conclude(normalized(outcome)),
            _ => StepView::Abort(DispatchError::UnexpectedAnswer),
        }
    }
}

/// The step for a call whose signer and arguments are known: the signer's
/// account is resolved, its next sequence number is looked up at position
/// `at`, and the call is simulated under that number.
pub open spec fn signed_call_step(
    signer: Seq<char>,
    vault: [u8; 32],
    fname: Seq<char>,
    args: Seq<ArgView>,
    answers: Seq<Answer>,
    at: int,
) -> StepView {
    match resolved(signer) {
        Err(e) => StepView::Abort(e),
        Ok(account) => match sequence_at(account, answers, at) {
            Err(step) => step,
            Ok(sequence) => simulation_step(
                CallView { source: signer, sequence_number: sequence, contract: vault, fname, args },
                answers,
                at + 1,
            ),
        },
    }
}

/// The next step of an `initialize` request. The signer is the
/// administrator named in the request: the vault has none yet.
pub open spec fn initialize_step(req: InitializeRequest, answers: Seq<Answer>) -> StepView {
    match resolved(req.vault@) {
        Err(e) => StepView::Abort(e),
        Ok(vault) => signed_call_step(
            req.admin@,
            vault,
            "initialize"@,
            initialize_args_spec(req),
            answers,
            0,
        ),
    }
}

/// The next step of an `add_reserve_vault` request.
pub open spec fn add_reserve_vault_step(req: AddReserveRequest, answers: Seq<Answer>) -> StepView {
    match resolved(req.vault@) {
        Err(e) => StepView::Abort(e),
        Ok(vault) => match admin_at(vault, answers, 0) {
            Err(step) => step,
            Ok(admin) => match reserve_config_at(vault, req.reserve@, answers, 1) {
                Err(step) => step,
                Ok(config) => signed_call_step(
                    admin,
                    vault,
                    "add_reserve_vault"@,
                    add_reserve_args_spec(config.index, req.reserve@),
                    answers,
                    2,
                ),
            },
        },
    }
}

/// The next step of a `set_admin` request. The signer is the administrator
/// that the vault has now, not the new one.
pub open spec fn set_admin_step(req: SetAdminRequest, answers: Seq<Answer>) -> StepView {
    match resolved(req.vault@) {
        Err(e) => StepView::Abort(e),
        Ok(vault) => match admin_at(vault, answers, 0) {
            Err(step) => step,
            Ok(admin) => signed_call_step(
                admin,
                vault,
                "set_admin"@,
                set_admin_args_spec(req),
                answers,
                1,
            ),
        },
    }
}

/// The next step of a `set_take_rate` request.
pub open spec fn set_take_rate_step(req: SetTakeRateRequest, answers: Seq<Answer>) -> StepView {
    match resolved(req.vault@) {
        Err(e) => StepView::Abort(e),
        Ok(vault) => match admin_at(vault, answers, 0) {
            Err(step) => step,
            Ok(admin) => signed_call_step(
                admin,
                vault,
                "set_take_rate"@,
                set_take_rate_args_spec(req),
                answers,
                1,
            ),
        },
    }
}

/// The next step of a `claim_fees` request.
pub open spec fn claim_fees_step(req: ClaimFeesRequest, answers: Seq<Answer>) -> StepView {
    match resolved(req.vault@) {
        Err(e) => StepView::Abort(e),
        Ok(vault) => match admin_at(vault, answers, 0) {
            Err(step) => step,
            Ok(admin) => signed_call_step(
                admin,
                vault,
                "claim_fees"@,
                claim_fees_args_spec(req),
                answers,
                1,
            ),
        },
    }
}

/// The next step of a `claim_emissions` request. The reserves are read
/// after the administrator; the account's answer follows the last of them.
pub open spec fn claim_emissions_step(req: ClaimEmissionsRequest, answers: Seq<Answer>) -> StepView {
    match resolved(req.vault@) {
        Err(e) => StepView::Abort(e),
        Ok(vault) => match admin_at(vault, answers, 0) {
            Err(step) => step,
            Ok(admin) => match reserves_at(vault, answers, 1) {
                Err(step) => step,
                Ok(reserves) => if token_ids_fit(slots(reserves)) {
                    signed_call_step(
                        admin,
                        vault,
                        "claim_emissions"@,
                        claim_emissions_args_spec(token_ids(slots(reserves)), req.to@),
                        answers,
                        2 + reserves.len() as int,
                    )
                } else {
                    StepView::Abort(DispatchError::TokenIdOverflow)
                },
            },
        },
    }
}

/// The next step of a `liquidity` request. The signer is the user, and the
/// name of the call is the request's action as it stands.
pub open spec fn liquidity_step(req: LiquidityRequest, answers: Seq<Answer>) -> StepView {
    match resolved(req.vault@) {
        Err(e) => StepView::Abort(e),
        Ok(vault) => signed_call_step(
            req.user@,
            vault,
            req.action@,
            liquidity_args_spec(req),
            answers,
            0,
        ),
    }
}

/// The next step of any request.
pub open spec fn next_step(req: ActionRequest, answers: Seq<Answer>) -> StepView {
    match req {
        ActionRequest::Initialize(r) => initialize_step(r, answers),
        ActionRequest::AddReserveVault(r) => add_reserve_vault_step(r, answers),
        ActionRequest::SetAdmin(r) => set_admin_step(r, answers),
        ActionRequest::SetTakeRate(r) => set_take_rate_step(r, answers),
        ActionRequest::ClaimFees(r) => claim_fees_step(r, answers),
        ActionRequest::ClaimEmissions(r) => claim_emissions_step(r, answers),
        ActionRequest::Liquidity(r) => liquidity_step(r, answers),
    }
}

/// Asks for the simulation of a call, or, where the answer at position `at`
/// holds its outcome, turns the outcome into the response.
pub fn simulate(call: ContractCall, answers: &Vec<Answer>, at: usize) -> (step: Step)
    ensures
        step@ == simulation_step(call@, answers@, at as int),
{
    if at >= answers.len() {
        return Step::Simulate(call);
    }
    match &answers[at] {
        Answer::Simulation(Ok(reply)) => Step::Conclude(handle_tx_response(Ok(reply.clone()))),
        Answer::Simulation(Err(e)) => Step::Conclude(handle_tx_response(Err(*e))),
        _ => Step::Abort(DispatchError::UnexpectedAnswer),
    }
}

/// Carries a call whose signer and arguments are known to its end: resolves
/// the signer's account, looks up its next sequence number at position `at`
/// and has the call simulated under it.
pub fn sign_and_simulate(
    signer: String,
    vault: [u8; 32],
    fname: &str,
    args: Vec<CallArg>,
    answers: &Vec<Answer>,
    at: usize,
) -> (step: Step)
    ensures
        step@ == signed_call_step(signer@, vault, fname@, args_view(args@), answers@, at as int),
{
    let account = match strkey_to_hash(signer.as_str()) {
        Ok(account) => account,
        Err(e) => {
            return Step::Abort(e);
        },
    };
    let sequence = match get_new_sequence_number(account, answers, at) {
        Ok(sequence) => sequence,
        Err(step) => {
            return step;
        },
    };
    assert(at < answers.len()) by {
        assert(sequence_at(account, answers@, at as int) is Ok);
    }
    let call = ContractCall {
        source: signer,
        sequence_number: sequence,
        contract: vault,
        fname: fname.to_owned(),
        args,
    };
    simulate(call, answers, at + 1)
}

/// Initializes a vault: the call is signed by the administrator that the
/// request names.
pub fn initialize(req: &InitializeRequest, answers: &Vec<Answer>) -> (step: Step)
    ensures
        step@ == initialize_step(*req, answers@),
{
    let vault_hash = match strkey_to_hash(req.vault.as_str()) {
        Ok(hash) => hash,
        Err(e) => {
            return Step::Abort(e);
        },
    };
    let args = initialize_args(req);
    sign_and_simulate(req.admin.clone(), vault_hash, "initialize", args, answers, 0)
}

/// Registers a reserve with the vault, under the slot that the reserve's
/// configuration gives. Signed by the vault's administrator.
pub fn add_reserve_vault(req: &AddReserveRequest, answers: &Vec<Answer>) -> (step: Step)
    ensures
        step@ == add_reserve_vault_step(*req, answers@),
{
    let vault_hash = match strkey_to_hash(req.vault.as_str()) {
        Ok(hash) => hash,
        Err(e) => {
            return Step::Abort(e);
        },
    };
    let admin = match DataKey::get_admin(vault_hash, answers, 0) {
        Ok(admin) => admin,
        Err(step) => {
            return step;
        },
    };
    let reserve_idx = match get_reserve_config(vault_hash, &req.reserve, answers, 1) {
        Ok(config) => config.index,
        Err(step) => {
            return step;
        },
    };
    let args = add_reserve_args(reserve_idx, &req.reserve);
    sign_and_simulate(admin, vault_hash, "add_reserve_vault", args, answers, 2)
}

/// Hands the vault over to a new administrator. Signed by the
/// administrator that the vault has now.
pub fn set_admin(req: &SetAdminRequest, answers: &Vec<Answer>) -> (step: Step)
    ensures
        step@ == set_admin_step(*req, answers@),
{
    let vault_hash = match strkey_to_hash(req.vault.as_str()) {
        Ok(hash) => hash,
        Err(e) => {
            return Step::Abort(e);
        },
    };
    let old_admin = match DataKey::get_admin(vault_hash, answers, 0) {
        Ok(admin) => admin,
        Err(step) => {
            return step;
        },
    };
    let args = set_admin_args(req);
    sign_and_simulate(old_admin, vault_hash, "set_admin", args, answers, 1)
}

/// Changes the vault's take rate. Signed by the vault's administrator.
pub fn set_take_rate(req: &SetTakeRateRequest, answers: &Vec<Answer>) -> (step: Step)
    ensures
        step@ == set_take_rate_step(*req, answers@),
{
    let vault_hash = match strkey_to_hash(req.vault.as_str()) {
        Ok(hash) => hash,
        Err(e) => {
            return Step::Abort(e);
        },
    };
    let admin = match DataKey::get_admin(vault_hash, answers, 0) {
        Ok(admin) => admin,
        Err(step) => {
            return step;
        },
    };
    let args = set_take_rate_args(req);
    sign_and_simulate(admin, vault_hash, "set_take_rate", args, answers, 1)
}

/// Pays out collected fees of a reserve. Signed by the vault's
/// administrator.
pub fn claim_fees(req: &ClaimFeesRequest, answers: &Vec<Answer>) -> (step: Step)
    ensures
        step@ == claim_fees_step(*req, answers@),
{
    let vault_hash = match strkey_to_hash(req.vault.as_str()) {
        Ok(hash) => hash,
        Err(e) => {
            return Step::Abort(e);
        },
    };
    let admin = match DataKey::get_admin(vault_hash, answers, 0) {
        Ok(admin) => admin,
        Err(step) => {
            return step;
        },
    };
    let args = claim_fees_args(req);
    sign_and_simulate(admin, vault_hash, "claim_fees", args, answers, 1)
}

/// Claims the emissions of all the vault's reserves: two token ids for
/// each reserve, in the order of the vault's list. Signed by the vault's
/// administrator.
pub fn claim_emissions(req: &ClaimEmissionsRequest, answers: &Vec<Answer>) -> (step: Step)
    ensures
        step@ == claim_emissions_step(*req, answers@),
{
    let vault_hash = match strkey_to_hash(req.vault.as_str()) {
        Ok(hash) => hash,
        Err(e) => {
            return Step::Abort(e);
        },
    };
    let admin = match DataKey::get_admin(vault_hash, answers, 0) {
        Ok(admin) => admin,
        Err(step) => {
            return step;
        },
    };
    let all_reserves = match get_reserves(vault_hash, answers, 1) {
        Ok(reserves) => reserves,
        Err(step) => {
            return step;
        },
    };
    let args = match claim_emissions_args(&all_reserves, &req.to) {
        Ok(args) => args,
        Err(e) => {
            return Step::Abort(e);
        },
    };
    sign_and_simulate(
        admin,
        vault_hash,
        "claim_emissions",
        args,
        answers,
        2 + all_reserves.len(),
    )
}

/// Deposits or withdraws a user's liquidity. Signed by the user. The
/// request's action is handed on as the name of the call without a check: a
/// name that the contract does not know is for the simulation to reject.
pub fn liquidity(req: &LiquidityRequest, answers: &Vec<Answer>) -> (step: Step)
    ensures
        step@ == liquidity_step(*req, answers@),
{
    let vault_hash = match strkey_to_hash(req.vault.as_str()) {
        Ok(hash) => hash,
        Err(e) => {
            return Step::Abort(e);
        },
    };
    let args = liquidity_args(req);
    sign_and_simulate(req.user.clone(), vault_hash, req.action.as_str(), args, answers, 0)
}

/// Says what has to happen next for a request of any kind.
pub fn dispatch(req: &ActionRequest, answers: &Vec<Answer>) -> (step: Step)
    ensures
        step@ == next_step(*req, answers@),
{
    match req {
        ActionRequest::Initialize(r) => initialize(r, answers),
        ActionRequest::AddReserveVault(r) => add_reserve_vault(r, answers),
        ActionRequest::SetAdmin(r) => set_admin(r, answers),
        ActionRequest::SetTakeRate(r) => set_take_rate(r, answers),
        ActionRequest::ClaimFees(r) => claim_fees(r, answers),
        ActionRequest::ClaimEmissions(r) => claim_emissions(r, answers),
        ActionRequest::Liquidity(r) => liquidity(r, answers),
    }
}

} // verus!
