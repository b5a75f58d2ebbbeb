//! What holds of every request, whatever the ledger and the simulator answer.

use vstd::prelude::*;
use crate::actions::{claim_emissions_step, initialize_step, next_step};
use crate::call::{slots, token_ids, ArgView};
use crate::identity::resolved;
use crate::ledger::{
    admin_at, configs_at, gives_admin, gives_sequence, reserves_at, sequence_at,
};
use crate::request::{ActionRequest, ClaimEmissionsRequest, InitializeRequest};
use crate::response::{
    internal_error_message, normalized, unknown_error_message, SdkError, TransactionResponse,
};
use crate::step::{Answer, Step, StepView};

verus! {

/// A run of reserves whose configurations cannot all be had fails by the
/// read of a configuration or by giving the request up, not otherwise.
proof fn lemma_configs_fail_by_read_or_abort(
    vault: [u8; 32],
    list: Seq<String>,
    answers: Seq<Answer>,
    first: int,
    count: nat,
)
    ensures
        configs_at(vault, list, answers, first, count) matches Err(step) ==> (step
            is ReadReserveConfig || step is Abort),
    decreases count,
{
    if count > 0 {
        lemma_configs_fail_by_read_or_abort(vault, list, answers, first, (count - 1) as nat);
    }
}

/// Where the configurations of a run of reserves can all be had, each is
/// the answer at its reserve's position.
proof fn lemma_configs_are_the_answers(
    vault: [u8; 32],
    list: Seq<String>,
    answers: Seq<Answer>,
    first: int,
    count: nat,
)
    requires
        0 <= first,
        configs_at(vault, list, answers, first, count) is Ok,
    ensures
        count > 0 ==> first + count <= answers.len(),
        configs_at(vault, list, answers, first, count)->Ok_0.len() == count,
        forall|i: int|
            0 <= i < count ==> #[trigger] answers[first + i] == Answer::ReserveConfig(
                Ok(Some(configs_at(vault, list, answers, first, count)->Ok_0[i])),
            ),
    decreases count,
{
    if count > 0 {
        lemma_configs_are_the_answers(vault, list, answers, first, (count - 1) as nat);
    }
}

/// Configurations that can all be had stay as they are when answers are
/// added behind them.
proof fn lemma_configs_keep(
    vault: [u8; 32],
    list: Seq<String>,
    answers: Seq<Answer>,
    later: Seq<Answer>,
    first: int,
    count: nat,
)
    requires
        0 <= first,
        configs_at(vault, list, answers, first, count) is Ok,
    ensures
        configs_at(vault, list, answers + later, first, count) == configs_at(
            vault,
            list,
            answers,
            first,
            count,
        ),
    decreases count,
{
    if count > 0 {
        lemma_configs_keep(vault, list, answers, later, first, (count - 1) as nat);
    }
}

/// The reserves of a vault cannot be had by any step but a read of the list
/// or of a configuration, or giving the request up; where they can be had,
/// their answers fill the positions behind the list.
proof fn lemma_reserves(vault: [u8; 32], answers: Seq<Answer>, at: int)
    requires
        0 <= at,
    ensures
        match reserves_at(vault, answers, at) {
            Err(step) => step is ReadReserveList || step is ReadReserveConfig || step is Abort,
            Ok(reserves) => {
                &&& at + 1 + reserves.len() <= answers.len()
                &&& answers[at] matches Answer::ReserveList(Ok(Some(list)))
                &&& list@.len() == reserves.len()
                &&& forall|i: int|
                    0 <= i < reserves.len() ==> #[trigger] answers[at + 1 + i]
                        == Answer::ReserveConfig(Ok(Some(reserves[i])))
            },
        },
{
    if at < answers.len() {
        if let Answer::ReserveList(Ok(Some(list))) = answers[at] {
            lemma_configs_fail_by_read_or_abort(vault, list@, answers, at + 1, list@.len());
            if configs_at(vault, list@, answers, at + 1, list@.len()) is Ok {
                lemma_configs_are_the_answers(vault, list@, answers, at + 1, list@.len());
            }
        }
    }
}

/// The administrator is read once for a request: answers that arrive later
/// do not change what the lookup gives.
pub proof fn admin_is_stable(vault: [u8; 32], answers: Seq<Answer>, later: Seq<Answer>, at: int)
    requires
        0 <= at < answers.len(),
    ensures
        admin_at(vault, answers + later, at) == admin_at(vault, answers, at),
{
}

/// Within a request every lookup of the administrator gives the same
/// identity: a second lookup, made when more answers have arrived, agrees
/// with the first.
pub proof fn admin_lookups_agree(
    vault: [u8; 32],
    answers: Seq<Answer>,
    later: Seq<Answer>,
    at: int,
    first: Result<String, Step>,
    second: Result<String, Step>,
)
    requires
        0 <= at < answers.len(),
        gives_admin(first, vault, answers, at),
        gives_admin(second, vault, answers + later, at),
    ensures
        match first {
            Ok(admin) => second matches Ok(again) && again@ == admin@,
            Err(step) => second matches Err(again) && again@ == step@,
        },
{
}

/// Once the administrator's answer is there, no request asks for the
/// administrator again.
pub proof fn admin_is_not_read_again(req: ActionRequest, answers: Seq<Answer>)
    requires
        answers.len() > 0,
    ensures
        !(next_step(req, answers) is ReadAdmin),
{
    if let ActionRequest::ClaimEmissions(r) = req {
        if let Ok(vault) = resolved(r.vault@) {
            lemma_reserves(vault, answers, 1);
        }
    }
}

/// A call is signed by the vault's administrator as the lookup gave it,
/// except for a deposit or a withdrawal, which is signed by the request's
/// user and for which the administrator is never looked up. A request to
/// initialize is set apart: its vault has no administrator yet.
pub proof fn signer_is_admin_or_user(req: ActionRequest, answers: Seq<Answer>)
    requires
        !(req is Initialize),
    ensures
        match next_step(req, answers) {
            StepView::Simulate(call) => match req {
                ActionRequest::Liquidity(r) => call.source == r.user@,
                _ => {
                    &&& answers.len() > 0
                    &&& answers[0] matches Answer::Admin(Ok(Some(admin)))
                    &&& call.source == admin@
                },
            },
            StepView::ReadAdmin { vault, key } => !(req is Liquidity) && answers.len() == 0,
            _ => true,
        },
{
    if let ActionRequest::ClaimEmissions(r) = req {
        if let Ok(vault) = resolved(r.vault@) {
            lemma_reserves(vault, answers, 1);
        }
    }
}

/// A call to initialize a vault is signed by the administrator that the
/// request names, and the vault's storage is not asked for one.
pub proof fn initialize_signer_is_named(req: InitializeRequest, answers: Seq<Answer>)
    ensures
        initialize_step(req, answers) matches StepView::Simulate(call) ==> call.source
            == req.admin@,
        !(initialize_step(req, answers) is ReadAdmin),
{
}

/// The next sequence number is one more than the counter that the ledger
/// holds, wherever that counter has a successor.
pub proof fn sequence_is_successor(
    account: [u8; 32],
    answers: Seq<Answer>,
    at: int,
    observed: i64,
)
    requires
        0 <= at < answers.len(),
        answers[at] == Answer::Account(Ok(Some(observed))),
        observed < i64::MAX,
    ensures
        sequence_at(account, answers, at) == Ok::<int, StepView>(observed + 1),
{
}

/// Looking the next sequence number up twice in the same answers gives the
/// same result both times.
pub proof fn sequence_lookups_agree(
    account: [u8; 32],
    answers: Seq<Answer>,
    at: int,
    first: Result<i64, Step>,
    second: Result<i64, Step>,
)
    requires
        gives_sequence(first, account, answers, at),
        gives_sequence(second, account, answers, at),
    ensures
        match first {
            Ok(next) => second == Ok::<i64, Step>(next),
            Err(step) => second matches Err(again) && again@ == step@,
        },
{
}

/// Every call that is simulated carries the successor of the counter in
/// the answer that came last, which is the signer's account.
pub proof fn call_carries_next_sequence(req: ActionRequest, answers: Seq<Answer>)
    ensures
        next_step(req, answers) matches StepView::Simulate(call) ==> {
            &&& answers.len() > 0
            &&& answers.last() matches Answer::Account(Ok(Some(observed)))
            &&& call.sequence_number == observed + 1
        },
{
    if let ActionRequest::ClaimEmissions(r) = req {
        if let Ok(vault) = resolved(r.vault@) {
            lemma_reserves(vault, answers, 1);
        }
    }
}

/// For N reserves there are 2N token ids: at the places 2i and 2i + 1
/// stand twice the slot of reserve i and its successor.
pub proof fn token_ids_are_paired(slots: Seq<int>)
    ensures
        token_ids(slots).len() == 2 * slots.len(),
        forall|i: int|
            0 <= i < slots.len() ==> #[trigger] token_ids(slots)[2 * i] == 2 * slots[i]
                && token_ids(slots)[2 * i + 1] == 2 * slots[i] + 1,
{
    assert forall|i: int| 0 <= i < slots.len() implies #[trigger] token_ids(slots)[2 * i] == 2
        * slots[i] && token_ids(slots)[2 * i + 1] == 2 * slots[i] + 1 by {
        assert((2 * i) / 2 == i && (2 * i) % 2 == 0);
        assert((2 * i + 1) / 2 == i && (2 * i + 1) % 2 == 1);
    }
}

/// The call that claims emissions lists two token ids for each reserve of
/// the vault's list, in the order of the list: twice the reserve's slot, then
/// one more.
pub proof fn claim_emissions_covers_reserves(req: ClaimEmissionsRequest, answers: Seq<Answer>)
    ensures
        claim_emissions_step(req, answers) matches StepView::Simulate(call) ==> {
            &&& answers.len() > 1
            &&& call.args.len() == 2
            &&& answers[1] matches Answer::ReserveList(Ok(Some(list)))
            &&& call.args[0] matches ArgView::U32Vec(ids)
            &&& ids.len() == 2 * list@.len()
            &&& forall|i: int|
                0 <= i < list@.len() ==> {
                    &&& #[trigger] answers[2 + i] matches Answer::ReserveConfig(Ok(Some(config)))
                    &&& ids[2 * i] == 2 * config.index
                    &&& ids[2 * i + 1] == 2 * config.index + 1
                }
        },
{
    if let StepView::Simulate(call) = claim_emissions_step(req, answers) {
        let vault = resolved(req.vault@)->Ok_0;
        lemma_reserves(vault, answers, 1);
        let reserves = reserves_at(vault, answers, 1)->Ok_0;
        let list = answers[1]->ReserveList_0->Ok_0->Some_0;
        token_ids_are_paired(slots(reserves));
        let ids = token_ids(slots(reserves));
        assert(call.args[0] == ArgView::U32Vec(ids));
        assert forall|i: int| 0 <= i < list@.len() implies {
            &&& #[trigger] answers[2 + i] matches Answer::ReserveConfig(Ok(Some(config)))
            &&& ids[2 * i] == 2 * config.index
            &&& ids[2 * i + 1] == 2 * config.index + 1
        } by {
            assert(answers[1 + 1 + i] == Answer::ReserveConfig(Ok(Some(reserves[i]))));
            assert(slots(reserves)[i] == reserves[i].index);
            assert(token_ids(slots(reserves))[2 * i] == 2 * slots(reserves)[i]);
        }
    }
}

/// Every outcome of a simulation has exactly one response: 200 with the
/// transaction where there is one, 400 with the reason (or a fixed message
/// where none was given) where the simulation ran and there is none, 500 with
/// a fixed message where the simulation could not be run.
pub proof fn response_is_total(simulated: Result<TransactionResponse, SdkError>)
    ensures
        normalized(simulated).status == 200 || normalized(simulated).status == 400
            || normalized(simulated).status == 500,
        normalized(simulated).status == 200 <==> (simulated matches Ok(reply) && reply.tx is Some),
        normalized(simulated).status == 400 <==> (simulated matches Ok(reply) && reply.tx is None),
        normalized(simulated).status == 500 <==> simulated is Err,
        simulated matches Ok(reply) ==> (reply.tx matches Some(summary) ==> normalized(
            simulated,
        ).message == summary@),
        simulated matches Ok(reply) ==> (reply.tx is None ==> (reply.error matches Some(reason)
            ==> normalized(simulated).message == reason@)),
        simulated matches Ok(reply) ==> (reply.tx is None && reply.error is None ==> normalized(
            simulated,
        ).message == unknown_error_message()),
        simulated is Err ==> normalized(simulated).message == internal_error_message(),
{
}

/// Whatever the action, a request ends in a response once the simulator
/// has answered, and the response is the one that belongs to the outcome.
pub proof fn outcome_decides_response(
    req: ActionRequest,
    answers: Seq<Answer>,
    outcome: Result<TransactionResponse, SdkError>,
)
    requires
        next_step(req, answers) is Simulate,
    ensures
        next_step(req, answers.push(Answer::Simulation(outcome))) == StepView::Conclude(
            normalized(outcome),
        ),
{
    let longer = answers.push(Answer::Simulation(outcome));
    assert(longer =~= answers + seq![Answer::Simulation(outcome)]);
    if let ActionRequest::ClaimEmissions(r) = req {
        let vault = resolved(r.vault@)->Ok_0;
        lemma_reserves(vault, answers, 1);
        let list = answers[1]->ReserveList_0->Ok_0->Some_0;
        lemma_configs_keep(
            vault,
            list@,
            answers,
            seq![Answer::Simulation(outcome)],
            2,
            list@.len(),
        );
    }
}

} // verus!
