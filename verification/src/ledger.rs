//! The authority lookup and the sequence provider: what the vault's storage
//! and the ledger say, as far as the answers given so far tell.
//!
//! Each lookup reads the answer at one position of the list of answers. Where
//! no answer stands there yet, the lookup hands back the read that has to be
//! made; where the answer shows that the request cannot go on, it hands back
//! the step that gives the request up.

use vstd::prelude::*;
use crate::error::DispatchError;
use crate::step::{Answer, Step, StepView};

verus! {

/// Keys of the vault's own storage.
#[derive(Debug, Clone, Copy, PartialEq, Eq)]
pub enum DataKey {
    Admin,
}

/// Per-reserve metadata held in the vault's storage. Only the reserve's slot
/// is read here.
#[derive(Debug, Clone, Copy, PartialEq, Eq)]
pub struct ReserveConfig {
    pub index: u32,
}

/// The vault's administrator according to the answer at position `at`.
pub open spec fn admin_at(vault: [u8; 32], answers: Seq<Answer>, at: int) -> Result<
    Seq<char>,
    StepView,
> {
    if at >= answers.len() {
        Err(StepView::ReadAdmin { vault, key: DataKey::Admin })
    } else {
        match answers[at] {
            Answer::Admin(Ok(Some(admin))) => Ok(admin@),
            Answer::Admin(Ok(None)) => Err(StepView::Abort(DispatchError::MissingAdmin)),
            Answer::Admin(Err(e)) => Err(StepView::Abort(DispatchError::HostFailure(e))),
            _ => Err(StepView::Abort(DispatchError::UnexpectedAnswer)),
        }
    }
}

/// The configuration of `reserve` according to the answer at position `at`.
pub open spec fn reserve_config_at(
    vault: [u8; 32],
    reserve: Seq<char>,
    answers: Seq<Answer>,
    at: int,
) -> Result<ReserveConfig, StepView> {
    if at >= answers.len() {
        Err(StepView::ReadReserveConfig { vault, reserve })
    } else {
        match answers[at] {
            Answer::ReserveConfig(Ok(Some(config))) => Ok(config),
            Answer::ReserveConfig(Ok(None)) => Err(StepView::Abort(DispatchError::MissingReserve)),
            Answer::ReserveConfig(Err(e)) => Err(StepView::Abort(DispatchError::HostFailure(e))),
            _ => Err(StepView::Abort(DispatchError::UnexpectedAnswer)),
        }
    }
}

/// The configurations of the first `count` reserves of `list`, where the
/// answer for the first of them stands at position `first` and the others
/// follow it, one position for each reserve.
pub open spec fn configs_at(
    vault: [u8; 32],
    list: Seq<String>,
    answers: Seq<Answer>,
    first: int,
    count: nat,
) -> Result<Seq<ReserveConfig>, StepView>
    decreases count,
{
    if count == 0 {
        Ok(Seq::empty())
    } else {
        match configs_at(vault, list, answers, first, (count - 1) as nat) {
            Err(step) => Err(step),
            Ok(configs) => match reserve_config_at(
                vault,
                list[count - 1]@,
                answers,
                first + count - 1,
            ) {
                Err(step) => Err(step),
                Ok(config) => Ok(configs.push(config)),
            },
        }
    }
}

/// The configurations of all the vault's reserves, in the order of the
/// stored list: the list is the answer at position `at`, and the
/// configurations are the answers that follow it.
pub open spec fn reserves_at(vault: [u8; 32], answers: Seq<Answer>, at: int) -> Result<
    Seq<ReserveConfig>,
    StepView,
> {
    if at >= answers.len() {
        Err(StepView::ReadReserveList { vault })
    } else {
        match answers[at] {
            Answer::ReserveList(Ok(Some(list))) => configs_at(
                vault,
                list@,
                answers,
                at + 1,
                list@.len(),
            ),
            Answer::ReserveList(Ok(None)) => Err(
                StepView::Abort(DispatchError::MissingReserveList),
            ),
            Answer::ReserveList(Err(e)) => Err(StepView::Abort(DispatchError::HostFailure(e))),
            _ => Err(StepView::Abort(DispatchError::UnexpectedAnswer)),
        }
    }
}

/// The next sequence number of the account according to the answer at
/// position `at`: one more than the counter observed on the ledger.
pub open spec fn sequence_at(account: [u8; 32], answers: Seq<Answer>, at: int) -> Result<
    int,
    StepView,
> {
    if at >= answers.len() {
        Err(StepView::ReadAccount { account })
    } else {
        match answers[at] {
            Answer::Account(Ok(Some(observed))) => if observed < i64::MAX {
                Ok(observed + 1)
            } else {
                Err(StepView::Abort(DispatchError::SequenceOverflow))
            },
            Answer::Account(Ok(None)) => Err(StepView::Abort(DispatchError::MissingAccount)),
            Answer::Account(Err(e)) => Err(StepView::Abort(DispatchError::HostFailure(e))),
            _ => Err(StepView::Abort(DispatchError::UnexpectedAnswer)),
        }
    }
}

/// Whether `admin` is what the lookup of the administrator gives.
pub open spec fn gives_admin(
    admin: Result<String, Step>,
    vault: [u8; 32],
    answers: Seq<Answer>,
    at: int,
) -> bool {
    match admin {
        Ok(address) => admin_at(vault, answers, at) == Ok::<Seq<char>, StepView>(address@),
        Err(step) => admin_at(vault, answers, at) == Err::<Seq<char>, StepView>(step@),
    }
}

/// Whether `sequence` is what the lookup of the next sequence number gives.
pub open spec fn gives_sequence(
    sequence: Result<i64, Step>,
    account: [u8; 32],
    answers: Seq<Answer>,
    at: int,
) -> bool {
    match sequence {
        Ok(next) => sequence_at(account, answers, at) == Ok::<int, StepView>(next as int),
        Err(step) => sequence_at(account, answers, at) == Err::<int, StepView>(step@),
    }
}

/// Once a reserve's configuration cannot be had, no longer run of reserves
/// can be had either, and the step to take stays the same.
proof fn lemma_configs_stay_failed(
    vault: [u8; 32],
    list: Seq<String>,
    answers: Seq<Answer>,
    first: int,
    failed: nat,
    count: nat,
)
    requires
        failed <= count,
        configs_at(vault, list, answers, first, failed) is Err,
    ensures
        configs_at(vault, list, answers, first, count) == configs_at(
            vault,
            list,
            answers,
            first,
            failed,
        ),
    decreases count,
{
    if failed < count {
        lemma_configs_stay_failed(vault, list, answers, first, failed, (count - 1) as nat);
    }
}

impl DataKey {
    /// Looks up the vault's administrator. An absent entry fails the
    /// request: a vault that was never initialized has no administrator.
    pub fn get_admin(vault: [u8; 32], answers: &Vec<Answer>, at: usize) -> (admin: Result<
        String,
        Step,
    >)
        ensures
            gives_admin(admin, vault, answers@, at as int),
    {
        if at >= answers.len() {
            return Err(Step::ReadAdmin { vault, key: DataKey::Admin });
        }
        match &answers[at] {
            Answer::Admin(Ok(Some(admin))) => Ok(admin.clone()),
            Answer::Admin(Ok(None)) => Err(Step::Abort(DispatchError::MissingAdmin)),
            Answer::Admin(Err(e)) => Err(Step::Abort(DispatchError::HostFailure(*e))),
            _ => Err(Step::Abort(DispatchError::UnexpectedAnswer)),
        }
    }
}

/// Looks up the configuration of one reserve of the vault. A reserve that
/// was never registered fails the request.
pub fn get_reserve_config(
    vault: [u8; 32],
    reserve: &String,
    answers: &Vec<Answer>,
    at: usize,
) -> (config: Result<ReserveConfig, Step>)
    ensures
        match config {
            Ok(found) => reserve_config_at(vault, reserve@, answers@, at as int) == Ok::<
                ReserveConfig,
                StepView,
            >(found),
            Err(step) => reserve_config_at(vault, reserve@, answers@, at as int) == Err::<
                ReserveConfig,
                StepView,
            >(step@),
        },
{
    if at >= answers.len() {
        return Err(Step::ReadReserveConfig { vault, reserve: reserve.clone() });
    }
    match &answers[at] {
        Answer::ReserveConfig(Ok(Some(config))) => Ok(*config),
        Answer::ReserveConfig(Ok(None)) => Err(Step::Abort(DispatchError::MissingReserve)),
        Answer::ReserveConfig(Err(e)) => Err(Step::Abort(DispatchError::HostFailure(*e))),
        _ => Err(Step::Abort(DispatchError::UnexpectedAnswer)),
    }
}

/// Looks up the configurations of all the vault's reserves: first the list
/// of their addresses, then one configuration for each address, in the order
/// of the list. On success the answers read end at position
/// `at + 1 + reserves.len()`.
pub fn get_reserves(vault: [u8; 32], answers: &Vec<Answer>, at: usize) -> (reserves: Result<
    Vec<ReserveConfig>,
    Step,
>)
    ensures
        match reserves {
            Ok(configs) => reserves_at(vault, answers@, at as int) == Ok::<
                Seq<ReserveConfig>,
                StepView,
            >(configs@) && at + 1 + configs.len() <= answers.len(),
            Err(step) => reserves_at(vault, answers@, at as int) == Err::<
                Seq<ReserveConfig>,
                StepView,
            >(step@),
        },
{
    if at >= answers.len() {
        return Err(Step::ReadReserveList { vault });
    }
    let address_list: &Vec<String> = match &answers[at] {
        Answer::ReserveList(Ok(Some(list))) => list,
        Answer::ReserveList(Ok(None)) => {
            return Err(Step::Abort(DispatchError::MissingReserveList));
        },
        Answer::ReserveList(Err(e)) => {
            return Err(Step::Abort(DispatchError::HostFailure(*e)));
        },
        _ => {
            return Err(Step::Abort(DispatchError::UnexpectedAnswer));
        },
    };
    let mut configs: Vec<ReserveConfig> = Vec::new();
    let mut k: usize = 0;
    while k < address_list.len()
        invariant
            k <= address_list.len(),
            at + 1 + k <= answers.len(),
            answers@[at as int] == Answer::ReserveList(Ok(Some(*address_list))),
            configs.len() == k,
            configs_at(vault, address_list@, answers@, at + 1, k as nat) == Ok::<
                Seq<ReserveConfig>,
                StepView,
            >(configs@),
        decreases address_list.len() - k,
    {
        match get_reserve_config(vault, &address_list[k], answers, at + 1 + k) {
            Ok(config) => {
                configs.push(config);
            },
            Err(step) => {
                proof {
                    assert(configs_at(vault, address_list@, answers@, at + 1, (k + 1) as nat)
                        == Err::<Seq<ReserveConfig>, StepView>(step@));
                    lemma_configs_stay_failed(
                        vault,
                        address_list@,
                        answers@,
                        at + 1,
                        (k + 1) as nat,
                        address_list@.len(),
                    );
                }
                return Err(step);
            },
        }
        k += 1;
    }
    Ok(configs)
}

/// Gives the next sequence number of an account: one more than the counter
/// that the ledger holds for it. An account that is not on the ledger fails
/// the request, and so does a counter that has no successor.
pub fn get_new_sequence_number(account: [u8; 32], answers: &Vec<Answer>, at: usize) -> (sequence:
    Result<i64, Step>)
    ensures
        gives_sequence(sequence, account, answers@, at as int),
{
    if at >= answers.len() {
        return Err(Step::ReadAccount { account });
    }
    match &answers[at] {
        Answer::Account(Ok(Some(observed))) => {
            if *observed < i64::MAX {
                Ok(*observed + 1)
            } else {
                Err(Step::Abort(DispatchError::SequenceOverflow))
            }
        },
        Answer::Account(Ok(None)) => Err(Step::Abort(DispatchError::MissingAccount)),
        Answer::Account(Err(e)) => Err(Step::Abort(DispatchError::HostFailure(*e))),
        _ => Err(Step::Abort(DispatchError::UnexpectedAnswer)),
    }
}

} // verus!
