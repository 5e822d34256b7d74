//! Laws of the registry, the credit ledger and the marketplace together.

use vstd::prelude::*;
use crate::carbon_credit::{CreditConfig, CreditState};
use crate::carbon_marketplace::Sale;
use crate::carbon_registry::{ProjectStatus, RegistryState};
use crate::host::{Address, BytesN};
use crate::laws::{credit, market, registry};

verus! {

/// The registry and the ledger. Only the marketplace mints, and the issues it has
/// recorded it mints at once. The administrator may record an issue too, of
/// which nothing is minted.
#[verifier::ext_equal]
pub struct SystemState {
    pub registry: RegistryState,
    pub ledger: CreditState,
}

/// What can happen to the system. An issue and a sale are each carried out as a
/// whole or not at all.
pub enum Step {
    /// A request to the registry, an issue that is only recorded among them.
    Registry { request: registry::Request },
    /// The setup of the ledger.
    Setup { config: CreditConfig },
    /// An issue of credits: recorded with the registry, then minted to the owner.
    Issue { project_id: BytesN<32>, amount: i128 },
    /// A sale: the seller's credits are burned, and as many minted to the buyer.
    Settle { sale: Sale },
    Transfer { from: Address, to: Address, project_id: BytesN<32>, amount: i128 },
    Batch { from: Address, transfers: Seq<(Address, BytesN<32>, i128)> },
    Retire { from: Address, project_id: BytesN<32>, amount: i128 },
}

/// Where a project stands, a project that is not registered counting as pending.
pub open spec fn status(state: RegistryState, project_id: BytesN<32>) -> ProjectStatus {
    if state.projects.contains_key(project_id) {
        state.projects[project_id].status
    } else {
        ProjectStatus::Pending
    }
}

/// The credits of a project that have been recorded as issued.
pub open spec fn issued(state: RegistryState, project_id: BytesN<32>) -> int {
    if state.projects.contains_key(project_id) {
        state.projects[project_id].issued_credits as int
    } else {
        0
    }
}

/// The state after a step, which a refused step leaves as it was.
pub open spec fn after(state: SystemState, step: Step) -> SystemState {
    match step {
        Step::Registry { request } => SystemState {
            registry: registry::after(state.registry, request),
            ..state
        },
        Step::Setup { config } => SystemState {
            ledger: credit::after(state.ledger, credit::Request::Initialize { config }),
            ..state
        },
        Step::Issue { project_id, amount } => {
            let owner = state.registry.projects[project_id].owner;
            if state.registry.issue_refusal(project_id, amount) is None
                && state.ledger.mint_refusal(
                owner,
                project_id,
                amount,
                status(state.registry, project_id),
            ) is None {
                SystemState {
                    registry: state.registry.issued(project_id, amount),
                    ledger: state.ledger.minted(owner, project_id, amount),
                }
            } else {
                state
            }
        },
        Step::Settle { sale } => {
            let burned = state.ledger.burned(sale.seller, sale.project_id, sale.amount);
            if state.ledger.burn_refusal(sale.seller, sale.project_id, sale.amount) is None
                && burned.mint_refusal(
                sale.buyer,
                sale.project_id,
                sale.amount,
                status(state.registry, sale.project_id),
            ) is None {
                SystemState {
                    ledger: burned.minted(sale.buyer, sale.project_id, sale.amount),
                    ..state
                }
            } else {
                state
            }
        },
        Step::Transfer { from, to, project_id, amount } => SystemState {
            ledger: credit::after(
                state.ledger,
                credit::Request::Transfer { from, to, project_id, amount },
            ),
            ..state
        },
        Step::Batch { from, transfers } => SystemState {
            ledger: credit::after(state.ledger, credit::Request::Batch { from, transfers }),
            ..state
        },
        Step::Retire { from, project_id, amount } => SystemState {
            ledger: credit::after(
                state.ledger,
                credit::Request::Retire { from, project_id, amount },
            ),
            ..state
        },
    }
}

/// The credits of a project that have been recorded as issued, and neither
/// circulate nor are retired.
pub open spec fn outstanding(state: SystemState, project_id: BytesN<32>) -> int {
    issued(state.registry, project_id) - state.ledger.supply(project_id) - state.ledger.retired(
        project_id,
    )
}

/// The credits of a project that a step records as issued without minting them.
pub open spec fn recorded_only(state: SystemState, step: Step, project_id: BytesN<32>) -> int {
    match step {
        Step::Registry { request: registry::Request::Issue { id, amount } } => if id == project_id
            && state.registry.issue_refusal(id, amount) is None {
            amount as int
        } else {
            0
        },
        _ => 0,
    }
}

/// Every step keeps the ledger sound. It makes and loses no credits: what is
/// issued, circulates and is retired keeps its balance, but for what a step
/// only records as issued.
pub proof fn law_step_keeps_balance(state: SystemState, step: Step)
    requires
        credit::sound(state.ledger),
    ensures
        credit::sound(after(state, step).ledger),
        forall|id: BytesN<32>| #[trigger]
            outstanding(after(state, step), id) == outstanding(state, id) + recorded_only(
                state,
                step,
                id,
            ),
{
    let next = after(state, step);
    match step {
        Step::Registry { .. } => {},
        Step::Setup { config } => {
            credit::law_request_keeps_sound(state.ledger, credit::Request::Initialize { config });
        },
        Step::Issue { project_id, amount } => {
            let to = state.registry.projects[project_id].owner;
            let status = status(state.registry, project_id);
            credit::law_request_keeps_sound(
                state.ledger,
                credit::Request::Mint { to, project_id, amount, status },
            );
        },
        Step::Settle { sale } => {
            if state.ledger.burn_refusal(sale.seller, sale.project_id, sale.amount) is None {
                market::law_settlement_conserves_credits(state.ledger, sale);
            }
        },
        Step::Transfer { from, to, project_id, amount } => {
            credit::law_request_keeps_sound(
                state.ledger,
                credit::Request::Transfer { from, to, project_id, amount },
            );
        },
        Step::Batch { from, transfers } => {
            credit::law_request_keeps_sound(
                state.ledger,
                credit::Request::Batch { from, transfers },
            );
            credit::law_batch_keeps_supply(state.ledger, from, transfers);
        },
        Step::Retire { from, project_id, amount } => {
            credit::law_request_keeps_sound(
                state.ledger,
                credit::Request::Retire { from, project_id, amount },
            );
            if state.ledger.retire_refusal(from, project_id, amount) is None {
                credit::law_retire_moves_credits(state.ledger, from, project_id, amount);
            }
        },
    }
    assert forall|id: BytesN<32>| #[trigger]
        outstanding(next, id) == outstanding(state, id) + recorded_only(state, step, id) by {
        if step is Settle {
            assert(next.ledger.supply(id) == state.ledger.supply(id));
        }
    }
}

/// The state after a list of steps, from the state before anything is set up.
pub open spec fn after_all(steps: Seq<Step>) -> SystemState
    decreases steps.len(),
{
    if steps.len() == 0 {
        SystemState { registry: RegistryState::empty(), ledger: CreditState::empty() }
    } else {
        after(after_all(steps.drop_last()), steps.last())
    }
}

/// The credits of a project that a list of steps records as issued without
/// minting them.
pub open spec fn unminted(steps: Seq<Step>, project_id: BytesN<32>) -> int
    decreases steps.len(),
{
    if steps.len() == 0 {
        0
    } else {
        unminted(steps.drop_last(), project_id) + recorded_only(
            after_all(steps.drop_last()),
            steps.last(),
            project_id,
        )
    }
}

/// Whatever steps the system has seen, every credit is accounted for: the credits
/// of a project that circulate, those that are retired, and those that were
/// recorded but not minted come to what is on record as issued.
pub proof fn law_every_credit_is_accounted_for(steps: Seq<Step>, project_id: BytesN<32>)
    ensures
        credit::sound(after_all(steps).ledger),
        unminted(steps, project_id) >= 0,
        after_all(steps).ledger.supply(project_id) + after_all(steps).ledger.retired(project_id)
            + unminted(steps, project_id) == issued(after_all(steps).registry, project_id),
    decreases steps.len(),
{
    if steps.len() == 0 {
        credit::law_ledger_is_sound(Seq::empty());
    } else {
        let state = after_all(steps.drop_last());
        law_every_credit_is_accounted_for(steps.drop_last(), project_id);
        law_step_keeps_balance(state, steps.last());
        assert(outstanding(after(state, steps.last()), project_id) == outstanding(state, project_id)
            + recorded_only(state, steps.last(), project_id));
    }
}

proof fn lemma_within_allocation(steps: Seq<Step>)
    ensures
        registry::within_allocation(after_all(steps).registry),
    decreases steps.len(),
{
    if steps.len() > 0 {
        let state = after_all(steps.drop_last());
        lemma_within_allocation(steps.drop_last());
        match steps.last() {
            Step::Registry { request } => {
                registry::law_request_keeps_allocation(state.registry, request);
            },
            Step::Issue { project_id, amount } => {
                registry::law_request_keeps_allocation(
                    state.registry,
                    registry::Request::Issue { id: project_id, amount },
                );
            },
            _ => {},
        }
    }
}

/// Whatever steps the system has seen, no more credits of a project circulate and
/// are retired than it may ever issue, and of a project that is not registered
/// there are none.
pub proof fn law_credits_within_allocation(steps: Seq<Step>, project_id: BytesN<32>)
    ensures
        ({
            let state = after_all(steps);
            let credits = state.ledger.supply(project_id) + state.ledger.retired(project_id);
            &&& state.registry.projects.contains_key(project_id) ==> credits
                <= state.registry.projects[project_id].issued_credits
                <= state.registry.projects[project_id].total_credits
            &&& !state.registry.projects.contains_key(project_id) ==> credits == 0
        }),
{
    let ledger = after_all(steps).ledger;
    law_every_credit_is_accounted_for(steps, project_id);
    lemma_within_allocation(steps);
    credit::law_balances_within_supply(ledger, arbitrary(), project_id);
    assert(ledger.retired(project_id) >= 0);
}

} // verus!
