//! Laws of the credit ledger.

use vstd::prelude::*;
use crate::carbon_credit::{CreditConfig, CreditError, CreditState, Holding, ProjectStatus};
use crate::carbon_credit::recorded;
use crate::host::{Address, BytesN};

verus! {

/// What a holding contributes to a project's total.
pub open spec fn share(balances: Map<Holding, i128>, holding: Holding, project_id: BytesN<32>) -> int {
    if holding.project_id == project_id {
        balances[holding] as int
    } else {
        0
    }
}

/// The credits of a project that all owners hold together.
pub open spec fn held(balances: Map<Holding, i128>, project_id: BytesN<32>) -> int
    decreases balances.dom().len(),
    when balances.dom().finite()
{
    if balances.dom().len() == 0 {
        0
    } else {
        let holding = balances.dom().choose();
        share(balances, holding, project_id) + held(balances.remove(holding), project_id)
    }
}

proof fn lemma_held_remove(balances: Map<Holding, i128>, k: Holding, project_id: BytesN<32>)
    requires
        balances.dom().finite(),
        balances.contains_key(k),
    ensures
        held(balances, project_id) == share(balances, k, project_id) + held(
            balances.remove(k),
            project_id,
        ),
    decreases balances.dom().len(),
{
    let c = balances.dom().choose();
    assert(balances.dom().len() > 0) by {
        if balances.dom().len() == 0 {
            assert(balances.dom() =~= Set::empty());
        }
    }
    assert(balances.dom().contains(c));
    if c != k {
        lemma_held_remove(balances.remove(c), k, project_id);
        lemma_held_remove(balances.remove(k), c, project_id);
        assert(balances.remove(c).remove(k) =~= balances.remove(k).remove(c));
    }
}

proof fn lemma_held_insert(
    balances: Map<Holding, i128>,
    k: Holding,
    amount: i128,
    project_id: BytesN<32>,
)
    requires
        balances.dom().finite(),
    ensures
        held(balances.insert(k, amount), project_id) == held(balances, project_id) + (
        if k.project_id == project_id {
            amount - recorded(balances, k)
        } else {
            0
        }),
{
    let updated = balances.insert(k, amount);
    lemma_held_remove(updated, k, project_id);
    if balances.contains_key(k) {
        lemma_held_remove(balances, k, project_id);
        assert(updated.remove(k) =~= balances.remove(k));
    } else {
        assert(updated.remove(k) =~= balances);
    }
}

proof fn lemma_held_bounds(balances: Map<Holding, i128>, k: Holding)
    requires
        balances.dom().finite(),
        forall|h: Holding| balances.contains_key(h) ==> #[trigger] balances[h] >= 0,
    ensures
        0 <= recorded(balances, k) <= held(balances, k.project_id),
    decreases balances.dom().len(),
{
    if balances.contains_key(k) {
        lemma_held_remove(balances, k, k.project_id);
        lemma_held_bounds(balances.remove(k), k);
    } else if balances.dom().len() > 0 {
        let c = balances.dom().choose();
        assert(balances.dom().contains(c));
        lemma_held_bounds(balances.remove(c), k);
    }
}

/// A ledger is sound when no number in it is negative and every project's
/// supply is what its owners hold together.
pub open spec fn sound(state: CreditState) -> bool {
    &&& state.balances.dom().finite()
    &&& forall|h: Holding| state.balances.contains_key(h) ==> #[trigger] state.balances[h] >= 0
    &&& forall|p: BytesN<32>| #[trigger] state.retired(p) >= 0
    &&& forall|p: BytesN<32>| #[trigger] state.supply(p) == held(state.balances, p)
}

/// A request to the ledger. A mint comes with what the registry reports.
pub enum Request {
    Initialize { config: CreditConfig },
    Mint { to: Address, project_id: BytesN<32>, amount: i128, status: ProjectStatus },
    Transfer { from: Address, to: Address, project_id: BytesN<32>, amount: i128 },
    Burn { from: Address, project_id: BytesN<32>, amount: i128 },
    Retire { from: Address, project_id: BytesN<32>, amount: i128 },
    Batch { from: Address, transfers: Seq<(Address, BytesN<32>, i128)> },
}

/// The state after a request, which a refused request leaves as it was.
pub open spec fn after(state: CreditState, request: Request) -> CreditState {
    match request {
        Request::Initialize { config } => if state.config is None {
            state.initialized(config)
        } else {
            state
        },
        Request::Mint { to, project_id, amount, status } => match state.mint_refusal(
            to,
            project_id,
            amount,
            status,
        ) {
            None => state.minted(to, project_id, amount),
            Some(_) => state,
        },
        Request::Transfer { from, to, project_id, amount } => match state.transfer_refusal(
            from,
            to,
            project_id,
            amount,
        ) {
            None => state.transferred(from, to, project_id, amount),
            Some(_) => state,
        },
        Request::Burn { from, project_id, amount } => match state.burn_refusal(
            from,
            project_id,
            amount,
        ) {
            None => state.burned(from, project_id, amount),
            Some(_) => state,
        },
        Request::Retire { from, project_id, amount } => match state.retire_refusal(
            from,
            project_id,
            amount,
        ) {
            None => state.retirement(from, project_id, amount),
            Some(_) => state,
        },
        Request::Batch { from, transfers } => match state.batch(from, transfers) {
            Ok(done) => done,
            Err(_) => state,
        },
    }
}

/// The state after a list of requests.
pub open spec fn after_all(state: CreditState, requests: Seq<Request>) -> CreditState
    decreases requests.len(),
{
    if requests.len() == 0 {
        state
    } else {
        after(after_all(state, requests.drop_last()), requests.last())
    }
}

/// A transfer that is not refused takes `amount` from one owner and gives it to
/// the other. No other balance changes, and neither does any supply or what the
/// owners of a project hold together.
pub proof fn law_transfer_conserves(
    state: CreditState,
    from: Address,
    to: Address,
    project_id: BytesN<32>,
    amount: i128,
)
    requires
        state.balances.dom().finite(),
        state.transfer_refusal(from, to, project_id, amount) is None,
    ensures
        ({
            let done = state.transferred(from, to, project_id, amount);
            &&& from != to ==> done.balance(from, project_id) == state.balance(from, project_id)
                - amount
            &&& from != to ==> done.balance(to, project_id) == state.balance(to, project_id)
                + amount
            &&& from == to ==> done.balance(from, project_id) == state.balance(from, project_id)
            &&& forall|o: Address, p: BytesN<32>|
                (p != project_id || (o != from && o != to)) ==> #[trigger] done.balance(o, p)
                    == state.balance(o, p)
            &&& forall|p: BytesN<32>| #[trigger] done.supply(p) == state.supply(p)
            &&& forall|p: BytesN<32>| #[trigger] done.retired(p) == state.retired(p)
            &&& forall|p: BytesN<32>| #[trigger]
                held(done.balances, p) == held(state.balances, p)
        }),
{
    let done = state.transferred(from, to, project_id, amount);
    if from != to {
        let f = Holding { owner: from, project_id };
        let t = Holding { owner: to, project_id };
        let mid = state.with_balance(from, project_id, state.balance(from, project_id) - amount);
        assert forall|p: BytesN<32>| #[trigger] held(done.balances, p) == held(state.balances, p) by {
            lemma_held_insert(state.balances, f, mid.balances[f], p);
            lemma_held_insert(mid.balances, t, done.balances[t], p);
        }
        assert forall|o: Address, p: BytesN<32>|
            (p != project_id || (o != from && o != to)) implies #[trigger] done.balance(o, p)
            == state.balance(o, p) by {
            assert(Holding { owner: o, project_id: p } != f);
            assert(Holding { owner: o, project_id: p } != t);
        }
    }
}

/// A mint that is not refused adds `amount` to one balance and to one supply,
/// and changes nothing else.
pub proof fn law_mint_adds(
    state: CreditState,
    to: Address,
    project_id: BytesN<32>,
    amount: i128,
    status: ProjectStatus,
)
    requires
        state.mint_refusal(to, project_id, amount, status) is None,
    ensures
        ({
            let done = state.minted(to, project_id, amount);
            &&& amount > 0 && status == ProjectStatus::Verified
            &&& done.balance(to, project_id) == state.balance(to, project_id) + amount
            &&& done.supply(project_id) == state.supply(project_id) + amount
            &&& forall|o: Address, p: BytesN<32>|
                (o != to || p != project_id) ==> #[trigger] done.balance(o, p) == state.balance(
                    o,
                    p,
                )
            &&& forall|p: BytesN<32>|
                p != project_id ==> #[trigger] done.supply(p) == state.supply(p)
            &&& done.retirements == state.retirements
            &&& done.config == state.config
        }),
{
}

/// A project that is not verified cannot have credits minted.
pub proof fn law_mint_needs_verified_project(
    state: CreditState,
    to: Address,
    project_id: BytesN<32>,
    amount: i128,
    status: ProjectStatus,
)
    requires
        state.config is Some,
        amount > 0,
        status != ProjectStatus::Verified,
    ensures
        state.mint_refusal(to, project_id, amount, status) == Some(CreditError::ProjectNotVerified),
{
}

/// Retiring credits takes them out of circulation and adds them to the retired
/// ones: of a sound ledger, the sum of both stays the same.
pub proof fn law_retire_moves_credits(
    state: CreditState,
    from: Address,
    project_id: BytesN<32>,
    amount: i128,
)
    requires
        sound(state),
        state.retire_refusal(from, project_id, amount) is None,
    ensures
        ({
            let done = state.retirement(from, project_id, amount);
            &&& done.balance(from, project_id) == state.balance(from, project_id) - amount
            &&& done.supply(project_id) == state.supply(project_id) - amount
            &&& done.retired(project_id) == state.retired(project_id) + amount
        }),
{
    assert(state.supply(project_id) == held(state.balances, project_id));
    lemma_held_bounds(state.balances, Holding { owner: from, project_id });
}

/// Burning what has just been minted to an owner, whose balance was not negative,
/// brings back every balance and every supply.
pub proof fn law_burn_undoes_mint(
    state: CreditState,
    owner: Address,
    project_id: BytesN<32>,
    amount: i128,
)
    requires
        state.balance(owner, project_id) >= 0,
        state.mint_refusal(owner, project_id, amount, ProjectStatus::Verified) is None,
    ensures
        ({
            let minted = state.minted(owner, project_id, amount);
            let done = minted.burned(owner, project_id, amount);
            &&& minted.burn_refusal(owner, project_id, amount) is None
            &&& forall|o: Address, p: BytesN<32>| #[trigger]
                done.balance(o, p) == state.balance(o, p)
            &&& forall|p: BytesN<32>| #[trigger] done.supply(p) == state.supply(p)
            &&& done.retirements == state.retirements
        }),
{
}

/// In a sound ledger no balance is negative, and none exceeds its project's
/// supply.
pub proof fn law_balances_within_supply(
    state: CreditState,
    owner: Address,
    project_id: BytesN<32>,
)
    requires
        sound(state),
    ensures
        0 <= state.balance(owner, project_id) <= state.supply(project_id),
{
    assert(state.supply(project_id) == held(state.balances, project_id));
    lemma_held_bounds(state.balances, Holding { owner, project_id });
}

proof fn lemma_batch_sound(
    state: CreditState,
    from: Address,
    transfers: Seq<(Address, BytesN<32>, i128)>,
)
    requires
        sound(state),
        state.batch(from, transfers) is Ok,
    ensures
        sound(state.batch(from, transfers)->Ok_0),
    decreases transfers.len(),
{
    if transfers.len() > 0 {
        let (to, project_id, amount) = transfers[0];
        lemma_transfer_sound(state, from, to, project_id, amount);
        lemma_batch_sound(
            state.transferred(from, to, project_id, amount),
            from,
            transfers.drop_first(),
        );
    }
}

proof fn lemma_transfer_sound(
    state: CreditState,
    from: Address,
    to: Address,
    project_id: BytesN<32>,
    amount: i128,
)
    requires
        sound(state),
        state.transfer_refusal(from, to, project_id, amount) is None,
    ensures
        sound(state.transferred(from, to, project_id, amount)),
{
    let done = state.transferred(from, to, project_id, amount);
    law_transfer_conserves(state, from, to, project_id, amount);
    lemma_held_bounds(state.balances, Holding { owner: to, project_id });
    assert forall|p: BytesN<32>| #[trigger] done.supply(p) == held(done.balances, p) by {
        assert(state.supply(p) == held(state.balances, p));
    }
}

/// Every request keeps a sound ledger sound: credits are neither created nor
/// destroyed but by minting, burning and retiring.
pub proof fn law_request_keeps_sound(state: CreditState, request: Request)
    requires
        sound(state),
    ensures
        sound(after(state, request)),
{
    let done = after(state, request);
    match request {
        Request::Initialize { config } => {
            assert forall|p: BytesN<32>| #[trigger] done.supply(p) == held(done.balances, p) by {
                assert(state.supply(p) == held(state.balances, p));
            }
            assert forall|p: BytesN<32>| #[trigger] done.retired(p) >= 0 by {
                assert(state.retired(p) >= 0);
            }
        },
        Request::Mint { to, project_id, amount, status } => {
            if state.mint_refusal(to, project_id, amount, status) is None {
                let k = Holding { owner: to, project_id };
                lemma_held_bounds(state.balances, k);
                assert forall|p: BytesN<32>| #[trigger]
                    done.supply(p) == held(done.balances, p) by {
                    assert(state.supply(p) == held(state.balances, p));
                    lemma_held_insert(state.balances, k, done.balances[k], p);
                }
                assert forall|p: BytesN<32>| #[trigger] done.retired(p) >= 0 by {
                    assert(state.retired(p) >= 0);
                }
            }
        },
        Request::Transfer { from, to, project_id, amount } => {
            if state.transfer_refusal(from, to, project_id, amount) is None {
                lemma_transfer_sound(state, from, to, project_id, amount);
            }
        },
        Request::Burn { from, project_id, amount } => {
            if state.burn_refusal(from, project_id, amount) is None {
                let k = Holding { owner: from, project_id };
                lemma_held_bounds(state.balances, k);
                assert forall|p: BytesN<32>| #[trigger]
                    done.supply(p) == held(done.balances, p) by {
                    assert(state.supply(p) == held(state.balances, p));
                    lemma_held_insert(state.balances, k, done.balances[k], p);
                }
                assert forall|p: BytesN<32>| #[trigger] done.retired(p) >= 0 by {
                    assert(state.retired(p) >= 0);
                }
            }
        },
        Request::Retire { from, project_id, amount } => {
            if state.retire_refusal(from, project_id, amount) is None {
                let k = Holding { owner: from, project_id };
                lemma_held_bounds(state.balances, k);
                assert forall|p: BytesN<32>| #[trigger]
                    done.supply(p) == held(done.balances, p) by {
                    assert(state.supply(p) == held(state.balances, p));
                    lemma_held_insert(state.balances, k, done.balances[k], p);
                }
                assert forall|p: BytesN<32>| #[trigger] done.retired(p) >= 0 by {
                    assert(state.retired(p) >= 0);
                }
            }
        },
        Request::Batch { from, transfers } => {
            if state.batch(from, transfers) is Ok {
                lemma_batch_sound(state, from, transfers);
            }
        },
    }
}

/// Whatever requests it has seen, a ledger is sound: no balance is negative, and
/// the supply of each project is what its owners hold together.
pub proof fn law_ledger_is_sound(requests: Seq<Request>)
    ensures
        sound(after_all(CreditState::empty(), requests)),
    decreases requests.len(),
{
    if requests.len() == 0 {
        assert forall|p: BytesN<32>| #[trigger]
            CreditState::empty().supply(p) == held(CreditState::empty().balances, p) by {}
    } else {
        law_ledger_is_sound(requests.drop_last());
        law_request_keeps_sound(
            after_all(CreditState::empty(), requests.drop_last()),
            requests.last(),
        );
    }
}

/// A batch of transfers, carried out or refused, changes no project's supply.
pub proof fn law_batch_keeps_supply(
    state: CreditState,
    from: Address,
    transfers: Seq<(Address, BytesN<32>, i128)>,
)
    ensures
        after(state, Request::Batch { from, transfers }).supplies == state.supplies,
        after(state, Request::Batch { from, transfers }).retirements == state.retirements,
    decreases transfers.len(),
{
    if transfers.len() > 0 {
        let (to, project_id, amount) = transfers[0];
        if state.transfer_refusal(from, to, project_id, amount) is None {
            law_batch_keeps_supply(
                state.transferred(from, to, project_id, amount),
                from,
                transfers.drop_first(),
            );
        }
    }
}

/// Credits that have been retired stay retired.
pub proof fn law_retirement_is_final(
    state: CreditState,
    request: Request,
    project_id: BytesN<32>,
)
    ensures
        after(state, request).retired(project_id) >= state.retired(project_id),
{
    if let Request::Batch { from, transfers } = request {
        law_batch_keeps_supply(state, from, transfers);
    }
}

proof fn lemma_batch_keeps_config(
    state: CreditState,
    from: Address,
    transfers: Seq<(Address, BytesN<32>, i128)>,
)
    ensures
        state.batch(from, transfers) matches Ok(done) ==> done.config == state.config,
    decreases transfers.len(),
{
    if transfers.len() > 0 {
        let (to, project_id, amount) = transfers[0];
        lemma_batch_keeps_config(
            state.transferred(from, to, project_id, amount),
            from,
            transfers.drop_first(),
        );
    }
}

/// Whom the ledger works with never changes once it is set.
pub proof fn law_config_is_fixed(state: CreditState, request: Request)
    requires
        state.config is Some,
    ensures
        after(state, request).config == state.config,
{
    if let Request::Batch { from, transfers } = request {
        lemma_batch_keeps_config(state, from, transfers);
    }
}

} // verus!
