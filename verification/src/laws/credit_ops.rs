//! What each operation of the credit ledger decides and changes, in terms of what
//! is on record and what is asked.

use vstd::prelude::*;
use crate::carbon_credit::{
    CarbonCredit, CreditConfig, CreditError, CreditState, Holding, ProjectStatus,
};
use crate::host::{Address, BytesN};
use crate::laws::credit::{after, after_all, Request};
use crate::replay::{batches, distinct, mints, picked, total, transfers, BatchAction};

verus! {

/// An owner holds of a project what is on record under both, and nothing where
/// nothing is. So with what circulates and what is retired.
pub proof fn law_what_is_not_on_record_is_zero(
    state: CreditState,
    owner: Address,
    project_id: BytesN<32>,
)
    ensures
        ({
            let holding = Holding { owner, project_id };
            &&& state.balances.contains_key(holding) ==> state.balance(owner, project_id)
                == state.balances[holding]
            &&& !state.balances.contains_key(holding) ==> state.balance(owner, project_id) == 0
            &&& state.supplies.contains_key(project_id) ==> state.supply(project_id)
                == state.supplies[project_id]
            &&& !state.supplies.contains_key(project_id) ==> state.supply(project_id) == 0
            &&& state.retirements.contains_key(project_id) ==> state.retired(project_id)
                == state.retirements[project_id]
            &&& !state.retirements.contains_key(project_id) ==> state.retired(project_id) == 0
        }),
{
}

/// What is on record is what the tables of the ledger hold.
pub proof fn law_ledger_is_what_its_tables_hold(ledger: CarbonCredit)
    ensures
        ledger@.config == ledger.config,
        ledger@.balances == ledger.balances@,
        ledger@.supplies == ledger.supplies@,
        ledger@.retirements == ledger.retirements@,
{
}

/// A ledger starts with nothing on record, and the setup records whom it works
/// with as they are given, and nothing else.
pub proof fn law_setup_records_the_parties(
    state: CreditState,
    config: CreditConfig,
    owner: Address,
    project_id: BytesN<32>,
)
    ensures
        CreditState::empty().config is None,
        !CreditState::empty().balances.contains_key(Holding { owner, project_id }),
        !CreditState::empty().supplies.contains_key(project_id),
        !CreditState::empty().retirements.contains_key(project_id),
        state.initialized(config).config == Some(config),
        state.initialized(config).balances == state.balances,
        state.initialized(config).supplies == state.supplies,
        state.initialized(config).retirements == state.retirements,
{
}

/// When credits are minted: the ledger is set up, the amount is positive, the
/// project verified, and the new balance and the new supply fit. Each refusal
/// comes where one of these fails, and nowhere else.
pub proof fn law_when_credits_are_minted(
    state: CreditState,
    to: Address,
    project_id: BytesN<32>,
    amount: i128,
    status: ProjectStatus,
)
    ensures
        ({
            let refusal = state.mint_refusal(to, project_id, amount, status);
            let room = state.balance(to, project_id) + amount <= i128::MAX && state.supply(
                project_id,
            ) + amount <= i128::MAX;
            let asked = state.mint_query_refusal(amount);
            &&& refusal == Some(CreditError::NotInitialized) <==> state.config is None
            &&& refusal == Some(CreditError::ProjectNotVerified) <==> state.config is Some && amount
                > 0 && status != ProjectStatus::Verified
            &&& refusal == Some(CreditError::InvalidAmount) <==> state.config is Some && (amount <= 0
                || (status == ProjectStatus::Verified && !room))
            &&& refusal is None <==> state.config is Some && amount > 0 && status
                == ProjectStatus::Verified && room
            &&& asked == Some(CreditError::NotInitialized) <==> state.config is None
            &&& asked == Some(CreditError::InvalidAmount) <==> state.config is Some && amount <= 0
            &&& asked is None <==> state.config is Some && amount > 0
        }),
{
}

/// What a mint changes: the receiver's balance and the project's supply, each by
/// the amount, and nothing else.
pub proof fn law_what_a_mint_changes(
    state: CreditState,
    to: Address,
    project_id: BytesN<32>,
    amount: i128,
    status: ProjectStatus,
)
    requires
        state.mint_refusal(to, project_id, amount, status) is None,
    ensures
        ({
            let done = state.minted(to, project_id, amount);
            let holding = Holding { owner: to, project_id };
            &&& done.balances.dom() =~= state.balances.dom().insert(holding)
            &&& done.balances[holding] == state.balance(to, project_id) + amount
            &&& forall|h: Holding|
                h != holding ==> #[trigger] done.balances[h] == state.balances[h]
            &&& done.supplies.dom() =~= state.supplies.dom().insert(project_id)
            &&& done.supplies[project_id] == state.supply(project_id) + amount
            &&& forall|p: BytesN<32>|
                p != project_id ==> #[trigger] done.supplies[p] == state.supplies[p]
            &&& done.retirements == state.retirements
            &&& done.config == state.config
        }),
{
}

/// When credits are transferred between two owners: the ledger is set up, the
/// amount is positive, the sender holds at least as much, and the receiver's new
/// balance fits. It is refused for want of credits exactly where the sender
/// holds less than the amount. To oneself, a positive amount always goes.
pub proof fn law_when_credits_are_transferred(
    state: CreditState,
    from: Address,
    to: Address,
    project_id: BytesN<32>,
    amount: i128,
)
    ensures
        ({
            let refusal = state.transfer_refusal(from, to, project_id, amount);
            let asked = state.config is Some && amount > 0;
            let short = state.balance(from, project_id) < amount;
            let room = state.balance(to, project_id) + amount <= i128::MAX;
            &&& refusal == Some(CreditError::NotInitialized) <==> state.config is None
            &&& refusal == Some(CreditError::InsufficientBalance) <==> asked && from != to && short
            &&& refusal == Some(CreditError::InvalidAmount) <==> state.config is Some && (amount <= 0
                || (from != to && !short && !room))
            &&& refusal is None <==> asked && (from == to || (!short && room))
        }),
{
}

/// What a transfer changes: the sender's balance goes down and the receiver's up
/// by the amount, and nothing else changes. A transfer to oneself changes
/// nothing.
pub proof fn law_what_a_transfer_changes(
    state: CreditState,
    from: Address,
    to: Address,
    project_id: BytesN<32>,
    amount: i128,
)
    requires
        state.transfer_refusal(from, to, project_id, amount) is None,
    ensures
        ({
            let done = state.transferred(from, to, project_id, amount);
            let sender = Holding { owner: from, project_id };
            let receiver = Holding { owner: to, project_id };
            &&& from == to ==> done == state
            &&& from != to ==> {
                &&& done.balances.dom() =~= state.balances.dom().insert(sender).insert(receiver)
                &&& done.balances[sender] + amount == state.balance(from, project_id)
                &&& done.balances[receiver] == state.balance(to, project_id) + amount
                &&& forall|h: Holding|
                    h != sender && h != receiver ==> #[trigger] done.balances[h]
                        == state.balances[h]
            }
            &&& done.supplies == state.supplies
            &&& done.retirements == state.retirements
            &&& done.config == state.config
        }),
{
    assert(from != to ==> Holding { owner: from, project_id } != Holding { owner: to, project_id });
}

/// When credits are burned: the ledger is set up, the amount is positive, and the
/// owner holds at least as much.
pub proof fn law_when_credits_are_burned(
    state: CreditState,
    from: Address,
    project_id: BytesN<32>,
    amount: i128,
)
    ensures
        ({
            let refusal = state.burn_refusal(from, project_id, amount);
            let short = state.balance(from, project_id) < amount;
            &&& refusal == Some(CreditError::NotInitialized) <==> state.config is None
            &&& refusal == Some(CreditError::InvalidAmount) <==> state.config is Some && amount <= 0
            &&& refusal == Some(CreditError::InsufficientBalance) <==> state.config is Some && amount
                > 0 && short
            &&& refusal is None <==> state.config is Some && amount > 0 && !short
        }),
{
}

/// What a burn changes: the owner's balance and the project's supply go down by
/// the amount, the supply no lower than the least number. Nothing else changes.
pub proof fn law_what_a_burn_changes(
    state: CreditState,
    from: Address,
    project_id: BytesN<32>,
    amount: i128,
)
    requires
        state.burn_refusal(from, project_id, amount) is None,
    ensures
        ({
            let done = state.burned(from, project_id, amount);
            let holding = Holding { owner: from, project_id };
            let left = state.supply(project_id) - amount;
            &&& done.balances.dom() =~= state.balances.dom().insert(holding)
            &&& done.balances[holding] + amount == state.balance(from, project_id)
            &&& forall|h: Holding|
                h != holding ==> #[trigger] done.balances[h] == state.balances[h]
            &&& done.supplies.dom() =~= state.supplies.dom().insert(project_id)
            &&& left >= i128::MIN ==> done.supplies[project_id] == left
            &&& left < i128::MIN ==> done.supplies[project_id] == i128::MIN
            &&& forall|p: BytesN<32>|
                p != project_id ==> #[trigger] done.supplies[p] == state.supplies[p]
            &&& done.retirements == state.retirements
            &&& done.config == state.config
        }),
{
}

/// When credits are retired: the ledger is set up, the amount is positive, the
/// owner holds at least as much, and the new count of retired credits fits.
pub proof fn law_when_credits_are_retired(
    state: CreditState,
    from: Address,
    project_id: BytesN<32>,
    amount: i128,
)
    ensures
        ({
            let refusal = state.retire_refusal(from, project_id, amount);
            let short = state.balance(from, project_id) < amount;
            let room = state.retired(project_id) + amount <= i128::MAX;
            &&& refusal == Some(CreditError::NotInitialized) <==> state.config is None
            &&& refusal == Some(CreditError::InsufficientBalance) <==> state.config is Some && amount
                > 0 && short
            &&& refusal == Some(CreditError::InvalidAmount) <==> state.config is Some && (amount <= 0
                || (!short && !room))
            &&& refusal is None <==> state.config is Some && amount > 0 && !short && room
        }),
{
}

/// What a retirement changes: the owner's balance and the project's supply go
/// down by the amount, and its count of retired credits up. Nothing else
/// changes.
pub proof fn law_what_a_retirement_changes(
    state: CreditState,
    from: Address,
    project_id: BytesN<32>,
    amount: i128,
)
    requires
        state.retire_refusal(from, project_id, amount) is None,
    ensures
        ({
            let done = state.retirement(from, project_id, amount);
            let holding = Holding { owner: from, project_id };
            let left = state.supply(project_id) - amount;
            &&& done.balances.dom() =~= state.balances.dom().insert(holding)
            &&& done.balances[holding] + amount == state.balance(from, project_id)
            &&& forall|h: Holding|
                h != holding ==> #[trigger] done.balances[h] == state.balances[h]
            &&& done.supplies.dom() =~= state.supplies.dom().insert(project_id)
            &&& left >= i128::MIN ==> done.supplies[project_id] == left
            &&& left < i128::MIN ==> done.supplies[project_id] == i128::MIN
            &&& forall|p: BytesN<32>|
                p != project_id ==> #[trigger] done.supplies[p] == state.supplies[p]
            &&& done.retirements.dom() =~= state.retirements.dom().insert(project_id)
            &&& done.retirements[project_id] == state.retired(project_id) + amount
            &&& forall|p: BytesN<32>|
                p != project_id ==> #[trigger] done.retirements[p] == state.retirements[p]
            &&& done.config == state.config
        }),
{
}

/// An empty batch changes nothing, and a batch of one is a transfer.
pub proof fn law_batch_of_one_is_a_transfer(
    state: CreditState,
    from: Address,
    to: Address,
    project_id: BytesN<32>,
    amount: i128,
)
    ensures
        state.batch(from, Seq::empty()) == Ok::<CreditState, CreditError>(state),
        match state.transfer_refusal(from, to, project_id, amount) {
            None => state.batch(from, seq![(to, project_id, amount)]) == Ok::<
                CreditState,
                CreditError,
            >(state.transferred(from, to, project_id, amount)),
            Some(error) => state.batch(from, seq![(to, project_id, amount)]) == Err::<
                CreditState,
                CreditError,
            >(error),
        },
{
    reveal_with_fuel(CreditState::batch, 3);
    let one = seq![(to, project_id, amount)];
    assert(one.drop_first() =~= Seq::empty());
}

/// A batch comes to the same as its first part and then the rest, and is refused
/// as soon as a part is.
pub proof fn law_batch_is_carried_out_in_order(
    state: CreditState,
    from: Address,
    first: Seq<(Address, BytesN<32>, i128)>,
    rest: Seq<(Address, BytesN<32>, i128)>,
)
    ensures
        match state.batch(from, first) {
            Ok(halfway) => state.batch(from, first + rest) == halfway.batch(from, rest),
            Err(error) => state.batch(from, first + rest) == Err::<CreditState, CreditError>(error),
        },
    decreases first.len(),
{
    if first.len() == 0 {
        assert(first + rest =~= rest);
    } else {
        let (to, project_id, amount) = first[0];
        assert((first + rest)[0] == first[0]);
        assert((first + rest).drop_first() =~= first.drop_first() + rest);
        law_batch_is_carried_out_in_order(
            state.transferred(from, to, project_id, amount),
            from,
            first.drop_first(),
            rest,
        );
    }
}

/// A request that is not refused is carried out, and one that is refused changes
/// nothing. Requests are met one after the other.
pub proof fn law_requests_are_carried_out(
    state: CreditState,
    config: CreditConfig,
    from: Address,
    to: Address,
    project_id: BytesN<32>,
    amount: i128,
    status: ProjectStatus,
    moves: Seq<(Address, BytesN<32>, i128)>,
    requests: Seq<Request>,
    request: Request,
)
    ensures
        after(state, Request::Initialize { config }) == (if state.config is None {
            state.initialized(config)
        } else {
            state
        }),
        after(state, Request::Mint { to, project_id, amount, status }) == (if state.mint_refusal(
            to,
            project_id,
            amount,
            status,
        ) is None {
            state.minted(to, project_id, amount)
        } else {
            state
        }),
        after(state, Request::Transfer { from, to, project_id, amount }) == (
        if state.transfer_refusal(from, to, project_id, amount) is None {
            state.transferred(from, to, project_id, amount)
        } else {
            state
        }),
        after(state, Request::Burn { from, project_id, amount }) == (if state.burn_refusal(
            from,
            project_id,
            amount,
        ) is None {
            state.burned(from, project_id, amount)
        } else {
            state
        }),
        after(state, Request::Retire { from, project_id, amount }) == (if state.retire_refusal(
            from,
            project_id,
            amount,
        ) is None {
            state.retirement(from, project_id, amount)
        } else {
            state
        }),
        state.batch(from, moves) is Ok ==> Ok::<CreditState, CreditError>(
            after(state, Request::Batch { from, transfers: moves }),
        ) == state.batch(from, moves),
        state.batch(from, moves) is Err ==> after(state, Request::Batch { from, transfers: moves })
            == state,
        after_all(state, Seq::empty()) == state,
        after_all(state, requests.push(request)) == after(after_all(state, requests), request),
{
    assert(requests.push(request).drop_last() =~= requests);
}

// ---- Replayed lists ----

/// A number picks one of the five accounts by its remainder, so that numbers five
/// apart pick the same one.
pub proof fn law_numbers_pick_accounts_in_turn(accounts: [Address; 5], index: u8)
    ensures
        index < 5 ==> picked(accounts, index) == accounts@[index as int],
        5 <= index ==> picked(accounts, index) == picked(accounts, (index - 5) as u8),
{
}

/// Five accounts are distinct where no two of them are equal, and what they hold
/// together is the sum of the five balances.
pub proof fn law_total_is_the_sum(
    state: CreditState,
    accounts: [Address; 5],
    project_id: BytesN<32>,
    i: int,
    j: int,
)
    requires
        0 <= i < 5,
        0 <= j < 5,
    ensures
        distinct(accounts) && i != j ==> accounts@[i] != accounts@[j],
        (forall|k: int, l: int| 0 <= k < 5 && 0 <= l < 5 && k != l ==> accounts@[k] != accounts@[l])
            ==> distinct(accounts),
        total(state, accounts, project_id) == state.balance(accounts@[0], project_id)
            + state.balance(accounts@[1], project_id) + state.balance(accounts@[2], project_id)
            + state.balance(accounts@[3], project_id) + state.balance(accounts@[4], project_id),
{
}

/// A list of mints stands for one request for each of its pairs, in order.
pub proof fn law_each_pair_is_a_mint(
    accounts: [Address; 5],
    project_id: BytesN<32>,
    status: ProjectStatus,
    actions: Seq<(u8, i128)>,
    i: int,
)
    ensures
        mints(accounts, project_id, status, actions).len() == actions.len(),
        0 <= i < actions.len() ==> mints(accounts, project_id, status, actions)[i] == (
        Request::Mint {
            to: accounts@[actions[i].0 as int % 5],
            project_id,
            amount: actions[i].1,
            status,
        }),
{
}

/// A list of batches stands for one request for each of its actions, in order,
/// with one transfer for each of the action's pairs.
pub proof fn law_each_action_is_a_batch(
    accounts: [Address; 5],
    project_id: BytesN<32>,
    actions: Seq<BatchAction>,
    i: int,
    j: int,
)
    ensures
        batches(accounts, project_id, actions).len() == actions.len(),
        0 <= i < actions.len() ==> {
            let pairs = actions[i].transfers@;
            let moves = transfers(accounts, project_id, pairs);
            &&& batches(accounts, project_id, actions)[i] == (Request::Batch {
                from: accounts@[actions[i].from_idx as int % 5],
                transfers: moves,
            })
            &&& moves.len() == pairs.len()
            &&& 0 <= j < pairs.len() ==> moves[j] == (
                accounts@[pairs[j].0 as int % 5],
                project_id,
                pairs[j].1,
            )
        },
{
}

} // verus!
