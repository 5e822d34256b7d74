//! Lists of requests that are replayed on the credit ledger, among five
//! accounts.

use vstd::prelude::*;
use crate::carbon_credit::{CarbonCredit, CarbonProject, CreditError, CreditState, ProjectStatus};
use crate::host::{Address, BytesN, Env};
use crate::laws::credit;

verus! {

/// Transfers out of one account, to be carried out together.
#[derive(Debug)]
pub struct BatchAction {
    /// Picks the account that pays.
    pub from_idx: u8,
    /// Pairs of a number that picks the account to pay, and an amount.
    pub transfers: Vec<(u8, i128)>,
}

/// A list of batches.
#[derive(Debug)]
pub struct BatchInput {
    pub actions: Vec<BatchAction>,
}

/// A list of mints: pairs of a number that picks an account, and an amount.
#[derive(Debug)]
pub struct MintInput {
    pub actions: Vec<(u8, i128)>,
}

/// The account that `index` picks.
pub open spec fn picked(accounts: [Address; 5], index: u8) -> Address {
    accounts[index as int % 5]
}

/// The account that `index` picks.
fn pick(accounts: &[Address; 5], index: u8) -> (r: Address)
    ensures
        r == picked(*accounts, index),
{
    accounts[(index % 5) as usize]
}

/// Whether the five accounts are five different ones.
pub open spec fn distinct(accounts: [Address; 5]) -> bool {
    forall|i: int, j: int| 0 <= i < j < 5 ==> accounts[i] != accounts[j]
}

/// What the five accounts hold together.
pub open spec fn total(state: CreditState, accounts: [Address; 5], project_id: BytesN<32>) -> int {
    state.balance(accounts[0], project_id) + state.balance(accounts[1], project_id) + state.balance(
        accounts[2],
        project_id,
    ) + state.balance(accounts[3], project_id) + state.balance(accounts[4], project_id)
}

/// The mints that a list stands for.
pub open spec fn mints(
    accounts: [Address; 5],
    project_id: BytesN<32>,
    status: ProjectStatus,
    actions: Seq<(u8, i128)>,
) -> Seq<credit::Request> {
    actions.map_values(
        |action: (u8, i128)|
            credit::Request::Mint {
                to: picked(accounts, action.0),
                project_id,
                amount: action.1,
                status,
            },
    )
}

/// The transfers that the pairs of a batch stand for.
pub open spec fn transfers(
    accounts: [Address; 5],
    project_id: BytesN<32>,
    pairs: Seq<(u8, i128)>,
) -> Seq<(Address, BytesN<32>, i128)> {
    pairs.map_values(|pair: (u8, i128)| (picked(accounts, pair.0), project_id, pair.1))
}

/// The batches that a list stands for.
pub open spec fn batches(
    accounts: [Address; 5],
    project_id: BytesN<32>,
    actions: Seq<BatchAction>,
) -> Seq<credit::Request> {
    actions.map_values(
        |action: BatchAction|
            credit::Request::Batch {
                from: picked(accounts, action.from_idx),
                transfers: transfers(accounts, project_id, action.transfers@),
            },
    )
}

proof fn lemma_transfer_keeps_total(
    state: CreditState,
    accounts: [Address; 5],
    project_id: BytesN<32>,
    from: u8,
    to: u8,
    amount: i128,
)
    requires
        distinct(accounts),
        state.transfer_refusal(
            picked(accounts, from),
            picked(accounts, to),
            project_id,
            amount,
        ) is None,
    ensures
        total(
            state.transferred(picked(accounts, from), picked(accounts, to), project_id, amount),
            accounts,
            project_id,
        ) == total(state, accounts, project_id),
{
    let f = from as int % 5;
    let t = to as int % 5;
    if accounts[f] != accounts[t] {
        let done = state.transferred(accounts[f], accounts[t], project_id, amount);
        assert forall|i: int| 0 <= i < 5 implies #[trigger] done.balance(accounts[i], project_id)
            == state.balance(accounts[i], project_id) + (if i == f {
            -amount
        } else if i == t {
            amount as int
        } else {
            0
        }) by {
            if i != f {
                assert(accounts[i] != accounts[f]);
            }
            if i != t {
                assert(accounts[i] != accounts[t]);
            }
        }
    }
}

proof fn lemma_batch_keeps_total(
    state: CreditState,
    accounts: [Address; 5],
    project_id: BytesN<32>,
    from: u8,
    pairs: Seq<(u8, i128)>,
)
    requires
        distinct(accounts),
        state.batch(picked(accounts, from), transfers(accounts, project_id, pairs)) is Ok,
    ensures
        total(
            state.batch(picked(accounts, from), transfers(accounts, project_id, pairs))->Ok_0,
            accounts,
            project_id,
        ) == total(state, accounts, project_id),
    decreases pairs.len(),
{
    if pairs.len() > 0 {
        let sender = picked(accounts, from);
        let all = transfers(accounts, project_id, pairs);
        let (to, amount) = pairs[0];
        assert(all[0] == (picked(accounts, to), project_id, amount));
        assert(all.drop_first() =~= transfers(accounts, project_id, pairs.drop_first()));
        lemma_transfer_keeps_total(state, accounts, project_id, from, to, amount);
        lemma_batch_keeps_total(
            state.transferred(sender, picked(accounts, to), project_id, amount),
            accounts,
            project_id,
            from,
            pairs.drop_first(),
        );
    }
}

proof fn lemma_mint_adds_to_total(
    state: CreditState,
    accounts: [Address; 5],
    project_id: BytesN<32>,
    to: u8,
    amount: i128,
    status: ProjectStatus,
)
    requires
        distinct(accounts),
        state.mint_refusal(picked(accounts, to), project_id, amount, status) is None,
    ensures
        total(
            state.minted(picked(accounts, to), project_id, amount),
            accounts,
            project_id,
        ) == total(state, accounts, project_id) + amount,
{
    let t = to as int % 5;
    let done = state.minted(accounts[t], project_id, amount);
    assert forall|i: int| 0 <= i < 5 implies #[trigger] done.balance(accounts[i], project_id)
        == state.balance(accounts[i], project_id) + (if i == t {
        amount as int
    } else {
        0
    }) by {
        if i != t {
            assert(accounts[i] != accounts[t]);
        }
    }
}

/// However a list of mints goes, the supply grows by as much as the five
/// accounts gain.
pub proof fn law_mints_match_supply(
    state: CreditState,
    accounts: [Address; 5],
    project_id: BytesN<32>,
    status: ProjectStatus,
    actions: Seq<(u8, i128)>,
)
    requires
        distinct(accounts),
    ensures
        ({
            let done = credit::after_all(state, mints(accounts, project_id, status, actions));
            done.supply(project_id) - total(done, accounts, project_id) == state.supply(project_id)
                - total(state, accounts, project_id)
        }),
    decreases actions.len(),
{
    if actions.len() > 0 {
        let requests = mints(accounts, project_id, status, actions);
        let (to, amount) = actions.last();
        assert(requests.drop_last() =~= mints(accounts, project_id, status, actions.drop_last()));
        law_mints_match_supply(state, accounts, project_id, status, actions.drop_last());
        let before = credit::after_all(state, requests.drop_last());
        if before.mint_refusal(picked(accounts, to), project_id, amount, status) is None {
            lemma_mint_adds_to_total(before, accounts, project_id, to, amount, status);
        }
    }
}

/// However a list of batches goes, the supply stays what it was, and so does what
/// the five accounts hold together.
pub proof fn law_batches_keep_supply(
    state: CreditState,
    accounts: [Address; 5],
    project_id: BytesN<32>,
    actions: Seq<BatchAction>,
)
    requires
        distinct(accounts),
    ensures
        ({
            let done = credit::after_all(state, batches(accounts, project_id, actions));
            &&& done.supply(project_id) == state.supply(project_id)
            &&& total(done, accounts, project_id) == total(state, accounts, project_id)
        }),
    decreases actions.len(),
{
    if actions.len() > 0 {
        let requests = batches(accounts, project_id, actions);
        let action = actions.last();
        let from = picked(accounts, action.from_idx);
        let moves = transfers(accounts, project_id, action.transfers@);
        assert(requests.drop_last() =~= batches(accounts, project_id, actions.drop_last()));
        law_batches_keep_supply(state, accounts, project_id, actions.drop_last());
        let before = credit::after_all(state, requests.drop_last());
        credit::law_batch_keeps_supply(before, from, moves);
        if before.batch(from, moves) is Ok {
            lemma_batch_keeps_total(
                before,
                accounts,
                project_id,
                action.from_idx,
                action.transfers@,
            );
        }
    }
}

impl MintInput {
    /// Mints on `ledger` in order and returns how each mint went.
    pub fn replay(
        &self,
        e: &Env,
        ledger: &mut CarbonCredit,
        accounts: &[Address; 5],
        project_id: BytesN<32>,
        project: &CarbonProject,
    ) -> (r: Vec<Result<(), CreditError>>)
        requires
            old(ledger)@.config matches Some(config) ==> e.authorizes(config.marketplace),
        ensures
            ({
                let requests = mints(*accounts, project_id, project.status, self.actions@);
                &&& final(ledger)@ == credit::after_all(old(ledger)@, requests)
                &&& r@.len() == self.actions@.len()
                &&& forall|i: int|
                    0 <= i < r@.len() ==> match (
                        #[trigger] r@[i],
                        credit::after_all(old(ledger)@, requests.take(i)).mint_refusal(
                            picked(*accounts, self.actions@[i].0),
                            project_id,
                            self.actions@[i].1,
                            project.status,
                        ),
                    ) {
                        (Ok(_), None) => true,
                        (Err(error), Some(refusal)) => error == refusal,
                        _ => false,
                    }
            }),
            distinct(*accounts) ==> final(ledger)@.supply(project_id) - total(
                final(ledger)@,
                *accounts,
                project_id,
            ) == old(ledger)@.supply(project_id) - total(old(ledger)@, *accounts, project_id),
    {
        let mut outcomes: Vec<Result<(), CreditError>> = Vec::new();
        let ghost requests = mints(*accounts, project_id, project.status, self.actions@);
        let mut i: usize = 0;
        while i < self.actions.len()
            invariant
                i <= self.actions@.len(),
                outcomes@.len() == i,
                requests == mints(*accounts, project_id, project.status, self.actions@),
                ledger@.config == old(ledger)@.config,
                ledger@.config matches Some(config) ==> e.authorizes(config.marketplace),
                ledger@ == credit::after_all(old(ledger)@, requests.take(i as int)),
                forall|k: int|
                    0 <= k < i ==> match (
                        #[trigger] outcomes@[k],
                        credit::after_all(old(ledger)@, requests.take(k)).mint_refusal(
                            picked(*accounts, self.actions@[k].0),
                            project_id,
                            self.actions@[k].1,
                            project.status,
                        ),
                    ) {
                        (Ok(_), None) => true,
                        (Err(error), Some(refusal)) => error == refusal,
                        _ => false,
                    },
            decreases self.actions@.len() - i,
        {
            let (index, amount) = self.actions[i];
            proof {
                let longer = requests.take(i + 1);
                assert(longer.drop_last() =~= requests.take(i as int));
                assert(longer.last() == requests[i as int]);
            }
            outcomes.push(ledger.mint(e, pick(accounts, index), project_id, amount, project));
            i = i + 1;
        }
        proof {
            assert(requests.take(i as int) =~= requests);
            if distinct(*accounts) {
                law_mints_match_supply(
                    old(ledger)@,
                    *accounts,
                    project_id,
                    project.status,
                    self.actions@,
                );
            }
        }
        outcomes
    }
}

impl BatchAction {
    /// The transfers that the batch stands for.
    fn moves(&self, accounts: &[Address; 5], project_id: BytesN<32>) -> (r: Vec<
        (Address, BytesN<32>, i128),
    >)
        ensures
            r@ == transfers(*accounts, project_id, self.transfers@),
    {
        let mut moves: Vec<(Address, BytesN<32>, i128)> = Vec::new();
        let mut i: usize = 0;
        while i < self.transfers.len()
            invariant
                i <= self.transfers@.len(),
                moves@ == transfers(*accounts, project_id, self.transfers@).take(i as int),
            decreases self.transfers@.len() - i,
        {
            let (index, amount) = self.transfers[i];
            moves.push((pick(accounts, index), project_id, amount));
            i = i + 1;
            assert(moves@ =~= transfers(*accounts, project_id, self.transfers@).take(i as int));
        }
        assert(moves@ =~= transfers(*accounts, project_id, self.transfers@));
        moves
    }
}

impl BatchInput {
    /// Carries the batches out on `ledger` in order and returns how each of them
    /// went.
    pub fn replay(
        &self,
        e: &Env,
        ledger: &mut CarbonCredit,
        accounts: &[Address; 5],
        project_id: BytesN<32>,
    ) -> (r: Vec<Result<(), CreditError>>)
        requires
            forall|i: int| 0 <= i < 5 ==> e.authorizes(#[trigger] accounts[i]),
        ensures
            ({
                let requests = batches(*accounts, project_id, self.actions@);
                &&& final(ledger)@ == credit::after_all(old(ledger)@, requests)
                &&& r@.len() == self.actions@.len()
                &&& forall|i: int|
                    0 <= i < r@.len() ==> match (
                        #[trigger] r@[i],
                        credit::after_all(old(ledger)@, requests.take(i)).batch(
                            picked(*accounts, self.actions@[i].from_idx),
                            transfers(*accounts, project_id, self.actions@[i].transfers@),
                        ),
                    ) {
                        (Ok(_), Ok(_)) => true,
                        (Err(error), Err(refusal)) => error == refusal,
                        _ => false,
                    }
            }),
            distinct(*accounts) ==> final(ledger)@.supply(project_id) == old(ledger)@.supply(
                project_id,
            ) && total(final(ledger)@, *accounts, project_id) == total(
                old(ledger)@,
                *accounts,
                project_id,
            ),
    {
        let mut outcomes: Vec<Result<(), CreditError>> = Vec::new();
        let ghost requests = batches(*accounts, project_id, self.actions@);
        let mut i: usize = 0;
        while i < self.actions.len()
            invariant
                forall|k: int| 0 <= k < 5 ==> e.authorizes(#[trigger] accounts[k]),
                i <= self.actions@.len(),
                outcomes@.len() == i,
                requests == batches(*accounts, project_id, self.actions@),
                ledger@ == credit::after_all(old(ledger)@, requests.take(i as int)),
                forall|k: int|
                    0 <= k < i ==> match (
                        #[trigger] outcomes@[k],
                        credit::after_all(old(ledger)@, requests.take(k)).batch(
                            picked(*accounts, self.actions@[k].from_idx),
                            transfers(*accounts, project_id, self.actions@[k].transfers@),
                        ),
                    ) {
                        (Ok(_), Ok(_)) => true,
                        (Err(error), Err(refusal)) => error == refusal,
                        _ => false,
                    },
            decreases self.actions@.len() - i,
        {
            let from = pick(accounts, self.actions[i].from_idx);
            let moves = self.actions[i].moves(accounts, project_id);
            proof {
                let longer = requests.take(i + 1);
                assert(longer.drop_last() =~= requests.take(i as int));
                assert(longer.last() == requests[i as int]);
            }
            outcomes.push(ledger.batch_transfer(e, from, &moves));
            i = i + 1;
        }
        proof {
            assert(requests.take(i as int) =~= requests);
            if distinct(*accounts) {
                law_batches_keep_supply(old(ledger)@, *accounts, project_id, self.actions@);
            }
        }
        outcomes
    }
}

} // verus!
