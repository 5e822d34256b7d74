//! Laws of the registry of projects.

use vstd::prelude::*;
use crate::carbon_registry::{
    CarbonProject, ProjectStatus, RegistryConfig, RegistryError, RegistryState,
};
use crate::crypto::{digests_collide, sha256_digest};
use crate::encoding::{address_xdr, padding, project_xdr, symbol_xdr, u32_xdr};
use crate::host::{Address, AddressKind, BytesN};
use crate::numeric::{
    be_bytes, byte_range, fits, lemma_be_bytes_injective, lemma_be_bytes_len, lemma_split,
};

verus! {

/// Every project has an allocation, and no more issued than allocated.
pub open spec fn within_allocation(state: RegistryState) -> bool {
    forall|id: BytesN<32>| #[trigger]
        state.projects.contains_key(id) ==> 0 <= state.projects[id].issued_credits
            <= state.projects[id].total_credits && state.projects[id].total_credits > 0
}

/// A request to the registry. A registration comes with the identifier that it
/// is given.
pub enum Request {
    Initialize { config: RegistryConfig },
    Register { id: BytesN<32>, project: CarbonProject },
    Verify { id: BytesN<32> },
    Suspend { id: BytesN<32> },
    Retire { id: BytesN<32> },
    Issue { id: BytesN<32>, amount: i128 },
}

/// The state after a request, which a refused request leaves as it was. A new
/// project is pending and has issued nothing.
pub open spec fn after(state: RegistryState, request: Request) -> RegistryState {
    match request {
        Request::Initialize { config } => if state.config is None {
            state.initialized(config)
        } else {
            state
        },
        Request::Register { id, project } => match state.register_refusal(project.total_credits) {
            None => state.registered(
                id,
                CarbonProject { issued_credits: 0, status: ProjectStatus::Pending, ..project },
            ),
            Some(_) => state,
        },
        Request::Verify { id } => match state.status_refusal(id) {
            None => state.with_status(id, ProjectStatus::Verified),
            Some(_) => state,
        },
        Request::Suspend { id } => match state.suspend_refusal(id) {
            None => state.with_status(id, ProjectStatus::Suspended),
            Some(_) => state,
        },
        Request::Retire { id } => match state.retire_refusal(id) {
            None => state.with_status(id, ProjectStatus::Retired),
            Some(_) => state,
        },
        Request::Issue { id, amount } => match state.issue_refusal(id, amount) {
            None => state.issued(id, amount),
            Some(_) => state,
        },
    }
}

/// The state after a list of requests.
pub open spec fn after_all(state: RegistryState, requests: Seq<Request>) -> RegistryState
    decreases requests.len(),
{
    if requests.len() == 0 {
        state
    } else {
        after(after_all(state, requests.drop_last()), requests.last())
    }
}

/// Whatever requests the registry has seen, no project has issued more credits
/// than it was allocated.
pub proof fn law_issued_never_exceeds_total(requests: Seq<Request>)
    ensures
        within_allocation(after_all(RegistryState::empty(), requests)),
    decreases requests.len(),
{
    if requests.len() > 0 {
        law_issued_never_exceeds_total(requests.drop_last());
        law_request_keeps_allocation(
            after_all(RegistryState::empty(), requests.drop_last()),
            requests.last(),
        );
    }
}

/// No request takes a project over its allocation.
pub proof fn law_request_keeps_allocation(state: RegistryState, request: Request)
    requires
        within_allocation(state),
    ensures
        within_allocation(after(state, request)),
{
    let done = after(state, request);
    assert forall|id: BytesN<32>| #[trigger] done.projects.contains_key(id) implies 0
        <= done.projects[id].issued_credits <= done.projects[id].total_credits
        && done.projects[id].total_credits > 0 by {
        match request {
            Request::Register { id: other, project } => {
                if id != other {
                    assert(state.projects.contains_key(id));
                }
            },
            _ => {
                assert(state.projects.contains_key(id));
            },
        }
    }
}

/// Credits are issued of verified projects only. A suspended project is refused
/// as suspended, a pending or retired one as not verified.
pub proof fn law_issue_needs_verified_project(state: RegistryState, id: BytesN<32>, amount: i128)
    requires
        state.config is Some,
        amount > 0,
        state.projects.contains_key(id),
        state.projects[id].status != ProjectStatus::Verified,
    ensures
        state.issue_refusal(id, amount) == Some(
            if state.projects[id].status == ProjectStatus::Suspended {
                RegistryError::ProjectSuspended
            } else {
                RegistryError::ProjectNotVerified
            },
        ),
{
}

/// Issues add up: issuing `a` and then `b` records the same as issuing `a + b`
/// at once, and is refused for want of credits just when that is.
pub proof fn law_issues_add_up(state: RegistryState, id: BytesN<32>, a: i128, b: i128)
    requires
        within_allocation(state),
        a > 0,
        b > 0,
        fits(a + b),
        state.issue_refusal(id, a) is None,
    ensures
        state.issued(id, a).issue_refusal(id, b) is None <==> state.issue_refusal(
            id,
            (a + b) as i128,
        ) is None,
        state.issued(id, a).issue_refusal(id, b) is None ==> state.issued(id, a).issued(id, b)
            == state.issued(id, (a + b) as i128),
{
    assert(state.projects.contains_key(id));
    let once = state.issued(id, (a + b) as i128);
    let twice = state.issued(id, a).issued(id, b);
    if state.issued(id, a).issue_refusal(id, b) is None {
        assert(twice.projects =~= once.projects);
    }
}

/// A change of status changes nothing but the status of that project.
pub proof fn law_status_change_is_local(
    state: RegistryState,
    id: BytesN<32>,
    status: ProjectStatus,
    other: BytesN<32>,
)
    requires
        state.projects.contains_key(id),
    ensures
        ({
            let done = state.with_status(id, status);
            &&& done.config == state.config
            &&& done.projects[id] == (CarbonProject { status, ..state.projects[id] })
            &&& other != id ==> done.projects.contains_key(other) == state.projects.contains_key(
                other,
            )
            &&& other != id && state.projects.contains_key(other) ==> done.projects[other]
                == state.projects[other]
        }),
{
}

proof fn lemma_symbol_split(
    a: Seq<u8>,
    rest_a: Seq<u8>,
    b: Seq<u8>,
    rest_b: Seq<u8>,
)
    requires
        a.len() <= 32,
        b.len() <= 32,
        symbol_xdr(a) + rest_a == symbol_xdr(b) + rest_b,
    ensures
        a == b,
        rest_a == rest_b,
{
    lemma_be_bytes_len(15, 4);
    lemma_be_bytes_len(a.len() as int, 4);
    lemma_be_bytes_len(b.len() as int, 4);
    let pad_a = Seq::new(padding(a.len()), |i: int| 0u8);
    let pad_b = Seq::new(padding(b.len()), |i: int| 0u8);
    let tail_a = be_bytes(a.len() as int, 4) + (a + (pad_a + rest_a));
    let tail_b = be_bytes(b.len() as int, 4) + (b + (pad_b + rest_b));
    assert(symbol_xdr(a) + rest_a =~= be_bytes(15, 4) + tail_a);
    assert(symbol_xdr(b) + rest_b =~= be_bytes(15, 4) + tail_b);
    lemma_split(be_bytes(15, 4), tail_a, be_bytes(15, 4), tail_b);
    lemma_split(
        be_bytes(a.len() as int, 4),
        a + (pad_a + rest_a),
        be_bytes(b.len() as int, 4),
        b + (pad_b + rest_b),
    );
    reveal_with_fuel(byte_range, 5);
    lemma_be_bytes_injective(a.len() as int, b.len() as int, 4);
    lemma_split(a, pad_a + rest_a, b, pad_b + rest_b);
    lemma_split(pad_a, rest_a, pad_b, rest_b);
}

pub(crate) proof fn lemma_address_split(
    a: Address,
    rest_a: Seq<u8>,
    b: Address,
    rest_b: Seq<u8>,
)
    requires
        address_xdr(a) + rest_a == address_xdr(b) + rest_b,
    ensures
        a == b,
        rest_a == rest_b,
{
    lemma_be_bytes_len(18, 4);
    lemma_be_bytes_len(0, 4);
    lemma_be_bytes_len(1, 4);
    let kind_a: int = if a.kind == AddressKind::Account { 0 } else { 1 };
    let kind_b: int = if b.kind == AddressKind::Account { 0 } else { 1 };
    let key_a = if a.kind == AddressKind::Account { be_bytes(0, 4) } else { Seq::empty() };
    let key_b = if b.kind == AddressKind::Account { be_bytes(0, 4) } else { Seq::empty() };
    let tail_a = key_a + (a.id@ + rest_a);
    let tail_b = key_b + (b.id@ + rest_b);
    assert(address_xdr(a) + rest_a =~= be_bytes(18, 4) + (be_bytes(kind_a, 4) + tail_a));
    assert(address_xdr(b) + rest_b =~= be_bytes(18, 4) + (be_bytes(kind_b, 4) + tail_b));
    lemma_split(
        be_bytes(18, 4),
        be_bytes(kind_a, 4) + tail_a,
        be_bytes(18, 4),
        be_bytes(kind_b, 4) + tail_b,
    );
    lemma_split(be_bytes(kind_a, 4), tail_a, be_bytes(kind_b, 4), tail_b);
    reveal_with_fuel(byte_range, 5);
    lemma_be_bytes_injective(kind_a, kind_b, 4);
    lemma_split(key_a, a.id@ + rest_a, key_b, b.id@ + rest_b);
    lemma_split(a.id@, rest_a, b.id@, rest_b);
    assert(a.id.bytes =~= b.id.bytes);
}

/// A project's identifier is the digest of bytes that tell its owner, name and
/// vintage apart from those of every other project.
pub proof fn law_project_bytes_are_distinct(
    owner: Address,
    name: Seq<u8>,
    vintage_year: u32,
    other_owner: Address,
    other_name: Seq<u8>,
    other_vintage_year: u32,
)
    requires
        name.len() <= 32,
        other_name.len() <= 32,
        project_xdr(owner, name, vintage_year) == project_xdr(
            other_owner,
            other_name,
            other_vintage_year,
        ),
    ensures
        owner == other_owner,
        name == other_name,
        vintage_year == other_vintage_year,
{
    let head = be_bytes(16, 4) + be_bytes(1, 4) + be_bytes(3, 4);
    let a = symbol_xdr(name) + u32_xdr(vintage_year);
    let b = symbol_xdr(other_name) + u32_xdr(other_vintage_year);
    assert(project_xdr(owner, name, vintage_year) =~= head + (address_xdr(owner) + a));
    assert(project_xdr(other_owner, other_name, other_vintage_year) =~= head + (address_xdr(
        other_owner,
    ) + b));
    lemma_split(head, address_xdr(owner) + a, head, address_xdr(other_owner) + b);
    lemma_address_split(owner, a, other_owner, b);
    lemma_symbol_split(name, u32_xdr(vintage_year), other_name, u32_xdr(other_vintage_year));
    lemma_split(
        be_bytes(3, 4),
        be_bytes(vintage_year as int, 4),
        be_bytes(3, 4),
        be_bytes(other_vintage_year as int, 4),
    );
    reveal_with_fuel(byte_range, 5);
    lemma_be_bytes_injective(vintage_year as int, other_vintage_year as int, 4);
}

/// Only a verified project can be suspended.
pub proof fn law_only_verified_projects_are_suspended(state: RegistryState, id: BytesN<32>)
    ensures
        state.suspend_refusal(id) is None <==> state.config is Some && state.projects.contains_key(
            id,
        ) && state.projects[id].status == ProjectStatus::Verified,
{
}

/// Retirement is permanent: whatever is asked of the registry, a retired project
/// stays as it is and issues nothing.
pub proof fn law_retired_project_stays_retired(
    state: RegistryState,
    requests: Seq<Request>,
    id: BytesN<32>,
    amount: i128,
)
    requires
        state.projects.contains_key(id),
        state.projects[id].status == ProjectStatus::Retired,
    ensures
        after_all(state, requests).projects.contains_key(id),
        after_all(state, requests).projects[id] == state.projects[id],
        after_all(state, requests).issue_refusal(id, amount) is Some,
    decreases requests.len(),
{
    if requests.len() > 0 {
        law_retired_project_stays_retired(state, requests.drop_last(), id, amount);
    }
}

/// What is on record of a project is lasting: whatever is asked of the registry,
/// its owner, name, allocation and vintage stay, and what it has issued never
/// goes down. So no more than the allocation is ever issued.
pub proof fn law_project_record_is_lasting(
    state: RegistryState,
    requests: Seq<Request>,
    id: BytesN<32>,
)
    requires
        within_allocation(state),
        state.projects.contains_key(id),
    ensures
        ({
            let done = after_all(state, requests);
            &&& within_allocation(done)
            &&& done.projects.contains_key(id)
            &&& done.projects[id].owner == state.projects[id].owner
            &&& done.projects[id].name == state.projects[id].name
            &&& done.projects[id].vintage_year == state.projects[id].vintage_year
            &&& done.projects[id].total_credits == state.projects[id].total_credits
            &&& state.projects[id].issued_credits <= done.projects[id].issued_credits
                <= state.projects[id].total_credits
        }),
    decreases requests.len(),
{
    if requests.len() > 0 {
        law_project_record_is_lasting(state, requests.drop_last(), id);
        law_request_keeps_allocation(after_all(state, requests.drop_last()), requests.last());
    }
}

/// A registration changes no project that is on record, under whatever
/// identifier.
pub proof fn law_registration_changes_no_record(
    state: RegistryState,
    id: BytesN<32>,
    project: CarbonProject,
    other: BytesN<32>,
)
    requires
        state.projects.contains_key(other),
    ensures
        state.registered(id, project).projects.contains_key(other),
        state.registered(id, project).projects[other] == state.projects[other],
{
}

/// Two projects have the same identifier only where owner, name and vintage are
/// the same, or where the bytes that tell them apart have the same digest.
pub proof fn law_project_ids_are_distinct(
    owner: Address,
    name: Seq<u8>,
    vintage_year: u32,
    other_owner: Address,
    other_name: Seq<u8>,
    other_vintage_year: u32,
)
    requires
        name.len() <= 32,
        other_name.len() <= 32,
    ensures
        ({
            let bytes = project_xdr(owner, name, vintage_year);
            let other_bytes = project_xdr(other_owner, other_name, other_vintage_year);
            sha256_digest(bytes) == sha256_digest(other_bytes) ==> digests_collide(
                bytes,
                other_bytes,
            ) || (owner == other_owner && name == other_name && vintage_year == other_vintage_year)
        }),
{
    if project_xdr(owner, name, vintage_year) == project_xdr(
        other_owner,
        other_name,
        other_vintage_year,
    ) {
        law_project_bytes_are_distinct(
            owner,
            name,
            vintage_year,
            other_owner,
            other_name,
            other_vintage_year,
        );
    }
}

/// Two new projects that differ in owner, name or vintage stand side by side,
/// unless the bytes under their identifiers have the same digest. The first one
/// stands in any case.
pub proof fn law_projects_stand_side_by_side(
    state: RegistryState,
    first: CarbonProject,
    second: CarbonProject,
    id: BytesN<32>,
    other_id: BytesN<32>,
)
    requires
        first.name@.len() <= 32,
        second.name@.len() <= 32,
        first.owner != second.owner || first.name@ != second.name@ || first.vintage_year
            != second.vintage_year,
        !state.projects.contains_key(id),
        !state.projects.contains_key(other_id),
    ensures
        ({
            let bytes = project_xdr(first.owner, first.name@, first.vintage_year);
            let other_bytes = project_xdr(second.owner, second.name@, second.vintage_year);
            let done = state.registered(id, first).registered(other_id, second);
            &&& done.projects[id] == first
            &&& id@ == sha256_digest(bytes) && other_id@ == sha256_digest(other_bytes)
                && !digests_collide(bytes, other_bytes) ==> id != other_id
                && done.projects[other_id] == second
        }),
{
    law_project_ids_are_distinct(
        first.owner,
        first.name@,
        first.vintage_year,
        second.owner,
        second.name@,
        second.vintage_year,
    );
}

/// Who runs the registry never changes once it is set.
pub proof fn law_config_is_fixed(state: RegistryState, request: Request)
    requires
        state.config is Some,
    ensures
        after(state, request).config == state.config,
{
}

} // verus!
