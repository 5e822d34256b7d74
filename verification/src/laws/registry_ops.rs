//! What each operation of the registry decides and changes, in terms of what is on
//! record and what is asked.

use vstd::prelude::*;
use crate::carbon_registry::{
    CarbonProject, CarbonRegistry, ProjectStatus, RegistryConfig, RegistryError, RegistryState,
};
use crate::host::BytesN;

verus! {

/// What is on record is what the registry's table holds.
pub proof fn law_registry_is_what_its_table_holds(registry: CarbonRegistry)
    ensures
        registry@.config == registry.config,
        registry@.projects == registry.projects@,
{
}

/// A registry starts with nothing on record, and the setup records who runs it as
/// they are given, and nothing else.
pub proof fn law_setup_records_the_parties(
    state: RegistryState,
    config: RegistryConfig,
    id: BytesN<32>,
)
    ensures
        RegistryState::empty().config is None,
        !RegistryState::empty().projects.contains_key(id),
        state.initialized(config).config == Some(config),
        state.initialized(config).projects == state.projects,
{
}

/// When a project is registered: the registry is set up and the project has an
/// allocation.
pub proof fn law_when_a_project_is_registered(state: RegistryState, total_credits: i128)
    ensures
        ({
            let refusal = state.register_refusal(total_credits);
            &&& refusal == Some(RegistryError::NotInitialized) <==> state.config is None
            &&& refusal == Some(RegistryError::InvalidAmount) <==> state.config is Some
                && total_credits <= 0
            &&& refusal is None <==> state.config is Some && total_credits > 0
        }),
{
}

/// A registration puts a project on record under an identifier that is free, as
/// it is given, and changes nothing where the identifier is taken. Nothing else
/// changes.
pub proof fn law_registration_puts_a_project_on_record(
    state: RegistryState,
    id: BytesN<32>,
    project: CarbonProject,
)
    ensures
        ({
            let done = state.registered(id, project);
            &&& state.projects.contains_key(id) ==> done == state
            &&& !state.projects.contains_key(id) ==> done.projects[id] == project
            &&& done.projects.dom() =~= state.projects.dom().insert(id)
            &&& forall|other: BytesN<32>|
                other != id ==> #[trigger] done.projects[other] == state.projects[other]
            &&& done.config == state.config
        }),
{
}

/// When a project is verified, suspended and retired: a project on record can be
/// retired; unless it is retired it can be verified; where it is verified it can
/// be suspended. Each refusal comes where one of these fails, and nowhere else.
pub proof fn law_when_a_status_changes(state: RegistryState, id: BytesN<32>)
    ensures
        ({
            let verify = state.status_refusal(id);
            let suspend = state.suspend_refusal(id);
            let retire = state.retire_refusal(id);
            let known = state.config is Some && state.projects.contains_key(id);
            let unknown = state.config is Some && !state.projects.contains_key(id);
            let status = state.projects[id].status;
            &&& verify == Some(RegistryError::NotInitialized) <==> state.config is None
            &&& verify == Some(RegistryError::ProjectNotFound) <==> unknown
            &&& verify == Some(RegistryError::ProjectNotVerified) <==> known && status
                == ProjectStatus::Retired
            &&& verify is None <==> known && status != ProjectStatus::Retired
            &&& suspend == Some(RegistryError::NotInitialized) <==> state.config is None
            &&& suspend == Some(RegistryError::ProjectNotFound) <==> unknown
            &&& suspend == Some(RegistryError::ProjectSuspended) <==> known && status
                == ProjectStatus::Suspended
            &&& suspend == Some(RegistryError::ProjectNotVerified) <==> known && (status
                == ProjectStatus::Pending || status == ProjectStatus::Retired)
            &&& suspend is None <==> known && status == ProjectStatus::Verified
            &&& retire == Some(RegistryError::NotInitialized) <==> state.config is None
            &&& retire == Some(RegistryError::ProjectNotFound) <==> unknown
            &&& retire is None <==> known
        }),
{
}

/// A change of status gives a project on record the new status. Nothing else of
/// it changes, and nothing else in the registry.
pub proof fn law_what_a_status_change_changes(
    state: RegistryState,
    id: BytesN<32>,
    status: ProjectStatus,
)
    requires
        state.projects.contains_key(id),
    ensures
        ({
            let done = state.with_status(id, status);
            &&& done.projects[id].status == status
            &&& done.projects[id].owner == state.projects[id].owner
            &&& done.projects[id].name == state.projects[id].name
            &&& done.projects[id].total_credits == state.projects[id].total_credits
            &&& done.projects[id].issued_credits == state.projects[id].issued_credits
            &&& done.projects[id].vintage_year == state.projects[id].vintage_year
            &&& done.projects.dom() =~= state.projects.dom()
            &&& forall|other: BytesN<32>|
                other != id ==> #[trigger] done.projects[other] == state.projects[other]
            &&& done.config == state.config
        }),
{
}

/// When credits are issued: the registry is set up, the amount is positive, the
/// project is on record and verified, and its issued credits with the amount
/// stay within its allocation.
pub proof fn law_when_credits_are_issued(state: RegistryState, id: BytesN<32>, amount: i128)
    ensures
        ({
            let refusal = state.issue_refusal(id, amount);
            let asked = state.config is Some && amount > 0;
            let project = state.projects[id];
            let known = asked && state.projects.contains_key(id);
            let verified = known && project.status == ProjectStatus::Verified;
            let issued = project.issued_credits + amount;
            &&& refusal == Some(RegistryError::NotInitialized) <==> state.config is None
            &&& refusal == Some(RegistryError::ProjectNotFound) <==> asked
                && !state.projects.contains_key(id)
            &&& refusal == Some(RegistryError::ProjectSuspended) <==> known && project.status
                == ProjectStatus::Suspended
            &&& refusal == Some(RegistryError::ProjectNotVerified) <==> known && (project.status
                == ProjectStatus::Pending || project.status == ProjectStatus::Retired)
            &&& refusal == Some(RegistryError::InvalidAmount) <==> state.config is Some && (amount
                <= 0 || (verified && issued > i128::MAX))
            &&& refusal == Some(RegistryError::InsufficientCredits) <==> verified && issued
                <= i128::MAX && issued > project.total_credits
            &&& refusal is None <==> verified && issued <= project.total_credits
        }),
{
}

/// An issue adds the amount to what the project has issued. Nothing else of it
/// changes, and nothing else in the registry.
pub proof fn law_what_an_issue_changes(state: RegistryState, id: BytesN<32>, amount: i128)
    requires
        state.issue_refusal(id, amount) is None,
    ensures
        ({
            let done = state.issued(id, amount);
            &&& done.projects[id].issued_credits == state.projects[id].issued_credits + amount
            &&& done.projects[id].owner == state.projects[id].owner
            &&& done.projects[id].name == state.projects[id].name
            &&& done.projects[id].total_credits == state.projects[id].total_credits
            &&& done.projects[id].status == state.projects[id].status
            &&& done.projects[id].vintage_year == state.projects[id].vintage_year
            &&& done.projects.dom() =~= state.projects.dom()
            &&& forall|other: BytesN<32>|
                other != id ==> #[trigger] done.projects[other] == state.projects[other]
            &&& done.config == state.config
        }),
{
}

} // verus!
