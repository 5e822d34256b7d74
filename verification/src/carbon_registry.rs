//! The registry of carbon projects: who owns each, how many credits it may
//! issue, how many it has issued, and whether it stands verified.

use vstd::prelude::*;
use crate::crypto::sha256;
use crate::crypto::sha256_digest;
use crate::encoding::encode_project;
use crate::encoding::{padding, project_xdr};
use crate::host::{Address, BytesN, Env, Symbol};
use crate::numeric::{fits, lemma_be_bytes_len};
use crate::table::Table;

verus! {

/// Who runs the registry. Stored once, when it is set up.
#[derive(Clone, Copy, Debug)]
pub struct RegistryConfig {
    /// Verifies, suspends and retires projects.
    pub admin: Address,
    /// The marketplace that records the issue of credits.
    pub marketplace: Address,
}

/// Where a project stands.
#[derive(Clone, Copy, Debug, PartialEq, Eq, Structural)]
pub enum ProjectStatus {
    Pending,
    Verified,
    Suspended,
    Retired,
}

/// A carbon project.
#[derive(Clone, Copy, Debug)]
pub struct CarbonProject {
    /// Receives the credits that are minted.
    pub owner: Address,
    pub name: Symbol,
    /// The most credits that can be issued.
    pub total_credits: i128,
    /// The credits issued so far.
    pub issued_credits: i128,
    pub status: ProjectStatus,
    /// The year the credits apply to.
    pub vintage_year: u32,
}

/// The reasons for which the registry refuses a request.
#[derive(Clone, Copy, Debug, PartialEq, Eq, Structural)]
pub enum RegistryError {
    AlreadyInitialized,
    NotInitialized,
    Unauthorized,
    ProjectNotFound,
    ProjectNotVerified,
    InsufficientCredits,
    InvalidAmount,
    ProjectSuspended,
}

/// Everything the registry remembers.
#[verifier::ext_equal]
pub struct RegistryState {
    pub config: Option<RegistryConfig>,
    pub projects: Map<BytesN<32>, CarbonProject>,
}

/// The registry.
pub struct CarbonRegistry {
    pub config: Option<RegistryConfig>,
    pub projects: Table<BytesN<32>, CarbonProject>,
}

impl View for CarbonRegistry {
    type V = RegistryState;

    open spec fn view(&self) -> RegistryState {
        RegistryState { config: self.config, projects: self.projects@ }
    }
}

impl RegistryState {
    /// The state before the registry is set up.
    pub open spec fn empty() -> RegistryState {
        RegistryState { config: None, projects: Map::empty() }
    }

    /// The state with the registry set up.
    pub open spec fn initialized(self, config: RegistryConfig) -> RegistryState {
        RegistryState { config: Some(config), ..self }
    }

    /// The state with `project` recorded under `id`.
    pub open spec fn with_project(self, id: BytesN<32>, project: CarbonProject) -> RegistryState {
        RegistryState { projects: self.projects.insert(id, project), ..self }
    }

    /// Why the registration of a project is refused.
    pub open spec fn register_refusal(self, total_credits: i128) -> Option<RegistryError> {
        if self.config is None {
            Some(RegistryError::NotInitialized)
        } else if total_credits <= 0 {
            Some(RegistryError::InvalidAmount)
        } else {
            None
        }
    }

    /// The state with `project` recorded under `id`, where nothing stood before.
    /// What is on record stays.
    pub open spec fn registered(self, id: BytesN<32>, project: CarbonProject) -> RegistryState {
        if self.projects.contains_key(id) {
            self
        } else {
            self.with_project(id, project)
        }
    }

    /// Why the retirement of a project is refused.
    pub open spec fn retire_refusal(self, id: BytesN<32>) -> Option<RegistryError> {
        if self.config is None {
            Some(RegistryError::NotInitialized)
        } else if !self.projects.contains_key(id) {
            Some(RegistryError::ProjectNotFound)
        } else {
            None
        }
    }

    /// Why a change of a project's status is refused: it is unknown, or it is
    /// retired, which is for good.
    pub open spec fn status_refusal(self, id: BytesN<32>) -> Option<RegistryError> {
        match self.retire_refusal(id) {
            Some(error) => Some(error),
            None => if self.projects[id].status == ProjectStatus::Retired {
                Some(RegistryError::ProjectNotVerified)
            } else {
                None
            },
        }
    }

    /// Why the suspension of a project is refused. Only a verified project can
    /// be suspended.
    pub open spec fn suspend_refusal(self, id: BytesN<32>) -> Option<RegistryError> {
        match self.status_refusal(id) {
            Some(error) => Some(error),
            None => match self.projects[id].status {
                ProjectStatus::Verified => None,
                ProjectStatus::Suspended => Some(RegistryError::ProjectSuspended),
                _ => Some(RegistryError::ProjectNotVerified),
            },
        }
    }

    /// The state with a project's status changed.
    pub open spec fn with_status(self, id: BytesN<32>, status: ProjectStatus) -> RegistryState {
        self.with_project(id, CarbonProject { status, ..self.projects[id] })
    }

    /// Why the issue of credits is refused.
    pub open spec fn issue_refusal(self, id: BytesN<32>, amount: i128) -> Option<RegistryError> {
        if self.config is None {
            Some(RegistryError::NotInitialized)
        } else if amount <= 0 {
            Some(RegistryError::InvalidAmount)
        } else if !self.projects.contains_key(id) {
            Some(RegistryError::ProjectNotFound)
        } else {
            let project = self.projects[id];
            if project.status == ProjectStatus::Suspended {
                Some(RegistryError::ProjectSuspended)
            } else if project.status != ProjectStatus::Verified {
                Some(RegistryError::ProjectNotVerified)
            } else if !fits(project.issued_credits + amount) {
                Some(RegistryError::InvalidAmount)
            } else if project.issued_credits + amount > project.total_credits {
                Some(RegistryError::InsufficientCredits)
            } else {
                None
            }
        }
    }

    /// The state once `amount` credits have been issued.
    pub open spec fn issued(self, id: BytesN<32>, amount: i128) -> RegistryState {
        let project = self.projects[id];
        self.with_project(
            id,
            CarbonProject {
                issued_credits: (project.issued_credits + amount) as i128,
                ..project
            },
        )
    }
}

proof fn lemma_project_xdr_len(owner: Address, name: Seq<u8>, vintage_year: u32)
    requires
        name.len() <= 32,
    ensures
        project_xdr(owner, name, vintage_year).len() <= 104,
{
    lemma_be_bytes_len(0, 4);
    lemma_be_bytes_len(1, 4);
    lemma_be_bytes_len(3, 4);
    lemma_be_bytes_len(15, 4);
    lemma_be_bytes_len(16, 4);
    lemma_be_bytes_len(18, 4);
    lemma_be_bytes_len(name.len() as int, 4);
    lemma_be_bytes_len(vintage_year as int, 4);
    assert(name.len() + padding(name.len()) <= 32);
}

impl CarbonRegistry {
    /// A registry that has not been set up.
    pub fn new() -> (r: Self)
        ensures
            r@ == RegistryState::empty(),
    {
        CarbonRegistry { config: None, projects: Table::new() }
    }

    /// Sets the registry up. This can be done once.
    pub fn initialize(&mut self, admin: Address, marketplace: Address) -> (r: Result<
        (),
        RegistryError,
    >)
        ensures
            match (r, old(self)@.config) {
                (Ok(_), None) => final(self)@ == old(self)@.initialized(
                    (RegistryConfig { admin, marketplace }),
                ),
                (Err(error), Some(_)) => error == RegistryError::AlreadyInitialized && final(self)@
                    == old(self)@,
                _ => false,
            },
    {
        if self.config.is_some() {
            return Err(RegistryError::AlreadyInitialized);
        }
        self.config = Some(RegistryConfig { admin, marketplace });
        Ok(())
    }

    /// Records a new project, pending verification. Its identifier is derived
    /// from its owner, name and vintage. A project that is on record stays as it
    /// is: what it has issued counts for good.
    pub fn register_project(
        &mut self,
        e: &Env,
        owner: Address,
        name: Symbol,
        total_credits: i128,
        vintage_year: u32,
    ) -> (r: Result<BytesN<32>, RegistryError>)
        requires
            e.authorizes(owner),
        ensures
            match (r, old(self)@.register_refusal(total_credits)) {
                (Ok(id), None) => {
                    &&& id@ == sha256_digest(project_xdr(owner, name@, vintage_year))
                    &&& final(self)@ == old(self)@.registered(
                        id,
                        (CarbonProject {
                            owner,
                            name,
                            total_credits,
                            issued_credits: 0,
                            status: ProjectStatus::Pending,
                            vintage_year,
                        }),
                    )
                },
                (Err(error), Some(refusal)) => error == refusal && final(self)@ == old(self)@,
                _ => false,
            },
    {
        if self.config.is_none() {
            return Err(RegistryError::NotInitialized);
        }
        if total_credits <= 0 {
            return Err(RegistryError::InvalidAmount);
        }
        let name_bytes = name.to_bytes();
        let id_bytes = encode_project(&owner, name_bytes.as_slice(), vintage_year);
        proof {
            lemma_project_xdr_len(owner, name@, vintage_year);
        }
        let id = sha256(id_bytes.as_slice());
        if self.projects.read(&id).is_none() {
            self.projects.set(
                id,
                CarbonProject {
                    owner,
                    name,
                    total_credits,
                    issued_credits: 0,
                    status: ProjectStatus::Pending,
                    vintage_year,
                },
            );
        }
        Ok(id)
    }

    /// The project recorded under `id`, to change its status.
    fn find(&self, id: BytesN<32>) -> (r: Result<CarbonProject, RegistryError>)
        ensures
            match (r, self@.retire_refusal(id)) {
                (Ok(project), None) => project == self@.projects[id],
                (Err(error), Some(refusal)) => error == refusal,
                _ => false,
            },
    {
        if self.config.is_none() {
            return Err(RegistryError::NotInitialized);
        }
        self.get_project(id)
    }

    /// Marks a project as verified, unless it is retired. Only the administrator
    /// may do so.
    pub fn verify_project(&mut self, e: &Env, id: BytesN<32>) -> (r: Result<(), RegistryError>)
        requires
            old(self)@.config matches Some(config) ==> e.authorizes(config.admin),
        ensures
            match (r, old(self)@.status_refusal(id)) {
                (Ok(_), None) => final(self)@ == old(self)@.with_status(
                    id,
                    ProjectStatus::Verified,
                ),
                (Err(error), Some(refusal)) => error == refusal && final(self)@ == old(self)@,
                _ => false,
            },
    {
        let project = match self.find(id) {
            Ok(project) => project,
            Err(error) => return Err(error),
        };
        if project.status == ProjectStatus::Retired {
            return Err(RegistryError::ProjectNotVerified);
        }
        self.projects.set(id, CarbonProject { status: ProjectStatus::Verified, ..project });
        Ok(())
    }

    /// Suspends a verified project. Only the administrator may do so.
    pub fn suspend_project(&mut self, e: &Env, id: BytesN<32>) -> (r: Result<(), RegistryError>)
        requires
            old(self)@.config matches Some(config) ==> e.authorizes(config.admin),
        ensures
            match (r, old(self)@.suspend_refusal(id)) {
                (Ok(_), None) => final(self)@ == old(self)@.with_status(
                    id,
                    ProjectStatus::Suspended,
                ),
                (Err(error), Some(refusal)) => error == refusal && final(self)@ == old(self)@,
                _ => false,
            },
    {
        let project = match self.find(id) {
            Ok(project) => project,
            Err(error) => return Err(error),
        };
        if project.status == ProjectStatus::Suspended {
            return Err(RegistryError::ProjectSuspended);
        }
        if project.status != ProjectStatus::Verified {
            return Err(RegistryError::ProjectNotVerified);
        }
        self.projects.set(id, CarbonProject { status: ProjectStatus::Suspended, ..project });
        Ok(())
    }

    /// Retires a project permanently. Only the administrator may do so.
    pub fn retire_project(&mut self, e: &Env, id: BytesN<32>) -> (r: Result<(), RegistryError>)
        requires
            old(self)@.config matches Some(config) ==> e.authorizes(config.admin),
        ensures
            match (r, old(self)@.retire_refusal(id)) {
                (Ok(_), None) => final(self)@ == old(self)@.with_status(id, ProjectStatus::Retired),
                (Err(error), Some(refusal)) => error == refusal && final(self)@ == old(self)@,
                _ => false,
            },
    {
        let project = match self.find(id) {
            Ok(project) => project,
            Err(error) => return Err(error),
        };
        self.projects.set(id, CarbonProject { status: ProjectStatus::Retired, ..project });
        Ok(())
    }

    /// Records the issue of `amount` credits against a project's allocation. The
    /// marketplace or the administrator may do so.
    pub fn issue_credits(&mut self, e: &Env, id: BytesN<32>, amount: i128) -> (r: Result<
        (),
        RegistryError,
    >)
        requires
            old(self)@.config matches Some(config) ==> e.authorizes(config.marketplace)
                || e.authorizes(config.admin),
        ensures
            match (r, old(self)@.issue_refusal(id, amount)) {
                (Ok(_), None) => final(self)@ == old(self)@.issued(id, amount),
                (Err(error), Some(refusal)) => error == refusal && final(self)@ == old(self)@,
                _ => false,
            },
    {
        if self.config.is_none() {
            return Err(RegistryError::NotInitialized);
        }
        if amount <= 0 {
            return Err(RegistryError::InvalidAmount);
        }
        let project = match self.projects.read(&id) {
            Some(project) => project,
            None => return Err(RegistryError::ProjectNotFound),
        };
        if project.status == ProjectStatus::Suspended {
            return Err(RegistryError::ProjectSuspended);
        }
        if project.status != ProjectStatus::Verified {
            return Err(RegistryError::ProjectNotVerified);
        }
        let new_issued: i128 = match project.issued_credits.checked_add(amount) {
            Some(v) => v,
            None => return Err(RegistryError::InvalidAmount),
        };
        if new_issued > project.total_credits {
            return Err(RegistryError::InsufficientCredits);
        }
        self.projects.set(id, CarbonProject { issued_credits: new_issued, ..project });
        Ok(())
    }

    /// The project recorded under `id`.
    pub fn get_project(&self, id: BytesN<32>) -> (r: Result<CarbonProject, RegistryError>)
        ensures
            r == (if self@.projects.contains_key(id) {
                Ok(self@.projects[id])
            } else {
                Err(RegistryError::ProjectNotFound)
            }),
    {
        match self.projects.read(&id) {
            Some(project) => Ok(project),
            None => Err(RegistryError::ProjectNotFound),
        }
    }

    /// Who runs the registry.
    pub fn get_config(&self) -> (r: Result<RegistryConfig, RegistryError>)
        ensures
            r == (match self@.config {
                Some(config) => Ok(config),
                None => Err(RegistryError::NotInitialized),
            }),
    {
        match self.config {
            Some(config) => Ok(config),
            None => Err(RegistryError::NotInitialized),
        }
    }
}

} // verus!
