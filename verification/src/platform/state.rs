//! The state of the registry.
use vstd::prelude::*;

use crate::error::ContractError;
use crate::paging::{page_bounds, page_of};
use crate::platform::msg::ContractInfoView;
use crate::text::bytes_to_vec;

verus! {

/// The value of the flag while a campaign is being created.
pub const CREATING_PROJECT: bool = true;

/// The registry's settings. The owner's address is canonical.
#[derive(Debug)]
pub struct Config {
    pub owner: Vec<u8>,
    /// The template from which campaigns are created.
    pub project_contract_code_id: u64,
    pub project_contract_code_hash: String,
    /// The registry's own address, as the host prints it.
    pub contract_address: String,
    /// The payout window of the campaigns to come, in blocks.
    pub deadman: u64,
}

/// The mathematical content of a [`Config`].
pub ghost struct ConfigView {
    pub owner: Seq<u8>,
    pub project_contract_code_id: u64,
    pub project_contract_code_hash: Seq<char>,
    pub contract_address: Seq<char>,
    pub deadman: u64,
}

impl View for Config {
    type V = ConfigView;

    open spec fn view(&self) -> ConfigView {
        ConfigView {
            owner: self.owner@,
            project_contract_code_id: self.project_contract_code_id,
            project_contract_code_hash: self.project_contract_code_hash@,
            contract_address: self.contract_address@,
            deadman: self.deadman,
        }
    }
}

/// The code hash and the address of a registered campaign. The address is
/// canonical.
#[derive(Debug)]
pub struct StoredContractInfo {
    pub code_hash: String,
    pub address: Vec<u8>,
}

impl View for StoredContractInfo {
    type V = ContractInfoView;

    open spec fn view(&self) -> ContractInfoView {
        ContractInfoView { code_hash: self.code_hash@, address: self.address@ }
    }
}

/// The views of a list of registered campaigns.
pub open spec fn stored_info_views(list: Seq<StoredContractInfo>) -> Seq<ContractInfoView> {
    list.map_values(|c: StoredContractInfo| c@)
}

/// The state of the registry.
#[derive(Debug)]
pub struct Registry {
    pub config: Config,
    /// Whether a campaign has been created that has not registered yet.
    pub creating_project: bool,
    /// The registered campaigns, in the order in which they registered.
    pub projects: Vec<StoredContractInfo>,
}

/// The mathematical model of the registry.
pub ghost struct RegistryView {
    pub config: ConfigView,
    pub creating_project: bool,
    pub projects: Seq<ContractInfoView>,
}

impl View for Registry {
    type V = RegistryView;

    open spec fn view(&self) -> RegistryView {
        RegistryView {
            config: self.config@,
            creating_project: self.creating_project,
            projects: stored_info_views(self.projects@),
        }
    }
}

impl RegistryView {
    /// The campaigns can be numbered with 32 bits.
    pub open spec fn wf(self) -> bool {
        self.projects.len() <= u32::MAX
    }
}

/// Sets the registry's settings.
pub fn set_config(
    storage: &mut Registry,
    owner: Vec<u8>,
    project_contract_code_id: u64,
    project_contract_code_hash: String,
    contract_address: String,
    deadman: u64,
)
    ensures
        final(storage)@ == (RegistryView {
            config: ConfigView {
                owner: owner@,
                project_contract_code_id,
                project_contract_code_hash: project_contract_code_hash@,
                contract_address: contract_address@,
                deadman,
            },
            ..old(storage)@
        }),
{
    storage.config = Config {
        owner,
        project_contract_code_id,
        project_contract_code_hash,
        contract_address,
        deadman,
    };
}

/// The registry's settings.
pub fn get_config(storage: &Registry) -> (r: &Config)
    ensures
        r@ == storage@.config,
{
    &storage.config
}

/// Sets the flag that says whether a campaign is being created.
pub fn set_creating_project(storage: &mut Registry, creating_project: bool)
    ensures
        final(storage)@ == (RegistryView { creating_project, ..old(storage)@ }),
{
    storage.creating_project = creating_project;
}

/// Whether a campaign is being created.
pub fn is_creating_project(storage: &Registry) -> (r: bool)
    ensures
        r == storage@.creating_project,
{
    storage.creating_project
}

/// The number of registered campaigns.
pub fn project_count(storage: &Registry) -> (r: u32)
    requires
        storage@.wf(),
    ensures
        r == storage@.projects.len(),
{
    storage.projects.len() as u32
}

/// Appends a campaign to the registered ones and returns its number. Fails
/// with `Overflow`, and changes nothing, exactly when the numbers have run
/// out.
pub fn add_project(storage: &mut Registry, project: StoredContractInfo) -> (r: Result<
    u32,
    ContractError,
>)
    requires
        old(storage)@.wf(),
    ensures
        final(storage)@.wf(),
        match r {
            Ok(id) => id == old(storage)@.projects.len() && id < u32::MAX && final(storage)@
                == (RegistryView {
                projects: old(storage)@.projects.push(project@),
                ..old(storage)@
            }),
            Err(e) => e == ContractError::Overflow && old(storage)@.projects.len() >= u32::MAX
                && final(storage)@ == old(storage)@,
        },
{
    let len = storage.projects.len();
    if len >= u32::MAX as usize {
        return Err(ContractError::Overflow);
    }
    storage.projects.push(project);
    assert(storage@.projects =~= old(storage)@.projects.push(project@));
    Ok(len as u32)
}

/// A page of the registered campaigns, the latest first.
pub fn get_projects(storage: &Registry, page: u32, page_size: u32) -> (r: Vec<StoredContractInfo>)
    ensures
        stored_info_views(r@) == page_of(
            storage@.projects.reverse(),
            page as nat,
            page_size as nat,
        ),
{
    let len = storage.projects.len();
    let (start, end) = page_bounds(len, page, page_size);
    let ghost latest_first = storage@.projects.reverse();
    let mut projects: Vec<StoredContractInfo> = Vec::new();
    let mut i: usize = start;
    while i < end
        invariant
            start <= i <= end <= len,
            len == storage.projects@.len(),
            latest_first == storage@.projects.reverse(),
            projects@.len() == i - start,
            forall|k: int| 0 <= k < projects@.len() ==> (#[trigger] projects@[k])@
                == latest_first[start + k],
        decreases end - i,
    {
        let stored = &storage.projects[len - 1 - i];
        projects.push(
            StoredContractInfo {
                code_hash: stored.code_hash.clone(),
                address: bytes_to_vec(stored.address.as_slice()),
            },
        );
        i += 1;
    }
    assert(stored_info_views(projects@) =~= latest_first.subrange(start as int, end as int));
    projects
}


/// Whether the registry is in order, see [`RegistryView::wf`]. State that was
/// not made by the functions of this crate is to be checked before it is
/// handed to them.
pub fn check_wf(storage: &Registry) -> (r: bool)
    ensures
        r == storage@.wf(),
{
    storage.projects.len() <= u32::MAX as usize
}

} // verus!
