//! What the orchestration needs from the host, Hyper-V, the guest and
//! Kubernetes, and the records those providers return.
use vstd::prelude::*;
use crate::command::{unknown_relation, CommandResult};
use crate::sort::{lemma_lex_total, lemma_lex_transitive, lex_le, lex_le_exec, sort_by_key, sort_stable, view_seq, SortKey};
use crate::text::{chars_eq, chars_of};

verus! {

/// The power state of a Hyper-V VM.
#[derive(Clone, Copy, Debug, PartialEq, Eq, Structural)]
pub enum VmPowerState {
    Missing,
    Off,
    Starting,
    Running,
    Stopping,
    Saved,
    Paused,
    Other,
}

/// `s` with ASCII uppercase letters made lowercase (`str::to_ascii_lowercase`).
pub open spec fn ascii_lower(s: Seq<char>) -> Seq<char> {
    s.map_values(|c: char| if 'A' <= c && c <= 'Z' { ((c as int) + 32) as char } else { c })
}

/// The power state that Hyper-V's state text names, ignoring ASCII case.
pub open spec fn power_state_of(s: Seq<char>) -> VmPowerState {
    let l = ascii_lower(s);
    if l.len() == 0 {
        VmPowerState::Missing
    } else if l == "off"@ {
        VmPowerState::Off
    } else if l == "starting"@ {
        VmPowerState::Starting
    } else if l == "running"@ {
        VmPowerState::Running
    } else if l == "stopping"@ {
        VmPowerState::Stopping
    } else if l == "saved"@ {
        VmPowerState::Saved
    } else if l == "paused"@ {
        VmPowerState::Paused
    } else {
        VmPowerState::Other
    }
}

fn ascii_lowercase(s: &[char]) -> (r: Vec<char>)
    ensures
        r@ == ascii_lower(s@),
{
    let mut out: Vec<char> = Vec::new();
    let mut i: usize = 0;
    while i < s.len()
        invariant
            i <= s@.len(),
            out@ == ascii_lower(s@.take(i as int)),
        decreases s@.len() - i,
    {
        let c = s[i];
        let l = if 'A' <= c && c <= 'Z' {
            let code = (c as u32) + 32;
            assert(code < 128);
            let b: u8 = code as u8;
            b as char
        } else {
            c
        };
        out.push(l);
        assert(out@ =~= ascii_lower(s@.take(i + 1)));
        i = i + 1;
    }
    assert(s@.take(s@.len() as int) =~= s@);
    out
}

impl VmPowerState {
    /// Reads Hyper-V's state text, ignoring ASCII case; unknown text is `Other`.
    pub fn from_hyperv_state(value: &str) -> (r: Self)
        ensures
            r == power_state_of(value@),
    {
        let v = chars_of(value);
        let l = ascii_lowercase(v.as_slice());
        if l.len() == 0 {
            Self::Missing
        } else if chars_eq(l.as_slice(), chars_of("off").as_slice()) {
            Self::Off
        } else if chars_eq(l.as_slice(), chars_of("starting").as_slice()) {
            Self::Starting
        } else if chars_eq(l.as_slice(), chars_of("running").as_slice()) {
            Self::Running
        } else if chars_eq(l.as_slice(), chars_of("stopping").as_slice()) {
            Self::Stopping
        } else if chars_eq(l.as_slice(), chars_of("saved").as_slice()) {
            Self::Saved
        } else if chars_eq(l.as_slice(), chars_of("paused").as_slice()) {
            Self::Paused
        } else {
            Self::Other
        }
    }
}

#[derive(Clone, Debug, PartialEq, Eq)]
pub struct HostReadiness {
    pub elevated: bool,
    pub hyperv_available: bool,
    pub vmms_running: bool,
    pub virtualization_firmware_enabled: Option<bool>,
}

#[derive(Clone, Debug, PartialEq, Eq)]
pub struct DriveCandidate {
    pub name: String,
    pub root: String,
    pub free_bytes: u64,
}

#[derive(Clone, Debug, PartialEq, Eq)]
pub struct NetworkAdapterCandidate {
    pub name: String,
    pub interface_description: String,
    pub ipv4_address: String,
    pub prefix_length: u8,
    pub gateway: String,
    pub existing_external_switch: String,
}

#[derive(Clone, Debug, PartialEq, Eq)]
pub struct ExternalSwitch {
    pub name: String,
    pub net_adapter_interface_description: String,
}

#[derive(Clone, Debug, PartialEq, Eq)]
pub struct VmInventoryRecord {
    pub name: String,
    pub state: VmPowerState,
    pub raw_state: String,
    pub configuration_location: String,
    pub path: String,
    pub memory_assigned_bytes: u64,
    pub uptime_seconds: u64,
    pub ipv4_addresses: Vec<String>,
}

#[derive(Clone, Debug, PartialEq, Eq)]
pub struct VmCompatibilityReport {
    pub compatible: bool,
    pub incompatibilities: Vec<String>,
}

#[derive(Clone, Debug, PartialEq, Eq)]
pub struct ImportedVm {
    pub name: String,
    pub configuration_location: String,
}

#[derive(Clone, Debug, PartialEq, Eq)]
pub struct VmImportRequest {
    pub vmcx_path: String,
    pub destination_path: String,
}

#[derive(Clone, Debug, PartialEq, Eq)]
pub struct EnsureSwitchRequest {
    pub switch_name: String,
    pub adapter_name: String,
}

#[derive(Clone, Debug, PartialEq, Eq)]
pub struct GuestNetworkConfig {
    pub interface: String,
    pub address_cidr: String,
    pub gateway: String,
    pub dns: String,
}

#[derive(Clone, Debug, PartialEq, Eq)]
pub struct WorldManifestRequest {
    pub world_name: String,
    pub world_region: String,
    pub world_unique_name: String,
    pub self_host_token: String,
}

#[derive(Clone, Debug, PartialEq, Eq)]
pub struct CreatedWorld {
    pub namespace: String,
    pub battlegroup_name: String,
}

/// Host checks that Hyper-V setup needs.
pub trait HostProvider {
    /// `r` is a readiness report this host gives.
    /// An implementation that names none is given an unknown relation.
    open spec fn readiness_answer(&self, r: CommandResult<HostReadiness>) -> bool {
        unknown_relation((11int, r))
    }

    fn readiness(&self) -> (r: CommandResult<HostReadiness>)
        ensures
            self.readiness_answer(r),
    ;

    fn drives_with_minimum_free_space(&self, minimum_free_bytes: u64) -> CommandResult<Vec<DriveCandidate>>;

    fn active_physical_adapters(&self) -> CommandResult<Vec<NetworkAdapterCandidate>>;
}

/// Hyper-V VM management.
pub trait VmProvider {
    /// `r` is an answer this provider gives to a lookup of the VM `name`.
    /// An implementation that names none is given an unknown relation.
    open spec fn vm_lookup(&self, name: Seq<char>, r: CommandResult<Option<VmInventoryRecord>>) -> bool {
        unknown_relation((12int, name, r))
    }

    /// `r` is a compatibility report this provider gives for importing `vmcx_path` into `destination_path`.
    /// An implementation that names none is given an unknown relation.
    open spec fn comparison_answer(&self, vmcx_path: Seq<char>, destination_path: Seq<char>, r: CommandResult<VmCompatibilityReport>) -> bool {
        unknown_relation((13int, vmcx_path, destination_path, r))
    }

    /// `r` is an answer this provider gives to importing `vmcx_path` into `destination_path`.
    /// An implementation that names none is given an unknown relation.
    open spec fn import_answer(&self, vmcx_path: Seq<char>, destination_path: Seq<char>, r: CommandResult<ImportedVm>) -> bool {
        unknown_relation((14int, vmcx_path, destination_path, r))
    }

    /// `r` is an answer this provider gives to removing the VM `name`.
    /// An implementation that names none is given an unknown relation.
    open spec fn removal_answer(&self, name: Seq<char>, r: CommandResult<()>) -> bool {
        unknown_relation((15int, name, r))
    }

    /// `r` is an answer this provider gives to starting the VM `name`.
    /// An implementation that names none is given an unknown relation.
    open spec fn start_answer(&self, name: Seq<char>, r: CommandResult<()>) -> bool {
        unknown_relation((16int, name, r))
    }

    /// `r` is an answer this provider gives to stopping the VM `name`.
    /// An implementation that names none is given an unknown relation.
    open spec fn stop_answer(&self, name: Seq<char>, turn_off: bool, r: CommandResult<()>) -> bool {
        unknown_relation((17int, name, turn_off, r))
    }

    /// `r` is an answer this provider gives to connecting `vm_name` to `switch_name`.
    /// An implementation that names none is given an unknown relation.
    open spec fn connection_answer(&self, vm_name: Seq<char>, switch_name: Seq<char>, r: CommandResult<()>) -> bool {
        unknown_relation((18int, vm_name, switch_name, r))
    }

    /// `r` is an answer this provider gives to preparing `switch_name` on `adapter_name`.
    /// An implementation that names none is given an unknown relation.
    open spec fn switch_answer(&self, switch_name: Seq<char>, adapter_name: Seq<char>, r: CommandResult<ExternalSwitch>) -> bool {
        unknown_relation((19int, switch_name, adapter_name, r))
    }

    /// `r` is an answer this provider gives to sizing the first disk of `vm_name` to `size_bytes`.
    /// An implementation that names none is given an unknown relation.
    open spec fn resize_answer(&self, vm_name: Seq<char>, size_bytes: u64, r: CommandResult<()>) -> bool {
        unknown_relation((20int, vm_name, size_bytes, r))
    }

    /// `r` is an answer this provider gives to making the first disk of `vm_name` its boot device.
    /// An implementation that names none is given an unknown relation.
    open spec fn first_boot_answer(&self, vm_name: Seq<char>, r: CommandResult<()>) -> bool {
        unknown_relation((21int, vm_name, r))
    }

    /// `r` is an answer this provider gives to setting the startup memory of `vm_name` to `bytes`.
    /// An implementation that names none is given an unknown relation.
    open spec fn memory_answer(&self, vm_name: Seq<char>, bytes: u64, r: CommandResult<()>) -> bool {
        unknown_relation((22int, vm_name, bytes, r))
    }

    fn get_vm(&self, name: &str) -> (r: CommandResult<Option<VmInventoryRecord>>)
        ensures
            self.vm_lookup(name@, r),
    ;

    fn compare_import(&self, request: &VmImportRequest) -> (r: CommandResult<VmCompatibilityReport>)
        ensures
            self.comparison_answer(request.vmcx_path@, request.destination_path@, r),
    ;

    fn import_vm(&self, request: &VmImportRequest) -> (r: CommandResult<ImportedVm>)
        ensures
            self.import_answer(request.vmcx_path@, request.destination_path@, r),
    ;

    fn remove_vm(&self, name: &str) -> (r: CommandResult<()>)
        ensures
            self.removal_answer(name@, r),
    ;

    fn start_vm(&self, name: &str) -> (r: CommandResult<()>)
        ensures
            self.start_answer(name@, r),
    ;

    fn stop_vm(&self, name: &str, turn_off: bool) -> (r: CommandResult<()>)
        ensures
            self.stop_answer(name@, turn_off, r),
    ;

    fn connect_network_adapter(&self, vm_name: &str, switch_name: &str) -> (r: CommandResult<()>)
        ensures
            self.connection_answer(vm_name@, switch_name@, r),
    ;

    fn ensure_external_switch(&self, request: &EnsureSwitchRequest) -> (r: CommandResult<ExternalSwitch>)
        ensures
            self.switch_answer(request.switch_name@, request.adapter_name@, r),
    ;

    fn resize_first_vhd(&self, vm_name: &str, size_bytes: u64) -> (r: CommandResult<()>)
        ensures
            self.resize_answer(vm_name@, size_bytes, r),
    ;

    fn set_first_boot_disk(&self, vm_name: &str) -> (r: CommandResult<()>)
        ensures
            self.first_boot_answer(vm_name@, r),
    ;

    fn set_startup_memory(&self, vm_name: &str, bytes: u64) -> (r: CommandResult<()>)
        ensures
            self.memory_answer(vm_name@, bytes, r),
    ;
}

/// Work inside the guest VM over SSH.
pub trait GuestProvider {
    fn wait_for_ssh(&self, ip: &str, timeout_seconds: u64) -> CommandResult<()>;

    fn upload_bytes(&self, ip: &str, remote_path: &str, bytes: &[u8], mode: u32) -> CommandResult<()>;

    fn write_player_settings(&self, ip: &str, player_ip: &str) -> CommandResult<()>;

    fn apply_static_network(&self, ip: &str, config: &GuestNetworkConfig) -> CommandResult<()>;

    fn detect_public_ip(&self, ip: &str) -> CommandResult<Option<String>>;
}

/// Kubernetes operations on BattleGroups.
pub trait KubernetesProvider {
    fn list_battlegroup_namespaces(&self) -> CommandResult<Vec<String>>;

    fn patch_battlegroup_stop(&self, namespace: &str, name: &str, stop: bool) -> CommandResult<()>;

    fn director_node_port(&self, namespace: &str) -> CommandResult<Option<u16>>;
}

/// The steps that bring a fresh guest to a running BattleGroup.
pub trait GuestBootstrapProvider {
    fn validate_and_resize_root_disk(&self) -> CommandResult<()>;

    fn ensure_server_payload(&self) -> CommandResult<()>;

    fn start_k3s_and_wait(&self) -> CommandResult<()>;

    fn import_core_images(&self) -> CommandResult<()>;

    fn scale_core_deployments(&self) -> CommandResult<()>;

    fn update_operator_crds(&self) -> CommandResult<()>;

    fn patch_operator_images(&self) -> CommandResult<()>;

    fn scale_operator_deployments(&self) -> CommandResult<()>;

    fn install_battlegroup_helper(&self) -> CommandResult<()>;

    fn create_world(&self, request: &WorldManifestRequest) -> CommandResult<CreatedWorld>;

    fn import_battlegroup_images(&self) -> CommandResult<()>;

    fn patch_battlegroup_images(&self, namespace: &str, battlegroup_name: &str) -> CommandResult<()>;

    fn apply_default_user_settings(&self, namespace: &str, battlegroup_name: &str) -> CommandResult<()>;
}

impl<T: HostProvider> HostProvider for &T {
    open spec fn readiness_answer(&self, r: CommandResult<HostReadiness>) -> bool {
        T::readiness_answer(*self, r)
    }

    fn readiness(&self) -> CommandResult<HostReadiness> {
        (*self).readiness()
    }

    fn drives_with_minimum_free_space(&self, minimum_free_bytes: u64) -> CommandResult<Vec<DriveCandidate>> {
        (*self).drives_with_minimum_free_space(minimum_free_bytes)
    }

    fn active_physical_adapters(&self) -> CommandResult<Vec<NetworkAdapterCandidate>> {
        (*self).active_physical_adapters()
    }
}

impl<T: VmProvider> VmProvider for &T {
    open spec fn vm_lookup(&self, name: Seq<char>, r: CommandResult<Option<VmInventoryRecord>>) -> bool {
        T::vm_lookup(*self, name, r)
    }

    open spec fn comparison_answer(&self, vmcx_path: Seq<char>, destination_path: Seq<char>, r: CommandResult<VmCompatibilityReport>) -> bool {
        T::comparison_answer(*self, vmcx_path, destination_path, r)
    }

    open spec fn import_answer(&self, vmcx_path: Seq<char>, destination_path: Seq<char>, r: CommandResult<ImportedVm>) -> bool {
        T::import_answer(*self, vmcx_path, destination_path, r)
    }

    open spec fn removal_answer(&self, name: Seq<char>, r: CommandResult<()>) -> bool {
        T::removal_answer(*self, name, r)
    }

    open spec fn start_answer(&self, name: Seq<char>, r: CommandResult<()>) -> bool {
        T::start_answer(*self, name, r)
    }

    open spec fn stop_answer(&self, name: Seq<char>, turn_off: bool, r: CommandResult<()>) -> bool {
        T::stop_answer(*self, name, turn_off, r)
    }

    open spec fn connection_answer(&self, vm_name: Seq<char>, switch_name: Seq<char>, r: CommandResult<()>) -> bool {
        T::connection_answer(*self, vm_name, switch_name, r)
    }

    open spec fn switch_answer(&self, switch_name: Seq<char>, adapter_name: Seq<char>, r: CommandResult<ExternalSwitch>) -> bool {
        T::switch_answer(*self, switch_name, adapter_name, r)
    }

    open spec fn resize_answer(&self, vm_name: Seq<char>, size_bytes: u64, r: CommandResult<()>) -> bool {
        T::resize_answer(*self, vm_name, size_bytes, r)
    }

    open spec fn first_boot_answer(&self, vm_name: Seq<char>, r: CommandResult<()>) -> bool {
        T::first_boot_answer(*self, vm_name, r)
    }

    open spec fn memory_answer(&self, vm_name: Seq<char>, bytes: u64, r: CommandResult<()>) -> bool {
        T::memory_answer(*self, vm_name, bytes, r)
    }

    fn get_vm(&self, name: &str) -> CommandResult<Option<VmInventoryRecord>> {
        (*self).get_vm(name)
    }

    fn compare_import(&self, request: &VmImportRequest) -> CommandResult<VmCompatibilityReport> {
        (*self).compare_import(request)
    }

    fn import_vm(&self, request: &VmImportRequest) -> CommandResult<ImportedVm> {
        (*self).import_vm(request)
    }

    fn remove_vm(&self, name: &str) -> CommandResult<()> {
        (*self).remove_vm(name)
    }

    fn start_vm(&self, name: &str) -> CommandResult<()> {
        (*self).start_vm(name)
    }

    fn stop_vm(&self, name: &str, turn_off: bool) -> CommandResult<()> {
        (*self).stop_vm(name, turn_off)
    }

    fn connect_network_adapter(&self, vm_name: &str, switch_name: &str) -> CommandResult<()> {
        (*self).connect_network_adapter(vm_name, switch_name)
    }

    fn ensure_external_switch(&self, request: &EnsureSwitchRequest) -> CommandResult<ExternalSwitch> {
        (*self).ensure_external_switch(request)
    }

    fn resize_first_vhd(&self, vm_name: &str, size_bytes: u64) -> CommandResult<()> {
        (*self).resize_first_vhd(vm_name, size_bytes)
    }

    fn set_first_boot_disk(&self, vm_name: &str) -> CommandResult<()> {
        (*self).set_first_boot_disk(vm_name)
    }

    fn set_startup_memory(&self, vm_name: &str, bytes: u64) -> CommandResult<()> {
        (*self).set_startup_memory(vm_name, bytes)
    }
}

impl<T: GuestProvider> GuestProvider for &T {
    fn wait_for_ssh(&self, ip: &str, timeout_seconds: u64) -> CommandResult<()> {
        (*self).wait_for_ssh(ip, timeout_seconds)
    }

    fn upload_bytes(&self, ip: &str, remote_path: &str, bytes: &[u8], mode: u32) -> CommandResult<()> {
        (*self).upload_bytes(ip, remote_path, bytes, mode)
    }

    fn write_player_settings(&self, ip: &str, player_ip: &str) -> CommandResult<()> {
        (*self).write_player_settings(ip, player_ip)
    }

    fn apply_static_network(&self, ip: &str, config: &GuestNetworkConfig) -> CommandResult<()> {
        (*self).apply_static_network(ip, config)
    }

    fn detect_public_ip(&self, ip: &str) -> CommandResult<Option<String>> {
        (*self).detect_public_ip(ip)
    }
}

impl<T: GuestBootstrapProvider> GuestBootstrapProvider for &T {
    fn validate_and_resize_root_disk(&self) -> CommandResult<()> {
        (*self).validate_and_resize_root_disk()
    }

    fn ensure_server_payload(&self) -> CommandResult<()> {
        (*self).ensure_server_payload()
    }

    fn start_k3s_and_wait(&self) -> CommandResult<()> {
        (*self).start_k3s_and_wait()
    }

    fn import_core_images(&self) -> CommandResult<()> {
        (*self).import_core_images()
    }

    fn scale_core_deployments(&self) -> CommandResult<()> {
        (*self).scale_core_deployments()
    }

    fn update_operator_crds(&self) -> CommandResult<()> {
        (*self).update_operator_crds()
    }

    fn patch_operator_images(&self) -> CommandResult<()> {
        (*self).patch_operator_images()
    }

    fn scale_operator_deployments(&self) -> CommandResult<()> {
        (*self).scale_operator_deployments()
    }

    fn install_battlegroup_helper(&self) -> CommandResult<()> {
        (*self).install_battlegroup_helper()
    }

    fn create_world(&self, request: &WorldManifestRequest) -> CommandResult<CreatedWorld> {
        (*self).create_world(request)
    }

    fn import_battlegroup_images(&self) -> CommandResult<()> {
        (*self).import_battlegroup_images()
    }

    fn patch_battlegroup_images(&self, namespace: &str, battlegroup_name: &str) -> CommandResult<()> {
        (*self).patch_battlegroup_images(namespace, battlegroup_name)
    }

    fn apply_default_user_settings(&self, namespace: &str, battlegroup_name: &str) -> CommandResult<()> {
        (*self).apply_default_user_settings(namespace, battlegroup_name)
    }
}

// ---------------------------------------------------------------------------
// Packaged VM configurations
// ---------------------------------------------------------------------------

impl SortKey for String {
    open spec fn key_le(a: Seq<char>, b: Seq<char>) -> bool {
        lex_le(a, b)
    }

    proof fn lemma_key_total(a: Seq<char>, b: Seq<char>) {
        lemma_lex_total(a, b);
    }

    proof fn lemma_key_transitive(a: Seq<char>, b: Seq<char>, c: Seq<char>) {
        lemma_lex_transitive(a, b, c);
    }

    fn key_le_exec(&self, other: &Self) -> (r: bool) {
        let a = chars_of(self.as_str());
        let b = chars_of(other.as_str());
        lex_le_exec(a.as_slice(), b.as_slice())
    }
}

/// The file extension is `vmcx`, ignoring ASCII case.
pub open spec fn is_vmcx_extension(ext: Option<Seq<char>>) -> bool {
    match ext {
        Some(e) => ascii_lower(e) == "vmcx"@,
        None => false,
    }
}

/// The entries of a directory listing (path and extension) that are `.vmcx`
/// files, in listing order.
pub open spec fn vmcx_entries(entries: Seq<(Seq<char>, Option<Seq<char>>)>) -> Seq<Seq<char>>
    decreases entries.len(),
{
    if entries.len() == 0 {
        Seq::empty()
    } else {
        let rest = vmcx_entries(entries.drop_last());
        if is_vmcx_extension(entries.last().1) {
            rest.push(entries.last().0)
        } else {
            rest
        }
    }
}

/// One directory entry: its path and, when it has one, its extension.
#[derive(Clone, Debug, PartialEq, Eq)]
pub struct DirectoryEntry {
    pub path: String,
    pub extension: Option<String>,
}

impl View for DirectoryEntry {
    type V = (Seq<char>, Option<Seq<char>>);

    open spec fn view(&self) -> (Seq<char>, Option<Seq<char>>) {
        (
            self.path@,
            match self.extension {
                Some(e) => Some(e@),
                None => None,
            },
        )
    }
}

/// The `.vmcx` files among the entries of a `Virtual Machines` directory, sorted.
pub fn packaged_vmcx_candidates(entries: Vec<DirectoryEntry>) -> (r: Vec<String>)
    ensures
        view_seq(r@) == sort_by_key::<String>(vmcx_entries(view_seq(entries@))),
{
    let ghost es = view_seq(entries@);
    let mut out: Vec<String> = Vec::new();
    let vmcx = chars_of("vmcx");
    let mut i: usize = 0;
    while i < entries.len()
        invariant
            es == view_seq(entries@),
            vmcx@ == "vmcx"@,
            i <= entries@.len(),
            view_seq(out@) == vmcx_entries(es.take(i as int)),
        decreases entries@.len() - i,
    {
        assert(es.take(i + 1).drop_last() =~= es.take(i as int));
        assert(es.take(i + 1).last() == entries@[i as int]@);
        let keep = match &entries[i].extension {
            Some(e) => {
                let l = ascii_lowercase(chars_of(e.as_str()).as_slice());
                chars_eq(l.as_slice(), vmcx.as_slice())
            },
            None => false,
        };
        if keep {
            let p = entries[i].path.clone();
            proof {
                assert(view_seq(out@.push(p)) =~= view_seq(out@).push(p@));
            }
            out.push(p);
        }
        i = i + 1;
    }
    assert(es.take(entries@.len() as int) =~= es);
    sort_stable(out)
}

} // verus!
