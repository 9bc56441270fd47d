//! Importing and preparing the packaged server VM on Hyper-V.
//!
//! The decisions of the import live in [`HyperVSetupFlow`]: from each result
//! of host, Hyper-V or file-system work it chooses the next piece of work, the
//! progress event to report, or the outcome.
//! [`HyperVVmSetupOrchestrator::import_and_prepare_vm`] runs the flow against
//! the host and VM providers and the [`SetupFiles`] it is given.
use vstd::prelude::*;
use crate::command::{failure_from, failure_str, unknown_relation, CommandFailure, CommandResult};
use crate::manager_core::providers::{
    packaged_vmcx_candidates, vmcx_entries, DirectoryEntry, EnsureSwitchRequest, ExternalSwitch, HostProvider, HostReadiness,
    ImportedVm, VmCompatibilityReport, VmImportRequest, VmInventoryRecord, VmPowerState, VmProvider,
};
use crate::sort::{sort_by_key, view_seq};
use crate::text::{chars_of, extend_str, string_of};

verus! {

/// The default size of the VM's system disk: 100 GiB.
pub const DEFAULT_VM_DISK_BYTES: u64 = 107374182400;

/// How much memory the VM starts with.
#[derive(Clone, Copy, Debug, PartialEq, Eq)]
pub enum MemoryProfile {
    Sietch20Gb,
    SietchStory30Gb,
    SietchStoryDeepDesert40Gb,
    CustomBytes(u64),
}

pub open spec fn memory_bytes(m: MemoryProfile) -> u64 {
    match m {
        MemoryProfile::Sietch20Gb => 21474836480,
        MemoryProfile::SietchStory30Gb => 32212254720,
        MemoryProfile::SietchStoryDeepDesert40Gb => 42949672960,
        MemoryProfile::CustomBytes(b) => b,
    }
}

impl MemoryProfile {
    /// 20, 30 or 40 GiB, or the custom byte count.
    pub fn bytes(self) -> (r: u64)
        ensures
            r == memory_bytes(self),
    {
        match self {
            Self::Sietch20Gb => 20 * 1024 * 1024 * 1024,
            Self::SietchStory30Gb => 30 * 1024 * 1024 * 1024,
            Self::SietchStoryDeepDesert40Gb => 40 * 1024 * 1024 * 1024,
            Self::CustomBytes(bytes) => bytes,
        }
    }
}

/// What to import, where, and on which network.
#[derive(Clone, Debug, PartialEq, Eq)]
pub struct HyperVVmSetupRequest {
    pub install_path: String,
    pub vm_name: String,
    pub destination_path: String,
    pub switch_name: String,
    pub adapter_name: String,
    pub memory: MemoryProfile,
    pub replace_existing_vm: bool,
    pub clear_destination: bool,
    pub disk_size_bytes: u64,
}

impl Default for HyperVVmSetupRequest {
    fn default() -> (r: Self)
        ensures
            r.install_path@ == Seq::<char>::empty(),
            r.vm_name@ == Seq::<char>::empty(),
            r.destination_path@ == Seq::<char>::empty(),
            r.switch_name@ == "DuneAwakeningServerSwitch"@,
            r.adapter_name@ == Seq::<char>::empty(),
            r.memory == MemoryProfile::Sietch20Gb,
            !r.replace_existing_vm,
            !r.clear_destination,
            r.disk_size_bytes == DEFAULT_VM_DISK_BYTES,
    {
        Self {
            install_path: String::new(),
            vm_name: String::new(),
            destination_path: String::new(),
            switch_name: "DuneAwakeningServerSwitch".to_owned(),
            adapter_name: String::new(),
            memory: MemoryProfile::Sietch20Gb,
            replace_existing_vm: false,
            clear_destination: false,
            disk_size_bytes: DEFAULT_VM_DISK_BYTES,
        }
    }
}

/// What the file system says about the request's paths.
#[derive(Clone, Debug, PartialEq, Eq)]
pub struct SetupPathFacts {
    /// The install path exists.
    pub install_path_exists: bool,
    /// The install path is a directory.
    pub install_path_is_dir: bool,
    /// The destination's parent directory as displayed, when it has a non-empty one.
    pub destination_parent: Option<String>,
    /// That parent exists.
    pub destination_parent_exists: bool,
}

/// The first problem with a request, or `None` when it is acceptable.
pub open spec fn request_problem(r: HyperVVmSetupRequest, facts: SetupPathFacts) -> Option<Seq<char>> {
    if crate::text::trim(r.vm_name@).len() == 0 {
        Some("VM name is required"@)
    } else if crate::text::trim(r.switch_name@).len() == 0 {
        Some("Hyper-V switch name is required"@)
    } else if crate::text::trim(r.adapter_name@).len() == 0 {
        Some("Host network adapter name is required"@)
    } else if memory_bytes(r.memory) == 0 {
        Some("VM memory must be greater than zero"@)
    } else if r.disk_size_bytes == 0 {
        Some("VM disk size must be greater than zero"@)
    } else if !facts.install_path_exists {
        Some("server install path does not exist: "@ + r.install_path@)
    } else if !facts.install_path_is_dir {
        Some("server install path is not a directory: "@ + r.install_path@)
    } else {
        match facts.destination_parent {
            None => Some("VM destination must have a parent directory"@),
            Some(p) => if !facts.destination_parent_exists {
                Some("VM destination parent does not exist: "@ + p@)
            } else {
                None
            },
        }
    }
}

fn is_blank(s: &String) -> (r: bool)
    ensures
        r == (crate::text::trim(s@).len() == 0),
{
    let c = chars_of(s.as_str());
    crate::text::trimmed(c.as_slice()).len() == 0
}

fn prefixed_failure(prefix: &str, path: &String) -> (r: CommandFailure)
    ensures
        r.message@ == prefix@ + path@,
{
    let mut m: Vec<char> = Vec::new();
    extend_str(&mut m, prefix);
    extend_str(&mut m, path.as_str());
    failure_from(m.as_slice())
}

impl HyperVVmSetupRequest {
    /// Checks the names, sizes and paths of the request.
    pub fn validate(&self, facts: &SetupPathFacts) -> (r: CommandResult<()>)
        ensures
            r is Ok <==> request_problem(*self, *facts) is None,
            r matches Err(e) ==> Some(e.message@) == request_problem(*self, *facts),
    {
        if is_blank(&self.vm_name) {
            return Err(failure_str("VM name is required"));
        }
        if is_blank(&self.switch_name) {
            return Err(failure_str("Hyper-V switch name is required"));
        }
        if is_blank(&self.adapter_name) {
            return Err(failure_str("Host network adapter name is required"));
        }
        if self.memory.bytes() == 0 {
            return Err(failure_str("VM memory must be greater than zero"));
        }
        if self.disk_size_bytes == 0 {
            return Err(failure_str("VM disk size must be greater than zero"));
        }
        if !facts.install_path_exists {
            return Err(prefixed_failure("server install path does not exist: ", &self.install_path));
        }
        if !facts.install_path_is_dir {
            return Err(prefixed_failure("server install path is not a directory: ", &self.install_path));
        }
        match &facts.destination_parent {
            None => Err(failure_str("VM destination must have a parent directory")),
            Some(p) => if !facts.destination_parent_exists {
                Err(prefixed_failure("VM destination parent does not exist: ", p))
            } else {
                Ok(())
            },
        }
    }
}

/// The part of the system a setup step works on.
#[derive(Clone, Copy, Debug, PartialEq, Eq, Structural)]
pub enum StepDomain {
    Host,
    Files,
    HyperV,
}

/// What a setup step does.
#[derive(Clone, Copy, Debug, PartialEq, Eq, Structural)]
pub enum StepAction {
    Check,
    Detect,
    Stop,
    Configure,
    Import,
    Create,
    Start,
}

/// Who performs a setup step.
#[derive(Clone, Copy, Debug, PartialEq, Eq, Structural)]
pub enum ProviderKind {
    HyperV,
}

/// A progress report of the setup.
#[derive(Clone, Debug, PartialEq, Eq)]
pub struct OrchestrationEvent {
    pub step_id: String,
    pub message: String,
    pub domain: StepDomain,
    pub action: StepAction,
    pub provider: ProviderKind,
}

/// Receives progress reports.
pub trait OperationSink {
    fn emit(&mut self, event: OrchestrationEvent);
}

/// Keeps every progress report.
pub struct VecOperationSink {
    pub events: Vec<OrchestrationEvent>,
}

impl VecOperationSink {
    pub fn new() -> (r: Self)
        ensures
            r.events@.len() == 0,
    {
        VecOperationSink { events: Vec::new() }
    }
}

impl OperationSink for VecOperationSink {
    fn emit(&mut self, event: OrchestrationEvent)
        ensures
            final(self).events@ == old(self).events@.push(event),
    {
        self.events.push(event);
    }
}

/// The imported and started VM.
#[derive(Clone, Debug, PartialEq, Eq)]
pub struct HyperVVmSetupResult {
    pub vm_name: String,
    pub destination_path: String,
    pub switch_name: String,
    pub vmcx_path: String,
}

/// The host and VM providers that carry out a setup.
pub struct HyperVVmSetupOrchestrator<H, V> {
    pub host: H,
    pub vm: V,
}

impl<H, V> HyperVVmSetupOrchestrator<H, V> {
    pub fn new(host: H, vm: V) -> (r: Self)
        ensures
            r.host == host,
            r.vm == vm,
    {
        Self { host, vm }
    }
}

// ---------------------------------------------------------------------------
// The setup flow
// ---------------------------------------------------------------------------

/// Where the setup stands: the piece of work whose result it waits for, or its end.
#[derive(Clone, Copy, Debug, PartialEq, Eq, Structural)]
pub enum SetupStep {
    CheckReadiness,
    LocateVmcx,
    DetectExistingVm,
    StopExistingVm,
    RemoveExistingVm,
    ProbeDestination,
    ClearDestination,
    CompareImport,
    ImportVm,
    EnsureSwitch,
    ConnectSwitch,
    ResizeVhd,
    SetFirstBoot,
    SetMemory,
    StartVm,
    Finished,
    Failed,
}

/// A piece of work for the caller.
#[derive(Clone, Debug, PartialEq, Eq)]
pub enum SetupCall {
    /// `HostProvider::readiness`.
    CheckReadiness,
    /// List the `.vmcx` files under `<install_path>/Virtual Machines`.
    ListVmcx { install_path: String },
    /// `VmProvider::get_vm`.
    GetVm { name: String },
    /// `VmProvider::stop_vm`.
    StopVm { name: String, turn_off: bool },
    /// `VmProvider::remove_vm`.
    RemoveVm { name: String },
    /// Whether the destination directory exists.
    ProbeDestination { path: String },
    /// Remove the destination directory and its contents.
    ClearDestination { path: String },
    /// `VmProvider::compare_import`.
    CompareImport(VmImportRequest),
    /// `VmProvider::import_vm`.
    ImportVm(VmImportRequest),
    /// `VmProvider::ensure_external_switch`.
    EnsureSwitch(EnsureSwitchRequest),
    /// `VmProvider::connect_network_adapter`.
    ConnectAdapter { vm_name: String, switch_name: String },
    /// `VmProvider::resize_first_vhd`.
    ResizeVhd { vm_name: String, size_bytes: u64 },
    /// `VmProvider::set_first_boot_disk`.
    SetFirstBootDisk { vm_name: String },
    /// `VmProvider::set_startup_memory`.
    SetStartupMemory { vm_name: String, bytes: u64 },
    /// `VmProvider::start_vm`.
    StartVm { name: String },
}

/// The result of a piece of work.
#[derive(Debug)]
pub enum SetupEvent {
    Readiness(CommandResult<HostReadiness>),
    /// The `.vmcx` files found, and the directory searched (for messages).
    VmcxCandidates { directory: String, candidates: CommandResult<Vec<String>> },
    ExistingVm(CommandResult<Option<VmInventoryRecord>>),
    DestinationExists(bool),
    Compatibility(CommandResult<VmCompatibilityReport>),
    Imported(CommandResult<ImportedVm>),
    Switch(CommandResult<ExternalSwitch>),
    /// Any work without a result value.
    Done(CommandResult<()>),
}

/// What happens next.
#[derive(Debug)]
pub enum SetupNext {
    Call(SetupCall),
    Finished(HyperVVmSetupResult),
    Failed(CommandFailure),
}

/// A progress report to emit, then what happens next.
#[derive(Debug)]
pub struct SetupAction {
    pub event: Option<OrchestrationEvent>,
    pub next: SetupNext,
}

/// An import in progress.
pub struct HyperVSetupFlow {
    pub request: HyperVVmSetupRequest,
    pub step: SetupStep,
    pub vmcx_path: Option<String>,
    pub imported: Option<ImportedVm>,
    pub switch: Option<ExternalSwitch>,
}

/// The step that follows `step` on result `ev`.
pub open spec fn next_step(step: SetupStep, ev: SetupEvent, replace: bool, clear: bool) -> SetupStep {
    match step {
        SetupStep::CheckReadiness => match ev {
            SetupEvent::Readiness(Ok(r)) => if r.elevated && r.hyperv_available && r.vmms_running {
                SetupStep::LocateVmcx
            } else {
                SetupStep::Failed
            },
            _ => SetupStep::Failed,
        },
        SetupStep::LocateVmcx => match ev {
            SetupEvent::VmcxCandidates { candidates: Ok(c), .. } => if c@.len() == 1 {
                SetupStep::DetectExistingVm
            } else {
                SetupStep::Failed
            },
            _ => SetupStep::Failed,
        },
        SetupStep::DetectExistingVm => match ev {
            SetupEvent::ExistingVm(Ok(None)) => SetupStep::ProbeDestination,
            SetupEvent::ExistingVm(Ok(Some(vm))) => if !replace {
                SetupStep::Failed
            } else if vm.state == VmPowerState::Running {
                SetupStep::StopExistingVm
            } else {
                SetupStep::RemoveExistingVm
            },
            _ => SetupStep::Failed,
        },
        SetupStep::StopExistingVm => if ev matches SetupEvent::Done(Ok(_)) {
            SetupStep::RemoveExistingVm
        } else {
            SetupStep::Failed
        },
        SetupStep::RemoveExistingVm => if ev matches SetupEvent::Done(Ok(_)) {
            SetupStep::ProbeDestination
        } else {
            SetupStep::Failed
        },
        SetupStep::ProbeDestination => match ev {
            SetupEvent::DestinationExists(exists) => if !exists {
                SetupStep::CompareImport
            } else if clear {
                SetupStep::ClearDestination
            } else {
                SetupStep::Failed
            },
            _ => SetupStep::Failed,
        },
        SetupStep::ClearDestination => if ev matches SetupEvent::Done(Ok(_)) {
            SetupStep::CompareImport
        } else {
            SetupStep::Failed
        },
        SetupStep::CompareImport => match ev {
            SetupEvent::Compatibility(Ok(rep)) => if rep.compatible {
                SetupStep::ImportVm
            } else {
                SetupStep::Failed
            },
            _ => SetupStep::Failed,
        },
        SetupStep::ImportVm => if ev matches SetupEvent::Imported(Ok(_)) {
            SetupStep::EnsureSwitch
        } else {
            SetupStep::Failed
        },
        SetupStep::EnsureSwitch => if ev matches SetupEvent::Switch(Ok(_)) {
            SetupStep::ConnectSwitch
        } else {
            SetupStep::Failed
        },
        SetupStep::ConnectSwitch => if ev matches SetupEvent::Done(Ok(_)) {
            SetupStep::ResizeVhd
        } else {
            SetupStep::Failed
        },
        SetupStep::ResizeVhd => if ev matches SetupEvent::Done(Ok(_)) {
            SetupStep::SetFirstBoot
        } else {
            SetupStep::Failed
        },
        SetupStep::SetFirstBoot => if ev matches SetupEvent::Done(Ok(_)) {
            SetupStep::SetMemory
        } else {
            SetupStep::Failed
        },
        SetupStep::SetMemory => if ev matches SetupEvent::Done(Ok(_)) {
            SetupStep::StartVm
        } else {
            SetupStep::Failed
        },
        SetupStep::StartVm => if ev matches SetupEvent::Done(Ok(_)) {
            SetupStep::Finished
        } else {
            SetupStep::Failed
        },
        SetupStep::Finished => SetupStep::Failed,
        SetupStep::Failed => SetupStep::Failed,
    }
}

/// The progress report emitted on entering `step`: its id, domain and action.
pub open spec fn step_event(step: SetupStep) -> Option<(Seq<char>, StepDomain, StepAction)> {
    match step {
        SetupStep::CheckReadiness => Some(("host.readiness"@, StepDomain::Host, StepAction::Check)),
        SetupStep::LocateVmcx => Some(("package.locate-vmcx"@, StepDomain::Files, StepAction::Detect)),
        SetupStep::DetectExistingVm => Some(("hyperv.detect-existing-vm"@, StepDomain::HyperV, StepAction::Detect)),
        SetupStep::StopExistingVm => Some(("hyperv.stop-existing-vm"@, StepDomain::HyperV, StepAction::Stop)),
        SetupStep::RemoveExistingVm => Some(("hyperv.remove-existing-vm"@, StepDomain::HyperV, StepAction::Stop)),
        SetupStep::ClearDestination => Some(("host.clear-vm-destination"@, StepDomain::Files, StepAction::Configure)),
        SetupStep::CompareImport => Some(("hyperv.compare-vm"@, StepDomain::HyperV, StepAction::Check)),
        SetupStep::ImportVm => Some(("hyperv.import-vm"@, StepDomain::HyperV, StepAction::Import)),
        SetupStep::EnsureSwitch => Some(("hyperv.ensure-switch"@, StepDomain::HyperV, StepAction::Create)),
        SetupStep::ConnectSwitch => Some(("hyperv.connect-switch"@, StepDomain::HyperV, StepAction::Configure)),
        SetupStep::ResizeVhd => Some(("hyperv.resize-vhd"@, StepDomain::HyperV, StepAction::Configure)),
        SetupStep::SetFirstBoot => Some(("hyperv.set-first-boot"@, StepDomain::HyperV, StepAction::Configure)),
        SetupStep::SetMemory => Some(("hyperv.set-memory"@, StepDomain::HyperV, StepAction::Configure)),
        SetupStep::StartVm => Some(("hyperv.start-vm"@, StepDomain::HyperV, StepAction::Start)),
        _ => None,
    }
}

/// The event emitted matches `step_event(step)`.
pub open spec fn event_matches(event: Option<OrchestrationEvent>, step: SetupStep) -> bool {
    match step_event(step) {
        Some(e) => event is Some && event->0.step_id@ == e.0 && event->0.domain == e.1 && event->0.action == e.2
            && event->0.provider == ProviderKind::HyperV,
        None => event is None,
    }
}

/// The work requested on entering `step`, for a flow in state `f`.
pub open spec fn call_matches(call: SetupCall, step: SetupStep, f: HyperVSetupFlow) -> bool {
    let req = f.request;
    match step {
        SetupStep::CheckReadiness => call == SetupCall::CheckReadiness,
        SetupStep::LocateVmcx => call matches SetupCall::ListVmcx { install_path } && install_path@ == req.install_path@,
        SetupStep::DetectExistingVm => call matches SetupCall::GetVm { name } && name@ == req.vm_name@,
        SetupStep::StopExistingVm => call matches SetupCall::StopVm { name, turn_off } && name@ == req.vm_name@ && turn_off,
        SetupStep::RemoveExistingVm => call matches SetupCall::RemoveVm { name } && name@ == req.vm_name@,
        SetupStep::ProbeDestination => call matches SetupCall::ProbeDestination { path } && path@ == req.destination_path@,
        SetupStep::ClearDestination => call matches SetupCall::ClearDestination { path } && path@ == req.destination_path@,
        SetupStep::CompareImport => call matches SetupCall::CompareImport(r) && (f.vmcx_path is Some
            && r.vmcx_path@ == f.vmcx_path->0@ && r.destination_path@ == req.destination_path@),
        SetupStep::ImportVm => call matches SetupCall::ImportVm(r) && (f.vmcx_path is Some && r.vmcx_path@
            == f.vmcx_path->0@ && r.destination_path@ == req.destination_path@),
        SetupStep::EnsureSwitch => call matches SetupCall::EnsureSwitch(r) && r.switch_name@ == req.switch_name@
            && r.adapter_name@ == req.adapter_name@,
        SetupStep::ConnectSwitch => call matches SetupCall::ConnectAdapter { vm_name, switch_name } && (f.imported is Some
            && f.switch is Some && vm_name@ == f.imported->0.name@ && switch_name@ == f.switch->0.name@),
        SetupStep::ResizeVhd => call matches SetupCall::ResizeVhd { vm_name, size_bytes } && (f.imported is Some
            && vm_name@ == f.imported->0.name@ && size_bytes == req.disk_size_bytes),
        SetupStep::SetFirstBoot => call matches SetupCall::SetFirstBootDisk { vm_name } && (f.imported is Some
            && vm_name@ == f.imported->0.name@),
        SetupStep::SetMemory => call matches SetupCall::SetStartupMemory { vm_name, bytes } && (f.imported is Some
            && vm_name@ == f.imported->0.name@ && bytes == memory_bytes(req.memory)),
        SetupStep::StartVm => call matches SetupCall::StartVm { name } && (f.imported is Some && name@
            == f.imported->0.name@),
        _ => false,
    }
}

/// The action fits the flow's new state `f`: a call for the step it waits on,
/// the result when finished, a failure when failed.
pub open spec fn action_fits(a: SetupAction, f: HyperVSetupFlow) -> bool {
    &&& event_matches(a.event, f.step)
    &&& match a.next {
        SetupNext::Call(c) => call_matches(c, f.step, f),
        SetupNext::Finished(r) => f.step == SetupStep::Finished && f.imported is Some && f.switch is Some
            && f.vmcx_path is Some && r.vm_name@ == f.imported->0.name@ && r.switch_name@ == f.switch->0.name@
            && r.vmcx_path@ == f.vmcx_path->0@ && r.destination_path@ == f.request.destination_path@,
        SetupNext::Failed(_) => f.step == SetupStep::Failed,
    }
}

/// A text option by its view.
pub open spec fn text_option(o: Option<String>) -> Option<Seq<char>> {
    match o {
        Some(s) => Some(s@),
        None => None,
    }
}

/// The `.vmcx` path the flow holds after result `ev` at `step`: the single
/// candidate of a listing taken while locating it, else what it held before.
pub open spec fn recorded_vmcx(step: SetupStep, ev: SetupEvent, before: Option<Seq<char>>) -> Option<Seq<char>> {
    match ev {
        SetupEvent::VmcxCandidates { candidates: Ok(c), .. } => if step == SetupStep::LocateVmcx && c@.len() == 1 {
            Some(c@[0]@)
        } else {
            before
        },
        _ => before,
    }
}

/// The imported VM the flow holds after result `ev` at `step`: the VM that
/// the import answered with, else what it held before.
pub open spec fn recorded_import(step: SetupStep, ev: SetupEvent, before: Option<ImportedVm>) -> Option<ImportedVm> {
    match ev {
        SetupEvent::Imported(Ok(vm)) => if step == SetupStep::ImportVm {
            Some(vm)
        } else {
            before
        },
        _ => before,
    }
}

/// The switch the flow holds after result `ev` at `step`: the switch that
/// preparing it answered with, else what it held before.
pub open spec fn recorded_switch(step: SetupStep, ev: SetupEvent, before: Option<ExternalSwitch>) -> Option<ExternalSwitch> {
    match ev {
        SetupEvent::Switch(Ok(sw)) => if step == SetupStep::EnsureSwitch {
            Some(sw)
        } else {
            before
        },
        _ => before,
    }
}

/// The error carried by a failed piece of work.
pub open spec fn event_error(ev: SetupEvent) -> Option<CommandFailure> {
    match ev {
        SetupEvent::Readiness(Err(e)) => Some(e),
        SetupEvent::VmcxCandidates { candidates: Err(e), .. } => Some(e),
        SetupEvent::ExistingVm(Err(e)) => Some(e),
        SetupEvent::Compatibility(Err(e)) => Some(e),
        SetupEvent::Imported(Err(e)) => Some(e),
        SetupEvent::Switch(Err(e)) => Some(e),
        SetupEvent::Done(Err(e)) => Some(e),
        _ => None,
    }
}

/// The report emitted on entering `step`.
fn event_for(step: SetupStep) -> (r: Option<OrchestrationEvent>)
    ensures
        event_matches(r, step),
{
    let (id, message, domain, action): (&str, &str, StepDomain, StepAction) = match step {
        SetupStep::CheckReadiness => ("host.readiness", "Checking host virtualization readiness.", StepDomain::Host, StepAction::Check),
        SetupStep::LocateVmcx => ("package.locate-vmcx", "Locating packaged VM configuration.", StepDomain::Files, StepAction::Detect),
        SetupStep::DetectExistingVm => ("hyperv.detect-existing-vm", "Checking for an existing VM.", StepDomain::HyperV, StepAction::Detect),
        SetupStep::StopExistingVm => ("hyperv.stop-existing-vm", "Stopping existing VM before replacement.", StepDomain::HyperV, StepAction::Stop),
        SetupStep::RemoveExistingVm => ("hyperv.remove-existing-vm", "Removing existing VM registration.", StepDomain::HyperV, StepAction::Stop),
        SetupStep::ClearDestination => ("host.clear-vm-destination", "Clearing VM destination folder.", StepDomain::Files, StepAction::Configure),
        SetupStep::CompareImport => ("hyperv.compare-vm", "Checking VM import compatibility.", StepDomain::HyperV, StepAction::Check),
        SetupStep::ImportVm => ("hyperv.import-vm", "Importing VM.", StepDomain::HyperV, StepAction::Import),
        SetupStep::EnsureSwitch => ("hyperv.ensure-switch", "Preparing Hyper-V external switch.", StepDomain::HyperV, StepAction::Create),
        SetupStep::ConnectSwitch => ("hyperv.connect-switch", "Connecting VM network adapter.", StepDomain::HyperV, StepAction::Configure),
        SetupStep::ResizeVhd => ("hyperv.resize-vhd", "Sizing VM virtual disk.", StepDomain::HyperV, StepAction::Configure),
        SetupStep::SetFirstBoot => ("hyperv.set-first-boot", "Configuring VM boot disk.", StepDomain::HyperV, StepAction::Configure),
        SetupStep::SetMemory => ("hyperv.set-memory", "Configuring VM memory.", StepDomain::HyperV, StepAction::Configure),
        SetupStep::StartVm => ("hyperv.start-vm", "Starting VM.", StepDomain::HyperV, StepAction::Start),
        _ => return None,
    };
    Some(OrchestrationEvent {
        step_id: id.to_owned(),
        message: message.to_owned(),
        domain,
        action,
        provider: ProviderKind::HyperV,
    })
}

/// Messages joined with `"; "`.
pub open spec fn semicolon_joined(items: Seq<Seq<char>>) -> Seq<char>
    decreases items.len(),
{
    if items.len() == 0 {
        Seq::empty()
    } else if items.len() == 1 {
        items[0]
    } else {
        semicolon_joined(items.drop_last()) + "; "@ + items.last()
    }
}

/// Joins messages with `"; "`.
fn join_semicolon(items: &Vec<String>) -> (r: String)
    ensures
        r@ == semicolon_joined(view_seq(items@)),
{
    let ghost xs = view_seq(items@);
    let mut out: Vec<char> = Vec::new();
    let mut i: usize = 0;
    while i < items.len()
        invariant
            xs == view_seq(items@),
            i <= items@.len(),
            out@ == semicolon_joined(xs.take(i as int)),
        decreases items@.len() - i,
    {
        assert(xs.take(i + 1).drop_last() =~= xs.take(i as int));
        assert(xs.take(i + 1).last() == items@[i as int]@);
        if i > 0 {
            extend_str(&mut out, "; ");
        } else {
            assert(xs.take(1) =~= seq![xs[0]]);
        }
        extend_str(&mut out, items[i].as_str());
        i = i + 1;
    }
    assert(xs.take(items@.len() as int) =~= xs);
    string_of(out.as_slice())
}

/// A failure whose message is `head`, `s` and `tail`.
fn message3(head: &str, s: &str, tail: &str) -> (r: CommandFailure)
    ensures
        r.message@ == head@ + s@ + tail@,
{
    let mut m: Vec<char> = Vec::new();
    extend_str(&mut m, head);
    extend_str(&mut m, s);
    extend_str(&mut m, tail);
    failure_from(m.as_slice())
}

/// The message with which a result that refuses the setup ends it: a host
/// that is not ready, not exactly one packaged configuration, an existing VM
/// or destination that may not be replaced, an incompatible package.
pub open spec fn refusal(step: SetupStep, ev: SetupEvent, request: HyperVVmSetupRequest) -> Option<Seq<char>> {
    match step {
        SetupStep::CheckReadiness => match ev {
            SetupEvent::Readiness(Ok(r)) => if !r.elevated {
                Some("Hyper-V setup requires elevated host privileges"@)
            } else if !r.hyperv_available {
                Some("Hyper-V is not available on this host"@)
            } else if !r.vmms_running {
                Some("Hyper-V vmms service is not running"@)
            } else {
                None
            },
            _ => None,
        },
        SetupStep::LocateVmcx => match ev {
            SetupEvent::VmcxCandidates { directory, candidates: Ok(c) } => if c@.len() == 0 {
                Some("No .vmcx file found under "@ + directory@)
            } else if c@.len() > 1 {
                Some("Multiple .vmcx files found under "@ + directory@)
            } else {
                None
            },
            _ => None,
        },
        SetupStep::DetectExistingVm => match ev {
            SetupEvent::ExistingVm(Ok(Some(vm))) => if !request.replace_existing_vm {
                Some(existing_vm_message(vm.name@))
            } else {
                None
            },
            _ => None,
        },
        SetupStep::ProbeDestination => match ev {
            SetupEvent::DestinationExists(true) => if !request.clear_destination {
                Some("VM destination already exists: "@ + request.destination_path@)
            } else {
                None
            },
            _ => None,
        },
        SetupStep::CompareImport => match ev {
            SetupEvent::Compatibility(Ok(rep)) => if !rep.compatible {
                Some("VM import compatibility failed: "@ + semicolon_joined(view_seq(rep.incompatibilities@)))
            } else {
                None
            },
            _ => None,
        },
        _ => None,
    }
}

/// The message refusing to replace an existing VM.
pub open spec fn existing_vm_message(name: Seq<char>) -> Seq<char> {
    "VM '"@ + name + "' already exists and replacement was not requested"@
}

/// Whether `step` comes after the VM configuration was located.
pub open spec fn past_locate(step: SetupStep) -> bool {
    !(step == SetupStep::CheckReadiness || step == SetupStep::LocateVmcx || step == SetupStep::Failed)
}

/// Whether `step` comes after the VM was imported.
pub open spec fn past_import(step: SetupStep) -> bool {
    step == SetupStep::EnsureSwitch || past_switch(step)
}

/// Whether `step` comes after the switch was prepared.
pub open spec fn past_switch(step: SetupStep) -> bool {
    step == SetupStep::ConnectSwitch || step == SetupStep::ResizeVhd || step == SetupStep::SetFirstBoot
        || step == SetupStep::SetMemory || step == SetupStep::StartVm || step == SetupStep::Finished
}

impl HyperVSetupFlow {
    /// The results the flow holds are those its step has passed.
    pub open spec fn wf(self) -> bool {
        &&& past_locate(self.step) ==> self.vmcx_path is Some
        &&& past_import(self.step) ==> self.imported is Some
        &&& past_switch(self.step) ==> self.switch is Some
    }

    /// The call requested on entering `step`.
    fn call_for(&self, step: SetupStep) -> (r: SetupCall)
        requires
            step != SetupStep::Finished && step != SetupStep::Failed,
            step == SetupStep::CompareImport || step == SetupStep::ImportVm ==> self.vmcx_path is Some,
            step == SetupStep::ConnectSwitch ==> self.imported is Some && self.switch is Some,
            step == SetupStep::ResizeVhd || step == SetupStep::SetFirstBoot || step == SetupStep::SetMemory
                || step == SetupStep::StartVm ==> self.imported is Some,
        ensures
            call_matches(r, step, *self),
    {
        let req = &self.request;
        match step {
            SetupStep::CheckReadiness => SetupCall::CheckReadiness,
            SetupStep::LocateVmcx => SetupCall::ListVmcx { install_path: req.install_path.clone() },
            SetupStep::DetectExistingVm => SetupCall::GetVm { name: req.vm_name.clone() },
            SetupStep::StopExistingVm => SetupCall::StopVm { name: req.vm_name.clone(), turn_off: true },
            SetupStep::RemoveExistingVm => SetupCall::RemoveVm { name: req.vm_name.clone() },
            SetupStep::ProbeDestination => SetupCall::ProbeDestination { path: req.destination_path.clone() },
            SetupStep::ClearDestination => SetupCall::ClearDestination { path: req.destination_path.clone() },
            SetupStep::CompareImport => SetupCall::CompareImport(
                VmImportRequest {
                    vmcx_path: self.vmcx_path.as_ref().unwrap().clone(),
                    destination_path: req.destination_path.clone(),
                },
            ),
            SetupStep::ImportVm => SetupCall::ImportVm(
                VmImportRequest {
                    vmcx_path: self.vmcx_path.as_ref().unwrap().clone(),
                    destination_path: req.destination_path.clone(),
                },
            ),
            SetupStep::EnsureSwitch => SetupCall::EnsureSwitch(
                EnsureSwitchRequest { switch_name: req.switch_name.clone(), adapter_name: req.adapter_name.clone() },
            ),
            SetupStep::ConnectSwitch => SetupCall::ConnectAdapter {
                vm_name: self.imported.as_ref().unwrap().name.clone(),
                switch_name: self.switch.as_ref().unwrap().name.clone(),
            },
            SetupStep::ResizeVhd => SetupCall::ResizeVhd {
                vm_name: self.imported.as_ref().unwrap().name.clone(),
                size_bytes: req.disk_size_bytes,
            },
            SetupStep::SetFirstBoot => SetupCall::SetFirstBootDisk { vm_name: self.imported.as_ref().unwrap().name.clone() },
            SetupStep::SetMemory => SetupCall::SetStartupMemory {
                vm_name: self.imported.as_ref().unwrap().name.clone(),
                bytes: req.memory.bytes(),
            },
            _ => SetupCall::StartVm { name: self.imported.as_ref().unwrap().name.clone() },
        }
    }

    /// Moves to `step` (not an end) and requests its work.
    fn enter(&mut self, step: SetupStep) -> (a: SetupAction)
        requires
            step != SetupStep::Finished && step != SetupStep::Failed,
            step == SetupStep::CompareImport || step == SetupStep::ImportVm ==> old(self).vmcx_path is Some,
            step == SetupStep::ConnectSwitch ==> old(self).imported is Some && old(self).switch is Some,
            step == SetupStep::ResizeVhd || step == SetupStep::SetFirstBoot || step == SetupStep::SetMemory
                || step == SetupStep::StartVm ==> old(self).imported is Some,
        ensures
            final(self).step == step,
            final(self).request == old(self).request,
            final(self).vmcx_path == old(self).vmcx_path,
            final(self).imported == old(self).imported,
            final(self).switch == old(self).switch,
            action_fits(a, *final(self)),
    {
        self.step = step;
        let call = self.call_for(step);
        SetupAction { event: event_for(step), next: SetupNext::Call(call) }
    }

    /// Ends the flow with `err`.
    fn fail(&mut self, err: CommandFailure) -> (a: SetupAction)
        requires
            old(self).wf(),
        ensures
            final(self).wf(),
            final(self).step == SetupStep::Failed,
            final(self).request == old(self).request,
            final(self).vmcx_path == old(self).vmcx_path,
            final(self).imported == old(self).imported,
            final(self).switch == old(self).switch,
            action_fits(a, *final(self)),
            a.next == SetupNext::Failed(err),
    {
        self.step = SetupStep::Failed;
        SetupAction { event: None, next: SetupNext::Failed(err) }
    }

    /// Starts an import: checks the request, then asks for host readiness.
    pub fn start(request: HyperVVmSetupRequest, facts: &SetupPathFacts) -> (r: (HyperVSetupFlow, SetupAction))
        ensures
            r.0.request == request,
            r.0.vmcx_path is None && r.0.imported is None && r.0.switch is None,
            request_problem(request, *facts) is None ==> r.0.step == SetupStep::CheckReadiness,
            request_problem(request, *facts) is Some ==> r.0.step == SetupStep::Failed && (r.1.next matches SetupNext::Failed(
                e) && e.message@ == request_problem(request, *facts)->0),
            action_fits(r.1, r.0),
            r.0.wf(),
    {
        let checked = request.validate(facts);
        let mut flow = HyperVSetupFlow {
            request,
            step: SetupStep::CheckReadiness,
            vmcx_path: None,
            imported: None,
            switch: None,
        };
        let action = match checked {
            Err(e) => flow.fail(e),
            Ok(()) => flow.enter(SetupStep::CheckReadiness),
        };
        (flow, action)
    }

    /// Takes the result of the requested work and decides what happens next.
    pub fn advance(&mut self, ev: SetupEvent) -> (a: SetupAction)
        requires
            old(self).wf(),
        ensures
            final(self).wf(),
            final(self).step == next_step(old(self).step, ev, old(self).request.replace_existing_vm, old(self).request.clear_destination),
            final(self).request == old(self).request,
            text_option(final(self).vmcx_path) == recorded_vmcx(old(self).step, ev, text_option(old(self).vmcx_path)),
            final(self).imported == recorded_import(old(self).step, ev, old(self).imported),
            final(self).switch == recorded_switch(old(self).step, ev, old(self).switch),
            action_fits(a, *final(self)),
            event_error(ev) matches Some(e) ==> a.next == SetupNext::Failed(e),
            refusal(old(self).step, ev, old(self).request) matches Some(m) ==> (a.next matches SetupNext::Failed(f)
                && f.message@ == m),
    {
        match self.step {
            SetupStep::CheckReadiness => match ev {
                SetupEvent::Readiness(Ok(r)) => {
                    if !r.elevated {
                        self.fail(failure_str("Hyper-V setup requires elevated host privileges"))
                    } else if !r.hyperv_available {
                        self.fail(failure_str("Hyper-V is not available on this host"))
                    } else if !r.vmms_running {
                        self.fail(failure_str("Hyper-V vmms service is not running"))
                    } else {
                        self.enter(SetupStep::LocateVmcx)
                    }
                },
                SetupEvent::Readiness(Err(e)) => self.fail(e),
                _ => self.unexpected(ev),
            },
            SetupStep::LocateVmcx => match ev {
                SetupEvent::VmcxCandidates { directory, candidates: Ok(c) } => {
                    if c.len() == 1 {
                        self.vmcx_path = Some(c[0].clone());
                        self.enter(SetupStep::DetectExistingVm)
                    } else if c.len() == 0 {
                        self.fail(prefixed_failure("No .vmcx file found under ", &directory))
                    } else {
                        self.fail(prefixed_failure("Multiple .vmcx files found under ", &directory))
                    }
                },
                SetupEvent::VmcxCandidates { candidates: Err(e), .. } => self.fail(e),
                _ => self.unexpected(ev),
            },
            SetupStep::DetectExistingVm => match ev {
                SetupEvent::ExistingVm(Ok(None)) => self.enter(SetupStep::ProbeDestination),
                SetupEvent::ExistingVm(Ok(Some(vm))) => {
                    if !self.request.replace_existing_vm {
                        self.fail(message3("VM '", vm.name.as_str(), "' already exists and replacement was not requested"))
                    } else {
                        match vm.state {
                            VmPowerState::Running => self.enter(SetupStep::StopExistingVm),
                            _ => self.enter(SetupStep::RemoveExistingVm),
                        }
                    }
                },
                SetupEvent::ExistingVm(Err(e)) => self.fail(e),
                _ => self.unexpected(ev),
            },
            SetupStep::StopExistingVm => self.after_done(ev, SetupStep::RemoveExistingVm),
            SetupStep::RemoveExistingVm => self.after_done(ev, SetupStep::ProbeDestination),
            SetupStep::ProbeDestination => match ev {
                SetupEvent::DestinationExists(exists) => {
                    if !exists {
                        self.enter_with_vmcx(SetupStep::CompareImport)
                    } else if self.request.clear_destination {
                        self.enter(SetupStep::ClearDestination)
                    } else {
                        let path = self.request.destination_path.clone();
                        self.fail(prefixed_failure("VM destination already exists: ", &path))
                    }
                },
                _ => self.unexpected(ev),
            },
            SetupStep::ClearDestination => match ev {
                SetupEvent::Done(Ok(())) => self.enter_with_vmcx(SetupStep::CompareImport),
                SetupEvent::Done(Err(e)) => self.fail(e),
                _ => self.unexpected(ev),
            },
            SetupStep::CompareImport => match ev {
                SetupEvent::Compatibility(Ok(rep)) => {
                    if rep.compatible {
                        self.enter_with_vmcx(SetupStep::ImportVm)
                    } else {
                        let reasons = join_semicolon(&rep.incompatibilities);
                        self.fail(prefixed_failure("VM import compatibility failed: ", &reasons))
                    }
                },
                SetupEvent::Compatibility(Err(e)) => self.fail(e),
                _ => self.unexpected(ev),
            },
            SetupStep::ImportVm => match ev {
                SetupEvent::Imported(Ok(vm)) => {
                    self.imported = Some(vm);
                    self.enter(SetupStep::EnsureSwitch)
                },
                SetupEvent::Imported(Err(e)) => self.fail(e),
                _ => self.unexpected(ev),
            },
            SetupStep::EnsureSwitch => match ev {
                SetupEvent::Switch(Ok(sw)) => {
                    self.switch = Some(sw);
                    if self.imported.is_some() {
                        self.enter(SetupStep::ConnectSwitch)
                    } else {
                        self.fail(failure_str("Hyper-V setup has no imported VM"))
                    }
                },
                SetupEvent::Switch(Err(e)) => self.fail(e),
                _ => self.unexpected(ev),
            },
            SetupStep::ConnectSwitch => self.after_done_with_vm(ev, SetupStep::ResizeVhd),
            SetupStep::ResizeVhd => self.after_done_with_vm(ev, SetupStep::SetFirstBoot),
            SetupStep::SetFirstBoot => self.after_done_with_vm(ev, SetupStep::SetMemory),
            SetupStep::SetMemory => self.after_done_with_vm(ev, SetupStep::StartVm),
            SetupStep::StartVm => match ev {
                SetupEvent::Done(Ok(())) => {
                    match (&self.imported, &self.switch, &self.vmcx_path) {
                        (Some(vm), Some(sw), Some(v)) => {
                            let result = HyperVVmSetupResult {
                                vm_name: vm.name.clone(),
                                destination_path: self.request.destination_path.clone(),
                                switch_name: sw.name.clone(),
                                vmcx_path: v.clone(),
                            };
                            self.step = SetupStep::Finished;
                            SetupAction { event: None, next: SetupNext::Finished(result) }
                        },
                        _ => self.fail(failure_str("Hyper-V setup finished without an imported VM")),
                    }
                },
                SetupEvent::Done(Err(e)) => self.fail(e),
                _ => self.unexpected(ev),
            },
            _ => self.unexpected(ev),
        }
    }

    /// A result that does not belong to the awaited work ends the flow.
    fn unexpected(&mut self, ev: SetupEvent) -> (a: SetupAction)
        requires
            old(self).wf(),
        ensures
            final(self).wf(),
            final(self).step == SetupStep::Failed,
            final(self).request == old(self).request,
            final(self).vmcx_path == old(self).vmcx_path,
            final(self).imported == old(self).imported,
            final(self).switch == old(self).switch,
            action_fits(a, *final(self)),
            event_error(ev) matches Some(e) ==> a.next == SetupNext::Failed(e),
    {
        match ev {
            SetupEvent::Readiness(Err(e)) => self.fail(e),
            SetupEvent::VmcxCandidates { candidates: Err(e), .. } => self.fail(e),
            SetupEvent::ExistingVm(Err(e)) => self.fail(e),
            SetupEvent::Compatibility(Err(e)) => self.fail(e),
            SetupEvent::Imported(Err(e)) => self.fail(e),
            SetupEvent::Switch(Err(e)) => self.fail(e),
            SetupEvent::Done(Err(e)) => self.fail(e),
            _ => self.fail(failure_str("Hyper-V setup received a result for a different step")),
        }
    }

    fn after_done(&mut self, ev: SetupEvent, next: SetupStep) -> (a: SetupAction)
        requires
            old(self).wf(),
            past_locate(old(self).step),
            next == SetupStep::RemoveExistingVm || next == SetupStep::ProbeDestination,
        ensures
            final(self).wf(),
            final(self).step == (if ev matches SetupEvent::Done(Ok(_)) {
                next
            } else {
                SetupStep::Failed
            }),
            final(self).request == old(self).request,
            final(self).vmcx_path == old(self).vmcx_path,
            final(self).imported == old(self).imported,
            final(self).switch == old(self).switch,
            action_fits(a, *final(self)),
            event_error(ev) matches Some(e) ==> a.next == SetupNext::Failed(e),
    {
        match ev {
            SetupEvent::Done(Ok(())) => self.enter(next),
            _ => self.unexpected(ev),
        }
    }

    fn after_done_with_vm(&mut self, ev: SetupEvent, next: SetupStep) -> (a: SetupAction)
        requires
            old(self).wf(),
            past_switch(old(self).step),
            next == SetupStep::ResizeVhd || next == SetupStep::SetFirstBoot || next == SetupStep::SetMemory
                || next == SetupStep::StartVm,
        ensures
            final(self).wf(),
            final(self).step == (if ev matches SetupEvent::Done(Ok(_)) && old(self).imported is Some {
                next
            } else {
                SetupStep::Failed
            }),
            final(self).request == old(self).request,
            final(self).vmcx_path == old(self).vmcx_path,
            final(self).imported == old(self).imported,
            final(self).switch == old(self).switch,
            action_fits(a, *final(self)),
            event_error(ev) matches Some(e) ==> a.next == SetupNext::Failed(e),
    {
        match ev {
            SetupEvent::Done(Ok(())) => {
                if self.imported.is_some() {
                    self.enter(next)
                } else {
                    self.fail(failure_str("Hyper-V setup has no imported VM"))
                }
            },
            _ => self.unexpected(ev),
        }
    }

    fn enter_with_vmcx(&mut self, next: SetupStep) -> (a: SetupAction)
        requires
            old(self).wf(),
            past_locate(old(self).step),
            next == SetupStep::CompareImport || next == SetupStep::ImportVm,
        ensures
            final(self).wf(),
            final(self).step == (if old(self).vmcx_path is Some {
                next
            } else {
                SetupStep::Failed
            }),
            final(self).request == old(self).request,
            final(self).vmcx_path == old(self).vmcx_path,
            final(self).imported == old(self).imported,
            final(self).switch == old(self).switch,
            action_fits(a, *final(self)),
    {
        if self.vmcx_path.is_some() {
            self.enter(next)
        } else {
            self.fail(failure_str("Hyper-V setup has no VM configuration"))
        }
    }
}

/// The file-system work of an import.
///
/// Each implementation names, in three relations, which answers it gives; an
/// implementation that names none is given unknown ones.
pub trait SetupFiles {
    /// `r` is an answer this implementation gives to listing the packaged VM
    /// directory of `install_path`.
    open spec fn listing_answer(&self, install_path: Seq<char>, r: (String, CommandResult<Vec<DirectoryEntry>>)) -> bool {
        unknown_relation((31int, install_path, r))
    }

    /// `b` is an answer this implementation gives to whether `path` exists.
    open spec fn existence_answer(&self, path: Seq<char>, b: bool) -> bool {
        unknown_relation((32int, path, b))
    }

    /// `r` is an answer this implementation gives to clearing the directory `path`.
    open spec fn clearing_answer(&self, path: Seq<char>, r: CommandResult<()>) -> bool {
        unknown_relation((33int, path, r))
    }

    /// The entries of `<install_path>/Virtual Machines`, with that directory as displayed.
    fn vm_directory_entries(&self, install_path: &str) -> (r: (String, CommandResult<Vec<DirectoryEntry>>))
        ensures
            self.listing_answer(install_path@, r),
    ;

    /// Whether `path` exists.
    fn path_exists(&self, path: &str) -> (b: bool)
        ensures
            self.existence_answer(path@, b),
    ;

    /// Removes the directory `path` and its contents.
    fn clear_directory(&self, path: &str) -> (r: CommandResult<()>)
        ensures
            self.clearing_answer(path@, r),
    ;
}

/// How far a step is from the end of the flow; every step moves closer.
pub open spec fn steps_left(step: SetupStep) -> nat {
    match step {
        SetupStep::CheckReadiness => 16,
        SetupStep::LocateVmcx => 15,
        SetupStep::DetectExistingVm => 14,
        SetupStep::StopExistingVm => 13,
        SetupStep::RemoveExistingVm => 12,
        SetupStep::ProbeDestination => 11,
        SetupStep::ClearDestination => 10,
        SetupStep::CompareImport => 9,
        SetupStep::ImportVm => 8,
        SetupStep::EnsureSwitch => 7,
        SetupStep::ConnectSwitch => 6,
        SetupStep::ResizeVhd => 5,
        SetupStep::SetFirstBoot => 4,
        SetupStep::SetMemory => 3,
        SetupStep::StartVm => 2,
        SetupStep::Finished => 1,
        SetupStep::Failed => 0,
    }
}

/// `ev` is the kind of result that the work `call` gives back; a listing of
/// packaged configurations holds the sorted `.vmcx` entries of a directory
/// listing.
pub open spec fn answers(call: SetupCall, ev: SetupEvent) -> bool {
    match call {
        SetupCall::CheckReadiness => ev is Readiness,
        SetupCall::ListVmcx { .. } => match ev {
            SetupEvent::VmcxCandidates { candidates, .. } => match candidates {
                Ok(c) => exists|es: Seq<(Seq<char>, Option<Seq<char>>)>|
                    #[trigger] sort_by_key::<String>(vmcx_entries(es)) == view_seq(c@),
                Err(_) => true,
            },
            _ => false,
        },
        SetupCall::GetVm { .. } => ev is ExistingVm,
        SetupCall::StopVm { .. } => ev is Done,
        SetupCall::RemoveVm { .. } => ev is Done,
        SetupCall::ProbeDestination { .. } => ev is DestinationExists,
        SetupCall::ClearDestination { .. } => ev is Done,
        SetupCall::CompareImport(_) => ev is Compatibility,
        SetupCall::ImportVm(_) => ev is Imported,
        SetupCall::EnsureSwitch(_) => ev is Switch,
        SetupCall::ConnectAdapter { .. } => ev is Done,
        SetupCall::ResizeVhd { .. } => ev is Done,
        SetupCall::SetFirstBootDisk { .. } => ev is Done,
        SetupCall::SetStartupMemory { .. } => ev is Done,
        SetupCall::StartVm { .. } => ev is Done,
    }
}

/// `path` is the one `.vmcx` file of some directory listing: the sorted
/// `.vmcx` entries of that listing are `path` alone.
pub open spec fn sole_vmcx_of_a_listing(path: Seq<char>) -> bool {
    exists|es: Seq<(Seq<char>, Option<Seq<char>>)>| #[trigger] sort_by_key::<String>(vmcx_entries(es)) == seq![path]
}

proof fn lemma_single_candidate(c: Seq<String>)
    requires
        c.len() == 1,
        exists|es: Seq<(Seq<char>, Option<Seq<char>>)>| #[trigger] sort_by_key::<String>(vmcx_entries(es)) == view_seq(c),
    ensures
        sole_vmcx_of_a_listing(c[0]@),
{
    let es = choose|es: Seq<(Seq<char>, Option<Seq<char>>)>| #[trigger] sort_by_key::<String>(vmcx_entries(es)) == view_seq(c);
    assert(view_seq(c) =~= seq![c[0]@]);
    assert(sort_by_key::<String>(vmcx_entries(es)) == seq![c[0]@]);
}

/// `candidates` are the sorted `.vmcx` entries of a listing that `files` gave
/// for the packaged VM directory of `install_path`, shown as `directory`, or
/// the failure it gave.
pub open spec fn listed_candidates<F: SetupFiles>(
    files: &F,
    install_path: Seq<char>,
    directory: String,
    candidates: CommandResult<Vec<String>>,
) -> bool {
    match candidates {
        Ok(c) => exists|entries: Vec<DirectoryEntry>| #[trigger]
            files.listing_answer(install_path, (directory, Ok(entries)))
                && sort_by_key::<String>(vmcx_entries(view_seq(entries@))) == view_seq(c@),
        Err(e) => files.listing_answer(install_path, (directory, Err(e))),
    }
}

/// `ev` is the result of carrying out `call` on `host`, `vm` and `files`: the
/// answer of the one provider method that does that work, given that call's
/// own arguments. A listing of packaged configurations holds the sorted
/// `.vmcx` entries of the listing the files gave for the call's install path.
pub open spec fn carried_out<H: HostProvider, V: VmProvider, F: SetupFiles>(
    host: &H,
    vm: &V,
    files: &F,
    call: SetupCall,
    ev: SetupEvent,
) -> bool {
    match call {
        SetupCall::CheckReadiness => match ev {
            SetupEvent::Readiness(r) => host.readiness_answer(r),
            _ => false,
        },
        SetupCall::ListVmcx { install_path } => match ev {
            SetupEvent::VmcxCandidates { directory, candidates } => listed_candidates(
                files,
                install_path@,
                directory,
                candidates,
            ),
            _ => false,
        },
        SetupCall::GetVm { name } => match ev {
            SetupEvent::ExistingVm(r) => vm.vm_lookup(name@, r),
            _ => false,
        },
        SetupCall::StopVm { name, turn_off } => match ev {
            SetupEvent::Done(r) => vm.stop_answer(name@, turn_off, r),
            _ => false,
        },
        SetupCall::RemoveVm { name } => match ev {
            SetupEvent::Done(r) => vm.removal_answer(name@, r),
            _ => false,
        },
        SetupCall::ProbeDestination { path } => match ev {
            SetupEvent::DestinationExists(b) => files.existence_answer(path@, b),
            _ => false,
        },
        SetupCall::ClearDestination { path } => match ev {
            SetupEvent::Done(r) => files.clearing_answer(path@, r),
            _ => false,
        },
        SetupCall::CompareImport(request) => match ev {
            SetupEvent::Compatibility(r) => vm.comparison_answer(request.vmcx_path@, request.destination_path@, r),
            _ => false,
        },
        SetupCall::ImportVm(request) => match ev {
            SetupEvent::Imported(r) => vm.import_answer(request.vmcx_path@, request.destination_path@, r),
            _ => false,
        },
        SetupCall::EnsureSwitch(request) => match ev {
            SetupEvent::Switch(r) => vm.switch_answer(request.switch_name@, request.adapter_name@, r),
            _ => false,
        },
        SetupCall::ConnectAdapter { vm_name, switch_name } => match ev {
            SetupEvent::Done(r) => vm.connection_answer(vm_name@, switch_name@, r),
            _ => false,
        },
        SetupCall::ResizeVhd { vm_name, size_bytes } => match ev {
            SetupEvent::Done(r) => vm.resize_answer(vm_name@, size_bytes, r),
            _ => false,
        },
        SetupCall::SetFirstBootDisk { vm_name } => match ev {
            SetupEvent::Done(r) => vm.first_boot_answer(vm_name@, r),
            _ => false,
        },
        SetupCall::SetStartupMemory { vm_name, bytes } => match ev {
            SetupEvent::Done(r) => vm.memory_answer(vm_name@, bytes, r),
            _ => false,
        },
        SetupCall::StartVm { name } => match ev {
            SetupEvent::Done(r) => vm.start_answer(name@, r),
            _ => false,
        },
    }
}

/// Whether `step` comes after the work of step `x` succeeded.
pub open spec fn beyond(step: SetupStep, x: SetupStep) -> bool {
    step != SetupStep::Failed && steps_left(step) < steps_left(x)
}

/// The VM work a flow in state `f` has passed, as `vm` answered it: the import
/// of its configuration into the destination gave the VM it holds, preparing
/// the requested switch gave the switch it holds, and connecting, sizing the
/// disk, setting the boot disk and the memory and starting succeeded with the
/// held names and the request's sizes.
pub open spec fn vm_work_done<V: VmProvider>(vm: &V, f: HyperVSetupFlow) -> bool {
    let req = f.request;
    let name = f.imported->0.name@;
    &&& beyond(f.step, SetupStep::ImportVm) ==> f.imported is Some && f.vmcx_path is Some && vm.import_answer(
        f.vmcx_path->0@,
        req.destination_path@,
        Ok(f.imported->0),
    )
    &&& beyond(f.step, SetupStep::EnsureSwitch) ==> f.switch is Some && vm.switch_answer(
        req.switch_name@,
        req.adapter_name@,
        Ok(f.switch->0),
    )
    &&& beyond(f.step, SetupStep::ConnectSwitch) ==> (exists|r: CommandResult<()>| #[trigger] vm.connection_answer(name, f.switch->0.name@, r) && r is Ok)
    &&& beyond(f.step, SetupStep::ResizeVhd) ==> (exists|r: CommandResult<()>| #[trigger] vm.resize_answer(name, req.disk_size_bytes, r) && r is Ok)
    &&& beyond(f.step, SetupStep::SetFirstBoot) ==> (exists|r: CommandResult<()>| #[trigger] vm.first_boot_answer(name, r) && r is Ok)
    &&& beyond(f.step, SetupStep::SetMemory) ==> (exists|r: CommandResult<()>| #[trigger] vm.memory_answer(name, memory_bytes(req.memory), r) && r is Ok)
    &&& beyond(f.step, SetupStep::StartVm) ==> (exists|r: CommandResult<()>| #[trigger] vm.start_answer(name, r) && r is Ok)
}

/// What a flow in state `f` has passed before its import, as the providers
/// answered it: the host reported itself ready; looking up the requested VM
/// found none, or found one that replacement was requested for, which was
/// stopped (when running) and removed once the flow passed those steps; the
/// destination was missing, or was there with clearing requested and was
/// cleared once the flow passed that step; and the package was found
/// compatible.
pub open spec fn checks_done<H: HostProvider, V: VmProvider, F: SetupFiles>(host: &H, vm: &V, files: &F, f: HyperVSetupFlow) -> bool {
    let req = f.request;
    &&& beyond(f.step, SetupStep::CheckReadiness) ==> reported_ready(host)
    &&& beyond(f.step, SetupStep::DetectExistingVm) ==> existing_vm_handled(vm, req, f.step)
    &&& beyond(f.step, SetupStep::ProbeDestination) ==> destination_handled(files, req, f.step)
    &&& beyond(f.step, SetupStep::CompareImport) ==> f.vmcx_path is Some && found_compatible(
        vm,
        f.vmcx_path->0@,
        req.destination_path@,
    )
}

/// `host` reported itself elevated, with Hyper-V available and its VM service running.
pub open spec fn reported_ready<H: HostProvider>(host: &H) -> bool {
    exists|rd: HostReadiness| #[trigger] host.readiness_answer(Ok(rd)) && rd.elevated && rd.hyperv_available
        && rd.vmms_running
}

/// `vm` found the package `vmcx_path` compatible with an import into `destination_path`.
pub open spec fn found_compatible<V: VmProvider>(vm: &V, vmcx_path: Seq<char>, destination_path: Seq<char>) -> bool {
    exists|rep: VmCompatibilityReport| #[trigger] vm.comparison_answer(vmcx_path, destination_path, Ok(rep))
        && rep.compatible
}

/// Looking up the requested VM found none, or found one that replacement was
/// requested for; a running one was stopped (turned off) once the flow is
/// past stopping, and it was removed once the flow is past removing.
pub open spec fn existing_vm_handled<V: VmProvider>(vm: &V, req: HyperVVmSetupRequest, step: SetupStep) -> bool {
    exists|found: Option<VmInventoryRecord>| #[trigger] vm.vm_lookup(req.vm_name@, Ok(found)) && match found {
        None => true,
        Some(v) => {
            &&& req.replace_existing_vm
            &&& v.state == VmPowerState::Running && beyond(step, SetupStep::StopExistingVm) ==> (exists|
                r: CommandResult<()>,
            | #[trigger] vm.stop_answer(req.vm_name@, true, r) && r is Ok)
            &&& beyond(step, SetupStep::RemoveExistingVm) ==> (exists|r: CommandResult<()>| #[trigger] vm.removal_answer(
                req.vm_name@,
                r,
            ) && r is Ok)
        },
    }
}

/// The destination was reported missing, or present with clearing requested,
/// and cleared once the flow is past clearing.
pub open spec fn destination_handled<F: SetupFiles>(files: &F, req: HyperVVmSetupRequest, step: SetupStep) -> bool {
    exists|present: bool| #[trigger] files.existence_answer(req.destination_path@, present) && (present ==> {
        &&& req.clear_destination
        &&& beyond(step, SetupStep::ClearDestination) ==> (exists|r: CommandResult<()>| #[trigger] files.clearing_answer(
            req.destination_path@,
            r,
        ) && r is Ok)
    })
}

/// `vm` answered the import of `vmcx_path` into `destination_path` with a VM named `name`.
pub open spec fn imported_as<V: VmProvider>(vm: &V, vmcx_path: Seq<char>, destination_path: Seq<char>, name: Seq<char>) -> bool {
    exists|v: ImportedVm| #[trigger] vm.import_answer(vmcx_path, destination_path, Ok(v)) && v.name@ == name
}

/// `vm` answered preparing `switch_name` on `adapter_name` with a switch named `name`.
pub open spec fn switch_prepared_as<V: VmProvider>(vm: &V, switch_name: Seq<char>, adapter_name: Seq<char>, name: Seq<char>) -> bool {
    exists|sw: ExternalSwitch| #[trigger] vm.switch_answer(switch_name, adapter_name, Ok(sw)) && sw.name@ == name
}

/// What stands behind a finished import of `request` that gave `res`, as `vm`
/// answered it: importing the configuration `res.vmcx_path` into the
/// request's destination gave the VM `res.vm_name`; preparing the requested
/// switch on the requested adapter gave `res.switch_name`; and connecting that
/// VM to that switch, sizing its first disk to the request's size, making it
/// the boot disk, setting its startup memory to the request's profile and
/// starting it all succeeded.
pub open spec fn prepared_by<V: VmProvider>(vm: &V, request: HyperVVmSetupRequest, res: HyperVVmSetupResult) -> bool {
    &&& imported_as(vm, res.vmcx_path@, request.destination_path@, res.vm_name@)
    &&& switch_prepared_as(vm, request.switch_name@, request.adapter_name@, res.switch_name@)
    &&& (exists|r: CommandResult<()>| #[trigger] vm.connection_answer(res.vm_name@, res.switch_name@, r) && r is Ok)
    &&& (exists|r: CommandResult<()>| #[trigger] vm.resize_answer(res.vm_name@, request.disk_size_bytes, r) && r is Ok)
    &&& (exists|r: CommandResult<()>| #[trigger] vm.first_boot_answer(res.vm_name@, r) && r is Ok)
    &&& (exists|r: CommandResult<()>| #[trigger] vm.memory_answer(res.vm_name@, memory_bytes(request.memory), r) && r is Ok)
    &&& (exists|r: CommandResult<()>| #[trigger] vm.start_answer(res.vm_name@, r) && r is Ok)
}

/// One step of a flow keeps the record of the VM work it has passed.
proof fn lemma_vm_work_advances<H: HostProvider, V: VmProvider, F: SetupFiles>(
    host: &H,
    vm: &V,
    files: &F,
    before: HyperVSetupFlow,
    call: SetupCall,
    ev: SetupEvent,
    after: HyperVSetupFlow,
)
    requires
        before.wf(),
        after.wf(),
        vm_work_done(vm, before),
        checks_done(host, vm, files, before),
        call_matches(call, before.step, before),
        carried_out(host, vm, files, call, ev),
        after.request == before.request,
        after.step == next_step(before.step, ev, before.request.replace_existing_vm, before.request.clear_destination),
        text_option(after.vmcx_path) == recorded_vmcx(before.step, ev, text_option(before.vmcx_path)),
        after.imported == recorded_import(before.step, ev, before.imported),
        after.switch == recorded_switch(before.step, ev, before.switch),
    ensures
        vm_work_done(vm, after),
        checks_done(host, vm, files, after),
{
    if before.vmcx_path is Some && before.step != SetupStep::LocateVmcx {
        assert(text_option(after.vmcx_path) == text_option(before.vmcx_path));
        assert(after.vmcx_path is Some && after.vmcx_path->0@ == before.vmcx_path->0@);
    }
}

impl<H: HostProvider, V: VmProvider> HyperVVmSetupOrchestrator<H, V> {
    /// Carries out one piece of work.
    fn perform<F: SetupFiles>(&self, files: &F, call: SetupCall) -> (ev: SetupEvent)
        ensures
            answers(call, ev),
            carried_out(&self.host, &self.vm, files, call, ev),
    {
        match call {
            SetupCall::CheckReadiness => SetupEvent::Readiness(self.host.readiness()),
            SetupCall::ListVmcx { install_path } => {
                let (directory, entries) = files.vm_directory_entries(install_path.as_str());
                let candidates = match entries {
                    Ok(entries) => {
                        let ghost es = view_seq(entries@);
                        let ghost kept = entries;
                        let c = packaged_vmcx_candidates(entries);
                        assert(sort_by_key::<String>(vmcx_entries(es)) == view_seq(c@));
                        assert(files.listing_answer(install_path@, (directory, Ok(kept))));
                        Ok(c)
                    },
                    Err(e) => Err(e),
                };
                assert(listed_candidates(files, install_path@, directory, candidates));
                SetupEvent::VmcxCandidates { directory, candidates }
            },
            SetupCall::GetVm { name } => SetupEvent::ExistingVm(self.vm.get_vm(name.as_str())),
            SetupCall::StopVm { name, turn_off } => SetupEvent::Done(self.vm.stop_vm(name.as_str(), turn_off)),
            SetupCall::RemoveVm { name } => SetupEvent::Done(self.vm.remove_vm(name.as_str())),
            SetupCall::ProbeDestination { path } => SetupEvent::DestinationExists(files.path_exists(path.as_str())),
            SetupCall::ClearDestination { path } => SetupEvent::Done(files.clear_directory(path.as_str())),
            SetupCall::CompareImport(request) => SetupEvent::Compatibility(self.vm.compare_import(&request)),
            SetupCall::ImportVm(request) => SetupEvent::Imported(self.vm.import_vm(&request)),
            SetupCall::EnsureSwitch(request) => SetupEvent::Switch(self.vm.ensure_external_switch(&request)),
            SetupCall::ConnectAdapter { vm_name, switch_name } => SetupEvent::Done(
                self.vm.connect_network_adapter(vm_name.as_str(), switch_name.as_str()),
            ),
            SetupCall::ResizeVhd { vm_name, size_bytes } => SetupEvent::Done(
                self.vm.resize_first_vhd(vm_name.as_str(), size_bytes),
            ),
            SetupCall::SetFirstBootDisk { vm_name } => SetupEvent::Done(self.vm.set_first_boot_disk(vm_name.as_str())),
            SetupCall::SetStartupMemory { vm_name, bytes } => SetupEvent::Done(
                self.vm.set_startup_memory(vm_name.as_str(), bytes),
            ),
            SetupCall::StartVm { name } => SetupEvent::Done(self.vm.start_vm(name.as_str())),
        }
    }

    /// Imports the packaged VM into `request.destination_path`, connects it to
    /// the external switch, sizes its disk and memory, makes the disk its first
    /// boot device and starts it, reporting progress to `sink`. `facts` is what
    /// the file system said about the request's paths; a request they refuse
    /// fails before any work.
    pub fn import_and_prepare_vm<F: SetupFiles, S: OperationSink>(
        &self,
        files: &F,
        facts: &SetupPathFacts,
        request: HyperVVmSetupRequest,
        sink: &mut S,
    ) -> (r: CommandResult<HyperVVmSetupResult>)
        ensures
            request_problem(request, *facts) matches Some(m) ==> (r matches Err(e) && e.message@ == m),
            r matches Ok(res) ==> request_problem(request, *facts) is None
                && res.destination_path@ == request.destination_path@
                && sole_vmcx_of_a_listing(res.vmcx_path@)
                && prepared_by(&self.vm, request, res)
                && reported_ready(&self.host)
                && existing_vm_handled(&self.vm, request, SetupStep::Finished)
                && destination_handled(files, request, SetupStep::Finished)
                && found_compatible(&self.vm, res.vmcx_path@, request.destination_path@),
    {
        let (mut flow, action) = HyperVSetupFlow::start(request, facts);
        self.drive(files, &mut flow, action, sink)
    }

    /// Carries `flow` to its end from `action`: emits each progress report to
    /// `sink`, performs each piece of work the flow asks for and hands its
    /// result back to the flow. A finished flow gives the VM, switch and
    /// configuration it recorded; a failed one its failure.
    pub fn drive<F: SetupFiles, S: OperationSink>(
        &self,
        files: &F,
        flow: &mut HyperVSetupFlow,
        action: SetupAction,
        sink: &mut S,
    ) -> (r: CommandResult<HyperVVmSetupResult>)
        requires
            old(flow).wf(),
            action_fits(action, *old(flow)),
            old(flow).vmcx_path is Some ==> sole_vmcx_of_a_listing(old(flow).vmcx_path->0@),
            vm_work_done(&self.vm, *old(flow)),
            checks_done(&self.host, &self.vm, files, *old(flow)),
        ensures
            final(flow).request == old(flow).request,
            action.next matches SetupNext::Failed(e) ==> r == Err::<HyperVVmSetupResult, CommandFailure>(e),
            r is Err ==> final(flow).step == SetupStep::Failed,
            r matches Ok(res) ==> {
                &&& final(flow).step == SetupStep::Finished
                &&& final(flow).imported matches Some(vm) && res.vm_name@ == vm.name@
                &&& final(flow).switch matches Some(sw) && res.switch_name@ == sw.name@
                &&& final(flow).vmcx_path matches Some(v) && res.vmcx_path@ == v@
                &&& res.destination_path@ == old(flow).request.destination_path@
                &&& sole_vmcx_of_a_listing(res.vmcx_path@)
                &&& prepared_by(&self.vm, old(flow).request, res)
                &&& checks_done(&self.host, &self.vm, files, *final(flow))
            },
    {
        let mut current = action;
        let mut started = true;
        loop
            invariant
                flow.wf(),
                flow.request == old(flow).request,
                action_fits(current, *flow),
                started ==> current == action,
                !started ==> action.next is Call,
                flow.vmcx_path is Some ==> sole_vmcx_of_a_listing(flow.vmcx_path->0@),
                vm_work_done(&self.vm, *flow),
                checks_done(&self.host, &self.vm, files, *flow),
            decreases steps_left(flow.step),
        {
            let ghost fitted = current;
            let SetupAction { event, next } = current;
            assert(next == fitted.next);
            match event {
                Some(e) => sink.emit(e),
                None => {},
            }
            match next {
                SetupNext::Finished(result) => {
                    assert(fitted.next matches SetupNext::Finished(res) && res == result);
                    return Ok(result);
                },
                SetupNext::Failed(err) => {
                    return Err(err);
                },
                SetupNext::Call(call) => {
                    let ghost before = flow.step;
                    let ghost before_flow = *flow;
                    let ghost asked = call;
                    let ev = self.perform(files, call);
                    let ghost answer = ev;
                    proof {
                        if before == SetupStep::LocateVmcx {
                            if let SetupEvent::VmcxCandidates { candidates: Ok(c), .. } = answer {
                                if c@.len() == 1 {
                                    assert(asked is ListVmcx);
                                    lemma_single_candidate(c@);
                                }
                            }
                        }
                    }
                    current = flow.advance(ev);
                    proof {
                        lemma_vm_work_advances(&self.host, &self.vm, files, before_flow, asked, answer, *flow);
                    }
                    started = false;
                    assert(steps_left(flow.step) < steps_left(before));
                },
            }
        }
    }
}

/// A fresh import on a ready host, with exactly one packaged VM configuration,
/// no VM of that name, no destination directory and a compatible package, goes
/// through readiness, locating the configuration, detecting an existing VM,
/// probing the destination, comparing, importing, preparing the switch,
/// connecting it, sizing the disk, setting the boot disk and memory and
/// starting the VM, in that order, and then finishes. On the way it keeps the
/// single configuration found, the VM the import answered with and the switch
/// that preparing it answered with.
pub proof fn lemma_fresh_import_sequence(
    replace: bool,
    clear: bool,
    ready: HostReadiness,
    directory: String,
    candidates: Vec<String>,
    report: VmCompatibilityReport,
    imported: ImportedVm,
    switch: ExternalSwitch,
)
    requires
        ready.elevated && ready.hyperv_available && ready.vmms_running,
        candidates@.len() == 1,
        report.compatible,
    ensures
        next_step(SetupStep::CheckReadiness, SetupEvent::Readiness(Ok(ready)), replace, clear) == SetupStep::LocateVmcx,
        next_step(SetupStep::LocateVmcx, SetupEvent::VmcxCandidates { directory, candidates: Ok(candidates) }, replace, clear)
            == SetupStep::DetectExistingVm,
        next_step(SetupStep::DetectExistingVm, SetupEvent::ExistingVm(Ok(None)), replace, clear) == SetupStep::ProbeDestination,
        next_step(SetupStep::ProbeDestination, SetupEvent::DestinationExists(false), replace, clear) == SetupStep::CompareImport,
        next_step(SetupStep::CompareImport, SetupEvent::Compatibility(Ok(report)), replace, clear) == SetupStep::ImportVm,
        next_step(SetupStep::ImportVm, SetupEvent::Imported(Ok(imported)), replace, clear) == SetupStep::EnsureSwitch,
        next_step(SetupStep::EnsureSwitch, SetupEvent::Switch(Ok(switch)), replace, clear) == SetupStep::ConnectSwitch,
        next_step(SetupStep::ConnectSwitch, SetupEvent::Done(Ok(())), replace, clear) == SetupStep::ResizeVhd,
        next_step(SetupStep::ResizeVhd, SetupEvent::Done(Ok(())), replace, clear) == SetupStep::SetFirstBoot,
        next_step(SetupStep::SetFirstBoot, SetupEvent::Done(Ok(())), replace, clear) == SetupStep::SetMemory,
        next_step(SetupStep::SetMemory, SetupEvent::Done(Ok(())), replace, clear) == SetupStep::StartVm,
        next_step(SetupStep::StartVm, SetupEvent::Done(Ok(())), replace, clear) == SetupStep::Finished,
        recorded_vmcx(SetupStep::LocateVmcx, SetupEvent::VmcxCandidates { directory, candidates: Ok(candidates) }, None)
            == Some(candidates@[0]@),
        recorded_import(SetupStep::ImportVm, SetupEvent::Imported(Ok(imported)), None) == Some(imported),
        recorded_switch(SetupStep::EnsureSwitch, SetupEvent::Switch(Ok(switch)), None) == Some(switch),
{
}

/// An existing VM is never stopped or removed unless replacement was
/// requested: without the flag, finding one ends the setup.
pub proof fn lemma_existing_vm_needs_replace_flag(vm: VmInventoryRecord, clear: bool)
    ensures
        next_step(SetupStep::DetectExistingVm, SetupEvent::ExistingVm(Ok(Some(vm))), false, clear) == SetupStep::Failed,
{
}

/// An existing destination directory is never cleared unless that was
/// requested: without the flag, finding one ends the setup.
pub proof fn lemma_existing_destination_needs_clear_flag(replace: bool)
    ensures
        next_step(SetupStep::ProbeDestination, SetupEvent::DestinationExists(true), replace, false) == SetupStep::Failed,
{
}

/// Any failed piece of work ends the setup, and an ended setup stays ended.
pub proof fn lemma_failures_are_final(step: SetupStep, ev: SetupEvent, replace: bool, clear: bool)
    ensures
        event_error(ev) is Some ==> next_step(step, ev, replace, clear) == SetupStep::Failed,
        step == SetupStep::Failed || step == SetupStep::Finished ==> next_step(step, ev, replace, clear)
            == SetupStep::Failed,
{
}

/// The VM a finished import leaves behind was given the startup memory of
/// the requested profile: 20 GiB for `Sietch20Gb`, 30 GiB for
/// `SietchStory30Gb`, 40 GiB for `SietchStoryDeepDesert40Gb`, and the given
/// size for `CustomBytes`; so two finished imports that asked for different
/// Sietch profiles set different memory.
pub proof fn lemma_finished_import_memory_follows_profile<V: VmProvider>(
    vm: &V,
    request: HyperVVmSetupRequest,
    res: HyperVVmSetupResult,
)
    requires
        prepared_by(vm, request, res),
    ensures
        request.memory is Sietch20Gb ==> exists|r: CommandResult<()>| #[trigger] vm.memory_answer(
            res.vm_name@,
            21474836480u64,
            r,
        ) && r is Ok,
        request.memory is SietchStory30Gb ==> exists|r: CommandResult<()>| #[trigger] vm.memory_answer(
            res.vm_name@,
            32212254720u64,
            r,
        ) && r is Ok,
        request.memory is SietchStoryDeepDesert40Gb ==> exists|r: CommandResult<()>| #[trigger] vm.memory_answer(
            res.vm_name@,
            42949672960u64,
            r,
        ) && r is Ok,
        request.memory matches MemoryProfile::CustomBytes(b) ==> exists|r: CommandResult<()>| #[trigger] vm.memory_answer(
            res.vm_name@,
            b,
            r,
        ) && r is Ok,
{
    assert(21474836480u64 == 20 * 1024 * 1024 * 1024);
    assert(32212254720u64 == 30 * 1024 * 1024 * 1024);
    assert(42949672960u64 == 40 * 1024 * 1024 * 1024);
}

/// A finished import on a host where the requested VM exists replaced it:
/// replacement was requested, a running VM was turned off first, and the VM
/// was removed before the import.
pub proof fn lemma_finished_import_replaced_the_existing_vm<V: VmProvider>(
    vm: &V,
    request: HyperVVmSetupRequest,
    existing: VmInventoryRecord,
)
    requires
        existing_vm_handled(vm, request, SetupStep::Finished),
        forall|o: Option<VmInventoryRecord>| #[trigger] vm.vm_lookup(request.vm_name@, Ok(o)) ==> o == Some(existing),
    ensures
        request.replace_existing_vm,
        existing.state == VmPowerState::Running ==> exists|r: CommandResult<()>| #[trigger] vm.stop_answer(
            request.vm_name@,
            true,
            r,
        ) && r is Ok,
        exists|r: CommandResult<()>| #[trigger] vm.removal_answer(request.vm_name@, r) && r is Ok,
{
}

/// A finished import into a destination that was already there cleared it,
/// and only because clearing was requested.
pub proof fn lemma_finished_import_cleared_an_existing_destination<F: SetupFiles>(
    files: &F,
    request: HyperVVmSetupRequest,
)
    requires
        destination_handled(files, request, SetupStep::Finished),
        forall|b: bool| #[trigger] files.existence_answer(request.destination_path@, b) ==> b,
    ensures
        request.clear_destination,
        exists|r: CommandResult<()>| #[trigger] files.clearing_answer(request.destination_path@, r) && r is Ok,
{
}

} // verus!
