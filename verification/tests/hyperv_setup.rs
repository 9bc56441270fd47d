use std::cell::RefCell;
use std::rc::Rc;

use dune_manager::command::CommandResult;
use dune_manager::manager_core::hyperv_setup::{
    HyperVSetupFlow, HyperVVmSetupOrchestrator, HyperVVmSetupRequest, MemoryProfile, SetupCall, SetupEvent, SetupFiles,
    SetupNext, SetupPathFacts, SetupStep, VecOperationSink, DEFAULT_VM_DISK_BYTES,
};
use dune_manager::manager_core::providers::{
    packaged_vmcx_candidates, DirectoryEntry, DriveCandidate, EnsureSwitchRequest, ExternalSwitch, HostProvider,
    HostReadiness, ImportedVm, NetworkAdapterCandidate, VmCompatibilityReport, VmImportRequest, VmInventoryRecord,
    VmPowerState, VmProvider,
};

fn request(replace: bool) -> HyperVVmSetupRequest {
    HyperVVmSetupRequest {
        install_path: "/tmp/server".to_string(),
        vm_name: "test-vm".to_string(),
        destination_path: "/tmp/vm".to_string(),
        switch_name: "switch".to_string(),
        adapter_name: "Ethernet".to_string(),
        memory: MemoryProfile::Sietch20Gb,
        replace_existing_vm: replace,
        clear_destination: false,
        disk_size_bytes: DEFAULT_VM_DISK_BYTES,
    }
}

fn facts() -> SetupPathFacts {
    SetupPathFacts {
        install_path_exists: true,
        install_path_is_dir: true,
        destination_parent: Some("/tmp".to_string()),
        destination_parent_exists: true,
    }
}

/// A ready host.
struct MockHost;

impl HostProvider for MockHost {
    fn readiness(&self) -> CommandResult<HostReadiness> {
        Ok(HostReadiness {
            elevated: true,
            hyperv_available: true,
            vmms_running: true,
            virtualization_firmware_enabled: Some(true),
        })
    }

    fn drives_with_minimum_free_space(&self, _minimum_free_bytes: u64) -> CommandResult<Vec<DriveCandidate>> {
        Ok(vec![])
    }

    fn active_physical_adapters(&self) -> CommandResult<Vec<NetworkAdapterCandidate>> {
        Ok(vec![])
    }
}

/// Hyper-V that records each call and may already hold a VM.
#[derive(Default)]
struct MockVm {
    calls: Rc<RefCell<Vec<&'static str>>>,
    existing: Option<VmInventoryRecord>,
}

impl VmProvider for MockVm {
    fn get_vm(&self, _name: &str) -> CommandResult<Option<VmInventoryRecord>> {
        self.calls.borrow_mut().push("get_vm");
        Ok(self.existing.clone())
    }

    fn compare_import(&self, _request: &VmImportRequest) -> CommandResult<VmCompatibilityReport> {
        self.calls.borrow_mut().push("compare_import");
        Ok(VmCompatibilityReport { compatible: true, incompatibilities: vec![] })
    }

    fn import_vm(&self, _request: &VmImportRequest) -> CommandResult<ImportedVm> {
        self.calls.borrow_mut().push("import_vm");
        Ok(ImportedVm { name: "test-vm".to_string(), configuration_location: "dest".to_string() })
    }

    fn remove_vm(&self, _name: &str) -> CommandResult<()> {
        self.calls.borrow_mut().push("remove_vm");
        Ok(())
    }

    fn start_vm(&self, _name: &str) -> CommandResult<()> {
        self.calls.borrow_mut().push("start_vm");
        Ok(())
    }

    fn stop_vm(&self, _name: &str, _turn_off: bool) -> CommandResult<()> {
        self.calls.borrow_mut().push("stop_vm");
        Ok(())
    }

    fn connect_network_adapter(&self, _vm_name: &str, _switch_name: &str) -> CommandResult<()> {
        self.calls.borrow_mut().push("connect_network_adapter");
        Ok(())
    }

    fn ensure_external_switch(&self, _request: &EnsureSwitchRequest) -> CommandResult<ExternalSwitch> {
        self.calls.borrow_mut().push("ensure_external_switch");
        Ok(ExternalSwitch { name: "switch".to_string(), net_adapter_interface_description: "adapter".to_string() })
    }

    fn resize_first_vhd(&self, _vm_name: &str, _size_bytes: u64) -> CommandResult<()> {
        self.calls.borrow_mut().push("resize_first_vhd");
        Ok(())
    }

    fn set_first_boot_disk(&self, _vm_name: &str) -> CommandResult<()> {
        self.calls.borrow_mut().push("set_first_boot_disk");
        Ok(())
    }

    fn set_startup_memory(&self, _vm_name: &str, _bytes: u64) -> CommandResult<()> {
        self.calls.borrow_mut().push("set_startup_memory");
        Ok(())
    }
}

/// An install folder holding one packaged `server.vmcx`, and no destination yet.
struct MockFiles;

impl SetupFiles for MockFiles {
    fn vm_directory_entries(&self, install_path: &str) -> (String, CommandResult<Vec<DirectoryEntry>>) {
        let directory = format!("{install_path}/Virtual Machines");
        let entries = vec![DirectoryEntry {
            path: format!("{directory}/server.vmcx"),
            extension: Some("vmcx".to_string()),
        }];
        (directory, Ok(entries))
    }

    fn path_exists(&self, _path: &str) -> bool {
        false
    }

    fn clear_directory(&self, _path: &str) -> CommandResult<()> {
        Ok(())
    }
}

fn existing_vm(state: VmPowerState, raw: &str) -> VmInventoryRecord {
    VmInventoryRecord {
        name: "test-vm".to_string(),
        state,
        raw_state: raw.to_string(),
        configuration_location: String::new(),
        path: String::new(),
        memory_assigned_bytes: 0,
        uptime_seconds: 0,
        ipv4_addresses: vec![],
    }
}

#[test]
fn orchestrates_hyperv_vm_import_sequence() {
    let calls = Rc::new(RefCell::new(Vec::new()));
    let vm = MockVm { calls: calls.clone(), existing: None };
    let orchestrator = HyperVVmSetupOrchestrator::new(MockHost, vm);
    let mut sink = VecOperationSink::new();
    let result = orchestrator.import_and_prepare_vm(&MockFiles, &facts(), request(false), &mut sink).unwrap();
    assert_eq!(result.vm_name, "test-vm");
    assert_eq!(
        calls.borrow().as_slice(),
        &[
            "get_vm",
            "compare_import",
            "import_vm",
            "ensure_external_switch",
            "connect_network_adapter",
            "resize_first_vhd",
            "set_first_boot_disk",
            "set_startup_memory",
            "start_vm",
        ]
    );
    assert!(sink.events.iter().any(|event| event.step_id == "hyperv.import-vm"));
    assert_eq!(result.vmcx_path, "/tmp/server/Virtual Machines/server.vmcx");
    assert_eq!(result.destination_path, "/tmp/vm");
}

#[test]
fn refuses_existing_vm_without_replace_flag() {
    let vm = MockVm { calls: Rc::new(RefCell::new(Vec::new())), existing: Some(existing_vm(VmPowerState::Off, "Off")) };
    let orchestrator = HyperVVmSetupOrchestrator::new(MockHost, vm);
    let mut sink = VecOperationSink::new();
    let err = orchestrator.import_and_prepare_vm(&MockFiles, &facts(), request(false), &mut sink).unwrap_err();
    assert!(err.message.contains("already exists"));
}

#[test]
fn replaces_a_running_vm_when_asked() {
    let calls = Rc::new(RefCell::new(Vec::new()));
    let vm = MockVm { calls: calls.clone(), existing: Some(existing_vm(VmPowerState::Running, "Running")) };
    let orchestrator = HyperVVmSetupOrchestrator::new(MockHost, vm);
    let mut sink = VecOperationSink::new();
    orchestrator.import_and_prepare_vm(&MockFiles, &facts(), request(true), &mut sink).unwrap();
    assert_eq!(&calls.borrow()[..3], &["get_vm", "stop_vm", "remove_vm"]);
}

#[test]
fn refused_requests_touch_no_provider() {
    let calls = Rc::new(RefCell::new(Vec::new()));
    let vm = MockVm { calls: calls.clone(), existing: None };
    let orchestrator = HyperVVmSetupOrchestrator::new(MockHost, vm);
    let mut sink = VecOperationSink::new();
    let mut f = facts();
    f.destination_parent_exists = false;
    let err = orchestrator.import_and_prepare_vm(&MockFiles, &f, request(false), &mut sink).unwrap_err();
    assert_eq!(err.message, "VM destination parent does not exist: /tmp");
    assert!(calls.borrow().is_empty());
    assert!(sink.events.is_empty());
}

#[test]
fn invalid_requests_fail_before_any_work() {
    let mut req = request(false);
    req.vm_name = "  ".to_string();
    let (flow, action) = HyperVSetupFlow::start(req, &facts());
    assert_eq!(flow.step, SetupStep::Failed);
    match action.next {
        SetupNext::Failed(e) => assert_eq!(e.message, "VM name is required"),
        _ => panic!("expected a failure"),
    }
    let mut f = facts();
    f.destination_parent = None;
    let err = request(false).validate(&f).unwrap_err();
    assert_eq!(err.message, "VM destination must have a parent directory");
    f.install_path_exists = false;
    let err = request(false).validate(&f).unwrap_err();
    assert_eq!(err.message, "server install path does not exist: /tmp/server");
}

#[test]
fn existing_destination_needs_the_clear_flag() {
    let (mut flow, _) = HyperVSetupFlow::start(request(false), &facts());
    flow.advance(SetupEvent::Readiness(Ok(HostReadiness {
        elevated: true,
        hyperv_available: true,
        vmms_running: true,
        virtualization_firmware_enabled: None,
    })));
    flow.advance(SetupEvent::VmcxCandidates { directory: "d".to_string(), candidates: Ok(vec!["a.vmcx".to_string()]) });
    flow.advance(SetupEvent::ExistingVm(Ok(None)));
    let action = flow.advance(SetupEvent::DestinationExists(true));
    match action.next {
        SetupNext::Failed(e) => assert_eq!(e.message, "VM destination already exists: /tmp/vm"),
        _ => panic!("expected a failure"),
    }
}

#[test]
fn host_not_elevated_is_refused() {
    let (mut flow, _) = HyperVSetupFlow::start(request(false), &facts());
    let action = flow.advance(SetupEvent::Readiness(Ok(HostReadiness {
        elevated: false,
        hyperv_available: true,
        vmms_running: true,
        virtualization_firmware_enabled: None,
    })));
    match action.next {
        SetupNext::Failed(e) => assert_eq!(e.message, "Hyper-V setup requires elevated host privileges"),
        _ => panic!("expected a failure"),
    }
}

#[test]
fn memory_profiles_in_bytes() {
    assert_eq!(MemoryProfile::Sietch20Gb.bytes(), 20 * 1024 * 1024 * 1024);
    assert_eq!(MemoryProfile::SietchStoryDeepDesert40Gb.bytes(), 40 * 1024 * 1024 * 1024);
    assert_eq!(MemoryProfile::CustomBytes(7).bytes(), 7);
    let d = HyperVVmSetupRequest::default();
    assert_eq!(d.switch_name, "DuneAwakeningServerSwitch");
    assert_eq!(d.disk_size_bytes, 100 * 1024 * 1024 * 1024);
    let o = HyperVVmSetupOrchestrator::new(1u8, 2u8);
    assert_eq!((o.host, o.vm), (1, 2));
}

#[test]
fn maps_hyperv_power_states() {
    assert_eq!(VmPowerState::from_hyperv_state("Running"), VmPowerState::Running);
    assert_eq!(VmPowerState::from_hyperv_state("Starting"), VmPowerState::Starting);
    assert_eq!(VmPowerState::from_hyperv_state("Off"), VmPowerState::Off);
    assert_eq!(VmPowerState::from_hyperv_state("SomethingElse"), VmPowerState::Other);
}

#[test]
fn power_state_edge_cases() {
    assert_eq!(VmPowerState::from_hyperv_state(""), VmPowerState::Missing);
    assert_eq!(VmPowerState::from_hyperv_state("PAUSED"), VmPowerState::Paused);
    assert_eq!(VmPowerState::from_hyperv_state("saved"), VmPowerState::Saved);
    assert_eq!(VmPowerState::from_hyperv_state("Stopping"), VmPowerState::Stopping);
}

#[test]
fn vmcx_candidates_are_filtered_and_sorted() {
    let entries = vec![
        DirectoryEntry { path: "b.VMCX".to_string(), extension: Some("VMCX".to_string()) },
        DirectoryEntry { path: "notes.txt".to_string(), extension: Some("txt".to_string()) },
        DirectoryEntry { path: "a.vmcx".to_string(), extension: Some("vmcx".to_string()) },
        DirectoryEntry { path: "vmcx".to_string(), extension: None },
    ];
    assert_eq!(packaged_vmcx_candidates(entries), vec!["a.vmcx".to_string(), "b.VMCX".to_string()]);
}

#[test]
fn incompatible_package_and_wrong_vmcx_counts_are_refused() {
    let ready = HostReadiness {
        elevated: true,
        hyperv_available: true,
        vmms_running: true,
        virtualization_firmware_enabled: None,
    };
    let (mut flow, _) = HyperVSetupFlow::start(request(false), &facts());
    flow.advance(SetupEvent::Readiness(Ok(ready.clone())));
    flow.advance(SetupEvent::VmcxCandidates { directory: "d".to_string(), candidates: Ok(vec!["a.vmcx".to_string()]) });
    flow.advance(SetupEvent::ExistingVm(Ok(None)));
    flow.advance(SetupEvent::DestinationExists(false));
    let action = flow.advance(SetupEvent::Compatibility(Ok(VmCompatibilityReport {
        compatible: false,
        incompatibilities: vec!["no TPM".to_string(), "too old".to_string()],
    })));
    match action.next {
        SetupNext::Failed(e) => assert_eq!(e.message, "VM import compatibility failed: no TPM; too old"),
        _ => panic!("expected a failure"),
    }

    let (mut flow, _) = HyperVSetupFlow::start(request(false), &facts());
    flow.advance(SetupEvent::Readiness(Ok(ready.clone())));
    let action = flow.advance(SetupEvent::VmcxCandidates { directory: "/srv/VMs".to_string(), candidates: Ok(vec![]) });
    match action.next {
        SetupNext::Failed(e) => assert_eq!(e.message, "No .vmcx file found under /srv/VMs"),
        _ => panic!("expected a failure"),
    }

    let (mut flow, _) = HyperVSetupFlow::start(request(false), &facts());
    flow.advance(SetupEvent::Readiness(Ok(ready)));
    let action = flow.advance(SetupEvent::VmcxCandidates {
        directory: "/srv/VMs".to_string(),
        candidates: Ok(vec!["a.vmcx".to_string(), "b.vmcx".to_string()]),
    });
    match action.next {
        SetupNext::Failed(e) => assert_eq!(e.message, "Multiple .vmcx files found under /srv/VMs"),
        _ => panic!("expected a failure"),
    }
}

fn call_of(next: SetupNext) -> SetupCall {
    match next {
        SetupNext::Call(call) => call,
        other => panic!("expected a call, got {other:?}"),
    }
}

#[test]
fn flow_keeps_the_located_configuration_and_provider_answers() {
    let ready = HostReadiness {
        elevated: true,
        hyperv_available: true,
        vmms_running: true,
        virtualization_firmware_enabled: None,
    };
    let (mut flow, _) = HyperVSetupFlow::start(request(false), &facts());
    flow.advance(SetupEvent::Readiness(Ok(ready)));
    assert_eq!(flow.vmcx_path, None);
    flow.advance(SetupEvent::VmcxCandidates {
        directory: "/tmp/server/Virtual Machines".to_string(),
        candidates: Ok(vec!["/tmp/server/Virtual Machines/packaged.vmcx".to_string()]),
    });
    assert_eq!(flow.vmcx_path, Some("/tmp/server/Virtual Machines/packaged.vmcx".to_string()));
    flow.advance(SetupEvent::ExistingVm(Ok(None)));
    let action = flow.advance(SetupEvent::DestinationExists(false));
    match action.next {
        SetupNext::Call(SetupCall::CompareImport(r)) => {
            assert_eq!(r.vmcx_path, "/tmp/server/Virtual Machines/packaged.vmcx");
            assert_eq!(r.destination_path, "/tmp/vm");
        },
        _ => panic!("expected the compatibility check"),
    }
    flow.advance(SetupEvent::Compatibility(Ok(VmCompatibilityReport { compatible: true, incompatibilities: vec![] })));
    let imported = ImportedVm { name: "imported-vm".to_string(), configuration_location: "/tmp/vm".to_string() };
    let action = flow.advance(SetupEvent::Imported(Ok(imported.clone())));
    assert_eq!(flow.imported, Some(imported));
    match action.next {
        SetupNext::Call(SetupCall::EnsureSwitch(r)) => {
            assert_eq!(r.switch_name, "switch");
            assert_eq!(r.adapter_name, "Ethernet");
        },
        _ => panic!("expected the switch to be prepared"),
    }
    let switch = ExternalSwitch { name: "prepared-switch".to_string(), net_adapter_interface_description: "nic".to_string() };
    let action = flow.advance(SetupEvent::Switch(Ok(switch.clone())));
    assert_eq!(flow.switch, Some(switch));
    assert_eq!(
        call_of(action.next),
        SetupCall::ConnectAdapter { vm_name: "imported-vm".to_string(), switch_name: "prepared-switch".to_string() }
    );
    let action = flow.advance(SetupEvent::Done(Ok(())));
    assert_eq!(
        call_of(action.next),
        SetupCall::ResizeVhd { vm_name: "imported-vm".to_string(), size_bytes: DEFAULT_VM_DISK_BYTES }
    );
    flow.advance(SetupEvent::Done(Ok(())));
    flow.advance(SetupEvent::Done(Ok(())));
    let action = flow.advance(SetupEvent::Done(Ok(())));
    assert_eq!(call_of(action.next), SetupCall::StartVm { name: "imported-vm".to_string() });
    let action = flow.advance(SetupEvent::Done(Ok(())));
    match action.next {
        SetupNext::Finished(result) => {
            assert_eq!(result.vm_name, "imported-vm");
            assert_eq!(result.switch_name, "prepared-switch");
            assert_eq!(result.vmcx_path, "/tmp/server/Virtual Machines/packaged.vmcx");
            assert_eq!(result.destination_path, "/tmp/vm");
        },
        _ => panic!("expected the setup to finish"),
    }
}

#[test]
fn driving_a_flow_returns_what_it_recorded() {
    let vm = MockVm { calls: Rc::new(RefCell::new(Vec::new())), existing: None };
    let orchestrator = HyperVVmSetupOrchestrator::new(MockHost, vm);
    let mut sink = VecOperationSink::new();
    let (mut flow, action) = HyperVSetupFlow::start(request(false), &facts());
    let result = orchestrator.drive(&MockFiles, &mut flow, action, &mut sink).unwrap();
    assert_eq!(flow.step, SetupStep::Finished);
    assert_eq!(flow.imported.as_ref().map(|vm| vm.name.as_str()), Some("test-vm"));
    assert_eq!(flow.switch.as_ref().map(|sw| sw.name.as_str()), Some("switch"));
    assert_eq!(result.vm_name, "test-vm");
    assert_eq!(result.switch_name, "switch");
    assert_eq!(flow.vmcx_path.as_deref(), Some(result.vmcx_path.as_str()));

    let mut bad = request(false);
    bad.vm_name = String::new();
    let (mut flow, action) = HyperVSetupFlow::start(bad, &facts());
    let err = orchestrator.drive(&MockFiles, &mut flow, action, &mut sink).unwrap_err();
    assert_eq!(flow.step, SetupStep::Failed);
    assert_eq!(err.message, "VM name is required");
}
