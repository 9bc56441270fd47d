//! The local Hyper-V host and its VM: the PowerShell scripts that query and
//! drive them, and the choice of the guest address.
use vstd::prelude::*;
use crate::command::{failure_str, CommandResult};
use crate::desktop::shell::{ps_quote, ps_single_quoted};
use crate::text::{chars_of, extend_str, string_of, trim, trimmed};

verus! {

#[derive(Clone, Debug, PartialEq, Eq)]
pub struct HostStatus {
    pub user: String,
    pub is_elevated: bool,
    pub hyperv_available: bool,
    pub vmms_status: Option<String>,
    pub ssh_available: bool,
    pub default_install_path_exists: bool,
    pub default_install_path: String,
}

#[derive(Clone, Debug, PartialEq, Eq)]
pub struct VmStatus {
    pub name: String,
    pub state: String,
    pub status: String,
    pub memory_assigned_bytes: u64,
    pub uptime: String,
    pub path: String,
    pub configuration_location: String,
    pub ip_addresses: Vec<String>,
}

#[derive(Clone, Debug, PartialEq, Eq)]
pub struct GuestConnection {
    pub ip: String,
    pub ssh_user: String,
    pub key_path: String,
    pub connected: bool,
    pub sudo: bool,
    pub hostname: String,
    pub kernel: String,
    pub kubectl: bool,
}

pub const HOST_STATUS_HEAD: &'static str = r#"
$principal = New-Object Security.Principal.WindowsPrincipal([Security.Principal.WindowsIdentity]::GetCurrent())
$vmms = Get-Service -Name vmms -ErrorAction SilentlyContinue
[pscustomobject]@{
  user = [Security.Principal.WindowsIdentity]::GetCurrent().Name
  isElevated = $principal.IsInRole([Security.Principal.WindowsBuiltInRole]::Administrator)
  hypervAvailable = [bool](Get-Command Get-VM -ErrorAction SilentlyContinue)
  vmmsStatus = if ($vmms) { $vmms.Status.ToString() } else { $null }
  sshAvailable = Test-Path "#;

pub const JSON_TAIL: &'static str = r#"
} | ConvertTo-Json -Compress
"#;

/// The script that reports the host's Hyper-V readiness as JSON.
pub open spec fn host_status_script_text(ssh_path: Seq<char>, install_path: Seq<char>) -> Seq<char> {
    HOST_STATUS_HEAD@ + ps_quote(ssh_path) + "\n  defaultInstallPathExists = Test-Path "@ + ps_quote(install_path)
        + "\n  defaultInstallPath = "@ + ps_quote(install_path) + JSON_TAIL@
}

pub fn host_status_script(ssh_path: &str, install_path: &str) -> (r: String)
    ensures
        r@ == host_status_script_text(ssh_path@, install_path@),
{
    let ssh = ps_single_quoted(ssh_path);
    let install = ps_single_quoted(install_path);
    let mut s: Vec<char> = Vec::new();
    extend_str(&mut s, HOST_STATUS_HEAD);
    extend_str(&mut s, ssh.as_str());
    extend_str(&mut s, "\n  defaultInstallPathExists = Test-Path ");
    extend_str(&mut s, install.as_str());
    extend_str(&mut s, "\n  defaultInstallPath = ");
    extend_str(&mut s, install.as_str());
    extend_str(&mut s, JSON_TAIL);
    assert(s@ =~= host_status_script_text(ssh_path@, install_path@));
    string_of(s.as_slice())
}

pub const VM_SCRIPT_HEAD: &'static str = r#"
$ErrorActionPreference = 'Stop'
$vmName = "#;

pub const VM_STATUS_BODY: &'static str = r#"
$vm = Get-VM -Name $vmName
$ips = @((Get-VMNetworkAdapter -VMName $vmName).IPAddresses | Where-Object { $_ -match '^\d+\.\d+\.\d+\.\d+$' })
[pscustomobject]@{
  name = $vm.Name
  state = $vm.State.ToString()
  status = $vm.Status
  memoryAssignedBytes = [uint64]$vm.MemoryAssigned
  uptime = $vm.Uptime.ToString()
  path = $vm.Path
  configurationLocation = $vm.ConfigurationLocation
  ipAddresses = $ips"#;

pub const VM_START_BODY: &'static str = r#"
Start-VM -Name $vmName -AsJob | Out-Null
"#;

pub const VM_STOP_BODY: &'static str = r#"
Stop-VM -Name $vmName -Force -AsJob | Out-Null
"#;

/// What a VM script does.
#[derive(Clone, Copy, Debug, PartialEq, Eq, Structural)]
pub enum VmScriptKind {
    /// Report the VM's state, memory, uptime, location and IPv4 addresses as JSON.
    Status,
    /// Start the VM in the background.
    Start,
    /// Force the VM off in the background.
    Stop,
}

pub open spec fn vm_script_text(kind: VmScriptKind, vm_name: Seq<char>) -> Seq<char> {
    VM_SCRIPT_HEAD@ + ps_quote(vm_name) + match kind {
        VmScriptKind::Status => VM_STATUS_BODY@ + JSON_TAIL@,
        VmScriptKind::Start => VM_START_BODY@,
        VmScriptKind::Stop => VM_STOP_BODY@,
    }
}

/// The PowerShell script of `kind` for the VM named `vm_name`.
pub fn vm_script(kind: VmScriptKind, vm_name: &str) -> (r: String)
    ensures
        r@ == vm_script_text(kind, vm_name@),
{
    let q = ps_single_quoted(vm_name);
    let mut s: Vec<char> = Vec::new();
    extend_str(&mut s, VM_SCRIPT_HEAD);
    extend_str(&mut s, q.as_str());
    match kind {
        VmScriptKind::Status => {
            extend_str(&mut s, VM_STATUS_BODY);
            extend_str(&mut s, JSON_TAIL);
        },
        VmScriptKind::Start => extend_str(&mut s, VM_START_BODY),
        VmScriptKind::Stop => extend_str(&mut s, VM_STOP_BODY),
    }
    assert(s@ =~= vm_script_text(kind, vm_name@));
    string_of(s.as_slice())
}

/// The guest address in use: the one given, else the one found in the
/// setup logs, else the configured one, trimmed.
pub open spec fn chosen_ip(explicit: Option<Seq<char>>, discovered: Option<Seq<char>>, configured: Seq<char>) -> Seq<char> {
    trim(
        match explicit {
            Some(ip) => ip,
            None => match discovered {
                Some(ip) => ip,
                None => configured,
            },
        },
    )
}

/// Picks the guest address; an empty one means none is configured.
pub fn choose_vm_ip(explicit: Option<String>, discovered: Option<String>, configured: &str) -> (r: CommandResult<String>)
    ensures
        ({
            let ip = chosen_ip(
                match explicit {
                    Some(s) => Some(s@),
                    None => None,
                },
                match discovered {
                    Some(s) => Some(s@),
                    None => None,
                },
                configured@,
            );
            &&& r is Ok <==> ip.len() > 0
            &&& r matches Ok(s) ==> s@ == ip
            &&& r matches Err(e) ==> e.message@ == "VM IP is not configured"@
        }),
{
    let raw = match explicit {
        Some(ip) => chars_of(ip.as_str()),
        None => match discovered {
            Some(ip) => chars_of(ip.as_str()),
            None => chars_of(configured),
        },
    };
    let ip = trimmed(raw.as_slice());
    if ip.len() == 0 {
        Err(failure_str("VM IP is not configured"))
    } else {
        Ok(string_of(ip.as_slice()))
    }
}

} // verus!
