//! Host commands whose output must be exactly one JSON document.
use vstd::prelude::*;

verus! {

/// How host commands are run.
#[derive(Clone, Copy, Debug, PartialEq, Eq, Structural)]
pub enum HostBridge {
    Native,
    StrictJsonPowerShell,
}

impl HostBridge {
    /// The name under which the bridge is shown.
    pub fn display_name(&self) -> (r: String)
        ensures
            r@ == (match self {
                HostBridge::Native => "native"@,
                HostBridge::StrictJsonPowerShell => "strict-json-powershell"@,
            }),
    {
        match self {
            HostBridge::Native => "native".to_owned(),
            HostBridge::StrictJsonPowerShell => "strict-json-powershell".to_owned(),
        }
    }
}

/// A program with its arguments, run without a shell.
#[derive(Clone, Debug, PartialEq, Eq)]
pub struct StrictCommandSpec {
    pub id: String,
    pub program: String,
    pub args: Vec<String>,
}

impl StrictCommandSpec {
    pub fn new(id: &str, program: &str, args: Vec<String>) -> (r: Self)
        ensures
            r.id@ == id@,
            r.program@ == program@,
            r.args == args,
    {
        Self { id: id.to_owned(), program: program.to_owned(), args }
    }
}

/// The arguments of a non-interactive PowerShell run of `script`.
pub open spec fn powershell_args(script: Seq<char>) -> Seq<Seq<char>> {
    seq!["-NoProfile"@, "-NonInteractive"@, "-ExecutionPolicy"@, "Bypass"@, "-Command"@, script]
}

/// Runs `script` in PowerShell without profile or prompts.
pub fn powershell_json_command(id: &str, script: &str) -> (r: StrictCommandSpec)
    ensures
        r.id@ == id@,
        r.program@ == "powershell"@,
        r.args@.map_values(|a: String| a@) == powershell_args(script@),
{
    let args = vec![
        "-NoProfile".to_owned(),
        "-NonInteractive".to_owned(),
        "-ExecutionPolicy".to_owned(),
        "Bypass".to_owned(),
        "-Command".to_owned(),
        script.to_owned(),
    ];
    assert(args@.map_values(|a: String| a@) =~= powershell_args(script@));
    StrictCommandSpec::new(id, "powershell", args)
}

} // verus!
