//! Decisions around the vendor `battlegroup update` wrapper, which exits
//! nonzero after a successful update because its trailing `ln -s` symlink
//! refresh is not idempotent.
use vstd::prelude::*;
use crate::command::{command_error_message, CommandFailure};
use crate::text::{chars_eq, chars_of, contains_chars, contains_seq, extend_str, int_decimal, push_i32_decimal, string_of, trim, trimmed};

verus! {

/// Line the vendor `battlegroup update` prints once the new images are
/// patched in. Everything after it is the non-idempotent symlink refresh.
pub const VENDOR_UPDATE_FINISHED_MARKER: &'static str = "Finished updating battlegroup to version";

/// Installed and live package versions of a managed server.
#[derive(Clone, Debug, PartialEq, Eq)]
pub struct RemoteServerPackageStatus {
    pub installed_build_id: Option<String>,
    pub battlegroup_version: Option<String>,
    pub live_battlegroup_version: Option<String>,
    pub operator_version: Option<String>,
}

/// A failed wrapper run that is accepted as an applied update.
#[derive(Clone, Debug, PartialEq, Eq)]
pub struct AcceptedUpdate {
    /// What the wrapper printed on standard output.
    pub stdout: String,
    /// The warning shown to the operator.
    pub warning: String,
}

/// The wrapper printed its completion line on either stream.
pub open spec fn reported_finish(err: &CommandFailure) -> bool {
    contains_seq(err.stdout@, VENDOR_UPDATE_FINISHED_MARKER@) || contains_seq(err.stderr@, VENDOR_UPDATE_FINISHED_MARKER@)
}

/// Whether the failed wrapper printed its completion line on stdout or stderr.
pub fn vendor_update_reported_finish(err: &CommandFailure) -> (r: bool)
    ensures
        r == reported_finish(err),
{
    let marker = chars_of(VENDOR_UPDATE_FINISHED_MARKER);
    let out = chars_of(err.stdout.as_str());
    let errs = chars_of(err.stderr.as_str());
    contains_chars(out.as_slice(), marker.as_slice()) || contains_chars(errs.as_slice(), marker.as_slice())
}

/// The live BattleGroup runs the downloaded version: both are known, and
/// after trimming they are equal and not empty.
pub open spec fn live_matches(package: &RemoteServerPackageStatus) -> bool {
    match (package.battlegroup_version, package.live_battlegroup_version) {
        (Some(downloaded), Some(live)) => trim(downloaded@).len() > 0 && trim(downloaded@) == trim(live@),
        _ => false,
    }
}

/// Whether the live BattleGroup runs the downloaded version.
pub fn live_matches_downloaded(package: &RemoteServerPackageStatus) -> (r: bool)
    ensures
        r == live_matches(package),
{
    match (&package.battlegroup_version, &package.live_battlegroup_version) {
        (Some(downloaded), Some(live)) => {
            let d = chars_of(downloaded.as_str());
            let l = chars_of(live.as_str());
            let dt = trimmed(d.as_slice());
            let lt = trimmed(l.as_slice());
            dt.len() > 0 && chars_eq(dt.as_slice(), lt.as_slice())
        },
        _ => false,
    }
}

/// The exit status as the warning writes it.
pub open spec fn exit_status_text(code: Option<i32>) -> Seq<char> {
    match code {
        Some(c) => int_decimal(c as int),
        None => "unknown"@,
    }
}

/// The warning for an update accepted despite the wrapper's exit status.
pub open spec fn accepted_update_warning(code: Option<i32>) -> Seq<char> {
    "Vendor update exited with status "@ + exit_status_text(code)
        + " after finishing; the live BattleGroup runs the downloaded version, so the update is treated as applied."@
}

/// Accepts a failed wrapper run only when it printed its own completion line
/// and the live BattleGroup (read after the failure, `None` when that read
/// failed) runs the downloaded version; anything else stays a failure.
pub fn accept_finished_update(err: CommandFailure, live_package: Option<&RemoteServerPackageStatus>) -> (r: Result<AcceptedUpdate, String>)
    ensures
        r is Ok <==> reported_finish(&err) && (live_package matches Some(p) && live_matches(p)),
        r matches Ok(a) ==> a.stdout == err.stdout && a.warning@ == accepted_update_warning(err.code),
        r matches Err(m) ==> m@ == err.message@,
{
    if !vendor_update_reported_finish(&err) {
        return Err(command_error_message(&err));
    }
    let package = match live_package {
        Some(p) => p,
        None => return Err(command_error_message(&err)),
    };
    if !live_matches_downloaded(package) {
        return Err(command_error_message(&err));
    }
    let mut w: Vec<char> = Vec::new();
    extend_str(&mut w, "Vendor update exited with status ");
    match err.code {
        Some(c) => push_i32_decimal(&mut w, c),
        None => extend_str(&mut w, "unknown"),
    }
    extend_str(
        &mut w,
        " after finishing; the live BattleGroup runs the downloaded version, so the update is treated as applied.",
    );
    assert(w@ =~= accepted_update_warning(err.code));
    Ok(AcceptedUpdate { stdout: err.stdout, warning: string_of(w.as_slice()) })
}

/// The wrapper output worth logging: its trimmed text, when not blank.
pub fn update_output_note(stdout: &str) -> (r: Option<String>)
    ensures
        match r {
            Some(s) => trim(stdout@).len() > 0 && s@ == trim(stdout@),
            None => trim(stdout@).len() == 0,
        },
{
    let t = chars_of(stdout);
    let tt = trimmed(t.as_slice());
    if tt.len() == 0 {
        None
    } else {
        Some(string_of(tt.as_slice()))
    }
}

} // verus!
