//! Installing the in-guest Manager API service: input checks, the install
//! script, and the reported result.
use vstd::prelude::*;
use crate::command::{
    kube_arg_message, plain_value_message, valid_kube_arg, valid_plain_value, validate_kube_arg,
    validate_plain_value, CommandResult,
};
use crate::text::{chars_of, extend, extend_str, string_of, trim, trim_end_char, trimmed, trimmed_end_char};

verus! {

/// Where the Manager API was installed and how to reach it.
#[derive(Clone, Debug, PartialEq, Eq)]
pub struct ManagerApiInstallResult {
    pub namespace: String,
    pub deployment: String,
    pub service: String,
    pub binary_path: String,
    pub url: String,
}

/// Checked install settings.
#[derive(Clone, Debug, PartialEq, Eq)]
pub struct ManagerApiInstallInput {
    pub namespace: String,
    pub binary_path: String,
    pub token: String,
    pub director_base_url: String,
}

/// The settings after trimming; the Director URL also loses trailing `/`.
pub open spec fn install_fields(namespace: Seq<char>, binary_path: Seq<char>, token: Seq<char>, url: Seq<char>) -> (Seq<char>, Seq<char>, Seq<char>, Seq<char>) {
    (trim(namespace), trim(binary_path), trim(token), trim_end_char(trim(url), '/'))
}

/// The trimmed settings are acceptable.
pub open spec fn install_input_ok(f: (Seq<char>, Seq<char>, Seq<char>, Seq<char>)) -> bool {
    &&& valid_kube_arg(f.0)
    &&& valid_plain_value(f.1)
    &&& valid_plain_value(f.2)
    &&& (f.3.len() == 0 || valid_plain_value(f.3))
}

/// The message for the first unacceptable setting.
pub open spec fn install_input_error(f: (Seq<char>, Seq<char>, Seq<char>, Seq<char>)) -> Seq<char> {
    if !valid_kube_arg(f.0) {
        kube_arg_message("namespace"@)
    } else if !valid_plain_value(f.1) {
        plain_value_message("Manager API binary"@)
    } else if !valid_plain_value(f.2) {
        plain_value_message("Manager API token"@)
    } else {
        plain_value_message("Director base URL"@)
    }
}

/// Where the binary is uploaded before it is installed.
pub open spec fn upload_path(ssh_user: Seq<char>) -> Seq<char> {
    "/home/"@ + ssh_user + "/dune-manager-api"@
}

/// Checks that the installed service is up.
pub const SERVICE_STATUS_COMMAND: &'static str = "sudo rc-service dune-manager-api status";

/// Runs the install script, read from standard input, as root.
pub const INSTALL_SCRIPT_COMMAND: &'static str = "sudo sh -s";

pub const INSTALL_SCRIPT_SERVICE: &'static str = "
PORT=8787
RUST_LOG=dune_manager_api=info,tower_http=info
EOF
chmod 0600 /etc/dune-manager-api.env
cat > /opt/dune-manager/run-manager-api <<'EOF'
#!/bin/sh
set -a
. /etc/dune-manager-api.env
set +a
exec /opt/dune-manager/dune-manager-api
EOF
chmod 0755 /opt/dune-manager/run-manager-api
cat > /etc/init.d/dune-manager-api <<'EOF'
#!/sbin/openrc-run
name=\"Dune Manager API\"
description=\"Dune dedicated server manager guest service\"
command=\"/opt/dune-manager/run-manager-api\"
command_background=\"yes\"
pidfile=\"/run/dune-manager-api.pid\"
output_log=\"/var/log/dune-manager-api.log\"
error_log=\"/var/log/dune-manager-api.log\"
depend() {
  need net
  after k3s
}
EOF
chmod 0755 /etc/init.d/dune-manager-api
rc-update add dune-manager-api default >/dev/null 2>&1 || true
rc-service dune-manager-api restart
";

/// The script run as root in the guest: installs the binary, writes its
/// environment file and OpenRC service, and restarts the service.
pub open spec fn install_script_text(input: (Seq<char>, Seq<char>, Seq<char>, Seq<char>), upload: Seq<char>) -> Seq<char> {
    "set -eu\ninstall -d -m 0755 /opt/dune-manager\ninstall -m 0755 "@ + upload
        + " /opt/dune-manager/dune-manager-api\nrm -f "@ + upload
        + "\ncat > /etc/dune-manager-api.env <<'EOF'\nMANAGER_API_TOKEN="@ + input.2 + "\nDUNE_NAMESPACE="@
        + input.0 + "\nKUBECONFIG=/etc/rancher/k3s/k3s.yaml\nDIRECTOR_BASE_URL="@ + input.3
        + INSTALL_SCRIPT_SERVICE@
}

impl View for ManagerApiInstallInput {
    type V = (Seq<char>, Seq<char>, Seq<char>, Seq<char>);

    open spec fn view(&self) -> (Seq<char>, Seq<char>, Seq<char>, Seq<char>) {
        (self.namespace@, self.binary_path@, self.token@, self.director_base_url@)
    }
}

impl ManagerApiInstallInput {
    /// Trims the settings and checks them: the namespace is a Kubernetes name,
    /// the binary path and token are plain values, and the Director URL, when
    /// given, is one too.
    pub fn prepare(namespace: &str, binary_path: &str, token: &str, director_base_url: &str) -> (r: CommandResult<Self>)
        ensures
            ({
                let f = install_fields(namespace@, binary_path@, token@, director_base_url@);
                &&& r is Ok <==> install_input_ok(f)
                &&& r matches Ok(input) ==> input@ == f
                &&& r matches Err(e) ==> e.message@ == install_input_error(f)
            }),
    {
        let ns = string_of(trimmed(chars_of(namespace).as_slice()).as_slice());
        let binary = string_of(trimmed(chars_of(binary_path).as_slice()).as_slice());
        let tok = string_of(trimmed(chars_of(token).as_slice()).as_slice());
        let url_t = trimmed(chars_of(director_base_url).as_slice());
        let url_c = trimmed_end_char(url_t.as_slice(), '/');
        let url = string_of(url_c.as_slice());
        match validate_kube_arg(ns.as_str(), "namespace") {
            Err(e) => return Err(e),
            Ok(()) => {},
        }
        match validate_plain_value(binary.as_str(), "Manager API binary") {
            Err(e) => return Err(e),
            Ok(()) => {},
        }
        match validate_plain_value(tok.as_str(), "Manager API token") {
            Err(e) => return Err(e),
            Ok(()) => {},
        }
        if url_c.len() > 0 {
            match validate_plain_value(url.as_str(), "Director base URL") {
                Err(e) => return Err(e),
                Ok(()) => {},
            }
        }
        Ok(ManagerApiInstallInput { namespace: ns, binary_path: binary, token: tok, director_base_url: url })
    }

    /// The install script for an upload by `ssh_user`.
    pub fn install_script(&self, ssh_user: &str) -> (r: String)
        ensures
            r@ == install_script_text(self@, upload_path(ssh_user@)),
    {
        let mut upload: Vec<char> = Vec::new();
        extend_str(&mut upload, "/home/");
        extend_str(&mut upload, ssh_user);
        extend_str(&mut upload, "/dune-manager-api");
        let mut s: Vec<char> = Vec::new();
        extend_str(&mut s, "set -eu\ninstall -d -m 0755 /opt/dune-manager\ninstall -m 0755 ");
        extend(&mut s, upload.as_slice());
        extend_str(&mut s, " /opt/dune-manager/dune-manager-api\nrm -f ");
        extend(&mut s, upload.as_slice());
        extend_str(&mut s, "\ncat > /etc/dune-manager-api.env <<'EOF'\nMANAGER_API_TOKEN=");
        extend_str(&mut s, self.token.as_str());
        extend_str(&mut s, "\nDUNE_NAMESPACE=");
        extend_str(&mut s, self.namespace.as_str());
        extend_str(&mut s, "\nKUBECONFIG=/etc/rancher/k3s/k3s.yaml\nDIRECTOR_BASE_URL=");
        extend_str(&mut s, self.director_base_url.as_str());
        extend_str(&mut s, INSTALL_SCRIPT_SERVICE);
        assert(s@ =~= install_script_text(self@, upload_path(ssh_user@)));
        string_of(s.as_slice())
    }

    /// Where the binary is uploaded for `ssh_user`.
    pub fn upload_path(ssh_user: &str) -> (r: String)
        ensures
            r@ == upload_path(ssh_user@),
    {
        let mut upload: Vec<char> = Vec::new();
        extend_str(&mut upload, "/home/");
        extend_str(&mut upload, ssh_user);
        extend_str(&mut upload, "/dune-manager-api");
        assert(upload@ =~= upload_path(ssh_user@));
        string_of(upload.as_slice())
    }

    /// The result reported once the service runs on host `ip`.
    pub fn install_result(&self, ip: &str) -> (r: ManagerApiInstallResult)
        ensures
            r.namespace@ == self.namespace@,
            r.deployment@ == "dune-manager-api"@,
            r.service@ == "openrc"@,
            r.binary_path@ == self.binary_path@,
            r.url@ == "http://"@ + ip@ + ":8787"@,
    {
        let mut u: Vec<char> = Vec::new();
        extend_str(&mut u, "http://");
        extend_str(&mut u, ip);
        extend_str(&mut u, ":8787");
        ManagerApiInstallResult {
            namespace: self.namespace.clone(),
            deployment: "dune-manager-api".to_owned(),
            service: "openrc".to_owned(),
            binary_path: self.binary_path.clone(),
            url: string_of(u.as_slice()),
        }
    }
}

} // verus!
