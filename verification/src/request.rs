//! Resolution of a run's configuration from supplied-or-default values.

use vstd::prelude::*;

verus! {

/// The configuration of one run, immutable once resolved. It fully
/// determines the archive filename and every path a run touches.
pub struct InstallRequest {
    /// Target architecture, e.g. `amd64`.
    pub arch: String,
    /// Target operating system, e.g. `linux`.
    pub os: String,
    /// Release version, e.g. `1.24.2`.
    pub version: String,
    /// The requested install path, before any dry-run substitution.
    pub install_path: String,
    /// Whether all mutation is redirected into the dry-run sandbox.
    pub dry_run: bool,
}

/// Resolves a request: each value that was not supplied falls back to its
/// default — architecture `amd64`, operating system `linux`, version
/// `1.24.2`, install path `/usr/local`.
pub fn resolve_request(
    arch: Option<String>,
    os: Option<String>,
    version: Option<String>,
    install_path: Option<String>,
    dry_run: bool,
) -> (r: InstallRequest)
    ensures
        r.arch@ == (match arch {
            Some(a) => a@,
            None => "amd64"@,
        }),
        r.os@ == (match os {
            Some(o) => o@,
            None => "linux"@,
        }),
        r.version@ == (match version {
            Some(v) => v@,
            None => "1.24.2"@,
        }),
        r.install_path@ == (match install_path {
            Some(p) => p@,
            None => "/usr/local"@,
        }),
        r.dry_run == dry_run,
{
    InstallRequest {
        arch: match arch {
            Some(a) => a,
            None => String::from_str("amd64"),
        },
        os: match os {
            Some(o) => o,
            None => String::from_str("linux"),
        },
        version: match version {
            Some(v) => v,
            None => String::from_str("1.24.2"),
        },
        install_path: match install_path {
            Some(p) => p,
            None => String::from_str("/usr/local"),
        },
        dry_run,
    }
}

} // verus!
