//! The install transaction's decisions: which directory is replaced, whether
//! the old installation may be removed, and when the whole transaction must
//! abort instead.

use vstd::prelude::*;
use crate::errors::InstallError;
use crate::paths::installation_dir;
use crate::paths::spec_installation_dir;
use crate::safety::is_unsafe_install_dir;
use crate::safety::usr_install_location_safety_check;

verus! {

/// The filesystem work of one install transaction, decided up front: the
/// directory the archive is unpacked into, the installation directory below
/// it, and whether that directory holds an old installation that is to be
/// removed first.
pub struct InstallPlan {
    /// The directory the archive is unpacked into.
    pub target_path: String,
    /// The installation directory `<target>/go` that the unpacking recreates.
    pub install_dir: String,
    /// Whether the installation directory exists and is removed before the
    /// unpacking.
    pub remove_old_install: bool,
}

/// Decides one install transaction from the (already dry-run-adjusted)
/// target path and the prior existence of the installation directory.
///
/// The safety check runs before any removal is allowed: when an installation
/// directory exists at a path the check refuses, the whole transaction aborts
/// with the safety error and no plan — so no deletion is ever planned for an
/// unsafe path. Otherwise the plan removes the old installation exactly when
/// one exists, and always unpacks into the target path.
pub fn plan_install_transaction(target_path: &str, install_dir_exists: bool) -> (r: Result<
    InstallPlan,
    InstallError,
>)
    ensures
        r is Err <==> install_dir_exists && is_unsafe_install_dir(
            spec_installation_dir(target_path@),
        ),
        r matches Err(e) ==> e matches InstallError::UnsafeDeletionTarget(p) && p@
            == spec_installation_dir(target_path@),
        r matches Ok(plan) ==> {
            &&& plan.target_path@ == target_path@
            &&& plan.install_dir@ == spec_installation_dir(target_path@)
            &&& plan.remove_old_install == install_dir_exists
        },
{
    let install_dir = installation_dir(target_path);
    if install_dir_exists {
        match usr_install_location_safety_check(install_dir.as_str()) {
            Err(e) => {
                return Err(e);
            },
            Ok(()) => {},
        }
    }
    Ok(
        InstallPlan {
            target_path: String::from_str(target_path),
            install_dir,
            remove_old_install: install_dir_exists,
        },
    )
}

/// The guard, as this transaction wires it, is checked against the
/// installation directory `<target>/go` — a path that ends in `o` and so can
/// never match the `/usr…/local` name pattern. The refusal branch of
/// `plan_install_transaction` is therefore unreachable: a deletion target of
/// the dangerous shape could only be refused if the guard were run against
/// the target path itself.
pub proof fn lemma_guard_never_refuses_installation_dir(target_path: Seq<char>)
    ensures
        !is_unsafe_install_dir(spec_installation_dir(target_path)),
{
    reveal_strlit("/go");
    reveal_strlit("/local");
    let dir = spec_installation_dir(target_path);
    assert(dir[dir.len() - 1] == 'o');
    if "/local"@.is_suffix_of(dir) {
        assert("/local"@[5] == dir[dir.len() - 1]);
        assert(false);
    }
}

} // verus!
