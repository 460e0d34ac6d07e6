//! The safety check that guards every destructive removal.

use vstd::prelude::*;
use crate::errors::InstallError;
use crate::text::ends_with_str;
use crate::text::starts_with_str;

verus! {

/// A deletion target is refused when it lies under the system-binaries root
/// and ends in the generic "local" segment: such a path names a broad system
/// directory, not an installation of ours. The test is a deliberately coarse
/// name pattern, with no canonicalization.
pub open spec fn is_unsafe_install_dir(path: Seq<char>) -> bool {
    "/usr"@.is_prefix_of(path) && "/local"@.is_suffix_of(path)
}

/// Succeeds exactly on the paths that are safe to delete; a refusal carries
/// the offending path. Must pass before any removal of an existing
/// installation directory is attempted.
pub fn usr_install_location_safety_check(install_path: &str) -> (r: Result<(), InstallError>)
    ensures
        r is Ok <==> !is_unsafe_install_dir(install_path@),
        r matches Err(e) ==> e matches InstallError::UnsafeDeletionTarget(p) && p@
            == install_path@,
{
    if starts_with_str(install_path, "/usr") && ends_with_str(install_path, "/local") {
        Err(InstallError::UnsafeDeletionTarget(String::from_str(install_path)))
    } else {
        Ok(())
    }
}

} // verus!
