//! Construction of every path and name a run touches: the archive filename,
//! the download URL, the dry-run sandbox, the installation directory and the
//! executable directory.

use vstd::prelude::*;

verus! {

/// The archive filename determined by a version/OS/architecture triple.
pub open spec fn spec_archive_filename(version: Seq<char>, os: Seq<char>, arch: Seq<char>) -> Seq<
    char,
> {
    "go"@ + version + "."@ + os + "-"@ + arch + ".tar.gz"@
}

/// Builds the archive filename `go<version>.<os>-<arch>.tar.gz`.
pub fn archive_filename(version: &str, os: &str, arch: &str) -> (r: String)
    ensures
        r@ == spec_archive_filename(version@, os@, arch@),
{
    let mut s = String::from_str("go");
    s.append(version);
    s.append(".");
    s.append(os);
    s.append("-");
    s.append(arch);
    s.append(".tar.gz");
    proof {
        assert(s@ =~= spec_archive_filename(version@, os@, arch@));
    }
    s
}

/// The URL the archive is fetched from.
pub open spec fn spec_download_url(filename: Seq<char>) -> Seq<char> {
    "https://go.dev/dl/"@ + filename
}

/// Builds the download URL for an archive filename.
pub fn download_url(filename: &str) -> (r: String)
    ensures
        r@ == spec_download_url(filename@),
{
    let mut s = String::from_str("https://go.dev/dl/");
    s.append(filename);
    s
}

/// The sandbox that stands in for the requested install path in dry-run mode:
/// the temporary-directory root, a fixed marker segment, and the requested
/// path, joined into one path under the temporary directory.
pub open spec fn spec_sandbox_path(temp_dir: Seq<char>, install_path: Seq<char>) -> Seq<char> {
    temp_dir + "/tmp/go-installer"@ + install_path
}

/// Builds the dry-run sandbox path for a requested install path.
pub fn sandbox_path(temp_dir: &str, install_path: &str) -> (r: String)
    ensures
        r@ == spec_sandbox_path(temp_dir@, install_path@),
{
    let mut s = String::from_str(temp_dir);
    s.append("/tmp/go-installer");
    s.append(install_path);
    proof {
        assert(s@ =~= spec_sandbox_path(temp_dir@, install_path@));
    }
    s
}

/// The path all mutation is directed at: the requested install path, or in
/// dry-run mode its sandbox substitute.
pub open spec fn spec_target_path(
    install_path: Seq<char>,
    dry_run: bool,
    temp_dir: Seq<char>,
) -> Seq<char> {
    if dry_run {
        spec_sandbox_path(temp_dir, install_path)
    } else {
        install_path
    }
}

/// Resolves the target path of a run. In dry-run mode every later step works
/// under the sandbox; otherwise the requested path is used unchanged.
pub fn resolve_target_path(install_path: &str, dry_run: bool, temp_dir: &str) -> (r: String)
    ensures
        r@ == spec_target_path(install_path@, dry_run, temp_dir@),
{
    if dry_run {
        sandbox_path(temp_dir, install_path)
    } else {
        String::from_str(install_path)
    }
}

/// The installation directory under a target path.
pub open spec fn spec_installation_dir(target_path: Seq<char>) -> Seq<char> {
    target_path + "/go"@
}

/// Builds the installation directory `<target>/go`, the directory that is
/// removed and replaced by a run.
pub fn installation_dir(target_path: &str) -> (r: String)
    ensures
        r@ == spec_installation_dir(target_path@),
{
    let mut s = String::from_str(target_path);
    s.append("/go");
    s
}

/// The executable directory under a target path.
pub open spec fn spec_go_bin_dir(target_path: Seq<char>) -> Seq<char> {
    target_path + "/go/bin"@
}

/// Builds the executable directory `<target>/go/bin`, the directory exported
/// onto the shell path.
pub fn go_bin_dir(target_path: &str) -> (r: String)
    ensures
        r@ == spec_go_bin_dir(target_path@),
{
    let mut s = String::from_str(target_path);
    s.append("/go/bin");
    s
}

/// Dry-run isolation: the dry-run target path lies under the temporary
/// directory, and both directories the transaction then mutates — the
/// installation directory and the executable directory — lie under that
/// target path in turn. So no path the transaction derives in dry-run mode
/// escapes the temporary-directory sandbox.
pub proof fn lemma_dry_run_isolation(temp_dir: Seq<char>, install_path: Seq<char>)
    ensures
        temp_dir.is_prefix_of(spec_target_path(install_path, true, temp_dir)),
        spec_target_path(install_path, true, temp_dir).is_prefix_of(
            spec_installation_dir(spec_target_path(install_path, true, temp_dir)),
        ),
        spec_target_path(install_path, true, temp_dir).is_prefix_of(
            spec_go_bin_dir(spec_target_path(install_path, true, temp_dir)),
        ),
{
    let target = spec_target_path(install_path, true, temp_dir);
    assert(temp_dir =~= target.subrange(0, temp_dir.len() as int));
    assert(target =~= spec_installation_dir(target).subrange(0, target.len() as int));
    assert(target =~= spec_go_bin_dir(target).subrange(0, target.len() as int));
}

} // verus!
