//! The idempotent edit of the shared shell profile: append one export line
//! for the executable directory unless the directory is already mentioned.

use vstd::prelude::*;
use crate::text::contains_str;
use crate::text::has_substring;
use crate::text::lemma_match_at_shift;
use crate::text::match_at;

verus! {

/// The export line appended for an executable directory, newline-delimited on
/// both sides.
pub open spec fn spec_export_line(go_bin_path: Seq<char>) -> Seq<char> {
    "\nexport PATH=$PATH:"@ + go_bin_path + "\n"@
}

/// Builds the export line for an executable directory.
pub fn export_line(go_bin_path: &str) -> (r: String)
    ensures
        r@ == spec_export_line(go_bin_path@),
{
    let mut s = String::from_str("\nexport PATH=$PATH:");
    s.append(go_bin_path);
    s.append("\n");
    proof {
        assert(s@ =~= spec_export_line(go_bin_path@));
    }
    s
}

/// The profile content after one run of the exporter: unchanged when the
/// executable directory already occurs somewhere in it (a deliberately coarse
/// substring test, not line-anchored), else with the export line appended.
pub open spec fn spec_updated_profile(content: Seq<char>, go_bin_path: Seq<char>) -> Seq<char> {
    if has_substring(content, go_bin_path) {
        content
    } else {
        content + spec_export_line(go_bin_path)
    }
}

/// Decides the profile edit for one run. `None` means the profile already
/// mentions the executable directory and no write must happen; `Some` carries
/// the full new content to write in place of the old.
pub fn updated_profile_content(content: &str, go_bin_path: &str) -> (r: Option<String>)
    ensures
        r is None <==> has_substring(content@, go_bin_path@),
        r matches Some(s) ==> s@ == content@ + spec_export_line(go_bin_path@),
        (match r {
            Some(s) => s@,
            None => content@,
        }) == spec_updated_profile(content@, go_bin_path@),
{
    if contains_str(content, go_bin_path) {
        None
    } else {
        let mut s = String::from_str(content);
        s.append("\nexport PATH=$PATH:");
        s.append(go_bin_path);
        s.append("\n");
        proof {
            assert(s@ =~= content@ + spec_export_line(go_bin_path@));
        }
        Some(s)
    }
}

/// The export line itself mentions the executable directory, right after its
/// fixed prefix.
proof fn lemma_export_line_has_bin_path(go_bin_path: Seq<char>)
    ensures
        match_at(spec_export_line(go_bin_path), go_bin_path, 19),
{
    reveal_strlit("\nexport PATH=$PATH:");
    assert(spec_export_line(go_bin_path).subrange(19, 19 + go_bin_path.len() as int)
        =~= go_bin_path);
}

/// A profile that has been through one run mentions the executable directory.
pub proof fn lemma_updated_profile_has_bin_path(content: Seq<char>, go_bin_path: Seq<char>)
    ensures
        has_substring(spec_updated_profile(content, go_bin_path), go_bin_path),
{
    if !has_substring(content, go_bin_path) {
        lemma_export_line_has_bin_path(go_bin_path);
        lemma_match_at_shift(content, spec_export_line(go_bin_path), go_bin_path, 19);
    }
}

/// Idempotence of the exporter: a second run on the content the first run
/// produced changes nothing, whatever the starting content was.
pub proof fn lemma_profile_update_idempotent(content: Seq<char>, go_bin_path: Seq<char>)
    ensures
        spec_updated_profile(spec_updated_profile(content, go_bin_path), go_bin_path)
            == spec_updated_profile(content, go_bin_path),
{
    lemma_updated_profile_has_bin_path(content, go_bin_path);
}

} // verus!
