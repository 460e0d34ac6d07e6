//! Verified core of a Go toolchain installer.
//!
//! The library holds every decision the installer makes: which archive to
//! fetch, where the installation may be placed, when an existing installation
//! may be removed, how the shell profile is edited, and in what order the
//! steps of a run happen. The surrounding binary performs the network and
//! filesystem work and consults these functions for every choice.

mod text;
mod errors;
mod safety;
mod paths;
mod profile;
mod transaction;
mod request;
mod coordinator;

pub use coordinator::RunAction;
pub use coordinator::RunCoordinator;
pub use coordinator::RunPhase;
pub use coordinator::lemma_cleanup_never_changes_outcome;
pub use coordinator::lemma_every_path_reaches_cleanup;
pub use coordinator::lemma_finish_only_after_cleanup;
pub use coordinator::lemma_first_failure_is_kept;
pub use coordinator::spec_action_for;
pub use coordinator::spec_next_failure;
pub use coordinator::spec_next_phase;
pub use coordinator::spec_steps_to_cleanup;
pub use errors::InstallError;
pub use errors::spec_error_message;
pub use request::InstallRequest;
pub use request::resolve_request;
pub use transaction::InstallPlan;
pub use transaction::lemma_guard_never_refuses_installation_dir;
pub use transaction::plan_install_transaction;
pub use profile::export_line;
pub use profile::lemma_profile_update_idempotent;
pub use profile::lemma_updated_profile_has_bin_path;
pub use profile::spec_export_line;
pub use profile::spec_updated_profile;
pub use profile::updated_profile_content;
pub use paths::archive_filename;
pub use paths::download_url;
pub use paths::go_bin_dir;
pub use paths::installation_dir;
pub use paths::lemma_dry_run_isolation;
pub use paths::resolve_target_path;
pub use paths::sandbox_path;
pub use paths::spec_archive_filename;
pub use paths::spec_download_url;
pub use paths::spec_go_bin_dir;
pub use paths::spec_installation_dir;
pub use paths::spec_sandbox_path;
pub use paths::spec_target_path;
pub use safety::is_unsafe_install_dir;
pub use safety::usr_install_location_safety_check;
pub use text::contains_str;
pub use text::ends_with_str;
pub use text::has_substring;
pub use text::match_at;
pub use text::starts_with_str;
