use vstd::prelude::*;

verus! {

/// The editor's launch descriptor, with its fields visible to the proofs:
/// `command`, `args` and `env` are plain strings, a vector of strings and a
/// vector of name/value pairs.
#[verifier::external_type_specification]
pub struct ExCommand(zed_extension_api::Command);

/// A worktree of the editor: a handle held by the host, opaque here.
#[verifier::external_type_specification]
#[verifier::external_body]
pub struct ExWorktree(zed_extension_api::Worktree);

/// Relies on `Worktree::which`: the host searches the worktree's `$PATH` for
/// `name`. What it finds depends on the machine, so nothing is stated of it.
#[verifier::external_body]
pub(crate) fn find_on_path(worktree: &zed_extension_api::Worktree, name: &str) -> (r: Option<String>) {
    worktree.which(name)
}

} // verus!
