//! Resolution of the command line that starts the view.tree language server.
//!
//! The editor asks for a launch descriptor: an interpreter, the server's entry
//! script followed by `--stdio`, and an empty environment. Everything that
//! decides that descriptor lives here and is verified; reading the working
//! directory and probing the file system are left to the caller, which hands
//! the results in as plain values.
mod host;
mod launch;
mod laws;
mod paths;

pub use laws::{
    contains_run, lemma_empty_environment, lemma_join_ends_with, lemma_join_keeps_absolute,
    lemma_launch_arguments, lemma_missing_bundled_script, lemma_missing_runtime,
    lemma_resolution_deterministic, lemma_sibling_script_suffix,
};
pub use launch::{
    LaunchError, LaunchModel, RUNTIME_NAME, STDIO_FLAG, ScriptLayout, ViewTreeExtension,
    command_model, cwd_model, interpreter, interpreter_spec, launch_command, launch_spec,
    message_spec, option_model, outcome_model, relative_script_spec, resolve_command,
    resolve_spec, script_path, script_path_spec,
};
pub use paths::{is_separator, join_path, join_spec};
