use vstd::prelude::*;
use vstd::string::*;
use zed_extension_api::Command;
use zed_extension_api::Worktree;

use crate::host::find_on_path;
use crate::paths::{join_path, join_spec};

verus! {

/// The name of the runtime that runs the server script.
pub const RUNTIME_NAME: &'static str = "node";

/// The flag that puts the server into stdio transport mode.
pub const STDIO_FLAG: &'static str = "--stdio";

/// Where the server's entry script lies, relative to the working directory.
#[derive(Clone, Copy, Debug, PartialEq, Eq, Structural)]
pub enum ScriptLayout {
    /// The extension's own build output, beside the working directory:
    /// `<cwd>/../out/server/index.js`. Not checked on disk.
    Sibling,
    /// A server bundled with the extension: `<cwd>/lsp-server/out/server/index.js`.
    /// A launch fails when the script is not there.
    Bundled,
}

/// Why no launch descriptor could be produced.
#[derive(Clone, Debug, PartialEq, Eq)]
pub enum LaunchError {
    /// The working directory could not be read; holds the reason given.
    CurrentDirUnavailable(String),
    /// The bundled server script is missing; holds the path that was tried.
    ServerScriptMissing(String),
}

/// The text shown to the user for a failed launch.
pub open spec fn message_spec(e: LaunchError) -> Seq<char> {
    match e {
        LaunchError::CurrentDirUnavailable(reason) => "Cannot get current directory: "@ + reason@,
        LaunchError::ServerScriptMissing(path) => "Bundled LSP server not found at "@ + path@,
    }
}

impl LaunchError {
    /// The text shown to the user for this failure.
    pub fn message(&self) -> (r: String)
        ensures
            r@ == message_spec(*self),
    {
        match self {
            LaunchError::CurrentDirUnavailable(reason) => {
                let mut text = String::from_str("Cannot get current directory: ");
                text.append(reason.as_str());
                text
            },
            LaunchError::ServerScriptMissing(path) => {
                let mut text = String::from_str("Bundled LSP server not found at ");
                text.append(path.as_str());
                text
            },
        }
    }
}

/// What a resolution comes to, with every string as its characters.
pub enum LaunchModel {
    /// Run `executable` with `arguments`, adding `environment`.
    Launch {
        executable: Seq<char>,
        arguments: Seq<Seq<char>>,
        environment: Seq<(Seq<char>, Seq<char>)>,
    },
    /// The working directory could not be read.
    NoWorkingDir { reason: Seq<char> },
    /// The bundled script is not at `path`.
    MissingScript { path: Seq<char> },
}

/// The script's path relative to the working directory, per layout.
pub open spec fn relative_script_spec(layout: ScriptLayout) -> Seq<char> {
    match layout {
        ScriptLayout::Sibling => "../out/server/index.js"@,
        ScriptLayout::Bundled => "lsp-server/out/server/index.js"@,
    }
}

/// The server script's path for the working directory `cwd`.
pub open spec fn script_path_spec(layout: ScriptLayout, cwd: Seq<char>) -> Seq<char> {
    join_spec(cwd, relative_script_spec(layout))
}

/// The interpreter to run: what the path search found, else the bare
/// runtime name, so that a missing runtime fails when the host spawns it.
pub open spec fn interpreter_spec(found: Option<Seq<char>>) -> Seq<char> {
    match found {
        Some(p) => p,
        None => RUNTIME_NAME@,
    }
}

/// The descriptor that runs `script` with `interpreter` over stdio.
pub open spec fn launch_spec(interpreter: Seq<char>, script: Seq<char>) -> LaunchModel {
    LaunchModel::Launch {
        executable: interpreter,
        arguments: seq![script, STDIO_FLAG@],
        environment: Seq::empty(),
    }
}

/// The outcome of a resolution: `found` is what the path search for the
/// runtime returned, `cwd` the working directory or why it could not be
/// read, and `script_exists` whether the file at
/// `script_path_spec(layout, cwd)` exists (read for the bundled layout only).
pub open spec fn resolve_spec(
    layout: ScriptLayout,
    found: Option<Seq<char>>,
    cwd: Result<Seq<char>, Seq<char>>,
    script_exists: bool,
) -> LaunchModel {
    match cwd {
        Err(reason) => LaunchModel::NoWorkingDir { reason },
        Ok(dir) => {
            let script = script_path_spec(layout, dir);
            if layout == ScriptLayout::Bundled && !script_exists {
                LaunchModel::MissingScript { path: script }
            } else {
                launch_spec(interpreter_spec(found), script)
            }
        },
    }
}

/// A descriptor, as its characters.
pub open spec fn command_model(c: Command) -> LaunchModel {
    LaunchModel::Launch {
        executable: c.command@,
        arguments: c.args@.map_values(|a: String| a@),
        environment: c.env@.map_values(|kv: (String, String)| (kv.0@, kv.1@)),
    }
}

/// A result of resolution, as its characters.
pub open spec fn outcome_model(r: Result<Command, LaunchError>) -> LaunchModel {
    match r {
        Ok(c) => command_model(c),
        Err(LaunchError::CurrentDirUnavailable(reason)) => LaunchModel::NoWorkingDir {
            reason: reason@,
        },
        Err(LaunchError::ServerScriptMissing(path)) => LaunchModel::MissingScript { path: path@ },
    }
}

/// An optional string, as its characters.
pub open spec fn option_model(o: Option<String>) -> Option<Seq<char>> {
    match o {
        Some(s) => Some(s@),
        None => None,
    }
}

/// A working directory or the reason it could not be read, as characters.
pub open spec fn cwd_model(r: Result<String, String>) -> Result<Seq<char>, Seq<char>> {
    match r {
        Ok(s) => Ok(s@),
        Err(e) => Err(e@),
    }
}

/// The server script's path for the working directory `cwd`.
pub fn script_path(layout: ScriptLayout, cwd: &str) -> (r: String)
    ensures
        r@ == script_path_spec(layout, cwd@),
{
    match layout {
        ScriptLayout::Sibling => join_path(cwd, "../out/server/index.js"),
        ScriptLayout::Bundled => join_path(cwd, "lsp-server/out/server/index.js"),
    }
}

/// The interpreter to run, given what the path search for the runtime found.
pub fn interpreter(found: Option<String>) -> (r: String)
    ensures
        r@ == interpreter_spec(option_model(found)),
{
    match found {
        Some(p) => p,
        None => String::from_str(RUNTIME_NAME),
    }
}

/// The descriptor that runs `script` with `interpreter` in stdio mode, with
/// no environment of its own.
pub fn launch_command(interpreter: String, script: String) -> (r: Command)
    ensures
        command_model(r) == launch_spec(interpreter@, script@),
{
    let mut args: Vec<String> = Vec::new();
    args.push(script);
    args.push(String::from_str(STDIO_FLAG));
    let r = Command { command: interpreter, args, env: Vec::new() };
    assert(r.args@.map_values(|a: String| a@) =~= seq![script@, STDIO_FLAG@]);
    assert(r.env@.map_values(|kv: (String, String)| (kv.0@, kv.1@)) =~= Seq::empty());
    r
}

/// Resolves the launch descriptor from what the host and the file system
/// report: `found`, the runtime's path search; `cwd`, the working directory
/// or why it could not be read; `script_exists`, whether the file that
/// `script_path(layout, cwd)` names exists (read for the bundled layout only).
pub fn resolve_command(
    layout: ScriptLayout,
    found: Option<String>,
    cwd: Result<String, String>,
    script_exists: bool,
) -> (r: Result<Command, LaunchError>)
    ensures
        outcome_model(r) == resolve_spec(layout, option_model(found), cwd_model(cwd), script_exists),
{
    match cwd {
        Err(reason) => Err(LaunchError::CurrentDirUnavailable(reason)),
        Ok(dir) => {
            let script = script_path(layout, dir.as_str());
            if layout == ScriptLayout::Bundled && !script_exists {
                Err(LaunchError::ServerScriptMissing(script))
            } else {
                Ok(launch_command(interpreter(found), script))
            }
        },
    }
}

/// The view.tree language server's launcher, for one script layout.
#[derive(Clone, Copy, Debug)]
pub struct ViewTreeExtension {
    pub layout: ScriptLayout,
}

impl ViewTreeExtension {
    /// A launcher for the bundled server, which must be present on disk.
    pub fn new() -> (r: Self)
        ensures
            r.layout == ScriptLayout::Bundled,
    {
        ViewTreeExtension { layout: ScriptLayout::Bundled }
    }

    /// A launcher for the given layout.
    pub fn with_layout(layout: ScriptLayout) -> (r: Self)
        ensures
            r.layout == layout,
    {
        ViewTreeExtension { layout }
    }

    /// The server script's path for the working directory `cwd`.
    pub fn script_path(&self, cwd: &str) -> (r: String)
        ensures
            r@ == script_path_spec(self.layout, cwd@),
    {
        script_path(self.layout, cwd)
    }

    /// The command that starts the language server for `worktree`: the
    /// runtime is searched on the worktree's path, and the outcome is
    /// `resolve_spec` for whatever that search returned. `cwd` and
    /// `script_exists` are as for `resolve_command`.
    pub fn language_server_command(
        &self,
        worktree: &Worktree,
        cwd: Result<String, String>,
        script_exists: bool,
    ) -> (r: Result<Command, LaunchError>)
        ensures
            exists|found: Option<Seq<char>>|
                outcome_model(r) == #[trigger] resolve_spec(
                    self.layout,
                    found,
                    cwd_model(cwd),
                    script_exists,
                ),
    {
        let found = find_on_path(worktree, RUNTIME_NAME);
        let ghost found_model = option_model(found);
        let r = resolve_command(self.layout, found, cwd, script_exists);
        assert(outcome_model(r) == resolve_spec(self.layout, found_model, cwd_model(cwd), script_exists));
        r
    }
}

} // verus!
