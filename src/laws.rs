use vstd::prelude::*;
use zed_extension_api::Command;

use crate::launch::{
    LaunchError, LaunchModel, RUNTIME_NAME, STDIO_FLAG, ScriptLayout, message_spec, outcome_model,
    relative_script_spec, resolve_spec, script_path_spec,
};
use crate::paths::join_spec;

verus! {

/// `needle` occurs in `hay` as a contiguous run.
pub open spec fn contains_run(hay: Seq<char>, needle: Seq<char>) -> bool {
    exists|i: int|
        0 <= i <= hay.len() - needle.len() && #[trigger] hay.subrange(i, i + needle.len())
            == needle
}

/// Joining a relative path keeps it whole at the end of the result.
pub proof fn lemma_join_ends_with(base: Seq<char>, rel: Seq<char>)
    ensures
        rel.is_suffix_of(join_spec(base, rel)),
{
    let j = join_spec(base, rel);
    if rel.len() > 0 && rel[0] == '/' {
        assert(j.subrange(0, j.len() as int) =~= j);
    } else if base.len() == 0 || base.last() == '/' {
        assert(j.subrange(base.len() as int, j.len() as int) =~= rel);
    } else {
        assert(j.subrange(base.len() + 1 as int, j.len() as int) =~= rel);
    }
}

/// Joining onto an absolute path gives an absolute path.
pub proof fn lemma_join_keeps_absolute(base: Seq<char>, rel: Seq<char>)
    requires
        base.len() > 0,
        base[0] == '/',
    ensures
        join_spec(base, rel).len() > 0,
        join_spec(base, rel)[0] == '/',
{
    if !(rel.len() > 0 && rel[0] == '/') {
        assert(join_spec(base, rel)[0] == base[0]);
    }
}

/// With the runtime found on the path and the script in place, resolution
/// launches the runtime found with exactly the script's path and the stdio
/// flag as its last two arguments; for an absolute working directory that
/// path is absolute too.
pub proof fn lemma_launch_arguments(
    layout: ScriptLayout,
    runtime: Seq<char>,
    cwd: Seq<char>,
    script_exists: bool,
)
    requires
        layout == ScriptLayout::Sibling || script_exists,
    ensures
        match resolve_spec(layout, Some(runtime), Ok(cwd), script_exists) {
            LaunchModel::Launch { executable, arguments, .. } => {
                &&& executable == runtime
                &&& arguments.len() >= 2
                &&& arguments[arguments.len() - 2] == script_path_spec(layout, cwd)
                &&& arguments[arguments.len() - 1] == STDIO_FLAG@
            },
            _ => false,
        },
        cwd.len() > 0 && cwd[0] == '/' ==> script_path_spec(layout, cwd)[0] == '/',
{
    if cwd.len() > 0 && cwd[0] == '/' {
        lemma_join_keeps_absolute(cwd, relative_script_spec(layout));
    }
}

/// In the sibling layout the script path is the working directory joined
/// with `../out/server/index.js`, so it always ends with
/// `out/server/index.js`.
pub proof fn lemma_sibling_script_suffix(cwd: Seq<char>)
    ensures
        "../out/server/index.js"@.is_suffix_of(script_path_spec(ScriptLayout::Sibling, cwd)),
        "out/server/index.js"@.is_suffix_of(script_path_spec(ScriptLayout::Sibling, cwd)),
{
    let rel = "../out/server/index.js"@;
    let tail = "out/server/index.js"@;
    let p = script_path_spec(ScriptLayout::Sibling, cwd);
    lemma_join_ends_with(cwd, rel);
    reveal_strlit("../out/server/index.js");
    reveal_strlit("out/server/index.js");
    assert(rel.subrange(3, rel.len() as int) =~= tail);
    assert(p.subrange(p.len() - tail.len(), p.len() as int) =~= tail) by {
        assert(p.subrange(p.len() - rel.len(), p.len() as int) == rel);
        assert forall|k: int| 0 <= k < tail.len() implies p.subrange(
            p.len() - tail.len(),
            p.len() as int,
        )[k] == tail[k] by {
            assert(p.subrange(p.len() - rel.len(), p.len() as int)[k + 3] == rel[k + 3]);
        }
    }
}

/// In the bundled layout a missing script always fails the launch, never
/// yields a descriptor, and the failure's message holds the exact path that
/// was tried.
pub proof fn lemma_missing_bundled_script(
    found: Option<Seq<char>>,
    cwd: Seq<char>,
    r: Result<Command, LaunchError>,
)
    requires
        outcome_model(r) == resolve_spec(ScriptLayout::Bundled, found, Ok(cwd), false),
    ensures
        r matches Err(LaunchError::ServerScriptMissing(p)) && p@ == script_path_spec(
            ScriptLayout::Bundled,
            cwd,
        ),
        r matches Err(e) && contains_run(
            message_spec(e),
            script_path_spec(ScriptLayout::Bundled, cwd),
        ),
{
    match r {
        Ok(_) => {},
        Err(e) => {
            let m = message_spec(e);
            let prefix = "Bundled LSP server not found at "@;
            let path = script_path_spec(ScriptLayout::Bundled, cwd);
            assert(m.subrange(prefix.len() as int, (prefix.len() + path.len()) as int) =~= path);
        },
    }
}

/// With no runtime on the path, resolution does not fail on that account:
/// it launches the bare runtime name and leaves the failure to the spawn.
pub proof fn lemma_missing_runtime(layout: ScriptLayout, cwd: Seq<char>, script_exists: bool)
    requires
        layout == ScriptLayout::Sibling || script_exists,
    ensures
        resolve_spec(layout, None, Ok(cwd), script_exists) matches LaunchModel::Launch {
            executable,
            ..
        } && executable == RUNTIME_NAME@,
{
}

/// Resolution is a function of its inputs: two results for the same runtime
/// search, working directory and file system state hold the same characters
/// in every field.
pub proof fn lemma_resolution_deterministic(
    layout: ScriptLayout,
    found: Option<Seq<char>>,
    cwd: Result<Seq<char>, Seq<char>>,
    script_exists: bool,
    r1: Result<Command, LaunchError>,
    r2: Result<Command, LaunchError>,
)
    requires
        outcome_model(r1) == resolve_spec(layout, found, cwd, script_exists),
        outcome_model(r2) == resolve_spec(layout, found, cwd, script_exists),
    ensures
        outcome_model(r1) == outcome_model(r2),
{
}

/// Resolution never sets an environment variable.
pub proof fn lemma_empty_environment(
    layout: ScriptLayout,
    found: Option<Seq<char>>,
    cwd: Result<Seq<char>, Seq<char>>,
    script_exists: bool,
)
    ensures
        resolve_spec(layout, found, cwd, script_exists) matches LaunchModel::Launch {
            environment,
            ..
        } ==> environment.len() == 0,
{
}

} // verus!
