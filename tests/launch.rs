use view_tree_lsp::{
    interpreter, join_path, launch_command, resolve_command, script_path, LaunchError,
    ScriptLayout, ViewTreeExtension, RUNTIME_NAME, STDIO_FLAG,
};
use zed_extension_api::Command;

fn cwd(dir: &str) -> Result<String, String> {
    Ok(dir.to_string())
}

fn launched(r: Result<Command, LaunchError>) -> Command {
    match r {
        Ok(c) => c,
        Err(e) => panic!("expected a descriptor, got {:?}", e),
    }
}

#[test]
fn join_inserts_one_separator() {
    assert_eq!(join_path("/proj", "a/b.js"), "/proj/a/b.js");
    assert_eq!(join_path("/proj/", "a/b.js"), "/proj/a/b.js");
}

#[test]
fn join_onto_empty_base_keeps_relative_path() {
    assert_eq!(join_path("", "a/b.js"), "a/b.js");
}

#[test]
fn join_with_absolute_path_replaces_base() {
    assert_eq!(join_path("/proj", "/etc/x.js"), "/etc/x.js");
}

#[test]
fn sibling_script_path_for_proj() {
    let p = script_path(ScriptLayout::Sibling, "/proj");
    assert_eq!(p, "/proj/../out/server/index.js");
    assert!(p.ends_with("out/server/index.js"));
    let normalized = std::path::Path::new(&p)
        .components()
        .fold(std::path::PathBuf::new(), |mut acc, c| {
            match c {
                std::path::Component::ParentDir => {
                    acc.pop();
                }
                other => acc.push(other),
            }
            acc
        });
    assert_eq!(normalized, std::path::PathBuf::from("/out/server/index.js"));
}

#[test]
fn bundled_script_path_for_proj() {
    assert_eq!(
        script_path(ScriptLayout::Bundled, "/proj"),
        "/proj/lsp-server/out/server/index.js"
    );
    assert_eq!(
        script_path(ScriptLayout::Bundled, "/proj/"),
        "/proj/lsp-server/out/server/index.js"
    );
}

#[test]
fn runtime_found_on_path_is_used() {
    assert_eq!(interpreter(Some("/usr/bin/node".to_string())), "/usr/bin/node");
}

#[test]
fn missing_runtime_falls_back_to_bare_name() {
    assert_eq!(interpreter(None), "node");
    assert_eq!(RUNTIME_NAME, "node");
    let c = launched(resolve_command(ScriptLayout::Bundled, None, cwd("/proj"), true));
    assert_eq!(c.command, "node");
    let c = launched(resolve_command(ScriptLayout::Sibling, None, cwd("/proj"), false));
    assert_eq!(c.command, "node");
}

#[test]
fn launch_command_runs_script_over_stdio() {
    let c = launch_command("/bin/node".to_string(), "/s/index.js".to_string());
    assert_eq!(c.command, "/bin/node");
    assert_eq!(c.args, vec!["/s/index.js".to_string(), "--stdio".to_string()]);
    assert!(c.env.is_empty());
}

#[test]
fn bundled_launch_with_runtime_present() {
    let r = resolve_command(
        ScriptLayout::Bundled,
        Some("/usr/local/bin/node".to_string()),
        cwd("/home/me/ext"),
        true,
    );
    let c = launched(r);
    assert_eq!(c.command, "/usr/local/bin/node");
    let n = c.args.len();
    assert!(n >= 2);
    assert_eq!(c.args[n - 2], "/home/me/ext/lsp-server/out/server/index.js");
    assert_eq!(c.args[n - 1], STDIO_FLAG);
    assert_eq!(c.args[n - 1], "--stdio");
}

#[test]
fn sibling_launch_does_not_consult_the_file_system() {
    let c = launched(resolve_command(
        ScriptLayout::Sibling,
        Some("/usr/bin/node".to_string()),
        cwd("/proj"),
        false,
    ));
    assert_eq!(c.command, "/usr/bin/node");
    assert_eq!(
        c.args,
        vec!["/proj/../out/server/index.js".to_string(), "--stdio".to_string()]
    );
}

#[test]
fn missing_bundled_script_fails_with_its_path() {
    let r = resolve_command(
        ScriptLayout::Bundled,
        Some("/usr/bin/node".to_string()),
        cwd("/proj"),
        false,
    );
    let path = "/proj/lsp-server/out/server/index.js".to_string();
    match r {
        Ok(_) => panic!("a missing script must not give a descriptor"),
        Err(e) => {
            assert_eq!(e, LaunchError::ServerScriptMissing(path.clone()));
            let m = e.message();
            assert_eq!(m, "Bundled LSP server not found at /proj/lsp-server/out/server/index.js");
            assert!(m.contains(&path));
        }
    }
}

#[test]
fn unreadable_working_directory_fails() {
    for layout in [ScriptLayout::Sibling, ScriptLayout::Bundled] {
        let r = resolve_command(layout, None, Err("permission denied".to_string()), true);
        match r {
            Ok(_) => panic!("no descriptor without a working directory"),
            Err(e) => {
                assert_eq!(
                    e,
                    LaunchError::CurrentDirUnavailable("permission denied".to_string())
                );
                assert_eq!(e.message(), "Cannot get current directory: permission denied");
            }
        }
    }
}

#[test]
fn resolving_twice_gives_identical_descriptors() {
    for (layout, exists) in [(ScriptLayout::Sibling, false), (ScriptLayout::Bundled, true)] {
        let a = launched(resolve_command(layout, Some("/n".to_string()), cwd("/w"), exists));
        let b = launched(resolve_command(layout, Some("/n".to_string()), cwd("/w"), exists));
        assert_eq!(a.command.as_bytes(), b.command.as_bytes());
        assert_eq!(a.args, b.args);
        assert_eq!(a.env, b.env);
    }
    let e1 = resolve_command(ScriptLayout::Bundled, None, cwd("/w"), false);
    let e2 = resolve_command(ScriptLayout::Bundled, None, cwd("/w"), false);
    assert_eq!(e1.err(), e2.err());
}

#[test]
fn environment_is_always_empty() {
    for layout in [ScriptLayout::Sibling, ScriptLayout::Bundled] {
        for found in [None, Some("/usr/bin/node".to_string())] {
            let c = launched(resolve_command(layout, found, cwd("/proj"), true));
            assert!(c.env.is_empty());
        }
    }
}

#[test]
fn extension_defaults_to_bundled_layout() {
    let ext = ViewTreeExtension::new();
    assert_eq!(ext.layout, ScriptLayout::Bundled);
    assert_eq!(ext.script_path("/x"), "/x/lsp-server/out/server/index.js");
    let sib = ViewTreeExtension::with_layout(ScriptLayout::Sibling);
    assert_eq!(sib.layout, ScriptLayout::Sibling);
    assert_eq!(sib.script_path("/x"), "/x/../out/server/index.js");
}
