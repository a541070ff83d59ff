use rusty_nodejs_repl::config::{REPL_JS, SCRIPT_FILE_NAME};
use rusty_nodejs_repl::{
    default_build_command, BuildCommand, Config, ConfigBuilder, ConfigBuilderError,
    DefaultBuildCommand, Error,
};

fn strings(v: &[&str]) -> Vec<String> {
    v.iter().map(|s| s.to_string()).collect()
}

#[test]
fn default_config_holds_defaults() {
    let conf = Config::build().unwrap();
    assert!(conf.imports.is_empty());
    assert!(conf.before.is_empty());
    assert!(conf.after.is_empty());
    assert!(conf.copy_dirs.is_empty());
    assert_eq!(conf.repl_code, REPL_JS);
    assert_eq!(conf.script_file_name(), SCRIPT_FILE_NAME);
    assert_eq!(conf.script_file_name(), "script.js");
    assert_eq!(conf.node_binary(), "node");
    assert_eq!(conf.eof(), &vec![0u8, 1, 0]);
    assert_eq!(conf.path_to_node_modules, None);
}

#[test]
fn default_script_waits_for_the_loop() {
    let conf = Config::build().unwrap();
    let expected = format!("\n\n(async () => {{\n\n  {}\n  await repl();\n\n}})();", REPL_JS);
    assert_eq!(conf.build_script(), expected);
}

#[test]
fn script_orders_imports_setup_loop_and_teardown() {
    let conf = ConfigBuilder::default()
        .imports(strings(&["const fs = require('fs')", "const os = require('os')"]))
        .before(strings(&["let x = 1", "x += 1"]))
        .repl_code("REPL".to_string())
        .after(strings(&["teardownA()", "teardownB()"]))
        .build()
        .unwrap();
    let expected = "\nconst fs = require('fs');\nconst os = require('os')\n(async () => {\nlet x = 1;\nx += 1\n  REPL\n  await repl();\nteardownB();\nteardownA()\n})();";
    assert_eq!(conf.build_script(), expected);
}

#[test]
fn teardown_runs_last_registered_first() {
    let conf = ConfigBuilder::default()
        .repl_code(String::new())
        .after(strings(&["A", "B", "C"]))
        .build()
        .unwrap();
    let script = conf.build_script();
    let c = script.find("C;").unwrap();
    let b = script.find("B;").unwrap();
    let a = script.rfind("\nA\n").unwrap();
    let l = script.find("await repl();").unwrap();
    assert!(l < c && c < b && b < a);
}

#[test]
fn single_fragments_take_no_separator() {
    let conf = ConfigBuilder::default()
        .imports(strings(&["I"]))
        .before(strings(&["S"]))
        .repl_code("R".to_string())
        .after(strings(&["T"]))
        .build()
        .unwrap();
    assert_eq!(conf.build_script(), "\nI\n(async () => {\nS\n  R\n  await repl();\nT\n})();");
}

#[test]
fn default_command_without_node_path() {
    let conf = Config::build().unwrap();
    assert_eq!(default_build_command(&conf, "/tmp/w", "/tmp/w/script.js"), " node /tmp/w/script.js");
    assert_eq!(conf.launch_command("/tmp/w", "/tmp/w/script.js"), " node /tmp/w/script.js");
}

#[test]
fn default_command_with_node_path_and_binary() {
    let conf = ConfigBuilder::default()
        .path_to_node_modules(Some("../node_modules".to_string()))
        .node_binary("/usr/bin/nodejs".to_string())
        .build()
        .unwrap();
    assert_eq!(
        default_build_command(&conf, "/tmp/w", "/tmp/w/script.js"),
        "NODE_PATH=../node_modules /usr/bin/nodejs /tmp/w/script.js"
    );
}

struct InDir;

impl BuildCommand for InDir {
    fn build_command(
        &self,
        node_binary: &str,
        _path_to_node_modules: Option<&str>,
        working_dir: &str,
        path_to_script: &str,
    ) -> String {
        format!("cd {working_dir} && {node_binary} {path_to_script}")
    }
}

#[test]
fn caller_command_builder_replaces_default() {
    let conf = ConfigBuilder::default()
        .build_command(Some(Box::new(InDir)))
        .build()
        .unwrap();
    assert_eq!(conf.launch_command("/w", "/w/s.js"), "cd /w && node /w/s.js");
    let conf = ConfigBuilder::default()
        .build_command(Some(Box::new(InDir)))
        .build_command(None)
        .build()
        .unwrap();
    assert_eq!(conf.launch_command("/w", "/w/s.js"), " node /w/s.js");
}

#[test]
fn builder_refuses_empty_eof() {
    let r = ConfigBuilder::default().eof(vec![]).build();
    assert!(matches!(r, Err(ConfigBuilderError::EmptyEof)));
}

#[test]
fn builder_refuses_empty_script_file_name() {
    let r = ConfigBuilder::default()
        .script_file_name(String::new())
        .eof(vec![])
        .build();
    assert!(matches!(r, Err(ConfigBuilderError::EmptyScriptFileName)));
}

#[test]
fn builder_keeps_custom_eof_and_name() {
    let conf = ConfigBuilder::default()
        .eof(vec![7, 7])
        .script_file_name("main.js".to_string())
        .copy_dirs(strings(&["lib"]))
        .build()
        .unwrap();
    assert_eq!(conf.eof(), &vec![7u8, 7]);
    assert_eq!(conf.script_file_name(), "main.js");
    assert_eq!(conf.copy_dirs, strings(&["lib"]));
}

#[test]
fn copy_exit_zero_is_success() {
    assert!(rusty_nodejs_repl::config::check_copy_status("a", "b", Some(0), "").is_ok());
}

#[test]
fn copy_nonzero_exit_fails_with_message() {
    let r = rusty_nodejs_repl::config::check_copy_status(
        "/no/such/dir",
        "/tmp/w",
        Some(1),
        "cp: cannot stat '/no/such/dir'",
    );
    match r {
        Err(Error::CommandFailed(code, msg)) => {
            assert_eq!(code, Some(1));
            assert_eq!(
                msg,
                "failed to copy dir [/no/such/dir] to [/tmp/w] got stderr: cp: cannot stat '/no/such/dir'"
            );
        }
        other => panic!("unexpected {other:?}"),
    }
}

#[test]
fn copy_killed_by_signal_fails() {
    let r = rusty_nodejs_repl::config::check_copy_status("d", "w", None, "");
    assert!(matches!(r, Err(Error::CommandFailed(None, _))));
}

#[test]
fn default_strategy_matches_default_command() {
    let r = DefaultBuildCommand.build_command("node", Some("nm"), "/w", "/w/s.js");
    assert_eq!(r, "NODE_PATH=nm node /w/s.js");
    let r = DefaultBuildCommand.build_command("node", None, "/w", "/w/s.js");
    assert_eq!(r, " node /w/s.js");
}

#[test]
fn every_setup_fragment_precedes_loop_and_teardown() {
    let conf = ConfigBuilder::default()
        .imports(strings(&["imp()"]))
        .before(strings(&["setupOne()", "setupTwo()"]))
        .repl_code("defineLoop()".to_string())
        .after(strings(&["tearOne()", "tearTwo()"]))
        .build()
        .unwrap();
    let script = conf.build_script();
    let wait = script.find("\n  await repl();\n").unwrap();
    for s in ["setupOne()", "setupTwo()"] {
        assert!(script.find(s).unwrap() + s.len() <= wait);
    }
    for t in ["tearOne()", "tearTwo()"] {
        assert!(wait + "\n  await repl();\n".len() <= script.find(t).unwrap());
    }
    assert!(script.find("tearTwo()").unwrap() < script.find("tearOne()").unwrap());
}
