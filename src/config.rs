//! How the Node.js process is set up: the configuration, its builder, the
//! script that turns Node.js into a loop, and the command that starts it.
use vstd::prelude::*;

use crate::error::{ConfigBuilderError, Error};
use crate::text::{
    join, joined, lemma_last_registered_runs_first, lemma_offset_grows, lemma_part_at, offset, reversed, texts,
};

verus! {

/// The loop run by default: each chunk read on standard input is evaluated,
/// and `queue.done()` ends the loop.
pub const REPL_JS: &'static str = "
const queue = { done: () => {} };
const repl = () => new Promise((resolve) => {
  const onData = (chunk) => {
    try {
      eval(chunk.toString());
    } catch (err) {
      console.error(err);
    }
  };
  queue.done = () => {
    process.stdin.off('data', onData);
    process.stdin.pause();
    resolve();
  };
  process.stdin.on('data', onData);
});
process.on('unhandledRejection', (err) => console.error(err));
";

/// File name of the script inside the working directory, by default.
pub const SCRIPT_FILE_NAME: &'static str = "script.js";

/// The Node.js binary, by default.
pub const DEFAULT_NODE_BINARY: &'static str = "node";

/// Separator between two fragments of the script.
pub const FRAGMENT_SEP: &'static str = ";\n";

/// The end-of-output marker used by default.
pub open spec fn default_eof() -> Seq<u8> {
    seq![0u8, 1u8, 0u8]
}

/// The text of an optional string.
pub open spec fn opt_text(o: Option<String>) -> Option<Seq<char>> {
    match o {
        Some(s) => Some(s@),
        None => None,
    }
}

/// What opens the script: `imports` at top level, then the start of the one
/// async block.
pub open spec fn script_open(imports: Seq<Seq<char>>) -> Seq<char> {
    "\n"@ + joined(imports, FRAGMENT_SEP@) + "\n(async () => {\n"@
}

/// The wait for the loop to end.
pub open spec fn loop_wait() -> Seq<char> {
    "\n  await repl();\n"@
}

/// The script up to the end of the loop: the opening, `before`, the loop's
/// definition `repl_code`, and the wait for the loop to end.
pub open spec fn loop_part(imports: Seq<Seq<char>>, before: Seq<Seq<char>>, repl_code: Seq<char>) -> Seq<char> {
    script_open(imports) + joined(before, FRAGMENT_SEP@) + "\n  "@ + repl_code + loop_wait()
}

/// What closes the async block and calls it.
pub open spec fn script_close() -> Seq<char> {
    "\n})();"@
}

/// The script: the loop part, then `after` in reverse order, then the close.
pub open spec fn script_text(
    imports: Seq<Seq<char>>,
    before: Seq<Seq<char>>,
    repl_code: Seq<char>,
    after: Seq<Seq<char>>,
) -> Seq<char> {
    loop_part(imports, before, repl_code) + joined(after.reverse(), FRAGMENT_SEP@) + script_close()
}

/// Teardown is last in, first out, and after setup and the loop: with one
/// more teardown fragment registered, the script runs it right after the
/// loop has ended and before every fragment registered earlier.
pub proof fn lemma_teardown_lifo(v: ConfigView, last: Seq<char>)
    requires
        v.after.len() > 0,
    ensures
        (ConfigView { after: v.after.push(last), ..v }).script() == loop_part(v.imports, v.before, v.repl_code)
            + last + FRAGMENT_SEP@ + joined(v.after.reverse(), FRAGMENT_SEP@) + script_close(),
{
    lemma_last_registered_runs_first(v.after, last, FRAGMENT_SEP@);
    assert(loop_part(v.imports, v.before, v.repl_code) + (last + FRAGMENT_SEP@ + joined(
        v.after.reverse(),
        FRAGMENT_SEP@,
    )) + script_close() =~= loop_part(v.imports, v.before, v.repl_code) + last + FRAGMENT_SEP@
        + joined(v.after.reverse(), FRAGMENT_SEP@) + script_close());
}

/// The default command line: `NODE_PATH=<module path>` when a module path is
/// set, then the binary and the script, separated by spaces.
pub open spec fn default_command_text(
    node_path: Option<Seq<char>>,
    node_binary: Seq<char>,
    path_to_script: Seq<char>,
) -> Seq<char> {
    let env = match node_path {
        Some(p) => "NODE_PATH="@ + p,
        None => Seq::empty(),
    };
    env + " "@ + node_binary + " "@ + path_to_script
}

/// The message of a failed copy.
pub open spec fn copy_failure_message(dir: Seq<char>, working_dir: Seq<char>, stderr: Seq<char>) -> Seq<char> {
    "failed to copy dir ["@ + dir + "] to ["@ + working_dir + "] got stderr: "@ + stderr
}

/// Builds the shell command that starts Node.js on the script.
pub trait BuildCommand {
    /// Given the Node.js binary, the `node_modules` directory if one is set,
    /// the working directory and the full path of the script, the command
    /// line for `sh -c`.
    fn build_command(
        &self,
        node_binary: &str,
        path_to_node_modules: Option<&str>,
        working_dir: &str,
        path_to_script: &str,
    ) -> String;
}

/// The command line of [`default_build_command`].
pub struct DefaultBuildCommand;

impl BuildCommand for DefaultBuildCommand {
    fn build_command(
        &self,
        node_binary: &str,
        path_to_node_modules: Option<&str>,
        _working_dir: &str,
        path_to_script: &str,
    ) -> (r: String)
        ensures
            r@ == default_command_text(
                match path_to_node_modules {
                    Some(p) => Some(p@),
                    None => None,
                },
                node_binary@,
                path_to_script@,
            ),
    {
        command_line(node_binary, path_to_node_modules, path_to_script)
    }
}

/// `NODE_PATH=<path_to_node_modules> <node_binary> <path_to_script>`, without
/// the `NODE_PATH` part when no module path is given.
fn command_line(node_binary: &str, path_to_node_modules: Option<&str>, path_to_script: &str) -> (r: String)
    ensures
        r@ == default_command_text(
            match path_to_node_modules {
                Some(p) => Some(p@),
                None => None,
            },
            node_binary@,
            path_to_script@,
        ),
{
    let mut s = String::new();
    match path_to_node_modules {
        Some(p) => {
            s.append("NODE_PATH=");
            s.append(p);
        },
        None => {},
    }
    s.append(" ");
    s.append(node_binary);
    s.append(" ");
    s.append(path_to_script);
    s
}

/// How to run the loop: fragments of JavaScript run before, around and after
/// it, where its script lives, how Node.js is started and which bytes end
/// one answer.
///
/// The script looks like:
///
/// ```js
/// // imports
/// (async () => {
///     // before
///     // repl_code, which defines repl()
///     await repl();
///     // after, last first
/// })();
/// ```
pub struct Config {
    /// JavaScript run first, at top level.
    pub imports: Vec<String>,
    /// Code that runs before the loop, in an async context.
    pub before: Vec<String>,
    /// Defines the loop `repl()` and `queue.done()`, which ends it.
    pub repl_code: String,
    /// Code that runs after the loop, in reverse order.
    pub after: Vec<String>,
    /// Name of the script file within the working directory.
    pub script_file_name: String,
    /// Builds the command that starts Node.js; the default when absent.
    pub build_command: Option<Box<dyn BuildCommand>>,
    /// Paths copied into the working directory beside the script.
    pub copy_dirs: Vec<String>,
    /// A `node_modules` directory for Node.js to use.
    pub path_to_node_modules: Option<String>,
    /// The Node.js binary.
    pub node_binary: String,
    /// The bytes that end the output of one call.
    pub eof: Vec<u8>,
}

/// What a [`Config`] holds, as text and bytes.
pub ghost struct ConfigView {
    pub imports: Seq<Seq<char>>,
    pub before: Seq<Seq<char>>,
    pub repl_code: Seq<char>,
    pub after: Seq<Seq<char>>,
    pub script_file_name: Seq<char>,
    /// Whether a command builder of the caller's replaces the default command.
    pub has_build_command: bool,
    pub copy_dirs: Seq<Seq<char>>,
    pub path_to_node_modules: Option<Seq<char>>,
    pub node_binary: Seq<char>,
    pub eof: Seq<u8>,
}

impl ConfigView {
    /// What a built configuration always holds.
    pub open spec fn wf(self) -> bool {
        self.script_file_name.len() > 0 && self.eof.len() > 0
    }

    /// Every field holds its default.
    pub open spec fn has_defaults(self) -> bool {
        &&& self.imports.len() == 0
        &&& self.before.len() == 0
        &&& self.repl_code == REPL_JS@
        &&& self.after.len() == 0
        &&& self.script_file_name == SCRIPT_FILE_NAME@
        &&& !self.has_build_command
        &&& self.copy_dirs.len() == 0
        &&& self.path_to_node_modules is None
        &&& self.node_binary == DEFAULT_NODE_BINARY@
        &&& self.eof == default_eof()
    }

    /// The script this configuration runs.
    pub open spec fn script(self) -> Seq<char> {
        script_text(self.imports, self.before, self.repl_code, self.after)
    }

    /// The command line that starts Node.js when no command builder is set.
    pub open spec fn default_command(self, path_to_script: Seq<char>) -> Seq<char> {
        default_command_text(self.path_to_node_modules, self.node_binary, path_to_script)
    }
}

impl View for Config {
    type V = ConfigView;

    open spec fn view(&self) -> ConfigView {
        ConfigView {
            imports: texts(self.imports@),
            before: texts(self.before@),
            repl_code: self.repl_code@,
            after: texts(self.after@),
            script_file_name: self.script_file_name@,
            has_build_command: self.build_command is Some,
            copy_dirs: texts(self.copy_dirs@),
            path_to_node_modules: opt_text(self.path_to_node_modules),
            node_binary: self.node_binary@,
            eof: self.eof@,
        }
    }
}

impl Config {
    /// Build a default [`Config`].
    pub fn build() -> (r: Result<Config, Error>)
        ensures
            r matches Ok(c) && c@.has_defaults() && c@.wf(),
    {
        let b = ConfigBuilder::default();
        proof {
            reveal_strlit("script.js");
            assert(b@.script_file_name.len() > 0);
        }
        match b.build() {
            Ok(c) => Ok(c),
            Err(e) => Err(Error::ConfigBuilderError(e)),
        }
    }

    /// Name of the script file within the working directory.
    pub fn script_file_name(&self) -> (r: &String)
        ensures
            r@ == self@.script_file_name,
    {
        &self.script_file_name
    }

    /// The Node.js binary.
    pub fn node_binary(&self) -> (r: &String)
        ensures
            r@ == self@.node_binary,
    {
        &self.node_binary
    }

    /// The bytes that end the output of one call.
    pub fn eof(&self) -> (r: &Vec<u8>)
        ensures
            r@ == self@.eof,
    {
        &self.eof
    }

    /// The script that turns Node.js into the loop.
    pub fn build_script(&self) -> (r: String)
        ensures
            r@ == self@.script(),
    {
        let import_str = join(&self.imports, FRAGMENT_SEP);
        let before_str = join(&self.before, FRAGMENT_SEP);
        let after_rev = reversed(&self.after);
        let after_str = join(&after_rev, FRAGMENT_SEP);
        let mut s = String::new();
        s.append("\n");
        s.append(import_str.as_str());
        s.append("\n(async () => {\n");
        s.append(before_str.as_str());
        s.append("\n  ");
        s.append(self.repl_code.as_str());
        s.append("\n  await repl();\n");
        s.append(after_str.as_str());
        s.append("\n})();");
        assert(s@ =~= self@.script());
        s
    }

    /// The shell command that starts Node.js on the script: the caller's
    /// builder where one was given, else [`default_build_command`].
    pub fn launch_command(&self, working_dir: &str, path_to_script: &str) -> (r: String)
        ensures
            !self@.has_build_command ==> r@ == self@.default_command(path_to_script@),
    {
        match &self.build_command {
            Some(b) => b.build_command(self.node_binary.as_str(), self.node_path(), working_dir, path_to_script),
            None => default_build_command(self, working_dir, path_to_script),
        }
    }

    fn node_path(&self) -> (r: Option<&str>)
        ensures
            match r {
                Some(p) => self@.path_to_node_modules == Some(p@),
                None => self@.path_to_node_modules is None,
            },
    {
        match &self.path_to_node_modules {
            Some(p) => Some(p.as_str()),
            None => None,
        }
    }
}

/// `NODE_PATH=<path_to_node_modules> <node_binary> <path_to_script>`, without
/// the `NODE_PATH` part when no module path is set.
pub fn default_build_command(conf: &Config, _working_dir: &str, path_to_script: &str) -> (r: String)
    ensures
        r@ == conf@.default_command(path_to_script@),
{
    command_line(conf.node_binary.as_str(), conf.node_path(), path_to_script)
}

/// Where setup fragment `i` starts in the script.
pub open spec fn setup_at(v: ConfigView, i: int) -> int {
    script_open(v.imports).len() + offset(v.before, FRAGMENT_SEP@, i)
}

/// Where the wait for the loop starts in the script.
pub open spec fn loop_wait_at(v: ConfigView) -> int {
    loop_part(v.imports, v.before, v.repl_code).len() - loop_wait().len()
}

/// Where teardown fragment `j`, counted in order of registration, starts in
/// the script.
pub open spec fn teardown_at(v: ConfigView, j: int) -> int {
    loop_part(v.imports, v.before, v.repl_code).len() + offset(
        v.after.reverse(),
        FRAGMENT_SEP@,
        v.after.len() - 1 - j,
    )
}

/// Setup, then the loop, then teardown: every setup fragment stands in the
/// script ahead of the wait for the loop, and every teardown fragment after it.
pub proof fn lemma_setup_loop_teardown(v: ConfigView, i: int, j: int)
    requires
        0 <= i < v.before.len(),
        0 <= j < v.after.len(),
    ensures
        v.script().subrange(setup_at(v, i), setup_at(v, i) + v.before[i].len()) == v.before[i],
        v.script().subrange(loop_wait_at(v), loop_wait_at(v) + loop_wait().len()) == loop_wait(),
        v.script().subrange(teardown_at(v, j), teardown_at(v, j) + v.after[j].len()) == v.after[j],
        setup_at(v, i) + v.before[i].len() <= loop_wait_at(v),
        loop_wait_at(v) + loop_wait().len() <= teardown_at(v, j),
{
    let sep = FRAGMENT_SEP@;
    let o = script_open(v.imports);
    let jb = joined(v.before, sep);
    let lp = loop_part(v.imports, v.before, v.repl_code);
    let r = v.after.reverse();
    let ja = joined(r, sep);
    let sc = v.script();
    let k = v.after.len() - 1 - j;
    assert(sc == lp + ja + script_close());
    assert(r.len() == v.after.len() && r[k] == v.after[j]);
    lemma_part_at(v.before, sep, i);
    lemma_part_at(r, sep, k);
    lemma_offset_grows(v.before, sep, 0, i);
    lemma_offset_grows(r, sep, 0, k);
    let si = setup_at(v, i);
    assert(sc.subrange(si, si + v.before[i].len()) =~= jb.subrange(
        offset(v.before, sep, i),
        offset(v.before, sep, i) + v.before[i].len(),
    ));
    let w = loop_wait_at(v);
    assert(sc.subrange(w, w + loop_wait().len()) =~= loop_wait());
    let t = teardown_at(v, j);
    assert(sc.subrange(t, t + v.after[j].len()) =~= ja.subrange(
        offset(r, sep, k),
        offset(r, sep, k) + r[k].len(),
    ));
}

/// Teardown runs last in, first out: of two teardown fragments, the one
/// registered later stands ahead of the other in the script.
pub proof fn lemma_teardown_reverse_order(v: ConfigView, a: int, b: int)
    requires
        0 <= a < b < v.after.len(),
    ensures
        teardown_at(v, b) + v.after[b].len() <= teardown_at(v, a),
{
    let sep = FRAGMENT_SEP@;
    let r = v.after.reverse();
    let kb = v.after.len() - 1 - b;
    let ka = v.after.len() - 1 - a;
    assert(r[kb] == v.after[b]);
    lemma_offset_grows(r, sep, kb + 1, ka);
    assert(offset(r, sep, kb + 1) == offset(r, sep, kb) + r[kb].len() + sep.len());
}

/// Judges the exit of the command that copied `dir` into `working_dir`:
/// success only on exit code 0.
pub fn check_copy_status(dir: &str, working_dir: &str, code: Option<i32>, stderr: &str) -> (r: Result<(), Error>)
    ensures
        r is Ok <==> code == Some(0i32),
        r is Err ==> (r matches Err(Error::CommandFailed(c, m)) && c == code
            && m@ == copy_failure_message(dir@, working_dir@, stderr@)),
{
    match code {
        Some(0i32) => Ok(()),
        _ => {
            let mut m = String::new();
            m.append("failed to copy dir [");
            m.append(dir);
            m.append("] to [");
            m.append(working_dir);
            m.append("] got stderr: ");
            m.append(stderr);
            assert(m@ =~= copy_failure_message(dir@, working_dir@, stderr@));
            Err(Error::CommandFailed(code, m))
        },
    }
}

/// Builds a [`Config`]: each field starts at its default, and each setter
/// replaces one.
pub struct ConfigBuilder {
    conf: Config,
}

impl Default for ConfigBuilder {
    fn default() -> (r: ConfigBuilder)
        ensures
            r@.has_defaults(),
    {
        ConfigBuilder {
            conf: Config {
                imports: Vec::new(),
                before: Vec::new(),
                repl_code: String::from_str(REPL_JS),
                after: Vec::new(),
                script_file_name: String::from_str(SCRIPT_FILE_NAME),
                build_command: None,
                copy_dirs: Vec::new(),
                path_to_node_modules: None,
                node_binary: String::from_str(DEFAULT_NODE_BINARY),
                eof: vec![0u8, 1u8, 0u8],
            },
        }
    }
}

impl View for ConfigBuilder {
    type V = ConfigView;

    closed spec fn view(&self) -> ConfigView {
        self.conf@
    }
}

impl ConfigBuilder {
    /// Sets the imports.
    pub fn imports(self, value: Vec<String>) -> (r: ConfigBuilder)
        ensures
            r@ == (ConfigView { imports: texts(value@), ..self@ }),
    {
        ConfigBuilder { conf: Config { imports: value, ..self.conf } }
    }

    /// Sets the code run before the loop.
    pub fn before(self, value: Vec<String>) -> (r: ConfigBuilder)
        ensures
            r@ == (ConfigView { before: texts(value@), ..self@ }),
    {
        ConfigBuilder { conf: Config { before: value, ..self.conf } }
    }

    /// Sets the code that defines the loop.
    pub fn repl_code(self, value: String) -> (r: ConfigBuilder)
        ensures
            r@ == (ConfigView { repl_code: value@, ..self@ }),
    {
        ConfigBuilder { conf: Config { repl_code: value, ..self.conf } }
    }

    /// Sets the code run after the loop.
    pub fn after(self, value: Vec<String>) -> (r: ConfigBuilder)
        ensures
            r@ == (ConfigView { after: texts(value@), ..self@ }),
    {
        ConfigBuilder { conf: Config { after: value, ..self.conf } }
    }

    /// Sets the name of the script file.
    pub fn script_file_name(self, value: String) -> (r: ConfigBuilder)
        ensures
            r@ == (ConfigView { script_file_name: value@, ..self@ }),
    {
        ConfigBuilder { conf: Config { script_file_name: value, ..self.conf } }
    }

    /// Sets the command builder; `None` restores the default command.
    pub fn build_command(self, value: Option<Box<dyn BuildCommand>>) -> (r: ConfigBuilder)
        ensures
            r@ == (ConfigView { has_build_command: value is Some, ..self@ }),
    {
        ConfigBuilder { conf: Config { build_command: value, ..self.conf } }
    }

    /// Sets the paths copied into the working directory.
    pub fn copy_dirs(self, value: Vec<String>) -> (r: ConfigBuilder)
        ensures
            r@ == (ConfigView { copy_dirs: texts(value@), ..self@ }),
    {
        ConfigBuilder { conf: Config { copy_dirs: value, ..self.conf } }
    }

    /// Sets the `node_modules` directory.
    pub fn path_to_node_modules(self, value: Option<String>) -> (r: ConfigBuilder)
        ensures
            r@ == (ConfigView { path_to_node_modules: opt_text(value), ..self@ }),
    {
        ConfigBuilder { conf: Config { path_to_node_modules: value, ..self.conf } }
    }

    /// Sets the Node.js binary.
    pub fn node_binary(self, value: String) -> (r: ConfigBuilder)
        ensures
            r@ == (ConfigView { node_binary: value@, ..self@ }),
    {
        ConfigBuilder { conf: Config { node_binary: value, ..self.conf } }
    }

    /// Sets the end-of-output marker.
    pub fn eof(self, value: Vec<u8>) -> (r: ConfigBuilder)
        ensures
            r@ == (ConfigView { eof: value@, ..self@ }),
    {
        ConfigBuilder { conf: Config { eof: value, ..self.conf } }
    }

    /// The configuration, unless its script file name or its end-of-output
    /// marker is empty.
    pub fn build(self) -> (r: Result<Config, ConfigBuilderError>)
        ensures
            self@.script_file_name.len() == 0 ==> r matches Err(ConfigBuilderError::EmptyScriptFileName),
            self@.script_file_name.len() > 0 && self@.eof.len() == 0 ==> r matches Err(
                ConfigBuilderError::EmptyEof,
            ),
            self@.wf() ==> (r matches Ok(c) && c@ == self@),
    {
        if self.conf.script_file_name.as_str().is_empty() {
            Err(ConfigBuilderError::EmptyScriptFileName)
        } else if self.conf.eof.len() == 0 {
            Err(ConfigBuilderError::EmptyEof)
        } else {
            Ok(self.conf)
        }
    }
}

} // verus!
