//! The directory layout under the root directory: every path the supervisor
//! uses is the root followed by a fixed list of components.
use vstd::prelude::*;

verus! {

/// A path made of the root directory followed by `parts`, joined by the
/// platform's separator when it is turned into a filesystem path.
pub struct RootedPath {
    pub root: String,
    pub parts: Vec<String>,
}

/// The components of a path, as character sequences.
pub open spec fn part_views(parts: Seq<String>) -> Seq<Seq<char>> {
    parts.map_values(|p: String| p@)
}

impl RootedPath {
    /// This path is `root` joined with exactly the components `names`.
    pub open spec fn is_join_of(&self, root: Seq<char>, names: Seq<Seq<char>>) -> bool {
        &&& self.root@ == root
        &&& part_views(self.parts@) == names
    }
}

/// Components of the bundled interpreter, below the root.
pub open spec fn interpreter_parts() -> Seq<Seq<char>> {
    seq!["python_env"@, "python"@, "python.exe"@]
}

/// Component of the backend's entry file, below the root.
pub open spec fn entry_parts() -> Seq<Seq<char>> {
    seq!["backend.py"@]
}

/// Component of the standard-output log, below the root.
pub open spec fn stdout_log_parts() -> Seq<Seq<char>> {
    seq!["backend.log"@]
}

/// Component of the standard-error log, below the root.
pub open spec fn stderr_log_parts() -> Seq<Seq<char>> {
    seq!["backend_err.log"@]
}

/// The paths derived from the root directory.
pub struct BackendPaths {
    pub interpreter: RootedPath,
    pub entry: RootedPath,
    pub stdout_log: RootedPath,
    pub stderr_log: RootedPath,
}

impl BackendPaths {
    /// Each path is the root joined with its fixed components.
    pub open spec fn derived_from(&self, root: Seq<char>) -> bool {
        &&& self.interpreter.is_join_of(root, interpreter_parts())
        &&& self.entry.is_join_of(root, entry_parts())
        &&& self.stdout_log.is_join_of(root, stdout_log_parts())
        &&& self.stderr_log.is_join_of(root, stderr_log_parts())
    }
}

fn single(root: &str, name: &str) -> (r: RootedPath)
    ensures
        r.is_join_of(root@, seq![name@]),
{
    let mut parts: Vec<String> = Vec::new();
    parts.push(name.to_owned());
    let r = RootedPath { root: root.to_owned(), parts };
    assert(part_views(r.parts@) =~= seq![name@]);
    r
}

/// The root directory: the directory holding the running executable when it
/// is known, else the current working directory; none when neither is known.
pub fn resolve_root(exe_dir: Option<String>, current_dir: Option<String>) -> (r: Option<String>)
    ensures
        r == (match exe_dir {
            Some(d) => Some(d),
            None => current_dir,
        }),
{
    match exe_dir {
        Some(d) => Some(d),
        None => current_dir,
    }
}

/// Derives the interpreter, entry file and log paths from the root directory.
pub fn resolve_paths(root: &str) -> (r: BackendPaths)
    ensures
        r.derived_from(root@),
{
    let mut parts: Vec<String> = Vec::new();
    parts.push("python_env".to_owned());
    parts.push("python".to_owned());
    parts.push("python.exe".to_owned());
    let interpreter = RootedPath { root: root.to_owned(), parts };
    assert(part_views(interpreter.parts@) =~= interpreter_parts());
    BackendPaths {
        interpreter,
        entry: single(root, "backend.py"),
        stdout_log: single(root, "backend.log"),
        stderr_log: single(root, "backend_err.log"),
    }
}

} // verus!
