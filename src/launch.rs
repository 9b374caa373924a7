//! The launch decision: which interpreter runs the backend, with which
//! argument and working directory, and where its output goes.
use vstd::prelude::*;
use crate::layout::{BackendPaths, RootedPath};

verus! {

/// Milliseconds the host waits after the launch before showing its window,
/// giving the backend time to start listening; readiness is not checked.
pub const STARTUP_DELAY_MS: u64 = 1500;

/// The interpreter to start.
pub enum Program {
    /// The interpreter shipped beside the host, at this path.
    Bundled(RootedPath),
    /// An interpreter found through the system's program search, by name.
    System(String),
}

/// Where one output stream of the backend goes.
pub enum OutputSink {
    /// The log file at this path, created for this session.
    LogFile(RootedPath),
    /// Nowhere: the stream is discarded.
    Discard,
}

/// Everything needed to spawn the backend once.
pub struct LaunchPlan {
    pub program: Program,
    pub argument: RootedPath,
    pub working_dir: String,
    pub stdout: OutputSink,
    pub stderr: OutputSink,
}

/// Name of the interpreter looked up on the search path in development mode.
pub open spec fn system_interpreter() -> Seq<char> {
    "python"@
}

/// The sink for a stream whose log file is `log`: the file when it was
/// created, else nothing.
pub open spec fn sink_spec(log: RootedPath, created: bool) -> OutputSink {
    if created {
        OutputSink::LogFile(log)
    } else {
        OutputSink::Discard
    }
}

fn sink_for(log: RootedPath, created: bool) -> (r: OutputSink)
    ensures
        r == sink_spec(log, created),
{
    if created {
        OutputSink::LogFile(log)
    } else {
        OutputSink::Discard
    }
}

/// Decides how the backend is launched. The bundled interpreter is used when
/// it is present, the system one otherwise; either way the entry file is the
/// only argument, the root is the working directory, and each stream goes to
/// its log file when that file could be created and is discarded otherwise.
pub fn plan_launch(
    root: &str,
    paths: BackendPaths,
    bundled_present: bool,
    stdout_log_created: bool,
    stderr_log_created: bool,
) -> (r: LaunchPlan)
    ensures
        bundled_present ==> r.program == Program::Bundled(paths.interpreter),
        !bundled_present ==> (match r.program {
            Program::System(name) => name@ == system_interpreter(),
            Program::Bundled(_) => false,
        }),
        r.argument == paths.entry,
        r.working_dir@ == root@,
        r.stdout == sink_spec(paths.stdout_log, stdout_log_created),
        r.stderr == sink_spec(paths.stderr_log, stderr_log_created),
{
    let BackendPaths { interpreter, entry, stdout_log, stderr_log } = paths;
    let program = if bundled_present {
        Program::Bundled(interpreter)
    } else {
        Program::System("python".to_owned())
    };
    LaunchPlan {
        program,
        argument: entry,
        working_dir: root.to_owned(),
        stdout: sink_for(stdout_log, stdout_log_created),
        stderr: sink_for(stderr_log, stderr_log_created),
    }
}

} // verus!
