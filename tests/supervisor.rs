use backend_supervisor::launch::{plan_launch, OutputSink, Program};
use backend_supervisor::layout::{resolve_paths, resolve_root, RootedPath};
use backend_supervisor::process::{on_window_event, BackendProcess, WindowEvent};

fn parts(p: &RootedPath) -> Vec<&str> {
    p.parts.iter().map(|s| s.as_str()).collect()
}

#[test]
fn paths_are_root_joined_with_fixed_components() {
    let paths = resolve_paths("/opt/app");
    assert_eq!(paths.interpreter.root, "/opt/app");
    assert_eq!(parts(&paths.interpreter), vec!["python_env", "python", "python.exe"]);
    assert_eq!(paths.entry.root, "/opt/app");
    assert_eq!(parts(&paths.entry), vec!["backend.py"]);
    assert_eq!(paths.stdout_log.root, "/opt/app");
    assert_eq!(parts(&paths.stdout_log), vec!["backend.log"]);
    assert_eq!(paths.stderr_log.root, "/opt/app");
    assert_eq!(parts(&paths.stderr_log), vec!["backend_err.log"]);
}

#[test]
fn paths_follow_a_windows_root() {
    let paths = resolve_paths("C:\\Program Files\\App");
    assert_eq!(paths.entry.root, "C:\\Program Files\\App");
    assert_eq!(parts(&paths.entry), vec!["backend.py"]);
}

#[test]
fn root_prefers_executable_directory() {
    let r = resolve_root(Some("/opt/app".to_string()), Some("/home/u".to_string()));
    assert_eq!(r, Some("/opt/app".to_string()));
}

#[test]
fn root_falls_back_to_current_directory() {
    let r = resolve_root(None, Some("/home/u".to_string()));
    assert_eq!(r, Some("/home/u".to_string()));
    assert_eq!(resolve_root(None, None), None);
}

#[test]
fn bundled_interpreter_with_logs() {
    let plan = plan_launch("/opt/app", resolve_paths("/opt/app"), true, true, true);
    match &plan.program {
        Program::Bundled(p) => {
            assert_eq!(p.root, "/opt/app");
            assert_eq!(parts(p), vec!["python_env", "python", "python.exe"]);
        }
        Program::System(_) => panic!("expected the bundled interpreter"),
    }
    assert_eq!(plan.working_dir, "/opt/app");
    assert_eq!(parts(&plan.argument), vec!["backend.py"]);
    match &plan.stdout {
        OutputSink::LogFile(p) => assert_eq!(parts(p), vec!["backend.log"]),
        OutputSink::Discard => panic!("expected the stdout log"),
    }
    match &plan.stderr {
        OutputSink::LogFile(p) => assert_eq!(parts(p), vec!["backend_err.log"]),
        OutputSink::Discard => panic!("expected the stderr log"),
    }
}

#[test]
fn missing_bundled_interpreter_falls_back_to_system() {
    let plan = plan_launch("/opt/app", resolve_paths("/opt/app"), false, true, true);
    match &plan.program {
        Program::System(name) => assert_eq!(name, "python"),
        Program::Bundled(_) => panic!("expected the system interpreter"),
    }
    assert_eq!(plan.working_dir, "/opt/app");
    assert_eq!(parts(&plan.argument), vec!["backend.py"]);
    assert!(matches!(plan.stdout, OutputSink::LogFile(_)));
    assert!(matches!(plan.stderr, OutputSink::LogFile(_)));
}

#[test]
fn failed_log_creation_discards_output() {
    let plan = plan_launch("/ro", resolve_paths("/ro"), true, false, false);
    assert!(matches!(plan.program, Program::Bundled(_)));
    assert!(matches!(plan.stdout, OutputSink::Discard));
    assert!(matches!(plan.stderr, OutputSink::Discard));
    let mixed = plan_launch("/ro", resolve_paths("/ro"), false, true, false);
    assert!(matches!(mixed.stdout, OutputSink::LogFile(_)));
    assert!(matches!(mixed.stderr, OutputSink::Discard));
}

#[test]
fn store_then_take_hands_out_once() {
    let mut slot: BackendProcess<u32> = BackendProcess::new();
    assert!(slot.is_empty());
    slot.store(Some(4242));
    assert!(!slot.is_empty());
    assert_eq!(slot.take(), Some(4242));
    assert!(slot.is_empty());
    assert_eq!(slot.take(), None);
    assert!(slot.is_empty());
}

#[test]
fn take_on_empty_slot_is_noop() {
    let mut slot: BackendProcess<u32> = BackendProcess::new();
    assert_eq!(slot.take(), None);
    assert!(slot.is_empty());
}

#[test]
fn store_of_failed_launch_leaves_slot_empty() {
    let mut slot: BackendProcess<u32> = BackendProcess::new();
    slot.store(None);
    assert!(slot.is_empty());
    assert_eq!(slot.take(), None);
}

#[test]
fn close_request_after_store_yields_process() {
    let mut slot: BackendProcess<u32> = BackendProcess::new();
    slot.store(Some(7));
    assert_eq!(on_window_event(&mut slot, WindowEvent::Other), None);
    assert!(!slot.is_empty());
    assert_eq!(on_window_event(&mut slot, WindowEvent::CloseRequested), Some(7));
    assert!(slot.is_empty());
    assert_eq!(on_window_event(&mut slot, WindowEvent::CloseRequested), None);
}
