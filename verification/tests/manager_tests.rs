use octomind_ui::{SessionError, SessionManager, SessionProcess, StartOutcome};

fn live_process(
    rt: &tokio::runtime::Runtime,
    config: octomind_ui::SessionConfig,
) -> (SessionProcess, tokio::sync::mpsc::UnboundedReceiver<String>) {
    let (tx, rx) = tokio::sync::mpsc::unbounded_channel::<String>();
    let handle = rt.spawn(async {});
    (SessionProcess { config, stdin_tx: tx, process_handle: handle }, rx)
}

#[test]
fn create_then_get_exact_config() {
    let mut m = SessionManager::new();
    let id = m.create_session_config(
        Some("demo".to_string()),
        "/tmp/work".to_string(),
        Some("sonnet".to_string()),
        Some(85),
        Some(2048),
        Some("admin".to_string()),
    );
    let cfg = m.get_session_info(&id).unwrap();
    assert_eq!(cfg.name, Some("demo".to_string()));
    assert_eq!(cfg.resume, None);
    assert_eq!(cfg.model, Some("sonnet".to_string()));
    assert_eq!(cfg.temperature, 85);
    assert_eq!(cfg.max_tokens, Some(2048));
    assert_eq!(cfg.role, "admin".to_string());
    assert_eq!(cfg.directory, "/tmp/work".to_string());
}

#[test]
fn create_applies_defaults() {
    let mut m = SessionManager::new();
    let id = m.create_session_config(None, "/home/u".to_string(), None, None, None, None);
    let cfg = m.get_session_info(&id).unwrap();
    assert_eq!(cfg.name, None);
    assert_eq!(cfg.resume, None);
    assert_eq!(cfg.model, None);
    assert_eq!(cfg.temperature, 70);
    assert_eq!(cfg.max_tokens, None);
    assert_eq!(cfg.role, "developer".to_string());
}

#[test]
fn create_issues_fresh_ids() {
    let mut m = SessionManager::new();
    let a = m.create_session_config(None, ".".to_string(), None, None, None, None);
    let b = m.create_session_config(None, ".".to_string(), None, None, None, None);
    assert_ne!(a, b);
    assert_eq!(a.len(), 36);
    assert_eq!(b.len(), 36);
}

#[test]
fn resume_sets_target_and_leaves_name_empty() {
    let mut m = SessionManager::new();
    let id = m.resume_session_config(
        "yesterday".to_string(),
        "/tmp".to_string(),
        None,
        None,
        None,
        None,
    );
    let cfg = m.get_session_info(&id).unwrap();
    assert_eq!(cfg.resume, Some("yesterday".to_string()));
    assert_eq!(cfg.name, None);
}

#[test]
fn get_unknown_id_fails() {
    let m = SessionManager::new();
    let r = m.get_session_info(&"no-such-id".to_string());
    assert!(matches!(r, Err(SessionError::ConfigNotFound)));
}

#[test]
fn start_unknown_id_fails() {
    let m = SessionManager::new();
    let r = m.start_session_process(&"no-such-id".to_string());
    assert!(matches!(r, Err(SessionError::ConfigNotFound)));
}

#[test]
fn start_builds_full_command_line() {
    let mut m = SessionManager::new();
    let id = m.create_session_config(
        Some("n".to_string()),
        "/tmp".to_string(),
        Some("gpt".to_string()),
        Some(85),
        Some(2048),
        Some("admin".to_string()),
    );
    match m.start_session_process(&id).unwrap() {
        StartOutcome::Launch(plan) => {
            assert_eq!(plan.program, "octomind".to_string());
            assert_eq!(plan.directory, "/tmp".to_string());
            assert_eq!(
                plan.args,
                vec![
                    "session".to_string(),
                    "--name".to_string(),
                    "n".to_string(),
                    "--model".to_string(),
                    "gpt".to_string(),
                    "--temperature".to_string(),
                    "0.85".to_string(),
                    "--max-tokens".to_string(),
                    "2048".to_string(),
                    "--role".to_string(),
                    "admin".to_string(),
                ]
            );
        }
        StartOutcome::AlreadyRunning => panic!("nothing is running yet"),
    }
}

#[test]
fn start_formats_default_temperature() {
    let mut m = SessionManager::new();
    let id = m.create_session_config(None, "/tmp".to_string(), None, None, None, None);
    match m.start_session_process(&id).unwrap() {
        StartOutcome::Launch(plan) => {
            assert_eq!(
                plan.args,
                vec![
                    "session".to_string(),
                    "--temperature".to_string(),
                    "0.7".to_string(),
                    "--role".to_string(),
                    "developer".to_string(),
                ]
            );
        }
        StartOutcome::AlreadyRunning => panic!("nothing is running yet"),
    }
}

#[test]
fn start_formats_whole_temperature() {
    let mut m = SessionManager::new();
    let id = m.create_session_config(None, "/tmp".to_string(), None, Some(100), None, None);
    match m.start_session_process(&id).unwrap() {
        StartOutcome::Launch(plan) => {
            assert_eq!(plan.args[2], "1".to_string());
        }
        StartOutcome::AlreadyRunning => panic!("nothing is running yet"),
    }
}

#[test]
fn start_twice_spawns_once() {
    let rt = tokio::runtime::Runtime::new().unwrap();
    let mut m = SessionManager::new();
    let id = m.create_session_config(None, "/tmp".to_string(), None, None, None, None);
    let first = m.start_session_process(&id).unwrap();
    assert!(matches!(first, StartOutcome::Launch(_)));
    let cfg = m.get_session_info(&id).unwrap();
    let (process, _rx) = live_process(&rt, cfg);
    m.register_session_process(id.clone(), process);
    let second = m.start_session_process(&id).unwrap();
    assert!(matches!(second, StartOutcome::AlreadyRunning));
}

#[test]
fn send_before_start_fails_without_side_effect() {
    let mut m = SessionManager::new();
    let id = m.create_session_config(None, "/tmp".to_string(), None, None, None, None);
    let r = m.send_message_to_session(&id, "hello".to_string());
    assert!(matches!(r, Err(SessionError::ProcessNotRunning)));
    assert!(!m.is_session_running(&id));
    let cfg = m.get_session_info(&id).unwrap();
    assert_eq!(cfg.temperature, 70);
}

#[test]
fn send_delivers_to_queue_in_order() {
    let rt = tokio::runtime::Runtime::new().unwrap();
    let mut m = SessionManager::new();
    let id = m.create_session_config(None, "/tmp".to_string(), None, None, None, None);
    let cfg = m.get_session_info(&id).unwrap();
    let (process, mut rx) = live_process(&rt, cfg);
    m.register_session_process(id.clone(), process);
    m.send_message_to_session(&id, "first".to_string()).unwrap();
    m.send_message_to_session(&id, "second".to_string()).unwrap();
    assert_eq!(rx.try_recv().unwrap(), "first".to_string());
    assert_eq!(rx.try_recv().unwrap(), "second".to_string());
}

#[test]
fn send_to_torn_down_queue_reports_io_failure() {
    let rt = tokio::runtime::Runtime::new().unwrap();
    let mut m = SessionManager::new();
    let id = m.create_session_config(None, "/tmp".to_string(), None, None, None, None);
    let cfg = m.get_session_info(&id).unwrap();
    let (process, rx) = live_process(&rt, cfg);
    m.register_session_process(id.clone(), process);
    drop(rx);
    let r = m.send_message_to_session(&id, "late".to_string());
    assert!(matches!(r, Err(SessionError::IoFailure(_, _))));
}

#[test]
fn stop_removes_entry_immediately() {
    let rt = tokio::runtime::Runtime::new().unwrap();
    let mut m = SessionManager::new();
    let id = m.create_session_config(None, "/tmp".to_string(), None, None, None, None);
    let cfg = m.get_session_info(&id).unwrap();
    let (process, _rx) = live_process(&rt, cfg);
    m.register_session_process(id.clone(), process);
    assert!(m.is_session_running(&id));
    let handle = m.stop_session_process(&id);
    assert!(handle.is_ok());
    assert!(!m.is_session_running(&id));
    let r = m.send_message_to_session(&id, "too late".to_string());
    assert!(matches!(r, Err(SessionError::ProcessNotRunning)));
}

#[test]
fn stop_sends_shutdown_sentinel() {
    let rt = tokio::runtime::Runtime::new().unwrap();
    let mut m = SessionManager::new();
    let id = m.create_session_config(None, "/tmp".to_string(), None, None, None, None);
    let cfg = m.get_session_info(&id).unwrap();
    let (process, mut rx) = live_process(&rt, cfg);
    m.register_session_process(id.clone(), process);
    m.stop_session_process(&id).unwrap();
    assert_eq!(rx.try_recv().unwrap(), "/exit".to_string());
}

#[test]
fn stop_unknown_id_fails() {
    let mut m = SessionManager::new();
    let r = m.stop_session_process(&"nobody".to_string());
    assert!(matches!(r, Err(SessionError::ProcessNotRunning)));
}

#[test]
fn start_accepted_again_after_stop() {
    let rt = tokio::runtime::Runtime::new().unwrap();
    let mut m = SessionManager::new();
    let id = m.create_session_config(None, "/tmp".to_string(), None, None, None, None);
    let cfg = m.get_session_info(&id).unwrap();
    let (process, _rx) = live_process(&rt, cfg);
    m.register_session_process(id.clone(), process);
    m.stop_session_process(&id).unwrap();
    let again = m.start_session_process(&id).unwrap();
    assert!(matches!(again, StartOutcome::Launch(_)));
}

#[test]
fn sessions_are_independent() {
    let rt = tokio::runtime::Runtime::new().unwrap();
    let mut m = SessionManager::new();
    let a = m.create_session_config(None, "/tmp/a".to_string(), None, None, None, None);
    let b = m.create_session_config(None, "/tmp/b".to_string(), None, None, None, None);
    let cfg_a = m.get_session_info(&a).unwrap();
    let cfg_b = m.get_session_info(&b).unwrap();
    let (pa, _rxa) = live_process(&rt, cfg_a);
    let (pb, _rxb) = live_process(&rt, cfg_b);
    m.register_session_process(a.clone(), pa);
    m.register_session_process(b.clone(), pb);
    m.stop_session_process(&a).unwrap();
    assert!(!m.is_session_running(&a));
    assert!(m.is_session_running(&b));
    assert_eq!(m.get_session_info(&a).unwrap().directory, "/tmp/a".to_string());
    assert_eq!(m.get_session_info(&b).unwrap().directory, "/tmp/b".to_string());
}
