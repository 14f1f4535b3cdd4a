use tunnel_connector::config::TunnelConfig;
use tunnel_connector::runner::{
    accept_error_message, bind_error_message, phase_error_message, phase_status_word, runner_step, RunnerAction,
    RunnerEvent, TunnelPhase,
};
use tunnel_connector::tunnel::{RegistryError, TunnelManager};

fn config(id: &str, local_port: u16) -> TunnelConfig {
    TunnelConfig {
        id: id.to_string(),
        server_url: "https://host".to_string(),
        token: "tok".to_string(),
        entry_id: 11,
        identity_id: 2,
        remote_host: "10.0.0.5".to_string(),
        remote_port: 22,
        local_port,
    }
}

#[test]
fn start_registers_a_starting_tunnel() {
    let mut m = TunnelManager::new();
    let s = m.start_tunnel(config("a", 2222)).unwrap();
    assert_eq!(s.id, "a");
    assert_eq!(s.local_port, 2222);
    assert_eq!(s.remote_host, "10.0.0.5");
    assert_eq!(s.remote_port, 22);
    assert_eq!(s.entry_id, 11);
    assert_eq!(s.status, "starting");
    assert_eq!(s.error, None);
    assert_eq!(m.get_tunnel_status("a").unwrap().status, "starting");
}

#[test]
fn second_start_with_same_id_is_refused() {
    let mut m = TunnelManager::new();
    m.start_tunnel(config("a", 2222)).unwrap();
    let g = m.generation_of("a").unwrap();
    assert!(m.report_event("a", g, &RunnerEvent::Bound));
    assert_eq!(m.start_tunnel(config("a", 3333)).unwrap_err(), RegistryError::DuplicateId);
    let s = m.get_tunnel_status("a").unwrap();
    assert_eq!(s.local_port, 2222);
    assert_eq!(s.status, "listening");
    assert_eq!(m.list_tunnels().len(), 1);
    assert_eq!(RegistryError::DuplicateId.message(), "Tunnel with this ID already exists");
}

#[test]
fn stop_of_unknown_id_is_not_found() {
    let mut m = TunnelManager::new();
    m.start_tunnel(config("a", 2222)).unwrap();
    assert_eq!(m.stop_tunnel("b"), Err(RegistryError::NotFound));
    assert_eq!(m.list_tunnels().len(), 1);
    assert!(m.get_tunnel_status("a").is_some());
    assert_eq!(RegistryError::NotFound.message(), "Tunnel not found");
}

#[test]
fn stopped_tunnel_is_absent_even_after_late_report() {
    let mut m = TunnelManager::new();
    m.start_tunnel(config("a", 2222)).unwrap();
    let g = m.generation_of("a").unwrap();
    assert_eq!(m.stop_tunnel("a"), Ok(()));
    assert!(m.get_tunnel_status("a").is_none());
    assert!(!m.report_event("a", g, &RunnerEvent::Bound));
    assert!(!m.report_event("a", g, &RunnerEvent::Cancelled));
    assert!(m.get_tunnel_status("a").is_none());
    assert!(m.list_tunnels().is_empty());
    assert_eq!(m.stop_tunnel("a"), Err(RegistryError::NotFound));
}

#[test]
fn report_of_an_earlier_runner_is_ignored_after_restart() {
    let mut m = TunnelManager::new();
    m.start_tunnel(config("a", 2222)).unwrap();
    let old = m.generation_of("a").unwrap();
    m.stop_tunnel("a").unwrap();
    m.start_tunnel(config("a", 2222)).unwrap();
    let new = m.generation_of("a").unwrap();
    assert_ne!(old, new);
    assert!(!m.report_event("a", old, &RunnerEvent::Bound));
    assert_eq!(m.get_tunnel_status("a").unwrap().status, "starting");
    assert!(m.report_event("a", new, &RunnerEvent::Bound));
    assert_eq!(m.get_tunnel_status("a").unwrap().status, "listening");
}

#[test]
fn failed_bind_leaves_tunnel_listed_with_error() {
    let mut m = TunnelManager::new();
    m.start_tunnel(config("a", 8080)).unwrap();
    let g = m.generation_of("a").unwrap();
    let event = RunnerEvent::BindFailed("Address already in use (os error 98)".to_string());
    let (_, action) = runner_step(&TunnelPhase::Starting, &event, 8080);
    assert_eq!(action, RunnerAction::Exit);
    assert!(m.report_event("a", g, &event));
    let s = m.get_tunnel_status("a").unwrap();
    assert_eq!(s.status, "error");
    assert_eq!(
        s.error,
        Some("Failed to bind to port 8080: Address already in use (os error 98)".to_string())
    );
    let listed = m.list_tunnels();
    assert_eq!(listed.len(), 1);
    assert_eq!(listed[0].status, "error");
}

#[test]
fn list_holds_each_tunnel_once() {
    let mut m = TunnelManager::new();
    m.start_tunnel(config("a", 1)).unwrap();
    m.start_tunnel(config("b", 2)).unwrap();
    m.start_tunnel(config("c", 3)).unwrap();
    m.stop_tunnel("b").unwrap();
    let mut ids: Vec<String> = m.list_tunnels().into_iter().map(|s| s.id).collect();
    ids.sort();
    assert_eq!(ids, vec!["a".to_string(), "c".to_string()]);
}

#[test]
fn runner_state_machine() {
    let (p, a) = runner_step(&TunnelPhase::Starting, &RunnerEvent::Bound, 1);
    assert!(matches!(p, TunnelPhase::Listening));
    assert_eq!(a, RunnerAction::Wait);
    let (p, a) = runner_step(&TunnelPhase::Listening, &RunnerEvent::Accepted, 1);
    assert!(matches!(p, TunnelPhase::Listening));
    assert_eq!(a, RunnerAction::SpawnSession);
    let (p, a) = runner_step(&TunnelPhase::Listening, &RunnerEvent::Cancelled, 1);
    assert!(matches!(p, TunnelPhase::Stopped));
    assert_eq!(a, RunnerAction::Exit);
    let (p, a) = runner_step(&TunnelPhase::Listening, &RunnerEvent::AcceptFailed("too many files".to_string()), 1);
    assert!(matches!(p, TunnelPhase::Failed(ref m) if m == "Accept error: too many files"));
    assert_eq!(a, RunnerAction::Exit);
    let (p, a) = runner_step(&TunnelPhase::Stopped, &RunnerEvent::Accepted, 1);
    assert!(matches!(p, TunnelPhase::Stopped));
    assert_eq!(a, RunnerAction::Exit);
    let (p, a) = runner_step(&TunnelPhase::Starting, &RunnerEvent::Cancelled, 1);
    assert!(matches!(p, TunnelPhase::Starting));
    assert_eq!(a, RunnerAction::Wait);
}

#[test]
fn status_words_and_messages() {
    assert_eq!(phase_status_word(&TunnelPhase::Starting), "starting");
    assert_eq!(phase_status_word(&TunnelPhase::Listening), "listening");
    assert_eq!(phase_status_word(&TunnelPhase::Stopped), "stopped");
    assert_eq!(phase_status_word(&TunnelPhase::Failed("x".to_string())), "error");
    assert_eq!(phase_error_message(&TunnelPhase::Failed("x".to_string())), Some("x".to_string()));
    assert_eq!(phase_error_message(&TunnelPhase::Listening), None);
    assert_eq!(bind_error_message(0, "e"), "Failed to bind to port 0: e");
    assert_eq!(bind_error_message(65535, ""), "Failed to bind to port 65535: ");
    assert_eq!(accept_error_message("e"), "Accept error: e");
}

#[test]
fn registered_tunnel_is_never_shown_stopped() {
    let mut m = TunnelManager::new();
    m.start_tunnel(config("a", 2222)).unwrap();
    let g = m.generation_of("a").unwrap();
    assert!(m.report_event("a", g, &RunnerEvent::Bound));
    assert!(!m.report_event("a", g, &RunnerEvent::Cancelled));
    let s = m.get_tunnel_status("a").unwrap();
    assert_eq!(s.id, "a");
    assert_eq!(s.status, "listening");
    assert_eq!(s.error, None);
}

#[test]
fn error_status_is_final() {
    let mut m = TunnelManager::new();
    m.start_tunnel(config("a", 2222)).unwrap();
    let g = m.generation_of("a").unwrap();
    assert!(m.report_event("a", g, &RunnerEvent::Bound));
    assert!(m.report_event("a", g, &RunnerEvent::AcceptFailed("gone".to_string())));
    assert!(m.report_event("a", g, &RunnerEvent::Bound));
    assert!(m.report_event("a", g, &RunnerEvent::Accepted));
    let s = m.get_tunnel_status("a").unwrap();
    assert_eq!(s.status, "error");
    assert_eq!(s.error, Some("Accept error: gone".to_string()));
}

#[test]
fn events_out_of_order_do_not_move_status_back() {
    let mut m = TunnelManager::new();
    m.start_tunnel(config("a", 2222)).unwrap();
    let g = m.generation_of("a").unwrap();
    assert!(m.report_event("a", g, &RunnerEvent::Accepted));
    assert_eq!(m.get_tunnel_status("a").unwrap().status, "starting");
    assert!(m.report_event("a", g, &RunnerEvent::Bound));
    assert!(m.report_event("a", g, &RunnerEvent::BindFailed("late".to_string())));
    assert_eq!(m.get_tunnel_status("a").unwrap().status, "listening");
}
