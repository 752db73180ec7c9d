use easytier_gui::config::{ConfigErrorKind, NetworkConfig, NetworkingMethod};
use easytier_gui::registry::Registry;
use easytier_gui::supervisor::{
    conclude_forwarding, register_instance, run_network_instance, set_logging_level, set_tun_fd,
    stop_network_instance, LogError, LookupError, Orchestrator, Registration, StartError,
    TunnelAttachment, DEFAULT_EMIT_DELAY,
};
use std::sync::mpsc::channel;

const FIRST: &str = "550e8400-e29b-41d4-a716-446655440000";
const SECOND: &str = "6ba7b810-9dad-11d1-80b4-00c04fd430c8";

fn record(id: &str) -> NetworkConfig {
    NetworkConfig {
        instance_id: id.to_string(),
        dhcp: true,
        network_name: "home".to_string(),
        networking_method: NetworkingMethod::Standalone,
        ..NetworkConfig::default()
    }
}

fn sorted(mut pairs: Vec<(String, u64)>) -> Vec<(String, u64)> {
    pairs.sort();
    pairs
}

#[test]
fn new_context_is_idle() {
    let ctx = Orchestrator::new();
    assert!(ctx.instances().is_empty());
    assert!(!ctx.is_emitting());
    assert_eq!(ctx.emit_delay(), 3);
    assert_eq!(DEFAULT_EMIT_DELAY, 3);
    assert!(!ctx.is_running(FIRST));
    assert!(!ctx.is_logging());
}

#[test]
fn stopping_what_does_not_run_succeeds_twice() {
    let mut ctx = Orchestrator::new();
    assert_eq!(stop_network_instance(&mut ctx, FIRST), Ok(None));
    assert_eq!(stop_network_instance(&mut ctx, FIRST), Ok(None));
    assert!(ctx.instances().is_empty());
    assert!(!ctx.is_emitting());
}

#[test]
fn stopping_leaves_the_other_instances() {
    let mut ctx = Orchestrator::new();
    register_instance(&mut ctx, FIRST.to_string(), Ok(1)).unwrap();
    register_instance(&mut ctx, SECOND.to_string(), Ok(2)).unwrap();
    assert_eq!(stop_network_instance(&mut ctx, "no such instance"), Ok(None));
    assert_eq!(ctx.instances().len(), 2);
    assert_eq!(stop_network_instance(&mut ctx, FIRST), Ok(Some(1)));
    assert_eq!(ctx.instances(), vec![(SECOND.to_string(), 2)]);
    assert_eq!(stop_network_instance(&mut ctx, FIRST), Ok(None));
    assert_eq!(ctx.instances(), vec![(SECOND.to_string(), 2)]);
}

#[test]
fn one_of_two_starts_of_one_identifier_wins() {
    let mut ctx = Orchestrator::new();
    let one = run_network_instance(&ctx, &record(FIRST)).unwrap();
    let two = run_network_instance(&ctx, &record(FIRST)).unwrap();
    assert_eq!(one.instance_id, two.instance_id);
    let won = register_instance(&mut ctx, one.instance_id, Ok(11));
    let lost = register_instance(&mut ctx, two.instance_id, Ok(12));
    assert!(matches!(won, Ok(Registration { spawn_telemetry: true })));
    assert!(matches!(lost, Err(StartError::AlreadyRunning)));
    assert_eq!(ctx.instances(), vec![(FIRST.to_string(), 11)]);
}

#[test]
fn start_of_a_running_identifier_is_refused() {
    let mut ctx = Orchestrator::new();
    let config = run_network_instance(&ctx, &record(FIRST)).unwrap();
    assert_eq!(config.instance_id, FIRST);
    register_instance(&mut ctx, config.instance_id, Ok(1)).unwrap();
    assert!(ctx.is_running(FIRST));
    let again = run_network_instance(&ctx, &record(FIRST)).unwrap_err();
    assert!(matches!(again, StartError::AlreadyRunning));
    assert_eq!(again.message(), "instance already exists");
    let upper = run_network_instance(&ctx, &record(&FIRST.to_uppercase())).unwrap_err();
    assert!(matches!(upper, StartError::AlreadyRunning));
    assert!(run_network_instance(&ctx, &record(SECOND)).is_ok());
}

#[test]
fn start_of_a_bad_record_is_a_config_error() {
    let ctx = Orchestrator::new();
    let cfg = NetworkConfig { rpc_port: -3, ..record(FIRST) };
    let err = run_network_instance(&ctx, &cfg).unwrap_err();
    assert_eq!(err.message(), "failed to parse rpc portal port: -3");
    match err {
        StartError::Config(e) => {
            assert_eq!(e.kind, ConfigErrorKind::InvalidRpcPort);
            assert_eq!(e.value, "-3");
        },
        other => panic!("{:?}", other),
    }
}

#[test]
fn failed_engine_start_registers_nothing() {
    let mut ctx = Orchestrator::new();
    let err = register_instance(&mut ctx, FIRST.to_string(), Err("no tun device".to_string()))
        .unwrap_err();
    assert!(matches!(&err, StartError::Engine(m) if m == "no tun device"));
    assert_eq!(err.message(), "no tun device");
    assert!(!ctx.is_running(FIRST));
    assert!(ctx.instances().is_empty());
    assert!(!ctx.is_emitting());
    assert!(run_network_instance(&ctx, &record(FIRST)).is_ok());
}

#[test]
fn only_the_first_registration_asks_for_the_loop() {
    let mut ctx = Orchestrator::new();
    let first = register_instance(&mut ctx, FIRST.to_string(), Ok(1)).unwrap();
    assert!(first.spawn_telemetry);
    assert!(ctx.is_emitting());
    let second = register_instance(&mut ctx, SECOND.to_string(), Ok(2)).unwrap();
    assert!(!second.spawn_telemetry);
    assert!(ctx.is_emitting());
    assert_eq!(
        sorted(ctx.instances()),
        sorted(vec![(FIRST.to_string(), 1), (SECOND.to_string(), 2)])
    );
}

#[test]
fn an_instance_can_start_again_after_its_stop() {
    let mut ctx = Orchestrator::new();
    register_instance(&mut ctx, FIRST.to_string(), Ok(1)).unwrap();
    assert_eq!(stop_network_instance(&mut ctx, FIRST), Ok(Some(1)));
    assert!(!ctx.is_running(FIRST));
    assert!(run_network_instance(&ctx, &record(FIRST)).is_ok());
    let again = register_instance(&mut ctx, FIRST.to_string(), Ok(5)).unwrap();
    assert!(!again.spawn_telemetry);
    assert_eq!(ctx.instances(), vec![(FIRST.to_string(), 5)]);
}

#[test]
fn tunnel_descriptor_goes_to_the_running_instance() {
    let mut ctx = Orchestrator::new();
    assert_eq!(set_tun_fd(&ctx, FIRST, 9), Err(LookupError::NotFound));
    assert_eq!(LookupError::NotFound.message(), "instance not found");
    register_instance(&mut ctx, FIRST.to_string(), Ok(41)).unwrap();
    assert_eq!(set_tun_fd(&ctx, FIRST, 9), Ok(TunnelAttachment { handle: 41, fd: 9 }));
    assert_eq!(set_tun_fd(&ctx, SECOND, 9), Err(LookupError::NotFound));
    assert_eq!(set_tun_fd(&ctx, &FIRST.to_uppercase(), 9), Err(LookupError::NotFound));
    stop_network_instance(&mut ctx, FIRST).unwrap();
    assert_eq!(set_tun_fd(&ctx, FIRST, 9), Err(LookupError::NotFound));
}

#[test]
fn telemetry_mark_is_taken_once() {
    let mut ctx = Orchestrator::new();
    assert!(ctx.activate_telemetry());
    assert!(!ctx.activate_telemetry());
    assert!(ctx.is_emitting());
    ctx.deactivate_telemetry();
    assert!(!ctx.is_emitting());
    assert!(ctx.activate_telemetry());
}

#[test]
fn emit_delay_can_be_set() {
    let mut ctx = Orchestrator::new();
    ctx.set_emit_delay(10);
    assert_eq!(ctx.emit_delay(), 10);
    assert!(!ctx.is_emitting());
}

#[test]
fn registry_inserts_only_what_is_absent() {
    let mut registry = Registry::new();
    assert_eq!(registry.len(), 0);
    assert!(!registry.contains("a"));
    assert_eq!(registry.get("a"), None);
    assert!(registry.insert_if_absent("a".to_string(), 1));
    assert!(!registry.insert_if_absent("a".to_string(), 2));
    assert!(registry.insert_if_absent("b".to_string(), 3));
    assert!(registry.contains("a"));
    assert_eq!(registry.get("a"), Some(1));
    assert_eq!(registry.get("b"), Some(3));
    assert_eq!(registry.len(), 2);
    assert_eq!(
        sorted(registry.snapshot_iterate()),
        vec![("a".to_string(), 1), ("b".to_string(), 3)]
    );
}

#[test]
fn registry_removes_and_hands_out() {
    let mut registry = Registry::new();
    assert_eq!(registry.remove("a"), None);
    registry.insert_if_absent("a".to_string(), 1);
    registry.insert_if_absent("b".to_string(), 2);
    assert_eq!(registry.remove("a"), Some(1));
    assert_eq!(registry.remove("a"), None);
    assert!(!registry.contains("a"));
    assert_eq!(registry.get("a"), None);
    assert_eq!(registry.len(), 1);
    assert_eq!(registry.snapshot_iterate(), vec![("b".to_string(), 2)]);
    assert!(registry.insert_if_absent("a".to_string(), 7));
    assert_eq!(registry.get("a"), Some(7));
}

#[test]
fn registry_lists_every_entry_once() {
    let mut registry = Registry::new();
    for n in 0..100u64 {
        assert!(registry.insert_if_absent(format!("instance-{}", n), n));
    }
    let listed = sorted(registry.snapshot_iterate());
    assert_eq!(listed.len(), 100);
    for (id, handle) in listed {
        assert_eq!(id, format!("instance-{}", handle));
    }
}

#[test]
fn log_level_needs_the_channel() {
    let ctx = Orchestrator::new();
    let err = set_logging_level(&ctx, "debug".to_string()).unwrap_err();
    assert!(matches!(err, LogError::Uninitialized));
    assert_eq!(err.message(), "log filter is not initialized");
}

#[test]
fn log_level_is_forwarded() {
    let mut ctx = Orchestrator::new();
    let (sender, receiver) = channel();
    assert!(ctx.init_logging(sender));
    assert!(ctx.is_logging());
    assert!(set_logging_level(&ctx, "debug".to_string()).is_ok());
    assert!(set_logging_level(&ctx, "warn".to_string()).is_ok());
    assert_eq!(receiver.try_recv(), Ok("debug".to_string()));
    assert_eq!(receiver.try_recv(), Ok("warn".to_string()));
    assert!(receiver.try_recv().is_err());
}

#[test]
fn log_channel_is_installed_once() {
    let mut ctx = Orchestrator::new();
    let (first, first_end) = channel();
    let (second, second_end) = channel();
    assert!(ctx.init_logging(first));
    assert!(!ctx.init_logging(second));
    assert!(set_logging_level(&ctx, "info".to_string()).is_ok());
    assert_eq!(first_end.try_recv(), Ok("info".to_string()));
    assert!(second_end.try_recv().is_err());
}

#[test]
fn log_level_fails_on_a_closed_channel() {
    let mut ctx = Orchestrator::new();
    let (sender, receiver) = channel();
    ctx.init_logging(sender);
    drop(receiver);
    let err = set_logging_level(&ctx, "debug".to_string()).unwrap_err();
    assert!(matches!(&err, LogError::Closed(_)));
    assert_eq!(err.message(), "sending on a closed channel");
}

#[test]
fn channel_answer_decides_the_forwarding() {
    assert!(conclude_forwarding(Ok(())).is_ok());
    let err = conclude_forwarding(Err("gone".to_string())).unwrap_err();
    assert!(matches!(&err, LogError::Closed(m) if m == "gone"));
    assert_eq!(err.message(), "gone");
}
