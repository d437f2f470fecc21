use telemetry_agent::agent_loop::{initial_step, step, AgentAction, AgentEvent, AgentPhase};
use telemetry_agent::args::init_args;
use telemetry_agent::get_info::{MemoryReading, UptimeReading, VirtReading};
use telemetry_agent::rate_tracker::NetworkRateTracker;
use telemetry_agent::server_comm::{
    build_request_host, build_request_state, connect_settings, is_auth_failure_message,
    HostReadings, StateReadings, SAMPLE_INTERVAL_SECS,
};
use telemetry_agent::get_info::AgentError;

fn sample_host_readings() -> HostReadings {
    HostReadings {
        memory: MemoryReading {
            total_mem: 8_000_000_000,
            free_mem: 5_000_000_000,
            total_swap: 2_000_000_000,
            free_swap: 2_000_000_000,
        },
        distro: "linux".to_string(),
        kernel_version: Some("6.1.0".to_string()),
        cpu_brands: vec!["Generic CPU".to_string(); 4],
        arch: "x86_64".to_string(),
        virt: None,
        freq_max: Some(2_500_000_000_000),
        disks: vec![(500_000_000_000, 200_000_000_000)],
        boot_time: Some(1_700_000_000),
        ip_lookup: Some("203.0.113.9".to_string()),
    }
}

#[test]
fn args_carry_configuration() {
    let args = init_args("example.com:5555".to_string(), "secret".to_string(), false);
    assert_eq!(args.server, "example.com:5555");
    assert_eq!(args.password, "secret");
    assert!(!args.debug);
}

#[test]
fn host_descriptor_fully_populated() {
    let report = build_request_host("secret", "1.0.0", sample_host_readings());
    assert_eq!(report.client_secret, "secret");
    let h = &report.host;
    assert_eq!(h.platform, "linux");
    assert_eq!(h.platform_version, "6.1.0");
    assert_eq!(h.cpu, vec!["Generic CPU @ 2.50GHz 4 Physical Core".to_string()]);
    assert_eq!(h.mem_total, 8_000_000_000);
    assert_eq!(h.swap_total, 2_000_000_000);
    assert_eq!(h.disk_total, 500_000_000_000);
    assert_eq!(h.arch, "x86_64");
    assert_eq!(h.virtualization, "unknown");
    assert_eq!(h.boot_time, 1_700_000_000);
    assert_eq!(h.ip, "203.0.113.9");
    assert_eq!(h.country_code, "Dropped");
    assert_eq!(h.version, "1.0.0");
    assert!(h.gpu.is_empty());
}

#[test]
fn host_descriptor_absorbs_ip_failure() {
    let mut readings = sample_host_readings();
    readings.ip_lookup = None;
    let report = build_request_host("secret", "1.0.0", readings);
    assert_eq!(report.host.ip, "");
    assert_eq!(report.host.platform, "linux");
    assert_eq!(
        report.host.cpu,
        vec!["Generic CPU @ 2.50GHz 4 Physical Core".to_string()]
    );
    assert_eq!(report.host.boot_time, 1_700_000_000);
    assert_eq!(report.host.mem_total, 8_000_000_000);
}

#[test]
fn host_descriptor_virtualized() {
    let mut readings = sample_host_readings();
    readings.virt = Some(VirtReading {
        name: "docker".to_string(),
        is_vm: false,
        is_container: true,
    });
    let report = build_request_host("secret", "1.0.0", readings);
    assert_eq!(report.host.virtualization, "docker");
    assert_eq!(
        report.host.cpu,
        vec!["Generic CPU @ 2.50GHz 4 Virtual Core".to_string()]
    );
}

fn sample_state_readings() -> StateReadings {
    StateReadings {
        cpu_usages: vec![1000, 2000, 3000, 2000],
        memory: MemoryReading {
            total_mem: 8_000_000_000,
            free_mem: 5_000_000_000,
            total_swap: 2_000_000_000,
            free_swap: 1_500_000_000,
        },
        disks: vec![(500_000_000_000, 200_000_000_000)],
        network: Some(vec![(10_000, 4_000), (2_000, 1_000)]),
        uptime: Some(UptimeReading {
            uptime_secs: 86_400,
            load_one_centi: 52,
            load_five_centi: 31,
            load_fifteen_centi: 8,
        }),
    }
}

#[test]
fn state_sample_fields() {
    let mut tracker = NetworkRateTracker::new();
    let report = build_request_state("secret", sample_state_readings(), &mut tracker).unwrap();
    assert_eq!(report.client_secret, "secret");
    let s = &report.state;
    assert_eq!(s.cpu, 2000);
    assert_eq!(s.mem_used, 3_000_000_000);
    assert_eq!(s.swap_used, 500_000_000);
    assert_eq!(s.disk_used, 300_000_000_000);
    assert_eq!(s.net_in_transfer, 12_000);
    assert_eq!(s.net_out_transfer, 5_000);
    assert_eq!(s.net_in_speed, 12_000);
    assert_eq!(s.net_out_speed, 5_000);
    assert_eq!(s.uptime, 86_400);
    assert_eq!(s.load1, 52);
    assert_eq!(s.load5, 31);
    assert_eq!(s.load15, 8);
    assert_eq!(s.tcp_conn_count, 0);
    assert_eq!(s.udp_conn_count, 0);
    assert_eq!(s.process_count, 0);
    assert!(s.temperatures.is_empty());
    assert_eq!(s.gpu, 0);
    assert_eq!(tracker.last_rx, 12_000);
    assert_eq!(tracker.last_tx, 5_000);
}

#[test]
fn state_sample_rate_between_builds() {
    let mut tracker = NetworkRateTracker::new();
    let first = build_request_state("secret", sample_state_readings(), &mut tracker).unwrap();
    let mut second_readings = sample_state_readings();
    second_readings.network = Some(vec![(15_000, 4_500), (2_500, 1_200)]);
    let second = build_request_state("secret", second_readings, &mut tracker).unwrap();
    assert_eq!(first.state.net_in_speed, 12_000);
    assert_eq!(second.state.net_in_transfer, 17_500);
    assert_eq!(second.state.net_in_speed, 5_500);
    assert_eq!(second.state.net_out_transfer, 5_700);
    assert_eq!(second.state.net_out_speed, 700);
}

#[test]
fn state_sample_network_failure() {
    let mut tracker = NetworkRateTracker::new();
    tracker.update(42, 7);
    let mut readings = sample_state_readings();
    readings.network = None;
    let r = build_request_state("secret", readings, &mut tracker);
    assert!(matches!(r, Err(AgentError::NetworkStats)));
    assert_eq!(tracker.last_rx, 42);
    assert_eq!(tracker.last_tx, 7);
}

#[test]
fn state_sample_uptime_failure() {
    let mut tracker = NetworkRateTracker::new();
    let mut readings = sample_state_readings();
    readings.uptime = None;
    let r = build_request_state("secret", readings, &mut tracker);
    assert!(matches!(r, Err(AgentError::UptimeLoad)));
    assert_eq!(tracker.last_rx, 12_000);
    assert_eq!(tracker.last_tx, 5_000);
}

#[test]
fn connection_settings_fixed() {
    let s = connect_settings("example.com:5555", false);
    assert_eq!(s.url, "http://example.com:5555");
    assert_eq!(s.connect_timeout_secs, 5);
    assert_eq!(s.request_timeout_secs, 5);
    assert_eq!(s.tcp_keepalive_secs, 5);
    assert_eq!(s.http2_keepalive_interval_secs, 5);
    assert_eq!(s.http2_keepalive_timeout_secs, 5);
    assert!(s.keepalive_while_idle);
    let tls = connect_settings("example.com:5555", true);
    assert_eq!(tls.url, "https://example.com:5555");
    assert_eq!(SAMPLE_INTERVAL_SECS, 1);
}

#[test]
fn auth_failure_message_detection() {
    assert!(is_auth_failure_message("客户端认证失败"));
    assert!(!is_auth_failure_message("internal error"));
    assert!(!is_auth_failure_message(""));
}

#[test]
fn loop_happy_path() {
    let (phase, action) = initial_step();
    assert_eq!(phase, AgentPhase::Connecting);
    assert_eq!(action, AgentAction::Connect);
    let (phase, action) = step(phase, AgentEvent::ConnectSucceeded);
    assert_eq!(phase, AgentPhase::ReportingDescriptor);
    assert_eq!(action, AgentAction::SendDescriptor);
    let (phase, action) = step(phase, AgentEvent::DescriptorAcknowledged);
    assert_eq!(phase, AgentPhase::Sampling);
    assert_eq!(action, AgentAction::SendSample);
    let (phase, action) = step(phase, AgentEvent::SampleReported);
    assert_eq!(phase, AgentPhase::Sleeping);
    assert_eq!(action, AgentAction::Sleep);
    let (phase, action) = step(phase, AgentEvent::IntervalElapsed);
    assert_eq!(phase, AgentPhase::Sampling);
    assert_eq!(action, AgentAction::SendSample);
}

#[test]
fn connect_failure_is_fatal() {
    let (phase, action) = step(AgentPhase::Connecting, AgentEvent::ConnectFailed);
    assert_eq!(phase, AgentPhase::Terminated);
    assert_eq!(action, AgentAction::Exit(1));
}

#[test]
fn descriptor_auth_rejection_is_fatal() {
    let (phase, action) = step(
        AgentPhase::ReportingDescriptor,
        AgentEvent::DescriptorAuthRejected,
    );
    assert_eq!(phase, AgentPhase::Terminated);
    assert_eq!(action, AgentAction::Exit(1));
}

#[test]
fn descriptor_other_errors_not_fatal() {
    for event in [
        AgentEvent::DescriptorSendFailed,
        AgentEvent::DescriptorBuildFailed,
        AgentEvent::DescriptorAcknowledged,
    ] {
        let (phase, action) = step(AgentPhase::ReportingDescriptor, event);
        assert_eq!(phase, AgentPhase::Sampling);
        assert_eq!(action, AgentAction::SendSample);
    }
}

#[test]
fn sample_failure_retries_after_one_sleep() {
    let (phase, action) = step(AgentPhase::Sampling, AgentEvent::SampleFailed);
    assert_eq!(phase, AgentPhase::Sleeping);
    assert_eq!(action, AgentAction::Sleep);
    let (phase, action) = step(phase, AgentEvent::IntervalElapsed);
    assert_eq!(phase, AgentPhase::Sampling);
    assert_eq!(action, AgentAction::SendSample);
}

#[test]
fn n_ticks_give_n_samples_and_no_descriptor() {
    let mut phase = AgentPhase::Sampling;
    let mut samples = 0;
    let mut sleeps = 0;
    let outcomes = [
        AgentEvent::SampleReported,
        AgentEvent::SampleFailed,
        AgentEvent::SampleReported,
        AgentEvent::SampleFailed,
        AgentEvent::SampleReported,
    ];
    for outcome in outcomes {
        let (p, a) = step(phase, outcome);
        assert_eq!(a, AgentAction::Sleep);
        sleeps += 1;
        let (p2, a2) = step(p, AgentEvent::IntervalElapsed);
        assert_eq!(a2, AgentAction::SendSample);
        assert_ne!(a2, AgentAction::SendDescriptor);
        samples += 1;
        phase = p2;
    }
    assert_eq!(phase, AgentPhase::Sampling);
    assert_eq!(samples, 5);
    assert_eq!(sleeps, 5);
}

#[test]
fn end_to_end_scenario() {
    let args = init_args("example.com:5555".to_string(), "secret".to_string(), false);
    let settings = connect_settings(args.server.as_str(), false);
    assert_eq!(settings.url, "http://example.com:5555");

    let (phase, action) = initial_step();
    assert_eq!(action, AgentAction::Connect);
    let (phase, action) = step(phase, AgentEvent::ConnectSucceeded);
    assert_eq!(action, AgentAction::SendDescriptor);

    let descriptor = build_request_host(args.password.as_str(), "1.0.0", sample_host_readings());
    assert_eq!(descriptor.host.platform, "linux");
    assert_eq!(
        descriptor.host.cpu,
        vec!["Generic CPU @ 2.50GHz 4 Physical Core".to_string()]
    );
    assert_eq!(descriptor.client_secret, "secret");

    let (mut phase, action) = step(phase, AgentEvent::DescriptorAcknowledged);
    assert_eq!(action, AgentAction::SendSample);

    let mut tracker = NetworkRateTracker::new();
    let mut last_in_transfer = 0;
    let mut descriptor_sends = 0;
    for round in 0..3u64 {
        let mut readings = sample_state_readings();
        readings.network = Some(vec![(10_000 + 1_000 * round, 4_000 + 500 * round)]);
        let report = build_request_state(args.password.as_str(), readings, &mut tracker).unwrap();
        assert!(report.state.net_in_transfer >= last_in_transfer);
        last_in_transfer = report.state.net_in_transfer;
        let (p, a) = step(phase, AgentEvent::SampleReported);
        assert_eq!(a, AgentAction::Sleep);
        let (p2, a2) = step(p, AgentEvent::IntervalElapsed);
        if a2 == AgentAction::SendDescriptor {
            descriptor_sends += 1;
        }
        assert_eq!(a2, AgentAction::SendSample);
        phase = p2;
    }
    assert_eq!(descriptor_sends, 0);
    assert_eq!(phase, AgentPhase::Sampling);
}
