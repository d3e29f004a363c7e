use deepflow_agent::enums::TridentType;
use deepflow_agent::net::{IpAddr, MacAddr};
use deepflow_agent::synchronizer::{
    after_call, after_upgrade, check_ntp_response, generate_sync_request, get_blacklist,
    needs_client, note_upgrade, ntp_offset, ntp_request, on_push, on_response, parse_mac, parse_ntp_packet,
    parse_upgrade, plan_round,
    run_ntp_sync, segment_macs, segments_for, to_hex, version_matches, wants_version, AgentState,
    CallOutcome, CallPlan, ConfigOutcome, EscapeAction, EscapeEvent, EscapeTimer, Exception,
    ExceptionHandler, NtpFault, NtpMode, NtpPacket, NtpRound, PushAction, PushEvent,
    ResponseOutcome, ResponseStatus, RunningConfig, RuntimeConfig, RuntimeEnvironment, Segment,
    Snapshots, StaticConfig, Status, SyncResponse, Synchronizer, SynchronizerBuilder, TapMode,
    UpgradeAction, UpgradeFault, UpgradeProgress, VInterface, DEFAULT_MAX_ESCAPE,
    NORMAL_EXIT_WITH_RESTART, NTP_EPOCH_OFFSET,
};

const SECOND: u64 = 1_000_000_000;

fn environment() -> RuntimeEnvironment {
    RuntimeEnvironment::from_system(
        Some(8),
        16_000_000,
        "x86_64".to_string(),
        Some("Linux".to_string()),
        Some("5.4".to_string()),
        &"5.4.0-42-generic".chars().collect(),
    )
}

fn static_config() -> StaticConfig {
    StaticConfig {
        agent_ident: "agent".to_string(),
        revision: "v1".to_string(),
        boot_time: 1_600_000_000 * SECOND + SECOND / 2,
        tap_mode: TapMode::Local,
        vtap_group_id_request: "group".to_string(),
        kubernetes_cluster_id: "cluster".to_string(),
        controller_ip: "10.0.0.9".to_string(),
        env: environment(),
    }
}

fn runtime_config() -> RuntimeConfig {
    RuntimeConfig {
        enabled: true,
        max_escape: 600,
        max_memory: 768 << 20,
        proxy_controller_ip: Some(IpAddr::V4(0x0a00_0005)),
        has_proxy_controller_ip: true,
        proxy_controller_port: 30035,
        sync_interval: 10,
        ntp_enabled: true,
        tap_mode: TapMode::Local,
        trident_type: TridentType::TtProcess,
        region_id: 1,
        pod_cluster_id: 2,
    }
}

fn response() -> SyncResponse {
    SyncResponse {
        status: ResponseStatus::Success,
        revision: None,
        self_update_url: None,
        version_platform_data: Some(5),
        version_groups: Some(6),
        version_acls: Some(7),
        local_segments: Vec::new(),
        remote_segments: Vec::new(),
        skip_interface: vec![1, 2, 3],
    }
}

fn interface(mac: u64, region_id: u32) -> VInterface {
    VInterface { mac, region_id, pod_cluster_id: 2, device_type: 1, skip_mac: false, is_local: false }
}

const QUIET: ExceptionHandler = ExceptionHandler {
    invalid_configuration: false,
    controller_socket_error: false,
    too_many_policies: false,
};

#[test]
fn when_the_controller_is_silent_too_long_the_agent_leaves() {
    let mut timer = EscapeTimer::new();
    assert_eq!(timer.escape_time, DEFAULT_MAX_ESCAPE);
    assert_eq!(timer.next(true), EscapeAction::Wait(3600));
    // the controller sets the time
    assert_eq!(timer.on_event(EscapeEvent::Updated(10), true), EscapeAction::Wait(10));
    assert_eq!(timer.escape_time, 10);
    // and then nothing comes
    assert_eq!(timer.on_event(EscapeEvent::TimedOut, true), EscapeAction::Exit(3));
    assert_eq!(NORMAL_EXIT_WITH_RESTART, 3);
    assert_eq!(timer.on_event(EscapeEvent::Closed, true), EscapeAction::Stop);
    assert_eq!(timer.on_event(EscapeEvent::Updated(20), false), EscapeAction::Stop);
    assert_eq!(timer.escape_time, 20);
    assert_eq!(timer.next(false), EscapeAction::Stop);
}

#[test]
fn the_environment() {
    let env = environment();
    assert_eq!(env.cpu_num, 8);
    assert_eq!(env.memory_size, 16_000_000_000);
    assert_eq!(env.arch, "x86_64");
    assert_eq!(env.os, "Linux 5.4");
    assert_eq!(env.kernel_version, "5.4.0");
    let env = RuntimeEnvironment::from_system(None, u64::MAX, String::new(), None, None, &Vec::new());
    assert_eq!(env.cpu_num, 0);
    assert_eq!(env.memory_size, u64::MAX);
    assert_eq!(env.os, " ");
    assert_eq!(env.kernel_version, "");
    let env = RuntimeEnvironment::from_system(
        None,
        0,
        String::new(),
        None,
        Some("11".to_string()),
        &"-rc1".chars().collect(),
    );
    assert_eq!(env.os, " 11");
    assert_eq!(env.kernel_version, "");
}

#[test]
fn upgrades_are_asked_for_over_grpc_only() {
    let config = static_config();
    let mut status = Status::new();
    parse_upgrade(&Some("v2".to_string()), &Some(" GRPC\n".to_string()), &config, &mut status);
    assert_eq!(status.new_revision, Some("v2".to_string()));
    for (revision, url) in [
        (Some("v3"), Some("http://host/agent")),
        (Some("v3"), Some("grpcs")),
        (Some("v3"), Some("")),
        (Some("v3"), None),
        (Some("v1"), Some("grpc")),
        (Some(""), Some("grpc")),
        (None, Some("grpc")),
    ] {
        parse_upgrade(
            &revision.map(|s| s.to_string()),
            &url.map(|s| s.to_string()),
            &config,
            &mut status,
        );
        assert_eq!(status.new_revision, Some("v2".to_string()));
    }
    parse_upgrade(&Some("v3".to_string()), &Some("Grpc".to_string()), &config, &mut status);
    assert_eq!(status.new_revision, Some("v3".to_string()));
}

#[test]
fn versions() {
    assert!(wants_version(1, Some(2)));
    assert!(!wants_version(2, Some(2)));
    assert!(!wants_version(2, Some(0)));
    assert!(!wants_version(2, None));
    let mut status = Status::new();
    assert!(!status.get_platform_data(Some(3), None));
    assert_eq!(status.version_platform_data, 0);
    assert!(status.get_platform_data(Some(3), Some(vec![interface(1, 1)])));
    assert_eq!(status.version_platform_data, 3);
    assert_eq!(status.interfaces.len(), 1);
    assert!(!status.get_platform_data(Some(3), Some(Vec::new())));
    assert_eq!(status.interfaces.len(), 1);
    assert!(!status.get_ip_groups(Some(4), false));
    assert!(status.get_ip_groups(Some(4), true));
    assert_eq!(status.version_groups, 4);
    assert!(status.get_flow_acls(Some(9), true));
    assert_eq!(status.version_acls, 9);
    assert_eq!(status.version_groups, 4);
    assert!(!status.get_flow_acls(Some(9), true));
    assert!(status.refresh_hostname("a".to_string()));
    assert!(!status.refresh_hostname("a".to_string()));
    assert!(status.refresh_hostname("b".to_string()));
    assert_eq!(status.hostname, "b");
}

#[test]
fn interfaces_are_marked() {
    let mut status = Status::new();
    status.interfaces = vec![
        interface(0x11, 1),
        interface(0x22, 9),
        VInterface { is_local: true, ..interface(0x33, 1) },
    ];
    let macs = vec![MacAddr { value: 0x22 }];
    status.modify_platform(&macs, &runtime_config());
    assert_eq!(
        status.interfaces,
        vec![
            interface(0x11, 1),
            VInterface { skip_mac: true, is_local: true, ..interface(0x22, 9) },
            VInterface { is_local: true, ..interface(0x33, 1) },
        ]
    );
    // an agent in a pod keeps what is in its cluster, and what is in its region and no pod
    let pod = RuntimeConfig { trident_type: TridentType::TtVmPod, ..runtime_config() };
    status.interfaces = vec![
        VInterface { pod_cluster_id: 2, ..interface(1, 9) },
        VInterface { pod_cluster_id: 3, device_type: 10, ..interface(2, 1) },
        VInterface { pod_cluster_id: 3, device_type: 1, ..interface(3, 1) },
        VInterface { pod_cluster_id: 3, device_type: 1, ..interface(4, 9) },
    ];
    status.modify_platform(&Vec::new(), &pod);
    assert_eq!(
        status.interfaces.iter().map(|i| i.skip_mac).collect::<Vec<bool>>(),
        vec![false, true, false, true]
    );
}

#[test]
fn link_addresses_in_text() {
    assert_eq!(parse_mac(b"00:1b:21:bb:22:42"), Some(MacAddr { value: 0x001b_21bb_2242 }));
    assert_eq!(parse_mac(b"FF:ff:Ab:cD:00:09"), Some(MacAddr { value: 0xffff_abcd_0009 }));
    assert_eq!(parse_mac(b""), None);
    assert_eq!(parse_mac(b"00:1b:21:bb:22:4"), None);
    assert_eq!(parse_mac(b"00:1b:21:bb:22:421"), None);
    assert_eq!(parse_mac(b"00-1b-21-bb-22-42"), None);
    assert_eq!(parse_mac(b"00:1b:21:bb:22:4g"), None);
    assert_eq!(parse_mac(b"0:01b:21:bb:22:42"), None);
    let segment = Segment {
        mac: vec![
            "00:00:00:00:00:01".to_string(),
            "nonsense".to_string(),
            "00:00:00:00:01:00".to_string(),
        ],
    };
    assert_eq!(segment_macs(&segment), vec![MacAddr { value: 1 }, MacAddr { value: 256 }]);
    let local = vec![segment.clone()];
    let remote = Vec::new();
    assert_eq!(segments_for(TapMode::Local, &local, &remote).len(), 1);
    assert_eq!(segments_for(TapMode::Mirror, &local, &remote).len(), 1);
    assert_eq!(segments_for(TapMode::Analyzer, &local, &remote).len(), 0);
    assert_eq!(get_blacklist(&response()), vec![1, 2, 3]);
}

#[test]
fn a_response_with_a_configuration() {
    let config = static_config();
    let mut status = Status::new();
    let mut exceptions = ExceptionHandler::new();
    exceptions.set(Exception::TooManyPolicies);
    exceptions.set(Exception::InvalidConfiguration);
    let snapshots = Snapshots { interfaces: Some(vec![interface(0x11, 9)]), groups: true, acls: false };
    let outcome = on_response(
        &response(),
        ConfigOutcome::Valid(runtime_config()),
        snapshots,
        &vec![MacAddr { value: 0x11 }],
        Some(IpAddr::V4(0x0a00_0009)),
        &config,
        &mut status,
        &mut exceptions,
    );
    assert_eq!(
        outcome,
        ResponseOutcome {
            escape: Some(600),
            max_memory: Some(768 << 20),
            updated: true,
            state: AgentState::ConfigChanged(runtime_config()),
        }
    );
    assert_eq!(status.proxy_ip, Some(IpAddr::V4(0x0a00_0005)));
    assert_eq!(status.proxy_port, 30035);
    assert_eq!(status.sync_interval, 10);
    assert!(status.ntp_enabled);
    assert_eq!(status.version_platform_data, 5);
    assert_eq!(status.version_groups, 6);
    assert_eq!(status.version_acls, 0);
    assert_eq!(
        status.interfaces,
        vec![VInterface { skip_mac: true, is_local: true, ..interface(0x11, 9) }]
    );
    assert_eq!(exceptions, ExceptionHandler { invalid_configuration: true, ..QUIET });

    // the same again brings nothing new; without a proxy the controller itself is asked
    let disabled = RuntimeConfig {
        enabled: false,
        has_proxy_controller_ip: false,
        ..runtime_config()
    };
    let snapshots = Snapshots { interfaces: Some(Vec::new()), groups: true, acls: false };
    let outcome = on_response(
        &response(),
        ConfigOutcome::Valid(disabled),
        snapshots,
        &Vec::new(),
        Some(IpAddr::V4(0x0a00_0009)),
        &config,
        &mut status,
        &mut exceptions,
    );
    assert!(!outcome.updated);
    assert_eq!(outcome.state, AgentState::Disabled);
    assert_eq!(status.proxy_ip, Some(IpAddr::V4(0x0a00_0009)));
    assert_eq!(status.interfaces.len(), 1);
}

#[test]
fn a_response_without_a_configuration() {
    let config = static_config();
    let idle = ResponseOutcome {
        escape: None,
        max_memory: None,
        updated: false,
        state: AgentState::Unchanged,
    };
    let nothing = || Snapshots { interfaces: None, groups: false, acls: false };
    let mut status = Status::new();
    let mut exceptions = ExceptionHandler::new();
    let mut resp = response();
    resp.revision = Some("v2".to_string());
    resp.self_update_url = Some("grpc".to_string());
    let outcome = on_response(
        &resp,
        ConfigOutcome::Invalid,
        nothing(),
        &Vec::new(),
        None,
        &config,
        &mut status,
        &mut exceptions,
    );
    assert_eq!(outcome, idle);
    assert_eq!(exceptions, ExceptionHandler { invalid_configuration: true, ..QUIET });
    assert_eq!(status.new_revision, Some("v2".to_string()));
    assert_eq!(status.version_platform_data, 0);

    let mut exceptions = ExceptionHandler::new();
    let outcome = on_response(
        &response(),
        ConfigOutcome::Missing,
        nothing(),
        &Vec::new(),
        None,
        &config,
        &mut status,
        &mut exceptions,
    );
    assert_eq!(outcome, idle);
    assert_eq!(exceptions, QUIET);

    // a heartbeat changes nothing, whatever it carries
    let mut resp = response();
    resp.status = ResponseStatus::Heartbeat;
    for c in [ConfigOutcome::Invalid, ConfigOutcome::Valid(runtime_config())] {
        let outcome =
            on_response(&resp, c, nothing(), &Vec::new(), None, &config, &mut status, &mut exceptions);
        assert_eq!(outcome, idle);
        assert_eq!(exceptions, QUIET);
        assert_eq!(status.sync_interval, 60);
    }
}

#[test]
fn the_request() {
    let config = static_config();
    let running = RunningConfig { ctrl_mac: "00:00:00:00:00:01".to_string(), ctrl_ip: "10.0.0.1".to_string() };
    let mut status = Status::new();
    status.hostname = "host".to_string();
    status.config_accepted = true;
    status.version_platform_data = 1;
    status.version_acls = 2;
    status.version_groups = 3;
    let mut exceptions = ExceptionHandler::new();
    exceptions.set(Exception::ControllerSocketError);
    let addrs = vec![
        IpAddr::V4(0x7f00_0001),
        IpAddr::V4(0x0a00_0001),
        IpAddr::V6(1),
        IpAddr::V6(0xfe80_0000_0000_0000_0000_0000_0000_0001),
        IpAddr::V4(0xe000_0001),
        IpAddr::V4(0),
        IpAddr::V6(0x2001_0db8_0000_0000_0000_0000_0000_0001),
        IpAddr::V4(0xa9fe_0101),
        IpAddr::V6(0),
        IpAddr::V6(0xff02_0000_0000_0000_0000_0000_0000_0001),
    ];
    let r = generate_sync_request(&running, &config, &status, 2 * SECOND as i64, &mut exceptions, &addrs);
    assert_eq!(r.boot_time, 1_600_000_002);
    assert!(r.config_accepted);
    assert_eq!((r.version_platform_data, r.version_acls, r.version_groups), (1, 2, 3));
    assert_eq!(r.revision, "v1");
    assert_eq!(r.exception, ExceptionHandler { controller_socket_error: true, ..QUIET });
    assert_eq!(exceptions, QUIET);
    assert_eq!(r.process_name, "agent");
    assert_eq!(r.ctrl_mac, "00:00:00:00:00:01");
    assert_eq!(r.ctrl_ip, "10.0.0.1");
    assert_eq!(r.tap_mode, TapMode::Local);
    assert_eq!(r.host, "host");
    assert_eq!(r.host_ips, vec!["10.0.0.1".to_string(), "2001:db8::1".to_string()]);
    assert_eq!(r.cpu_num, 8);
    assert_eq!(r.memory_size, 16_000_000_000);
    assert_eq!(r.arch, "x86_64");
    assert_eq!(r.os, "Linux 5.4");
    assert_eq!(r.kernel_version, "5.4.0");
    assert_eq!(r.vtap_group_id_request, "group");
    assert_eq!(r.kubernetes_cluster_id, "cluster");
    // a clock far behind cannot bring the start before the epoch
    let r = generate_sync_request(&running, &config, &status, i64::MIN, &mut exceptions, &Vec::new());
    assert_eq!(r.boot_time, 0);
    assert!(r.host_ips.is_empty());
    let r = generate_sync_request(&running, &config, &status, -(SECOND as i64), &mut exceptions, &Vec::new());
    assert_eq!(r.boot_time, 1_599_999_999);
}

fn ntp_time(unix_seconds: u64, fraction: u32) -> u64 {
    ((unix_seconds + NTP_EPOCH_OFFSET) << 32) | fraction as u64
}

#[test]
fn answers_of_the_time_server() {
    let good = NtpPacket { mode: NtpMode::Server, ts_orig: 77, ts_recv: 10, ts_xmit: 11 };
    assert_eq!(check_ntp_response(&good, 77), Ok(()));
    assert_eq!(
        check_ntp_response(&NtpPacket { mode: NtpMode::Client, ..good }, 77),
        Err(NtpFault::InvalidMode)
    );
    assert_eq!(
        check_ntp_response(&NtpPacket { ts_xmit: 0, ..good }, 77),
        Err(NtpFault::InvalidTransmitTime)
    );
    assert_eq!(check_ntp_response(&good, 78), Err(NtpFault::Mismatch));
    assert_eq!(
        check_ntp_response(&NtpPacket { ts_recv: 12, ..good }, 77),
        Err(NtpFault::ClockBackwards)
    );
    assert_eq!(check_ntp_response(&NtpPacket { ts_recv: 11, ..good }, 77), Ok(()));
}

#[test]
fn the_offset_of_the_clock() {
    let sent = 1_000_000_000 * SECOND;
    let received = sent + SECOND / 10;
    // the server is five seconds ahead: (5 s + 4.9 s) / 2, in whole seconds
    let ahead = NtpPacket {
        mode: NtpMode::Server,
        ts_orig: 77,
        ts_recv: ntp_time(1_000_000_005, 0),
        ts_xmit: ntp_time(1_000_000_005, 0),
    };
    assert_eq!(ntp_offset(&ahead, sent, received), 4 * SECOND as i64);
    // half a second more on both brings it to five
    let ahead = NtpPacket {
        ts_recv: ntp_time(1_000_000_005, 0x8000_0000),
        ts_xmit: ntp_time(1_000_000_005, 0x8000_0000),
        ..ahead
    };
    assert_eq!(ntp_offset(&ahead, sent, received), 5 * SECOND as i64);
    // the server is five seconds behind
    let behind = NtpPacket {
        ts_recv: ntp_time(999_999_995, 0),
        ts_xmit: ntp_time(999_999_995, 0),
        ..ahead
    };
    assert_eq!(ntp_offset(&behind, sent, received), -5 * SECOND as i64);
    // the clocks agree
    let same = NtpPacket {
        ts_recv: ntp_time(1_000_000_000, 0),
        ts_xmit: ntp_time(1_000_000_000, 0x1000_0000),
        ..ahead
    };
    assert_eq!(ntp_offset(&same, sent, received), 0);
    assert_eq!(ntp_offset(&NtpPacket { ts_recv: 0, ts_xmit: 0, ..ahead }, u64::MAX, u64::MAX), i64::MIN);

    let mut diff = 42i64;
    run_ntp_sync(&mut diff, NtpRound::Failed);
    assert_eq!(diff, 42);
    run_ntp_sync(
        &mut diff,
        NtpRound::Answered { resp: ahead, sent: 78, sent_at: sent, received_at: received },
    );
    assert_eq!(diff, 42);
    run_ntp_sync(
        &mut diff,
        NtpRound::Answered { resp: ahead, sent: 77, sent_at: received, received_at: sent },
    );
    assert_eq!(diff, 42);
    run_ntp_sync(
        &mut diff,
        NtpRound::Answered { resp: ahead, sent: 77, sent_at: sent, received_at: received },
    );
    assert_eq!(diff, 5 * SECOND as i64);
    run_ntp_sync(&mut diff, NtpRound::Disabled);
    assert_eq!(diff, 0);
}

#[test]
fn an_upgrade_is_checked_before_it_is_taken() {
    let md5 = "5eb63bbbe01eeed093cb22bb8f5acdc3".to_string();
    let mut progress = UpgradeProgress::new();
    assert_eq!(
        progress.on_message(false, ResponseStatus::Success, &md5, 11, 2, b"hello "),
        Err(UpgradeFault::Terminated)
    );
    assert_eq!(
        progress.on_message(true, ResponseStatus::Failed, &md5, 11, 2, b"hello "),
        Err(UpgradeFault::ServerFailed)
    );
    assert_eq!(progress.count, 0);
    assert_eq!(progress.on_message(true, ResponseStatus::Success, &md5, 11, 2, b"hello "), Ok(()));
    assert_eq!(progress.finish(), Err(UpgradeFault::Truncated));
    // what later messages say of the whole is not taken
    assert_eq!(
        progress.on_message(true, ResponseStatus::Success, &"other".to_string(), 99, 9, b"world"),
        Ok(())
    );
    assert_eq!(progress.md5_sum, md5);
    assert_eq!(progress.total_bytes, 11);
    assert_eq!(progress.total_count, 2);
    assert_eq!(progress.count, 2);
    assert_eq!(progress.content, b"hello world");
    assert_eq!(progress.finish(), Ok(()));

    let mut wrong = progress.clone();
    wrong.content = b"hello_world".to_vec();
    assert_eq!(wrong.finish(), Err(UpgradeFault::ChecksumMismatch));
    let mut upper = progress.clone();
    upper.md5_sum = md5.to_uppercase();
    assert_eq!(upper.finish(), Err(UpgradeFault::ChecksumMismatch));
    let mut empty = UpgradeProgress::new();
    assert_eq!(empty.finish(), Err(UpgradeFault::ChecksumMismatch));
    empty.md5_sum = "d41d8cd98f00b204e9800998ecf8427e".to_string();
    assert_eq!(empty.finish(), Ok(()));

    assert_eq!(to_hex(&[]), "");
    assert_eq!(to_hex(&[0x00, 0x0f, 0xa0, 0xff]), "000fa0ff");
    assert!(version_matches(b"v2 built today", b"v2"));
    assert!(version_matches(b"v2", b"v2"));
    assert!(version_matches(b"v2", b""));
    assert!(!version_matches(b"v", b"v2"));
    assert!(!version_matches(b"v3 built today", b"v2"));

    let mut status = Status::new();
    status.new_revision = Some("v2".to_string());
    let mut exceptions = ExceptionHandler::new();
    assert_eq!(after_upgrade(&mut status, &mut exceptions, Ok(())), UpgradeAction::Exit(3));
    assert_eq!(status.new_revision, None);
    assert_eq!(exceptions, QUIET);
    status.new_revision = Some("v2".to_string());
    assert_eq!(
        after_upgrade(&mut status, &mut exceptions, Err(UpgradeFault::VersionMismatch)),
        UpgradeAction::Continue
    );
    assert_eq!(status.new_revision, None);
    assert_eq!(exceptions, ExceptionHandler { controller_socket_error: true, ..QUIET });
}

#[test]
fn rounds_of_the_session() {
    assert!(needs_client(false, 1, 1));
    assert!(needs_client(true, 2, 1));
    assert!(!needs_client(true, 1, 1));
    let mut exceptions = ExceptionHandler::new();
    assert_eq!(
        after_call(CallOutcome::Answered, &mut exceptions),
        CallPlan { request_failed: false, retry_after: None }
    );
    assert_eq!(
        after_call(CallOutcome::NotConnected, &mut exceptions),
        CallPlan { request_failed: true, retry_after: Some(60) }
    );
    assert_eq!(exceptions, QUIET);
    assert_eq!(
        after_call(CallOutcome::Failed, &mut exceptions),
        CallPlan { request_failed: true, retry_after: Some(60) }
    );
    assert_eq!(exceptions, ExceptionHandler { controller_socket_error: true, ..QUIET });

    let mut status = Status::new();
    let plan = plan_round(&status, None, 20035, 60);
    assert_eq!(plan.upgrade_to, None);
    assert_eq!(plan.proxy, None);
    assert!(!plan.interval_changed);
    status.proxy_ip = Some(IpAddr::V4(1));
    status.sync_interval = 10;
    status.new_revision = Some("v2".to_string());
    let plan = plan_round(&status, None, 20035, 60);
    assert_eq!(plan.upgrade_to, Some("v2".to_string()));
    assert_eq!(plan.proxy, Some((Some(IpAddr::V4(1)), 20035)));
    assert_eq!(plan.sync_interval, 10);
    assert!(plan.interval_changed);
    assert_eq!(plan_round(&status, Some(IpAddr::V4(1)), 20035, 10).proxy, None);
    assert_eq!(
        plan_round(&status, Some(IpAddr::V4(1)), 1, 10).proxy,
        Some((Some(IpAddr::V4(1)), 20035))
    );

    let mut exceptions = ExceptionHandler::new();
    assert_eq!(on_push(PushEvent::Message, false, true, &mut exceptions), PushAction::Handle);
    assert_eq!(on_push(PushEvent::Message, false, false, &mut exceptions), PushAction::Skip);
    assert_eq!(on_push(PushEvent::Message, true, true, &mut exceptions), PushAction::Reconnect);
    assert_eq!(on_push(PushEvent::Ended, false, true, &mut exceptions), PushAction::Reconnect);
    assert_eq!(on_push(PushEvent::Failed, true, true, &mut exceptions), PushAction::Reconnect);
    assert_eq!(exceptions, QUIET);
    assert_eq!(on_push(PushEvent::Failed, false, true, &mut exceptions), PushAction::Reconnect);
    assert_eq!(exceptions, ExceptionHandler { controller_socket_error: true, ..QUIET });
}

#[test]
fn exceptions() {
    let mut e = ExceptionHandler::new();
    assert_eq!(e, QUIET);
    e.set(Exception::TooManyPolicies);
    e.set(Exception::InvalidConfiguration);
    e.set(Exception::TooManyPolicies);
    assert_eq!(e, ExceptionHandler { invalid_configuration: true, too_many_policies: true, ..QUIET });
    e.clear(Exception::InvalidConfiguration);
    e.clear(Exception::ControllerSocketError);
    assert_eq!(e, ExceptionHandler { too_many_policies: true, ..QUIET });
    assert_eq!(e.take(), ExceptionHandler { too_many_policies: true, ..QUIET });
    assert_eq!(e, QUIET);
    assert_eq!(e.take(), QUIET);
}

#[test]
fn the_synchronizer() {
    let mut s = Synchronizer::new(
        "agent".to_string(),
        "v1".to_string(),
        5,
        "10.0.0.1".to_string(),
        "00:00:00:00:00:01".to_string(),
        "10.0.0.9".to_string(),
        "group".to_string(),
        "cluster".to_string(),
        environment(),
        1,
    );
    assert!(!s.running);
    assert_eq!(s.max_memory(), 0);
    assert_eq!(s.ntp_diff(), 0);
    assert_eq!(s.static_config.tap_mode, TapMode::Local);
    assert_eq!(s.static_config.boot_time, 5);
    assert_eq!(s.status.proxy_port, 20035);
    assert_eq!(s.status.sync_interval, 60);
    assert_eq!(s.flow_acl_listener, vec![1]);
    s.add_flow_acl_listener(2);
    s.add_flow_acl_listener(1);
    s.add_flow_acl_listener(2);
    assert_eq!(s.flow_acl_listener, vec![1, 2]);
    assert!(s.start());
    assert!(!s.start());
    assert!(s.running);
    assert!(s.stop());
    assert!(!s.stop());
    s.status.proxy_ip = Some(IpAddr::V4(1));
    s.status.proxy_port = 1;
    s.status.version_acls = 4;
    s.reset_session("10.0.0.2".to_string(), "00:00:00:00:00:02".to_string());
    assert_eq!(s.running_config.ctrl_ip, "10.0.0.2");
    assert_eq!(s.running_config.ctrl_mac, "00:00:00:00:00:02");
    assert_eq!(s.status.proxy_ip, None);
    assert_eq!(s.status.proxy_port, 20035);
    assert_eq!(s.status.version_acls, 4);

    let b = SynchronizerBuilder {
        port: None,
        tls_port: Some(2),
        timeout: 3,
        controller_cert_file_prefix: "p".to_string(),
        vtap_group_id_request: "g".to_string(),
        ctrl_ip: "i".to_string(),
        ctrl_mac: "m".to_string(),
        controller_ips: vec!["c".to_string()],
    }
    .port(1);
    assert_eq!(b.port, Some(1));
    assert_eq!(b.tls_port, Some(2));
    assert_eq!(b.controller_ips, vec!["c".to_string()]);
}

#[test]
fn packets_of_the_time_protocol() {
    let request = ntp_request(0x0102_0304_0506_0708);
    assert_eq!(request.len(), 48);
    assert_eq!(request[0], 0x23);
    assert!(request[1..40].iter().all(|b| *b == 0));
    assert_eq!(&request[40..], &[1, 2, 3, 4, 5, 6, 7, 8]);
    assert_eq!(
        parse_ntp_packet(&request),
        Some(NtpPacket { mode: NtpMode::Client, ts_orig: 0, ts_recv: 0, ts_xmit: 0x0102_0304_0506_0708 })
    );
    assert_eq!(parse_ntp_packet(&ntp_request(u64::MAX)).unwrap().ts_xmit, u64::MAX);
    assert_eq!(parse_ntp_packet(&ntp_request(0)).unwrap().ts_xmit, 0);

    let mut response = vec![0u8; 48];
    response[0] = 0x24;
    response[24..32].copy_from_slice(&7u64.to_be_bytes());
    response[32..40].copy_from_slice(&0xe000_0000_8000_0000u64.to_be_bytes());
    response[40..48].copy_from_slice(&0xe000_0001_0000_0001u64.to_be_bytes());
    let packet = parse_ntp_packet(&response).unwrap();
    assert_eq!(
        packet,
        NtpPacket {
            mode: NtpMode::Server,
            ts_orig: 7,
            ts_recv: 0xe000_0000_8000_0000,
            ts_xmit: 0xe000_0001_0000_0001,
        }
    );
    assert_eq!(check_ntp_response(&packet, 7), Ok(()));
    // what follows the packet is left alone, and a packet that is cut off is none
    response.extend_from_slice(&[9; 20]);
    assert_eq!(parse_ntp_packet(&response), Some(packet));
    assert_eq!(parse_ntp_packet(&response[..47]), None);
    assert_eq!(parse_ntp_packet(&[]), None);
    for (head, mode) in [
        (0x20u8, NtpMode::Reserved),
        (0x21, NtpMode::SymmetricActive),
        (0x22, NtpMode::SymmetricPassive),
        (0xe3, NtpMode::Client),
        (0x1c, NtpMode::Server),
        (0x25, NtpMode::Broadcast),
        (0x26, NtpMode::ControlMessage),
        (0xff, NtpMode::ReservedPrivate),
    ] {
        response[0] = head;
        assert_eq!(parse_ntp_packet(&response).unwrap().mode, mode);
    }
}

#[test]
fn what_follows_the_outside_calls() {
    // the way as it is after trimming and lowering
    let config = static_config();
    let mut status = Status::new();
    note_upgrade(&Some("v2".to_string()), &"grpc".to_string(), &config, &mut status);
    assert_eq!(status.new_revision, Some("v2".to_string()));
    for (revision, way) in [
        (Some("v3"), " grpc"),
        (Some("v3"), "GRPC"),
        (Some("v3"), ""),
        (Some("v1"), "grpc"),
        (Some(""), "grpc"),
        (None, "grpc"),
    ] {
        note_upgrade(&revision.map(|s| s.to_string()), &way.to_string(), &config, &mut status);
        assert_eq!(status.new_revision, Some("v2".to_string()));
    }
    // the digest as it comes from the digest function
    let mut progress = UpgradeProgress::new();
    progress.md5_sum = "000fa0ff".to_string();
    progress.total_bytes = 3;
    progress.content = b"abc".to_vec();
    assert_eq!(progress.finish_with(&[0x00, 0x0f, 0xa0, 0xff]), Ok(()));
    assert_eq!(progress.finish_with(&[0x00, 0x0f, 0xa0]), Err(UpgradeFault::ChecksumMismatch));
    assert_eq!(progress.finish_with(&[0x00, 0x0f, 0xa0, 0xfe]), Err(UpgradeFault::ChecksumMismatch));
    progress.total_bytes = 4;
    assert_eq!(progress.finish_with(&[0x00, 0x0f, 0xa0, 0xff]), Err(UpgradeFault::Truncated));
}
