use trippy_tui::dns::AsMode;
use trippy_tui::frontend::{AddressMode, GeoIpMode, IcmpExtensionMode, Theme, TuiColor};
use trippy_tui::{
    configure_logging, create_geoip_lookup, make_trace_info, make_tui_config, resolve_targets, run_trippy,
    tracer_identifiers, tui_binding_commands, tui_theme_items, FmtSpan, GeoIpSource, IcmpExtensionParseMode,
    LogFormat, LogSpanEvents, LoggingSetup, MultipathStrategy, PortDirection, PrivilegeMode, Protocol,
    StepOutcome, TimeSpan, TrippyConfig, TrippyStage,
};

fn span(ms: u32) -> TimeSpan {
    TimeSpan { secs: 0, nanos: ms * 1_000_000 }
}

fn config(targets: &[&str], resolve_all: bool) -> TrippyConfig {
    TrippyConfig {
        targets: targets.iter().map(|t| t.to_string()).collect(),
        addr_family: "ipv4".to_string(),
        dns_resolve_all: resolve_all,
        dns_lookup_as_info: true,
        geoip_mmdb_file: None,
        verbose: false,
        log_format: LogFormat::Pretty,
        log_span_events: LogSpanEvents::Active,
        log_filter: "trippy=debug".to_string(),
        privilege_mode: PrivilegeMode::Privileged,
        multipath_strategy: MultipathStrategy::Paris,
        port_direction: PortDirection::FixedSrc(5000),
        protocol: Protocol::Udp,
        first_ttl: 1,
        max_ttl: 64,
        grace_duration: span(100),
        min_round_duration: span(1000),
        max_round_duration: span(1000),
        max_inflight: 24,
        initial_sequence: 33000,
        icmp_extension_parse_mode: IcmpExtensionParseMode::Enabled,
        read_timeout: span(10),
        packet_size: 84,
        payload_pattern: 0,
        interface: Some("eth0".to_string()),
        tui_refresh_rate: span(100),
        tui_privacy_max_ttl: 0,
        tui_preserve_screen: true,
        tui_address_mode: AddressMode::Both,
        tui_as_mode: AsMode::Prefix,
        tui_icmp_extension_mode: IcmpExtensionMode::Full,
        tui_geoip_mode: GeoIpMode::Short,
        tui_max_addrs: Some(3),
        tui_max_samples: 256,
        max_flows: 64,
        tui_theme: theme(),
        tui_bindings: vec![("next-hop".to_string(), "down".to_string()), ("quit".to_string(), "q".to_string())],
        tui_custom_columns: "HOLS".to_string(),
    }
}

fn theme() -> Theme {
    Theme {
        bg_color: TuiColor::Reset,
        border_color: TuiColor::Rgb(1, 2, 3),
        text_color: TuiColor::White,
        hops_table_header_bg_color: TuiColor::Indexed(7),
        hops_table_header_text_color: TuiColor::Black,
        hops_table_row_active_text_color: TuiColor::Gray,
        hops_table_row_inactive_text_color: TuiColor::DarkGray,
    }
}

#[test]
fn resolve_all_addresses_numbered() {
    let cfg = config(&["a.example", "b.example"], true);
    let lookups: Vec<Result<Vec<u32>, String>> = vec![Ok(vec![1, 2]), Ok(vec![3])];
    let infos = resolve_targets(&cfg, &lookups).unwrap();
    let got: Vec<(String, u32)> = infos.into_iter().map(|t| (t.hostname, t.addr)).collect();
    assert_eq!(
        got,
        vec![
            ("a.example [1]".to_string(), 1),
            ("a.example [2]".to_string(), 2),
            ("b.example [1]".to_string(), 3),
        ]
    );
}

#[test]
fn resolve_first_address_only() {
    let cfg = config(&["a.example", "b.example", "c.example"], false);
    let lookups: Vec<Result<Vec<u32>, String>> = vec![Ok(vec![1, 2]), Ok(vec![]), Ok(vec![3])];
    let infos = resolve_targets(&cfg, &lookups).unwrap();
    let got: Vec<(String, u32)> = infos.into_iter().map(|t| (t.hostname, t.addr)).collect();
    assert_eq!(got, vec![("a.example".to_string(), 1), ("c.example".to_string(), 3)]);
}

#[test]
fn resolve_reports_the_first_failure() {
    let cfg = config(&["a.example", "bad.example", "worse.example"], false);
    let lookups: Vec<Result<Vec<u32>, String>> =
        vec![Ok(vec![1]), Err("no record".to_string()), Err("timeout".to_string())];
    let err = resolve_targets(&cfg, &lookups).unwrap_err();
    assert_eq!(err, "failed to resolve target: bad.example (no record)");
}

#[test]
fn identifiers_follow_the_process_id() {
    assert_eq!(tracer_identifiers(1000, 3), vec![1000, 1001, 1002]);
    assert!(tracer_identifiers(7, 0).is_empty());
    assert_eq!(tracer_identifiers(65534, 2), vec![65534, 65535]);
}

#[test]
fn run_goes_through_every_step() {
    let cfg = config(&["a.example"], false);
    let mut stage = TrippyStage::ConfigureLogging;
    let mut seen = vec![];
    for outcome in [
        StepOutcome::Done,
        StepOutcome::Done,
        StepOutcome::Done,
        StepOutcome::Resolved(1),
        StepOutcome::Done,
        StepOutcome::Done,
        StepOutcome::Done,
    ] {
        stage = run_trippy(&cfg, stage, outcome);
        seen.push(format!("{stage:?}"));
    }
    assert_eq!(
        seen,
        vec![
            "StartDnsResolver",
            "CreateGeoIpLookup",
            "ResolveTargets",
            "StartTracers",
            "DropPrivileges",
            "RunFrontend",
            "Finished"
        ]
    );
    assert!(matches!(run_trippy(&cfg, TrippyStage::Finished, StepOutcome::Error("x".to_string())), TrippyStage::Finished));
}

#[test]
fn run_fails_without_addresses() {
    let cfg = config(&["a.example", "b.example"], false);
    match run_trippy(&cfg, TrippyStage::ResolveTargets, StepOutcome::Resolved(0)) {
        TrippyStage::Failed(msg) => assert_eq!(
            msg,
            "failed to find any valid IP addresses for a.example, b.example for address family ipv4"
        ),
        other => panic!("unexpected stage {other:?}"),
    }
}

#[test]
fn run_fails_with_the_step_error_and_stays_failed() {
    let cfg = config(&["a.example"], false);
    let stage = run_trippy(&cfg, TrippyStage::StartTracers, StepOutcome::Error("permission denied".to_string()));
    match &stage {
        TrippyStage::Failed(msg) => assert_eq!(msg, "permission denied"),
        other => panic!("unexpected stage {other:?}"),
    }
    match run_trippy(&cfg, stage, StepOutcome::Done) {
        TrippyStage::Failed(msg) => assert_eq!(msg, "permission denied"),
        other => panic!("unexpected stage {other:?}"),
    }
}

#[test]
fn tui_config_from_settings() {
    let tui = make_tui_config(&config(&["a"], false));
    assert_eq!(tui.refresh_rate, span(100));
    assert_eq!(tui.privacy_max_ttl, 0);
    assert!(tui.preserve_screen);
    assert_eq!(tui.address_mode, AddressMode::Both);
    assert!(tui.lookup_as_info);
    assert_eq!(tui.as_mode, AsMode::Prefix);
    assert_eq!(tui.icmp_extension_mode, IcmpExtensionMode::Full);
    assert_eq!(tui.geoip_mode, GeoIpMode::Short);
    assert_eq!(tui.max_addrs, Some(3));
    assert_eq!(tui.max_samples, 256);
    assert_eq!(tui.max_flows, 64);
    assert_eq!(tui.theme, theme());
    assert_eq!(
        tui.bindings,
        vec![("next-hop".to_string(), "down".to_string()), ("quit".to_string(), "q".to_string())]
    );
    assert_eq!(tui.custom_columns, "HOLS");
}

#[test]
fn trace_info_from_settings() {
    let cfg = config(&["a"], true);
    let info = make_trace_info(&cfg, "data", 1u32, "a".to_string(), 2u32);
    assert_eq!(info.data, "data");
    assert_eq!(info.source_addr, 1);
    assert_eq!(info.target_hostname, "a");
    assert_eq!(info.target_addr, 2);
    assert_eq!(info.privilege_mode, PrivilegeMode::Privileged);
    assert_eq!(info.multipath_strategy, MultipathStrategy::Paris);
    assert_eq!(info.port_direction, PortDirection::FixedSrc(5000));
    assert_eq!(info.protocol, Protocol::Udp);
    assert_eq!(info.first_ttl, 1);
    assert_eq!(info.max_ttl, 64);
    assert_eq!(info.grace_duration, span(100));
    assert_eq!(info.max_inflight, 24);
    assert_eq!(info.initial_sequence, 33000);
    assert_eq!(info.icmp_extensions, IcmpExtensionParseMode::Enabled);
    assert_eq!(info.read_timeout, span(10));
    assert_eq!(info.packet_size, 84);
    assert_eq!(info.payload_pattern, 0);
    assert_eq!(info.interface, Some("eth0".to_string()));
    assert_eq!(info.geoip_mmdb_file, None);
    assert!(info.dns_resolve_all);
}

#[test]
fn geoip_source() {
    let mut cfg = config(&["a"], false);
    assert!(matches!(create_geoip_lookup(&cfg), GeoIpSource::Empty));
    cfg.geoip_mmdb_file = Some("city.mmdb".to_string());
    match create_geoip_lookup(&cfg) {
        GeoIpSource::File(path) => assert_eq!(path, "city.mmdb"),
        GeoIpSource::Empty => panic!("expected a file"),
    }
}

#[test]
fn logging_setup() {
    let mut cfg = config(&["a"], false);
    assert!(matches!(configure_logging(&cfg), LoggingSetup::Off));
    cfg.verbose = true;
    match configure_logging(&cfg) {
        LoggingSetup::Fmt { format, span_events, filter } => {
            assert_eq!(format, LogFormat::Pretty);
            assert_eq!(span_events, FmtSpan::Active);
            assert_eq!(filter, "trippy=debug");
        }
        other => panic!("unexpected setup {other:?}"),
    }
    cfg.log_format = LogFormat::Chrome;
    assert!(matches!(configure_logging(&cfg), LoggingSetup::Chrome));
}

#[test]
fn theme_items_and_binding_commands() {
    assert_eq!(
        tui_theme_items(&["bg-color", "border-color", "text-color"]),
        "TUI theme color items: bg-color, border-color, text-color"
    );
    assert_eq!(tui_binding_commands(&["quit"]), "TUI binding commands: quit");
    assert_eq!(tui_binding_commands(&[]), "TUI binding commands: ");
}
