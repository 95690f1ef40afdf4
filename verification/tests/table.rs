use trippy_tui::dns::{format_asinfo, format_dns_entry, AsInfo, AsMode, DnsEntry, DnsLookup, Resolved, Unresolved};
use trippy_tui::frontend::render::table::{
    fmt_details_line, format_address, format_details, hostname_addresses, render_hostname,
    render_hostname_lines, render_hostname_with_details, render_status_cell, render_table_row,
    render_table_row_lines, row_lookups, shown_addresses, uses_hop_details, Hop, HopStatus, RowContext,
};
use trippy_tui::frontend::{AddressMode, GeoIpMode, IcmpExtensionMode, Theme, TuiColor, TuiConfig};
use trippy_tui::geoip::GeoIpCity;
use trippy_tui::TimeSpan;

fn config(address_mode: AddressMode, lookup_as_info: bool, geoip_mode: GeoIpMode, max_addrs: Option<u8>) -> TuiConfig {
    TuiConfig::new(
        TimeSpan { secs: 0, nanos: 100_000_000 },
        2,
        false,
        address_mode,
        lookup_as_info,
        AsMode::Asn,
        IcmpExtensionMode::Off,
        geoip_mode,
        max_addrs,
        256,
        64,
        theme(),
        &vec![("quit".to_string(), "q".to_string())],
        &"HOLSRAVBWDT".to_string(),
    )
}

fn theme() -> Theme {
    Theme {
        bg_color: TuiColor::Black,
        border_color: TuiColor::Gray,
        text_color: TuiColor::Gray,
        hops_table_header_bg_color: TuiColor::White,
        hops_table_header_text_color: TuiColor::Black,
        hops_table_row_active_text_color: TuiColor::Gray,
        hops_table_row_inactive_text_color: TuiColor::DarkGray,
    }
}

fn google_asinfo() -> AsInfo {
    AsInfo {
        asn: "15169".to_string(),
        prefix: "142.250.0.0/15".to_string(),
        cc: "US".to_string(),
        registry: "arin".to_string(),
        allocated: "2012-05-24".to_string(),
        name: "GOOGLE, US".to_string(),
    }
}

fn geo() -> GeoIpCity {
    GeoIpCity {
        short_name: "US".to_string(),
        long_name: "United States, North America".to_string(),
        location: "Mountain View, US".to_string(),
        coordinates: Some(("37.751".to_string(), "-97.822".to_string(), 1000)),
    }
}

fn hop(ttl: u8, sent: usize, recv: usize, addrs: &[(&str, usize)]) -> Hop {
    Hop {
        ttl,
        total_sent: sent,
        total_recv: recv,
        addrs: addrs.iter().map(|(a, c)| (a.to_string(), *c)).collect(),
    }
}

#[test]
fn asinfo_in_each_mode() {
    let info = google_asinfo();
    assert_eq!(format_asinfo(&info, AsMode::Asn), "AS15169");
    assert_eq!(format_asinfo(&info, AsMode::Prefix), "AS15169 [142.250.0.0/15]");
    assert_eq!(format_asinfo(&info, AsMode::CountryCode), "AS15169 [US]");
    assert_eq!(format_asinfo(&info, AsMode::Registry), "AS15169 [arin]");
    assert_eq!(format_asinfo(&info, AsMode::Allocated), "AS15169 [2012-05-24]");
    assert_eq!(format_asinfo(&info, AsMode::Name), "AS15169 [GOOGLE, US]");
}

#[test]
fn dns_entries() {
    let hosts = vec!["a.example".to_string(), "b.example".to_string()];
    let normal = DnsEntry::Resolved(Resolved::Normal("1.1.1.1".to_string(), hosts.clone()));
    assert_eq!(format_dns_entry(&normal, true, AsMode::Asn), "a.example b.example");
    let with_as = DnsEntry::Resolved(Resolved::WithAsInfo("1.1.1.1".to_string(), hosts.clone(), google_asinfo()));
    assert_eq!(format_dns_entry(&with_as, true, AsMode::Asn), "AS15169 a.example b.example");
    assert_eq!(format_dns_entry(&with_as, false, AsMode::Asn), "a.example b.example");
    let mut no_asn = google_asinfo();
    no_asn.asn = String::new();
    let empty_as = DnsEntry::Resolved(Resolved::WithAsInfo("1.1.1.1".to_string(), hosts, no_asn.clone()));
    assert_eq!(format_dns_entry(&empty_as, true, AsMode::Asn), "a.example b.example");
    let not_found = DnsEntry::NotFound(Unresolved::Normal("2.2.2.2".to_string()));
    assert_eq!(format_dns_entry(&not_found, true, AsMode::Asn), "2.2.2.2");
    let not_found_as = DnsEntry::NotFound(Unresolved::WithAsInfo("2.2.2.2".to_string(), google_asinfo()));
    assert_eq!(format_dns_entry(&not_found_as, true, AsMode::CountryCode), "AS15169 [US] 2.2.2.2");
    assert_eq!(format_dns_entry(&not_found_as, false, AsMode::CountryCode), "2.2.2.2");
    let not_found_empty = DnsEntry::NotFound(Unresolved::WithAsInfo("2.2.2.2".to_string(), no_asn));
    assert_eq!(format_dns_entry(&not_found_empty, true, AsMode::Asn), "2.2.2.2");
    assert_eq!(format_dns_entry(&DnsEntry::Pending("3.3.3.3".to_string()), true, AsMode::Asn), "3.3.3.3");
    assert_eq!(format_dns_entry(&DnsEntry::Failed("4.4.4.4".to_string()), true, AsMode::Asn), "Failed: 4.4.4.4");
    assert_eq!(format_dns_entry(&DnsEntry::Timeout("5.5.5.5".to_string()), true, AsMode::Asn), "Timeout: 5.5.5.5");
}

#[test]
fn details_line_as_documented() {
    let cfg = config(AddressMode::Host, true, GeoIpMode::Off, None);
    let text = fmt_details_line(
        &"172.217.24.78".to_string(),
        1,
        2,
        Some(vec!["hkg07s50-in-f14.1e100.net".to_string()]),
        Some(google_asinfo()),
        Some(geo()),
        &cfg,
    );
    assert_eq!(
        text,
        "172.217.24.78 [1 of 2]\nHost: hkg07s50-in-f14.1e100.net\nAS Name: AS15169 GOOGLE, US\nAS Info: 142.250.0.0/15 arin 2012-05-24\nGeo: United States, North America\nPos: 37.751, -97.822 (~1000km)"
    );
}

#[test]
fn details_line_placeholders() {
    let cfg = config(AddressMode::Host, false, GeoIpMode::Off, None);
    let text = fmt_details_line(&"10.0.0.1".to_string(), 3, 3, None, None, None, &cfg);
    assert_eq!(
        text,
        "10.0.0.1 [3 of 3]\nHost: <awaited>\nAS Name: <not enabled>\nAS Info: <not enabled>\nGeo: <not found>\nPos: <not found>"
    );
    let cfg = config(AddressMode::Host, true, GeoIpMode::Off, None);
    let mut city = geo();
    city.coordinates = None;
    let text = fmt_details_line(&"10.0.0.1".to_string(), 1, 1, Some(vec![]), None, Some(city), &cfg);
    assert_eq!(
        text,
        "10.0.0.1 [1 of 1]\nHost: <not found>\nAS Name: <awaited>\nAS Info: <awaited>\nGeo: United States, North America\nPos: 0, 0 (~0km)"
    );
    let mut no_asn = google_asinfo();
    no_asn.asn = String::new();
    let text = fmt_details_line(&"10.0.0.1".to_string(), 1, 1, Some(vec![]), Some(no_asn), None, &cfg);
    assert!(text.contains("AS Name: <not found>\nAS Info: <not found>"));
}

#[test]
fn details_of_missing_or_failed_address() {
    let cfg = config(AddressMode::Host, true, GeoIpMode::Off, None);
    let h = hop(5, 4, 4, &[("10.0.0.1", 4)]);
    assert_eq!(format_details(&h, 3, None, None, &cfg), "Error: no addr for index 3");
    assert_eq!(
        format_details(&h, 0, Some(DnsEntry::Failed("10.0.0.1".to_string())), None, &cfg),
        "Failed: 10.0.0.1"
    );
    assert_eq!(
        format_details(&h, 0, Some(DnsEntry::Timeout("10.0.0.1".to_string())), None, &cfg),
        "Timeout: 10.0.0.1"
    );
    assert_eq!(
        format_details(&h, 0, Some(DnsEntry::NotFound(Unresolved::Normal("10.0.0.1".to_string()))), None, &cfg),
        "10.0.0.1 [1 of 1]\nHost: <not found>\nAS Name: <awaited>\nAS Info: <awaited>\nGeo: <not found>\nPos: <not found>"
    );
}

#[test]
fn address_in_each_mode() {
    let single = hop(5, 4, 4, &[("10.0.0.1", 4)]);
    let entry = Some(DnsEntry::Resolved(Resolved::Normal("10.0.0.1".to_string(), vec!["host.example".to_string()])));
    let share = "100.0".to_string();
    let ip = config(AddressMode::IP, false, GeoIpMode::Off, None);
    assert_eq!(format_address(&"10.0.0.1".to_string(), &share, &single, &None, &None, &ip), "10.0.0.1");
    let host = config(AddressMode::Host, false, GeoIpMode::Off, None);
    assert_eq!(format_address(&"10.0.0.1".to_string(), &share, &single, &entry, &None, &host), "host.example");
    let both = config(AddressMode::Both, false, GeoIpMode::Short, None);
    assert_eq!(
        format_address(&"10.0.0.1".to_string(), &share, &single, &entry, &Some(geo()), &both),
        "host.example (10.0.0.1) [US]"
    );
    let several = hop(5, 4, 4, &[("10.0.0.1", 3), ("10.0.0.2", 1)]);
    let long = config(AddressMode::IP, false, GeoIpMode::Long, None);
    assert_eq!(
        format_address(&"10.0.0.1".to_string(), &"75.0".to_string(), &several, &None, &Some(geo()), &long),
        "10.0.0.1 [United States, North America] [75.0%]"
    );
    let location = config(AddressMode::IP, false, GeoIpMode::Location, None);
    assert_eq!(
        format_address(&"10.0.0.1".to_string(), &"75.0".to_string(), &several, &None, &None, &location),
        "10.0.0.1 [75.0%]"
    );
}

#[test]
fn hostname_shows_most_frequent_addresses_first() {
    let h = hop(5, 10, 10, &[("a", 1), ("b", 6), ("c", 3)]);
    assert_eq!(shown_addresses(&h, 2), vec![1, 2]);
    assert_eq!(shown_addresses(&h, 5), vec![1, 2, 0]);
    let texts = vec!["A".to_string(), "B".to_string(), "C".to_string()];
    let cfg = config(AddressMode::IP, false, GeoIpMode::Off, Some(2));
    assert_eq!(render_hostname(false, &cfg, &h, &texts), ("B\nC".to_string(), 2));
    let all = config(AddressMode::IP, false, GeoIpMode::Off, None);
    assert_eq!(render_hostname(false, &all, &h, &texts), ("A\nB\nC".to_string(), 3));
}

#[test]
fn hostname_hidden_or_without_replies() {
    let texts = vec!["A".to_string()];
    let cfg = config(AddressMode::IP, false, GeoIpMode::Off, None);
    let private = hop(2, 3, 3, &[("a", 3)]);
    assert_eq!(render_hostname(true, &cfg, &private, &texts), ("**Hidden**".to_string(), 1));
    assert_eq!(render_hostname(false, &cfg, &private, &texts), ("A".to_string(), 1));
    let public = hop(3, 3, 3, &[("a", 3)]);
    assert_eq!(render_hostname(true, &cfg, &public, &texts), ("A".to_string(), 1));
    let silent = hop(3, 3, 0, &[]);
    assert_eq!(render_hostname(false, &cfg, &silent, &vec![]), ("No response".to_string(), 1));
    assert_eq!(
        render_hostname_with_details(true, &cfg, &private, &"details".to_string()),
        ("**Hidden**".to_string(), 6)
    );
    assert_eq!(
        render_hostname_with_details(false, &cfg, &private, &"details".to_string()),
        ("details".to_string(), 6)
    );
    assert_eq!(
        render_hostname_with_details(false, &cfg, &silent, &"details".to_string()),
        ("No response".to_string(), 6)
    );
}

#[test]
fn status_cells() {
    assert_eq!(render_status_cell(&hop(1, 4, 0, &[]), true), HopStatus::TargetAllLost);
    assert_eq!(render_status_cell(&hop(1, 4, 2, &[]), true), HopStatus::TargetSomeLost);
    assert_eq!(render_status_cell(&hop(1, 4, 0, &[]), false), HopStatus::AllLost);
    assert_eq!(render_status_cell(&hop(1, 4, 3, &[]), false), HopStatus::SomeLost);
    assert_eq!(render_status_cell(&hop(1, 4, 4, &[]), false), HopStatus::Healthy);
}

#[test]
fn table_row_uses_details_only_for_the_selected_hop() {
    let cfg = config(AddressMode::IP, true, GeoIpMode::Off, None);
    let h = hop(4, 6, 5, &[("10.0.0.1", 5)]);
    let texts = vec!["10.0.0.1".to_string()];
    let details = "10.0.0.1 [1 of 1]".to_string();
    let selected = RowContext {
        selected_hop_ttl: Some(4),
        show_hop_details: true,
        hide_private_hops: false,
        is_target: true,
        is_in_round: false,
    };
    assert!(uses_hop_details(&selected, &h));
    assert_eq!(cfg.dns_lookup(), DnsLookup::WithAsInfo);
    let row = render_table_row(&selected, &h, &cfg, &texts, &details);
    assert_eq!(row.hostname, details);
    assert_eq!(row.height, 6);
    assert_eq!(row.ttl, "4");
    assert_eq!(row.total_sent, "6");
    assert_eq!(row.total_recv, "5");
    assert_eq!(row.status, HopStatus::TargetSomeLost);
    assert_eq!(row.color, TuiColor::DarkGray);
    let other = RowContext { selected_hop_ttl: Some(3), ..selected };
    assert!(!uses_hop_details(&other, &h));
    let row = render_table_row(&other, &h, &cfg, &texts, &details);
    assert_eq!(row.hostname, "10.0.0.1");
    assert_eq!(row.height, 1);
    let in_round = RowContext { is_in_round: true, ..other };
    assert_eq!(render_table_row(&in_round, &h, &cfg, &texts, &details).color, TuiColor::Gray);
}

#[test]
fn as_mode_is_unused_without_as_lookup() {
    let entry = DnsEntry::NotFound(Unresolved::WithAsInfo("2.2.2.2".to_string(), google_asinfo()));
    let modes = [AsMode::Asn, AsMode::Prefix, AsMode::CountryCode, AsMode::Registry, AsMode::Allocated, AsMode::Name];
    for mode in modes {
        assert_eq!(format_dns_entry(&entry, false, mode), "2.2.2.2");
    }
}

#[test]
fn zero_address_limit_where_no_address_is_shown() {
    let cfg = config(AddressMode::IP, false, GeoIpMode::Off, Some(0));
    let silent = hop(3, 3, 0, &[]);
    assert_eq!(render_hostname(false, &cfg, &silent, &vec![]), ("No response".to_string(), 1));
    let private = hop(2, 3, 3, &[("a", 3)]);
    let texts = vec!["A".to_string()];
    assert_eq!(render_hostname(true, &cfg, &private, &texts), ("**Hidden**".to_string(), 1));
    let ctx = RowContext {
        selected_hop_ttl: Some(2),
        show_hop_details: true,
        hide_private_hops: false,
        is_target: false,
        is_in_round: true,
    };
    let row = render_table_row(&ctx, &private, &cfg, &texts, &"details".to_string());
    assert_eq!(row.hostname, "details");
    assert_eq!(row.height, 6);
}

#[test]
fn tui_config_keeps_theme_bindings_and_columns() {
    let cfg = config(AddressMode::IP, false, GeoIpMode::Off, None);
    assert_eq!(cfg.theme, theme());
    assert_eq!(cfg.bindings, vec![("quit".to_string(), "q".to_string())]);
    assert_eq!(cfg.custom_columns, "HOLSRAVBWDT");
}

#[test]
fn hostname_addresses_lists_only_what_is_shown() {
    let h = hop(5, 10, 10, &[("a", 1), ("b", 6), ("c", 3)]);
    let two = config(AddressMode::IP, false, GeoIpMode::Off, Some(2));
    assert_eq!(hostname_addresses(false, &two, &h), vec![1, 2]);
    let all = config(AddressMode::IP, false, GeoIpMode::Off, None);
    assert_eq!(hostname_addresses(false, &all, &h), vec![0, 1, 2]);
    let private = hop(2, 3, 3, &[("a", 3)]);
    assert!(hostname_addresses(true, &all, &private).is_empty());
    let silent = hop(3, 3, 0, &[]);
    assert!(hostname_addresses(false, &all, &silent).is_empty());
    let shown = vec!["B".to_string(), "C".to_string()];
    assert_eq!(render_hostname_lines(false, &two, &h, &shown), ("B\nC".to_string(), 2));
    assert_eq!(render_hostname_lines(true, &all, &private, &vec![]), ("**Hidden**".to_string(), 1));
    assert_eq!(render_hostname_lines(false, &all, &silent, &vec![]), ("No response".to_string(), 1));
}

#[test]
fn row_lookups_read_details_or_shown_addresses() {
    let cfg = config(AddressMode::IP, false, GeoIpMode::Off, Some(1));
    let h = hop(4, 6, 5, &[("a", 1), ("b", 4)]);
    let selected = RowContext {
        selected_hop_ttl: Some(4),
        show_hop_details: true,
        hide_private_hops: false,
        is_target: false,
        is_in_round: true,
    };
    let lookups = row_lookups(&selected, &h, &cfg);
    assert!(lookups.details);
    assert!(lookups.addresses.is_empty());
    let private = hop(2, 6, 5, &[("a", 5)]);
    let hidden = RowContext { selected_hop_ttl: Some(2), hide_private_hops: true, ..selected };
    assert!(!row_lookups(&hidden, &private, &cfg).details);
    let shown = RowContext { hide_private_hops: false, ..hidden };
    assert!(row_lookups(&shown, &private, &cfg).details);
    let other = RowContext { selected_hop_ttl: None, ..selected };
    let lookups = row_lookups(&other, &h, &cfg);
    assert!(!lookups.details);
    assert_eq!(lookups.addresses, vec![1]);
    let row = render_table_row_lines(&other, &h, &cfg, &vec!["B".to_string()], &String::new());
    assert_eq!(row.hostname, "B");
    assert_eq!(row.height, 1);
    assert_eq!(row.ttl, "4");
    let row = render_table_row_lines(&selected, &h, &cfg, &vec![], &"details".to_string());
    assert_eq!(row.hostname, "details");
    assert_eq!(row.height, 6);
}
