use trippy_tui::frontend::{
    handle_key, history_data, sample_frequency, Hop, IcmpTracerConfig, KeyCode, Trace, TuiApp,
};
use trippy_tui::TimeSpan;

fn config() -> IcmpTracerConfig {
    IcmpTracerConfig {
        first_ttl: 1,
        max_ttl: 64,
        grace_duration: TimeSpan { secs: 0, nanos: 100_000_000 },
        min_round_duration: TimeSpan { secs: 1, nanos: 0 },
    }
}

fn hop(ttl: u8) -> Hop {
    Hop {
        ttl,
        addrs: vec![],
        total_sent: 0,
        total_recv: 0,
        last: None,
        best: None,
        worst: None,
        samples: vec![],
    }
}

fn app_with_hops(highest_ttl: u8) -> TuiApp {
    let mut app = TuiApp::new("example.com".to_string(), "1.2.3.4".to_string(), config());
    app.trace = Trace { hops: (1..=highest_ttl).map(hop).collect(), highest_ttl };
    app
}

#[test]
fn new_app_has_no_selection_and_shows_splash() {
    let app = TuiApp::new("example.com".to_string(), "1.2.3.4".to_string(), config());
    assert_eq!(app.selected, None);
    assert!(!app.shows_hops());
    assert!(app_with_hops(1).shows_hops());
}

#[test]
fn next_moves_down_and_stops_at_last_row() {
    let mut app = app_with_hops(3);
    app.next();
    assert_eq!(app.selected, Some(0));
    app.next();
    assert_eq!(app.selected, Some(1));
    app.next();
    assert_eq!(app.selected, Some(2));
    app.next();
    assert_eq!(app.selected, Some(2));
}

#[test]
fn previous_moves_up_and_stops_at_first_row() {
    let mut app = app_with_hops(3);
    app.previous();
    assert_eq!(app.selected, Some(2));
    app.previous();
    assert_eq!(app.selected, Some(1));
    app.previous();
    assert_eq!(app.selected, Some(0));
    app.previous();
    assert_eq!(app.selected, Some(0));
}

#[test]
fn next_then_previous_returns_to_start() {
    let mut app = app_with_hops(5);
    app.selected = Some(2);
    app.next();
    app.previous();
    assert_eq!(app.selected, Some(2));
    app.previous();
    app.next();
    assert_eq!(app.selected, Some(2));
}

#[test]
fn clear_removes_the_selection() {
    let mut app = app_with_hops(3);
    app.next();
    app.clear();
    assert_eq!(app.selected, None);
    app.previous();
    assert_eq!(app.selected, Some(2));
}

#[test]
fn keys_move_the_selection_and_q_quits() {
    let mut app = app_with_hops(2);
    assert!(!handle_key(&mut app, KeyCode::Down));
    assert_eq!(app.selected, Some(0));
    assert!(!handle_key(&mut app, KeyCode::Down));
    assert_eq!(app.selected, Some(1));
    assert!(!handle_key(&mut app, KeyCode::Up));
    assert_eq!(app.selected, Some(0));
    assert!(!handle_key(&mut app, KeyCode::Char('x')));
    assert!(!handle_key(&mut app, KeyCode::Other));
    assert_eq!(app.selected, Some(0));
    assert!(!handle_key(&mut app, KeyCode::Esc));
    assert_eq!(app.selected, None);
    assert!(handle_key(&mut app, KeyCode::Char('q')));
    assert_eq!(app.selected, None);
}

#[test]
fn chart_hop_is_the_selected_one_else_the_target() {
    let mut app = app_with_hops(4);
    assert_eq!(app.chart_hop_index(3), 3);
    app.selected = Some(1);
    assert_eq!(app.chart_hop_index(3), 1);
}

#[test]
fn header_lines() {
    let app = app_with_hops(1);
    assert_eq!(app.header_target_text(), "example.com (1.2.3.4)");
    assert_eq!(
        app.header_config_text(),
        "mode=icmp interval=1s grace=100ms start-ttl=1 max-ttl=64"
    );
}

#[test]
fn header_uses_humantime_for_compound_durations() {
    let mut app = app_with_hops(1);
    app.tracer_config.min_round_duration = TimeSpan { secs: 9420, nanos: 0 };
    app.tracer_config.grace_duration = TimeSpan { secs: 0, nanos: 32_000_000 };
    assert_eq!(
        app.header_config_text(),
        "mode=icmp interval=2h 37m grace=32ms start-ttl=1 max-ttl=64"
    );
}

#[test]
fn sample_frequency_counts_each_positive_time_in_order() {
    let samples: Vec<u128> = vec![0, 10, 20, 10, 5, 0, 10];
    let freq = sample_frequency(&samples);
    assert_eq!(
        freq,
        vec![("5".to_string(), 1), ("10".to_string(), 3), ("20".to_string(), 1)]
    );
    let total: u64 = freq.iter().map(|(_, c)| *c).sum();
    assert_eq!(total, 5);
}

#[test]
fn sample_frequency_of_no_positive_samples_is_empty() {
    assert!(sample_frequency(&vec![]).is_empty());
    assert!(sample_frequency(&vec![0, 0]).is_empty());
}

#[test]
fn history_takes_as_many_samples_as_the_chart_is_wide() {
    let samples: Vec<u128> = vec![3, 1, 4, 1, 5];
    assert_eq!(history_data(&samples, 3), vec![3, 1, 4]);
    assert_eq!(history_data(&samples, 10), vec![3, 1, 4, 1, 5]);
    let big: Vec<u128> = vec![(1u128 << 64) + 7];
    assert_eq!(history_data(&big, 1), vec![7]);
}
