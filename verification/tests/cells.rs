use trippy_tui::frontend::render::table::HopStatus;
use trippy_tui::frontend::{
    render_table, IcmpTracerConfig, Trace, TuiApp,
    render_best_cell, render_hostname_cell, render_last_cell, render_status_cell, render_table_row,
    render_total_recv_cell, render_total_sent_cell, render_ttl_cell, render_worst_cell, Hop,
};
use trippy_tui::text::format_decimal;
use trippy_tui::TimeSpan;

fn hop(sent: usize, recv: usize, addrs: &[&str]) -> Hop {
    Hop {
        ttl: 7,
        addrs: addrs.iter().map(|a| a.to_string()).collect(),
        total_sent: sent,
        total_recv: recv,
        last: Some(42),
        best: Some(10),
        worst: None,
        samples: vec![],
    }
}

#[test]
fn decimal_numerals() {
    assert_eq!(format_decimal(0), "0");
    assert_eq!(format_decimal(7), "7");
    assert_eq!(format_decimal(1234), "1234");
    assert_eq!(format_decimal(u128::MAX), u128::MAX.to_string());
}

#[test]
fn number_cells() {
    let h = hop(12, 9, &[]);
    assert_eq!(render_ttl_cell(&h), "7");
    assert_eq!(render_total_sent_cell(&h), "12");
    assert_eq!(render_total_recv_cell(&h), "9");
    assert_eq!(render_last_cell(&h), "42");
    assert_eq!(render_best_cell(&h), "10");
    assert_eq!(render_worst_cell(&h), "");
}

#[test]
fn status_of_target_row() {
    assert_eq!(render_status_cell(&hop(5, 0, &[]), 2, 3), HopStatus::TargetAllLost);
    assert_eq!(render_status_cell(&hop(5, 3, &[]), 2, 3), HopStatus::TargetSomeLost);
    assert_eq!(render_status_cell(&hop(5, 5, &[]), 2, 3), HopStatus::Healthy);
}

#[test]
fn status_of_other_rows() {
    assert_eq!(render_status_cell(&hop(5, 0, &[]), 0, 3), HopStatus::AllLost);
    assert_eq!(render_status_cell(&hop(5, 4, &[]), 1, 3), HopStatus::SomeLost);
    assert_eq!(render_status_cell(&hop(5, 5, &[]), 1, 3), HopStatus::Healthy);
    assert_eq!(render_status_cell(&hop(0, 0, &[]), 1, 3), HopStatus::AllLost);
}

#[test]
fn status_symbols() {
    assert_eq!(HopStatus::TargetAllLost.symbol(), "🔴");
    assert_eq!(HopStatus::TargetSomeLost.symbol(), "🟡");
    assert_eq!(HopStatus::AllLost.symbol(), "🟤");
    assert_eq!(HopStatus::SomeLost.symbol(), "🔵");
    assert_eq!(HopStatus::Healthy.symbol(), "🟢");
}

#[test]
fn hostname_cell_lists_each_address() {
    let h = hop(3, 3, &["10.0.0.1", "10.0.0.2"]);
    let names = vec!["a.example".to_string(), "b.example".to_string()];
    assert_eq!(
        render_hostname_cell(&h, &names),
        "a.example (10.0.0.1)\nb.example (10.0.0.2)"
    );
}

#[test]
fn hostname_cell_without_replies() {
    let h = hop(3, 0, &[]);
    assert_eq!(render_hostname_cell(&h, &vec![]), "No response");
}

#[test]
fn table_row_cells_and_height() {
    let h = hop(4, 2, &["10.0.0.1", "10.0.0.2", "10.0.0.3"]);
    let names = vec!["x".to_string(), "y".to_string(), "z".to_string()];
    let row = render_table_row(&h, &names, 0, 1);
    assert_eq!(row.ttl, "7");
    assert_eq!(row.hostname, "x (10.0.0.1)\ny (10.0.0.2)\nz (10.0.0.3)");
    assert_eq!(row.total_sent, "4");
    assert_eq!(row.total_recv, "2");
    assert_eq!(row.last, "42");
    assert_eq!(row.best, "10");
    assert_eq!(row.worst, "");
    assert_eq!(row.status, HopStatus::TargetSomeLost);
    assert_eq!(row.height, 3);
    let empty = hop(4, 0, &[]);
    assert_eq!(render_table_row(&empty, &vec![], 1, 3).height, 1);
}

#[test]
fn table_has_a_row_per_hop_up_to_the_highest_ttl() {
    let config = IcmpTracerConfig {
        first_ttl: 1,
        max_ttl: 64,
        grace_duration: TimeSpan { secs: 0, nanos: 0 },
        min_round_duration: TimeSpan { secs: 1, nanos: 0 },
    };
    let mut app = TuiApp::new("t".to_string(), "10.0.0.9".to_string(), config);
    let mut first = hop(2, 2, &["10.0.0.1"]);
    first.ttl = 1;
    let mut second = hop(2, 1, &["10.0.0.9"]);
    second.ttl = 2;
    let mut third = hop(2, 0, &[]);
    third.ttl = 3;
    app.trace = Trace { hops: vec![first, second, third], highest_ttl: 2 };
    let names = vec![vec!["gw".to_string()], vec!["t".to_string()], vec![]];
    let rows = render_table(&app, &names);
    assert_eq!(rows.len(), 2);
    assert_eq!(rows[0].ttl, "1");
    assert_eq!(rows[0].hostname, "gw (10.0.0.1)");
    assert_eq!(rows[0].status, HopStatus::Healthy);
    assert_eq!(rows[1].ttl, "2");
    assert_eq!(rows[1].status, HopStatus::TargetSomeLost);
}
