//! The terminal user interface: the selection in the hop table, the keys that
//! move it, and the text of the header and of the table cells.

pub mod frequency;
pub mod render;

pub use frequency::sample_frequency;

use crate::dns::{AsMode, DnsLookup};
use crate::frontend::render::table::{hop_status, HopStatus};
use crate::text::{decimal, format_decimal, itertools_join, push_decimal, seq_join};
use crate::TimeSpan;
use vstd::prelude::*;
use vstd::string::*;

verus! {

/// How an address is shown in the table.
#[derive(Clone, Copy, Debug, PartialEq, Eq)]
pub enum AddressMode {
    /// Its IP address.
    IP,
    /// Its hostname.
    Host,
    /// Its hostname and its IP address.
    Both,
}

/// How the GeoIp information of an address is shown.
#[derive(Clone, Copy, Debug, PartialEq, Eq)]
pub enum GeoIpMode {
    Off,
    Short,
    Long,
    Location,
}

/// How ICMP extensions are shown.
#[derive(Clone, Copy, Debug, PartialEq, Eq)]
pub enum IcmpExtensionMode {
    Off,
    Mpls,
    Full,
    All,
}

/// A colour of the TUI.
#[derive(Clone, Copy, Debug, PartialEq, Eq)]
pub enum TuiColor {
    Reset,
    Black,
    Red,
    Green,
    Yellow,
    Blue,
    Magenta,
    Cyan,
    Gray,
    DarkGray,
    LightRed,
    LightGreen,
    LightYellow,
    LightBlue,
    LightMagenta,
    LightCyan,
    White,
    Rgb(u8, u8, u8),
    Indexed(u8),
}

/// The colours of the TUI.
#[derive(Clone, Copy, Debug, PartialEq, Eq)]
pub struct Theme {
    pub bg_color: TuiColor,
    pub border_color: TuiColor,
    pub text_color: TuiColor,
    pub hops_table_header_bg_color: TuiColor,
    pub hops_table_header_text_color: TuiColor,
    pub hops_table_row_active_text_color: TuiColor,
    pub hops_table_row_inactive_text_color: TuiColor,
}

/// The configuration of the TUI. `bindings` pairs each command with the key
/// bound to it (their names); `custom_columns` lists the codes of the columns
/// shown, in order.
#[derive(Clone, Debug)]
pub struct TuiConfig {
    pub refresh_rate: TimeSpan,
    pub privacy_max_ttl: u8,
    pub preserve_screen: bool,
    pub address_mode: AddressMode,
    pub lookup_as_info: bool,
    pub as_mode: AsMode,
    pub icmp_extension_mode: IcmpExtensionMode,
    pub geoip_mode: GeoIpMode,
    pub max_addrs: Option<u8>,
    pub max_samples: usize,
    pub max_flows: usize,
    pub theme: Theme,
    pub bindings: Vec<(String, String)>,
    pub custom_columns: String,
}

/// A copy of the key bindings.
pub fn clone_bindings(bindings: &Vec<(String, String)>) -> (res: Vec<(String, String)>)
    ensures
        res@ == bindings@,
{
    let mut res: Vec<(String, String)> = Vec::new();
    for i in 0..bindings.len()
        invariant
            res@ == bindings@.take(i as int),
    {
        let (command, key) = &bindings[i];
        res.push((command.clone(), key.clone()));
        assert(res@ =~= bindings@.take(i + 1));
    }
    assert(bindings@.take(bindings@.len() as int) =~= bindings@);
    res
}

impl TuiConfig {
    /// The configuration made of the given settings, the bindings and the
    /// columns copied.
    #[allow(clippy::too_many_arguments)]
    pub fn new(
        refresh_rate: TimeSpan,
        privacy_max_ttl: u8,
        preserve_screen: bool,
        address_mode: AddressMode,
        lookup_as_info: bool,
        as_mode: AsMode,
        icmp_extension_mode: IcmpExtensionMode,
        geoip_mode: GeoIpMode,
        max_addrs: Option<u8>,
        max_samples: usize,
        max_flows: usize,
        theme: Theme,
        bindings: &Vec<(String, String)>,
        custom_columns: &String,
    ) -> (res: Self)
        ensures
            res.refresh_rate == refresh_rate,
            res.privacy_max_ttl == privacy_max_ttl,
            res.preserve_screen == preserve_screen,
            res.address_mode == address_mode,
            res.lookup_as_info == lookup_as_info,
            res.as_mode == as_mode,
            res.icmp_extension_mode == icmp_extension_mode,
            res.geoip_mode == geoip_mode,
            res.max_addrs == max_addrs,
            res.max_samples == max_samples,
            res.max_flows == max_flows,
            res.theme == theme,
            res.bindings@ == bindings@,
            res.custom_columns == *custom_columns,
    {
        TuiConfig {
            refresh_rate,
            privacy_max_ttl,
            preserve_screen,
            address_mode,
            lookup_as_info,
            as_mode,
            icmp_extension_mode,
            geoip_mode,
            max_addrs,
            max_samples,
            max_flows,
            theme,
            bindings: clone_bindings(bindings),
            custom_columns: custom_columns.clone(),
        }
    }

    /// The reverse lookup that the table asks for: with autonomous system
    /// information exactly when it is configured.
    pub fn dns_lookup(&self) -> (res: DnsLookup)
        ensures
            res == (if self.lookup_as_info { DnsLookup::WithAsInfo } else { DnsLookup::Plain }),
    {
        if self.lookup_as_info {
            DnsLookup::WithAsInfo
        } else {
            DnsLookup::Plain
        }
    }
}

/// The settings of the ICMP tracer that the header shows.
#[derive(Clone, Copy, Debug)]
pub struct IcmpTracerConfig {
    pub first_ttl: u8,
    pub max_ttl: u8,
    pub grace_duration: TimeSpan,
    pub min_round_duration: TimeSpan,
}

/// A hop of the trace as the TUI reads it: its time-to-live, the addresses seen
/// (their texts), the probes sent and answered, and the round-trip times in
/// milliseconds of the last, best and worst probe and of the samples kept.
#[derive(Clone, Debug)]
pub struct Hop {
    pub ttl: u8,
    pub addrs: Vec<String>,
    pub total_sent: usize,
    pub total_recv: usize,
    pub last: Option<u128>,
    pub best: Option<u128>,
    pub worst: Option<u128>,
    pub samples: Vec<u128>,
}

/// The trace as the TUI reads it: its hops and the highest time-to-live seen so far.
#[derive(Clone, Debug)]
pub struct Trace {
    pub hops: Vec<Hop>,
    pub highest_ttl: u8,
}

/// The state of the TUI: the selected row of the hop table (if any), the trace
/// shown, the target and the tracer settings.
#[derive(Clone, Debug)]
pub struct TuiApp {
    pub selected: Option<usize>,
    pub trace: Trace,
    pub target_hostname: String,
    pub target_addr: String,
    pub tracer_config: IcmpTracerConfig,
}

/// The index of the last row of the hop table.
pub open spec fn max_index(highest_ttl: u8) -> int {
    highest_ttl - 1
}

/// The row selected after moving down: the next row, staying on the last one,
/// or the first row where none was selected.
pub open spec fn next_selection(selected: Option<usize>, max_index: int) -> Option<usize> {
    match selected {
        Some(i) => if i < max_index {
            Some((i + 1) as usize)
        } else {
            Some(i)
        },
        None => Some(0),
    }
}

/// The row selected after moving up: the previous row, staying on the first one,
/// or the last row where none was selected.
pub open spec fn previous_selection(selected: Option<usize>, max_index: int) -> Option<usize> {
    match selected {
        Some(i) => if i > 0 {
            Some((i - 1) as usize)
        } else {
            Some(i)
        },
        None => Some(max_index as usize),
    }
}

impl TuiApp {
    /// A TUI with no row selected and an empty trace.
    pub fn new(target_hostname: String, target_addr: String, tracer_config: IcmpTracerConfig) -> (res: Self)
        ensures
            res.selected is None,
            res.trace.hops@.len() == 0,
            res.trace.highest_ttl == 0,
            res.target_hostname == target_hostname,
            res.target_addr == target_addr,
            res.tracer_config == tracer_config,
    {
        TuiApp {
            selected: None,
            trace: Trace { hops: Vec::new(), highest_ttl: 0 },
            target_hostname,
            target_addr,
            tracer_config,
        }
    }

    /// Whether everything but the selection is as in `other`.
    pub open spec fn same_but_selection(self, other: Self) -> bool {
        &&& self.trace == other.trace
        &&& self.target_hostname == other.target_hostname
        &&& self.target_addr == other.target_addr
        &&& self.tracer_config == other.tracer_config
    }

    /// Selects the next row of the hop table; the trace has at least one hop.
    pub fn next(&mut self)
        requires
            old(self).trace.highest_ttl > 0,
        ensures
            final(self).selected == next_selection(old(self).selected, max_index(old(self).trace.highest_ttl)),
            final(self).same_but_selection(*old(self)),
    {
        let max_index: usize = (self.trace.highest_ttl as usize) - 1;
        let i = match self.selected {
            Some(i) => {
                if i < max_index {
                    i + 1
                } else {
                    i
                }
            },
            None => 0,
        };
        self.selected = Some(i);
    }

    /// Selects the previous row of the hop table; where no row was selected the
    /// trace has at least one hop.
    pub fn previous(&mut self)
        requires
            old(self).selected is Some || old(self).trace.highest_ttl > 0,
        ensures
            final(self).selected == previous_selection(
                old(self).selected,
                max_index(old(self).trace.highest_ttl),
            ),
            final(self).same_but_selection(*old(self)),
    {
        let i = match self.selected {
            Some(i) => {
                if i > 0 {
                    i - 1
                } else {
                    i
                }
            },
            None => (self.trace.highest_ttl as usize) - 1,
        };
        self.selected = Some(i);
    }

    /// Clears the selection.
    pub fn clear(&mut self)
        ensures
            final(self).selected is None,
            final(self).same_but_selection(*old(self)),
    {
        self.selected = None;
    }

    /// Whether the hop table is shown; until the first round completes, the splash screen is.
    pub fn shows_hops(&self) -> (res: bool)
        ensures
            res == (self.trace.highest_ttl > 0),
    {
        self.trace.highest_ttl > 0
    }

    /// The hop whose samples the history and frequency charts show: the selected
    /// one, else the target hop at `target_index`.
    pub fn chart_hop_index(&self, target_index: usize) -> (res: usize)
        ensures
            res == match self.selected {
                Some(i) => i,
                None => target_index,
            },
    {
        match self.selected {
            Some(i) => i,
            None => target_index,
        }
    }

    /// The target line of the header: the hostname and, in brackets, the address.
    pub fn header_target_text(&self) -> (res: String)
        ensures
            res@ == self.target_hostname@ + " ("@ + self.target_addr@ + ")"@,
    {
        let mut s = self.target_hostname.clone();
        s.append(" (");
        s.append(self.target_addr.as_str());
        s.append(")");
        s
    }

    /// The configuration line of the header, its durations written by humantime.
    pub fn header_config_text(&self) -> (res: String)
        requires
            self.tracer_config.min_round_duration.wf(),
            self.tracer_config.grace_duration.wf(),
        ensures
            res@ == config_text(
                humantime_text(
                    self.tracer_config.min_round_duration.secs,
                    self.tracer_config.min_round_duration.nanos,
                ),
                humantime_text(
                    self.tracer_config.grace_duration.secs,
                    self.tracer_config.grace_duration.nanos,
                ),
                self.tracer_config.first_ttl,
                self.tracer_config.max_ttl,
            ),
    {
        let interval = format_duration(&self.tracer_config.min_round_duration);
        let grace = format_duration(&self.tracer_config.grace_duration);
        format_config_text(&interval, &grace, self.tracer_config.first_ttl, self.tracer_config.max_ttl)
    }
}

/// The text that `humantime::format_duration` writes for the duration of
/// `secs` seconds and `nanos` nanoseconds.
pub uninterp spec fn humantime_text(secs: u64, nanos: u32) -> Seq<char>;

/// Writes a duration as humantime does: calls `humantime::format_duration` on
/// `Duration::new(secs, nanos)` (which cannot panic as the nanoseconds stay
/// below a second) and writes the result with `to_string`. The contract only
/// names the text, `humantime_text(secs, nanos)`; its composition is left
/// unsaid, as humantime's documentation reserves the right to change it.
#[verifier::external_body]
fn format_duration(span: &TimeSpan) -> (res: String)
    requires
        span.wf(),
    ensures
        res@ == humantime_text(span.secs, span.nanos),
{
    humantime::format_duration(std::time::Duration::new(span.secs, span.nanos)).to_string()
}

/// The configuration line of the header from the texts of the interval and the grace period.
pub open spec fn config_text(interval: Seq<char>, grace: Seq<char>, first_ttl: u8, max_ttl: u8) -> Seq<char> {
    "mode=icmp interval="@ + interval + " grace="@ + grace + " start-ttl="@ + decimal(first_ttl as nat)
        + " max-ttl="@ + decimal(max_ttl as nat)
}

/// Formats the configuration line of the header.
pub fn format_config_text(interval: &String, grace: &String, first_ttl: u8, max_ttl: u8) -> (res: String)
    ensures
        res@ == config_text(interval@, grace@, first_ttl, max_ttl),
{
    let mut s = String::from_str("mode=icmp interval=");
    s.append(interval.as_str());
    s.append(" grace=");
    s.append(grace.as_str());
    s.append(" start-ttl=");
    push_decimal(&mut s, first_ttl as u128);
    s.append(" max-ttl=");
    push_decimal(&mut s, max_ttl as u128);
    s
}

/// Moving the selection keeps it within the hop table: from no selection or a
/// row of the table, moving down or up selects a row of the table.
pub proof fn lemma_selection_stays_in_table(selected: Option<usize>, highest_ttl: u8)
    requires
        highest_ttl > 0,
        selected matches Some(i) ==> i <= max_index(highest_ttl),
    ensures
        next_selection(selected, max_index(highest_ttl)) matches Some(i) && i <= max_index(highest_ttl),
        previous_selection(selected, max_index(highest_ttl)) matches Some(i) && i <= max_index(highest_ttl),
{
}

/// Moving down then up returns to the row one started from, unless it was the
/// last row; moving up then down likewise, unless it was the first.
pub proof fn lemma_moves_undo(i: usize, highest_ttl: u8)
    requires
        highest_ttl > 0,
        i <= max_index(highest_ttl),
    ensures
        i < max_index(highest_ttl) ==> previous_selection(
            next_selection(Some(i), max_index(highest_ttl)),
            max_index(highest_ttl),
        ) == Some(i),
        i > 0 ==> next_selection(previous_selection(Some(i), max_index(highest_ttl)), max_index(highest_ttl))
            == Some(i),
{
}

/// At the ends of the table moving further stays put; from no selection, down
/// selects the first row and up the last.
pub proof fn lemma_moves_at_ends(highest_ttl: u8)
    requires
        highest_ttl > 0,
    ensures
        next_selection(Some(max_index(highest_ttl) as usize), max_index(highest_ttl)) == Some(
            max_index(highest_ttl) as usize,
        ),
        previous_selection(Some(0), max_index(highest_ttl)) == Some(0usize),
        next_selection(None, max_index(highest_ttl)) == Some(0usize),
        previous_selection(None, max_index(highest_ttl)) == Some(max_index(highest_ttl) as usize),
{
}

/// A key pressed in the TUI.
#[derive(Clone, Copy, Debug, PartialEq, Eq)]
pub enum KeyCode {
    Char(char),
    Down,
    Up,
    Esc,
    Other,
}

/// Whether the key can be handled in the state: moving the selection needs a
/// row to move to.
pub open spec fn key_allowed(app: TuiApp, key: KeyCode) -> bool {
    match key {
        KeyCode::Down => app.trace.highest_ttl > 0,
        KeyCode::Up => app.selected is Some || app.trace.highest_ttl > 0,
        _ => true,
    }
}

/// Handles a key: `q` quits (the result is `true`), down and up move the
/// selection, escape clears it, any other key does nothing.
pub fn handle_key(app: &mut TuiApp, key: KeyCode) -> (quit: bool)
    requires
        key_allowed(*old(app), key),
    ensures
        quit == (key == KeyCode::Char('q')),
        final(app).same_but_selection(*old(app)),
        final(app).selected == match key {
            KeyCode::Char('q') => old(app).selected,
            KeyCode::Down => next_selection(old(app).selected, max_index(old(app).trace.highest_ttl)),
            KeyCode::Up => previous_selection(old(app).selected, max_index(old(app).trace.highest_ttl)),
            KeyCode::Esc => None,
            _ => old(app).selected,
        },
{
    match key {
        KeyCode::Char('q') => true,
        KeyCode::Down => {
            app.next();
            false
        },
        KeyCode::Up => {
            app.previous();
            false
        },
        KeyCode::Esc => {
            app.clear();
            false
        },
        _ => false,
    }
}

/// The time-to-live cell.
pub fn render_ttl_cell(hop: &Hop) -> (res: String)
    ensures
        res@ == decimal(hop.ttl as nat),
{
    format_decimal(hop.ttl as u128)
}

/// The probes-sent cell.
pub fn render_total_sent_cell(hop: &Hop) -> (res: String)
    ensures
        res@ == decimal(hop.total_sent as nat),
{
    format_decimal(hop.total_sent as u128)
}

/// The probes-answered cell.
pub fn render_total_recv_cell(hop: &Hop) -> (res: String)
    ensures
        res@ == decimal(hop.total_recv as nat),
{
    format_decimal(hop.total_recv as u128)
}

/// A round-trip time in milliseconds, or nothing where there is none.
pub open spec fn millis_cell_text(millis: Option<u128>) -> Seq<char> {
    match millis {
        Some(m) => decimal(m as nat),
        None => Seq::empty(),
    }
}

fn render_millis_cell(millis: Option<u128>) -> (res: String)
    ensures
        res@ == millis_cell_text(millis),
{
    match millis {
        Some(m) => format_decimal(m),
        None => String::new(),
    }
}

/// The cell of the round-trip time of the last probe.
pub fn render_last_cell(hop: &Hop) -> (res: String)
    ensures
        res@ == millis_cell_text(hop.last),
{
    render_millis_cell(hop.last)
}

/// The cell of the best round-trip time.
pub fn render_best_cell(hop: &Hop) -> (res: String)
    ensures
        res@ == millis_cell_text(hop.best),
{
    render_millis_cell(hop.best)
}

/// The cell of the worst round-trip time.
pub fn render_worst_cell(hop: &Hop) -> (res: String)
    ensures
        res@ == millis_cell_text(hop.worst),
{
    render_millis_cell(hop.worst)
}

/// The line of one address: its hostname and, in brackets, the address.
pub open spec fn host_line(name: Seq<char>, addr: Seq<char>) -> Seq<char> {
    name + " ("@ + addr + ")"@
}

/// The lines of the addresses of a hop, `names[i]` being the hostname of the `i`-th.
pub open spec fn host_lines(names: Seq<String>, addrs: Seq<String>) -> Seq<Seq<char>> {
    Seq::new(addrs.len(), |i: int| host_line(names[i]@, addrs[i]@))
}

/// The text of the hostname cell: a line per address, or "No response" where no probe was answered.
pub open spec fn hostname_cell_text(hop: Hop, names: Seq<String>) -> Seq<char> {
    if hop.total_recv > 0 {
        seq_join(host_lines(names, hop.addrs@), "\n"@)
    } else {
        "No response"@
    }
}

/// The hostname cell, where `names[i]` is the reverse lookup of the `i`-th address.
pub fn render_hostname_cell(hop: &Hop, names: &Vec<String>) -> (res: String)
    requires
        names@.len() == hop.addrs@.len(),
    ensures
        res@ == hostname_cell_text(*hop, names@),
{
    if hop.total_recv > 0 {
        let n = hop.addrs.len();
        let mut lines: Vec<String> = Vec::new();
        for i in 0..n
            invariant
                n == hop.addrs@.len(),
                n == names@.len(),
                crate::text::string_views(lines@) =~= host_lines(names@, hop.addrs@).take(i as int),
        {
            let mut line = names[i].clone();
            line.append(" (");
            line.append(hop.addrs[i].as_str());
            line.append(")");
            let ghost before = lines@;
            lines.push(line);
            assert(crate::text::string_views(lines@) =~= crate::text::string_views(before).push(
                host_line(names@[i as int]@, hop.addrs@[i as int]@),
            ));
        }
        assert(host_lines(names@, hop.addrs@).take(n as int) =~= host_lines(names@, hop.addrs@));
        itertools_join(&lines, "\n")
    } else {
        String::from_str("No response")
    }
}

/// Whether the `i`-th row of the table is the target: the row of the highest time-to-live.
pub open spec fn is_target_row(i: usize, highest_ttl: u8) -> bool {
    highest_ttl == i + 1
}

/// The status of the `i`-th hop of the table; the probes answered never exceed
/// the probes sent, and the row after `i` can be numbered.
pub fn render_status_cell(hop: &Hop, i: usize, highest_ttl: u8) -> (res: HopStatus)
    requires
        hop.total_recv <= hop.total_sent,
        i < usize::MAX,
    ensures
        res == hop_status(hop.total_sent as nat, hop.total_recv as nat, is_target_row(i, highest_ttl)),
{
    let target = highest_ttl as usize == i + 1;
    let lost = hop.total_sent - hop.total_recv;
    if target && lost == hop.total_sent {
        HopStatus::TargetAllLost
    } else if target && lost > 0 {
        HopStatus::TargetSomeLost
    } else if !target && lost == hop.total_sent {
        HopStatus::AllLost
    } else if !target && lost > 0 {
        HopStatus::SomeLost
    } else {
        HopStatus::Healthy
    }
}

/// The height of a row: a line per address, at least one (kept to 16 bits).
pub open spec fn row_height(hop: Hop) -> u16 {
    (if hop.addrs@.len() > 1 {
        hop.addrs@.len()
    } else {
        1
    }) as u16
}

/// The cells of a row of the hop table that are not computed from fractions of
/// time or loss, and the row's height.
#[derive(Clone, Debug)]
pub struct HopRow {
    pub ttl: String,
    pub hostname: String,
    pub total_sent: String,
    pub total_recv: String,
    pub last: String,
    pub best: String,
    pub worst: String,
    pub status: HopStatus,
    pub height: u16,
}

/// Whether `row` is the `i`-th row of the hop table for the hop, `names[i]`
/// being the hostname of the `i`-th address of the hop.
pub open spec fn is_hop_row(row: HopRow, hop: Hop, names: Seq<String>, i: usize, highest_ttl: u8) -> bool {
    &&& row.ttl@ == decimal(hop.ttl as nat)
    &&& row.hostname@ == hostname_cell_text(hop, names)
    &&& row.total_sent@ == decimal(hop.total_sent as nat)
    &&& row.total_recv@ == decimal(hop.total_recv as nat)
    &&& row.last@ == millis_cell_text(hop.last)
    &&& row.best@ == millis_cell_text(hop.best)
    &&& row.worst@ == millis_cell_text(hop.worst)
    &&& row.status == hop_status(hop.total_sent as nat, hop.total_recv as nat, is_target_row(i, highest_ttl))
    &&& row.height == row_height(hop)
}

/// Renders the `i`-th row of the hop table; `names[i]` is the hostname of the
/// `i`-th address of the hop.
pub fn render_table_row(hop: &Hop, names: &Vec<String>, i: usize, highest_ttl: u8) -> (res: HopRow)
    requires
        hop.total_recv <= hop.total_sent,
        i < usize::MAX,
        names@.len() == hop.addrs@.len(),
    ensures
        is_hop_row(res, *hop, names@, i, highest_ttl),
{
    let n = hop.addrs.len();
    let rows: usize = if n > 1 {
        n
    } else {
        1
    };
    HopRow {
        ttl: render_ttl_cell(hop),
        hostname: render_hostname_cell(hop, names),
        total_sent: render_total_sent_cell(hop),
        total_recv: render_total_recv_cell(hop),
        last: render_last_cell(hop),
        best: render_best_cell(hop),
        worst: render_worst_cell(hop),
        status: render_status_cell(hop, i, highest_ttl),
        height: rows as u16,
    }
}

/// The number of rows of the hop table: a row per hop up to the highest time-to-live.
pub open spec fn table_len(trace: Trace) -> nat {
    if trace.hops@.len() < trace.highest_ttl {
        trace.hops@.len()
    } else {
        trace.highest_ttl as nat
    }
}

/// Renders the rows of the hop table: one per hop, up to the highest
/// time-to-live; `names[i][j]` is the hostname of the `j`-th address of the
/// `i`-th hop, and in no hop shown are more probes answered than sent.
pub fn render_table(app: &TuiApp, names: &Vec<Vec<String>>) -> (res: Vec<HopRow>)
    requires
        names@.len() >= table_len(app.trace),
        forall|i: int|
            0 <= i < table_len(app.trace) ==> #[trigger] app.trace.hops@[i].total_recv
                <= app.trace.hops@[i].total_sent && names@[i]@.len() == app.trace.hops@[i].addrs@.len(),
    ensures
        res@.len() == table_len(app.trace),
        forall|i: int|
            0 <= i < res@.len() ==> is_hop_row(
                #[trigger] res@[i],
                app.trace.hops@[i],
                names@[i]@,
                i as usize,
                app.trace.highest_ttl,
            ),
{
    let n: usize = if app.trace.hops.len() < app.trace.highest_ttl as usize {
        app.trace.hops.len()
    } else {
        app.trace.highest_ttl as usize
    };
    let mut rows: Vec<HopRow> = Vec::new();
    for i in 0..n
        invariant
            n == table_len(app.trace),
            n <= app.trace.hops@.len(),
            names@.len() >= n,
            forall|k: int|
                0 <= k < n ==> #[trigger] app.trace.hops@[k].total_recv
                    <= app.trace.hops@[k].total_sent && names@[k]@.len() == app.trace.hops@[k].addrs@.len(),
            rows@.len() == i,
            forall|k: int|
                0 <= k < i ==> is_hop_row(
                    #[trigger] rows@[k],
                    app.trace.hops@[k],
                    names@[k]@,
                    k as usize,
                    app.trace.highest_ttl,
                ),
    {
        assert(app.trace.hops@[i as int].total_recv <= app.trace.hops@[i as int].total_sent);
        let row = render_table_row(&app.trace.hops[i], &names[i], i, app.trace.highest_ttl);
        rows.push(row);
    }
    rows
}

/// The history chart's data: the first samples (as many as the chart is wide),
/// each in milliseconds kept to 64 bits.
pub fn history_data(samples: &Vec<u128>, width: u16) -> (res: Vec<u64>)
    ensures
        res@.len() == (if samples@.len() < width {
            samples@.len()
        } else {
            width as nat
        }),
        forall|i: int| 0 <= i < res@.len() ==> #[trigger] res@[i] == samples@[i] as u64,
{
    let max_samples: usize = if samples.len() < width as usize {
        samples.len()
    } else {
        width as usize
    };
    let mut data: Vec<u64> = Vec::new();
    for i in 0..max_samples
        invariant
            max_samples <= samples@.len(),
            data@.len() == i,
            forall|j: int| 0 <= j < i ==> #[trigger] data@[j] == samples@[j] as u64,
    {
        data.push(samples[i] as u64);
    }
    data
}

} // verus!
