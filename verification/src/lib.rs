//! Verified core of the trippy terminal user interface: the decisions and the
//! text that the hop table, the header and the frequency chart show.

pub mod dns;
pub mod frontend;
pub mod geoip;
pub mod text;

use crate::dns::AsMode;
use crate::frontend::{AddressMode, GeoIpMode, IcmpExtensionMode, Theme, TuiConfig};
use crate::text::{decimal, join_strings, join_strs, push_decimal, seq_join, str_views, string_views};
use vstd::prelude::*;
use vstd::string::*;

verus! {

/// A length of time, held as whole seconds and the nanoseconds beyond them.
#[derive(Clone, Copy, Debug, PartialEq, Eq)]
pub struct TimeSpan {
    pub secs: u64,
    pub nanos: u32,
}

impl TimeSpan {
    /// Whether the nanoseconds stay below one second.
    pub open spec fn wf(self) -> bool {
        self.nanos < 1_000_000_000
    }
}

/// Whether the tracer runs with raw sockets.
#[derive(Clone, Copy, Debug, PartialEq, Eq)]
pub enum PrivilegeMode {
    Privileged,
    Unprivileged,
}

/// How the tracer varies the flows of its probes.
#[derive(Clone, Copy, Debug, PartialEq, Eq)]
pub enum MultipathStrategy {
    Classic,
    Paris,
    Dublin,
}

/// Which ports of the probes stay fixed.
#[derive(Clone, Copy, Debug, PartialEq, Eq)]
pub enum PortDirection {
    /// Neither port is fixed.
    Neither,
    FixedSrc(u16),
    FixedDest(u16),
    FixedBoth(u16, u16),
}

/// The protocol of the probes.
#[derive(Clone, Copy, Debug, PartialEq, Eq)]
pub enum Protocol {
    Icmp,
    Udp,
    Tcp,
}

/// Whether ICMP extensions in replies are parsed.
#[derive(Clone, Copy, Debug, PartialEq, Eq)]
pub enum IcmpExtensionParseMode {
    Disabled,
    Enabled,
}

/// How log lines are written.
#[derive(Clone, Copy, Debug, PartialEq, Eq)]
pub enum LogFormat {
    Compact,
    Pretty,
    Json,
    Chrome,
}

/// Which span events are logged.
#[derive(Clone, Copy, Debug, PartialEq, Eq)]
pub enum LogSpanEvents {
    Off,
    Active,
    Full,
}

/// The settings of a run, as the command line and the configuration file give them.
#[derive(Clone, Debug)]
pub struct TrippyConfig {
    pub targets: Vec<String>,
    /// The address family, as it is displayed.
    pub addr_family: String,
    pub dns_resolve_all: bool,
    pub dns_lookup_as_info: bool,
    pub geoip_mmdb_file: Option<String>,
    pub verbose: bool,
    pub log_format: LogFormat,
    pub log_span_events: LogSpanEvents,
    pub log_filter: String,
    pub privilege_mode: PrivilegeMode,
    pub multipath_strategy: MultipathStrategy,
    pub port_direction: PortDirection,
    pub protocol: Protocol,
    pub first_ttl: u8,
    pub max_ttl: u8,
    pub grace_duration: TimeSpan,
    pub min_round_duration: TimeSpan,
    pub max_round_duration: TimeSpan,
    pub max_inflight: u8,
    pub initial_sequence: u16,
    pub icmp_extension_parse_mode: IcmpExtensionParseMode,
    pub read_timeout: TimeSpan,
    pub packet_size: u16,
    pub payload_pattern: u8,
    pub interface: Option<String>,
    pub tui_refresh_rate: TimeSpan,
    pub tui_privacy_max_ttl: u8,
    pub tui_preserve_screen: bool,
    pub tui_address_mode: AddressMode,
    pub tui_as_mode: AsMode,
    pub tui_icmp_extension_mode: IcmpExtensionMode,
    pub tui_geoip_mode: GeoIpMode,
    pub tui_max_addrs: Option<u8>,
    pub tui_max_samples: usize,
    pub max_flows: usize,
    pub tui_theme: Theme,
    /// Each TUI command with the key bound to it (their names).
    pub tui_bindings: Vec<(String, String)>,
    /// The codes of the columns of the hop table, in order.
    pub tui_custom_columns: String,
}

/// Makes the TUI configuration of the run's settings.
pub fn make_tui_config(args: &TrippyConfig) -> (res: TuiConfig)
    ensures
        res.refresh_rate == args.tui_refresh_rate,
        res.privacy_max_ttl == args.tui_privacy_max_ttl,
        res.preserve_screen == args.tui_preserve_screen,
        res.address_mode == args.tui_address_mode,
        res.lookup_as_info == args.dns_lookup_as_info,
        res.as_mode == args.tui_as_mode,
        res.icmp_extension_mode == args.tui_icmp_extension_mode,
        res.geoip_mode == args.tui_geoip_mode,
        res.max_addrs == args.tui_max_addrs,
        res.max_samples == args.tui_max_samples,
        res.max_flows == args.max_flows,
        res.theme == args.tui_theme,
        res.bindings@ == args.tui_bindings@,
        res.custom_columns == args.tui_custom_columns,
{
    TuiConfig::new(
        args.tui_refresh_rate,
        args.tui_privacy_max_ttl,
        args.tui_preserve_screen,
        args.tui_address_mode,
        args.dns_lookup_as_info,
        args.tui_as_mode,
        args.tui_icmp_extension_mode,
        args.tui_geoip_mode,
        args.tui_max_addrs,
        args.tui_max_samples,
        args.max_flows,
        args.tui_theme,
        &args.tui_bindings,
        &args.tui_custom_columns,
    )
}

/// Where the GeoIp lookup gets its data.
#[derive(Clone, Debug)]
pub enum GeoIpSource {
    /// The MaxMind database in this file.
    File(String),
    /// No database: every lookup finds nothing.
    Empty,
}

/// Chooses the GeoIp lookup: the configured database file, if any, else an empty lookup.
pub fn create_geoip_lookup(cfg: &TrippyConfig) -> (res: GeoIpSource)
    ensures
        match cfg.geoip_mmdb_file {
            Some(path) => res matches GeoIpSource::File(p) && p@ == path@,
            None => res is Empty,
        },
{
    match &cfg.geoip_mmdb_file {
        Some(path) => GeoIpSource::File(path.clone()),
        None => GeoIpSource::Empty,
    }
}

/// Which span events a formatting subscriber writes.
#[derive(Clone, Copy, Debug, PartialEq, Eq)]
pub enum FmtSpan {
    /// No span events.
    Silent,
    Active,
    Full,
}

/// How logging is set up.
#[derive(Clone, Debug)]
pub enum LoggingSetup {
    /// No logging.
    Off,
    /// A formatting subscriber writing in the given format, filtered by the given filter.
    Fmt { format: LogFormat, span_events: FmtSpan, filter: String },
    /// A Chrome trace written to standard output.
    Chrome,
}

/// The span events written for the configured span events.
pub open spec fn fmt_span_of(events: LogSpanEvents) -> FmtSpan {
    match events {
        LogSpanEvents::Off => FmtSpan::Silent,
        LogSpanEvents::Active => FmtSpan::Active,
        LogSpanEvents::Full => FmtSpan::Full,
    }
}

/// Chooses how logging is set up: none unless verbose; a Chrome trace for the
/// Chrome format; else a formatting subscriber in the configured format.
pub fn configure_logging(cfg: &TrippyConfig) -> (res: LoggingSetup)
    ensures
        !cfg.verbose ==> res is Off,
        cfg.verbose && cfg.log_format == LogFormat::Chrome ==> res is Chrome,
        cfg.verbose && cfg.log_format != LogFormat::Chrome ==> (res matches LoggingSetup::Fmt {
            format,
            span_events,
            filter,
        } && format == cfg.log_format && span_events == fmt_span_of(cfg.log_span_events) && filter@
            == cfg.log_filter@),
{
    if cfg.verbose {
        let fmt_span = match cfg.log_span_events {
            LogSpanEvents::Off => FmtSpan::Silent,
            LogSpanEvents::Active => FmtSpan::Active,
            LogSpanEvents::Full => FmtSpan::Full,
        };
        match cfg.log_format {
            LogFormat::Chrome => LoggingSetup::Chrome,
            _ => LoggingSetup::Fmt {
                format: cfg.log_format,
                span_events: fmt_span,
                filter: cfg.log_filter.clone(),
            },
        }
    } else {
        LoggingSetup::Off
    }
}

/// Information about a tracing target: its hostname and an address of it.
#[derive(Clone, Debug)]
pub struct TargetInfo<A> {
    pub hostname: String,
    pub addr: A,
}

/// The hostname of the `i`-th address of a target where all addresses are traced.
pub open spec fn numbered_hostname(target: Seq<char>, i: nat) -> Seq<char> {
    target + " ["@ + decimal(i + 1) + "]"@
}

/// The targets (hostname and address) traced for one target name and its
/// addresses: each address, numbered, where all are traced; else the first.
pub open spec fn target_infos<A>(target: Seq<char>, addrs: Seq<A>, resolve_all: bool) -> Seq<(Seq<char>, A)> {
    if resolve_all {
        Seq::new(addrs.len(), |i: int| (numbered_hostname(target, i as nat), addrs[i]))
    } else if addrs.len() > 0 {
        seq![(target, addrs[0])]
    } else {
        Seq::empty()
    }
}

/// The message of a target that could not be resolved.
pub open spec fn resolve_error_text(target: Seq<char>, error: Seq<char>) -> Seq<char> {
    "failed to resolve target: "@ + target + " ("@ + error + ")"@
}

/// The targets traced for the target names and their lookups, in order; or the
/// message of the first target whose lookup failed.
pub open spec fn resolved_targets<A>(
    targets: Seq<String>,
    lookups: Seq<Result<Vec<A>, String>>,
    resolve_all: bool,
) -> Result<Seq<(Seq<char>, A)>, Seq<char>>
    decreases targets.len(),
{
    if targets.len() == 0 {
        Ok(Seq::empty())
    } else {
        let n = targets.len() - 1;
        match resolved_targets(targets.take(n), lookups.take(n), resolve_all) {
            Err(e) => Err(e),
            Ok(prev) => match lookups[n] {
                Err(e) => Err(resolve_error_text(targets[n]@, e@)),
                Ok(addrs) => Ok(prev + target_infos(targets[n]@, addrs@, resolve_all)),
            },
        }
    }
}

/// The hostname and address of each target.
pub open spec fn target_views<A>(infos: Seq<TargetInfo<A>>) -> Seq<(Seq<char>, A)> {
    infos.map_values(|t: TargetInfo<A>| (t.hostname@, t.addr))
}

proof fn lemma_resolved_error_stays<A>(
    targets: Seq<String>,
    lookups: Seq<Result<Vec<A>, String>>,
    resolve_all: bool,
    k: int,
    e: Seq<char>,
)
    requires
        lookups.len() == targets.len(),
        0 <= k <= targets.len(),
        resolved_targets(targets.take(k), lookups.take(k), resolve_all) == Err::<Seq<(Seq<char>, A)>, Seq<char>>(e),
    ensures
        resolved_targets(targets, lookups, resolve_all) == Err::<Seq<(Seq<char>, A)>, Seq<char>>(e),
    decreases targets.len() - k,
{
    if k == targets.len() {
        assert(targets.take(k) =~= targets);
        assert(lookups.take(k) =~= lookups);
    } else {
        let t1 = targets.take(k + 1);
        let l1 = lookups.take(k + 1);
        assert(t1.take(k) =~= targets.take(k));
        assert(l1.take(k) =~= lookups.take(k));
        assert(resolved_targets(t1, l1, resolve_all) == Err::<Seq<(Seq<char>, A)>, Seq<char>>(e));
        lemma_resolved_error_stays(targets, lookups, resolve_all, k + 1, e);
    }
}

/// Where only the first address of each target is traced, there is at most
/// one trace per target, and each is named after its target.
pub proof fn lemma_first_address_only<A>(
    targets: Seq<String>,
    lookups: Seq<Result<Vec<A>, String>>,
    infos: Seq<(Seq<char>, A)>,
)
    requires
        lookups.len() == targets.len(),
        resolved_targets(targets, lookups, false) == Ok::<Seq<(Seq<char>, A)>, Seq<char>>(infos),
    ensures
        infos.len() <= targets.len(),
        forall|i: int| 0 <= i < infos.len() ==> string_views(targets).contains(#[trigger] infos[i].0),
    decreases targets.len(),
{
    if targets.len() > 0 {
        let n = targets.len() - 1;
        let prev_targets = targets.take(n);
        let prev_lookups = lookups.take(n);
        match resolved_targets(prev_targets, prev_lookups, false) {
            Ok(prev) => {
                lemma_first_address_only(prev_targets, prev_lookups, prev);
                match lookups[n] {
                    Ok(addrs) => {
                        let more = target_infos(targets[n]@, addrs@, false);
                        assert(infos == prev + more);
                        assert forall|i: int| 0 <= i < infos.len() implies string_views(targets).contains(
                            #[trigger] infos[i].0,
                        ) by {
                            if i < prev.len() {
                                assert(infos[i] == prev[i]);
                                let j = choose|j: int|
                                    0 <= j < string_views(prev_targets).len() && string_views(prev_targets)[j]
                                        == prev[i].0;
                                assert(string_views(targets)[j] == prev[i].0);
                            } else {
                                assert(infos[i].0 == targets[n]@);
                                assert(string_views(targets)[n] == targets[n]@);
                            }
                        }
                    },
                    Err(_) => {},
                }
            },
            Err(_) => {},
        }
    }
}

/// The number of addresses the lookups gave, where all of them succeeded.
pub open spec fn total_addresses<A>(lookups: Seq<Result<Vec<A>, String>>) -> nat
    decreases lookups.len(),
{
    if lookups.len() == 0 {
        0
    } else {
        total_addresses(lookups.drop_last()) + match lookups.last() {
            Ok(addrs) => addrs@.len(),
            Err(_) => 0,
        }
    }
}

/// Where all addresses are traced, every address of every target is traced
/// once, numbered from one within its target.
pub proof fn lemma_all_addresses<A>(
    targets: Seq<String>,
    lookups: Seq<Result<Vec<A>, String>>,
    infos: Seq<(Seq<char>, A)>,
)
    requires
        lookups.len() == targets.len(),
        resolved_targets(targets, lookups, true) == Ok::<Seq<(Seq<char>, A)>, Seq<char>>(infos),
    ensures
        infos.len() == total_addresses(lookups),
    decreases targets.len(),
{
    if targets.len() > 0 {
        let n = targets.len() - 1;
        let prev_targets = targets.take(n);
        let prev_lookups = lookups.take(n);
        assert(prev_lookups =~= lookups.drop_last());
        match resolved_targets(prev_targets, prev_lookups, true) {
            Ok(prev) => {
                lemma_all_addresses(prev_targets, prev_lookups, prev);
            },
            Err(_) => {},
        }
    }
}

fn push_target_infos<A: Copy>(
    infos: &mut Vec<TargetInfo<A>>,
    target: &String,
    addrs: &Vec<A>,
    resolve_all: bool,
)
    ensures
        target_views(final(infos)@) == target_views(old(infos)@) + target_infos(target@, addrs@, resolve_all),
{
    if resolve_all {
        let n = addrs.len();
        let ghost start = target_views(infos@);
        for i in 0..n
            invariant
                resolve_all,
                n == addrs@.len(),
                target_views(infos@) =~= start + target_infos(target@, addrs@, resolve_all).take(i as int),
        {
            let mut hostname = target.clone();
            hostname.append(" [");
            push_decimal(&mut hostname, (i + 1) as u128);
            hostname.append("]");
            let ghost before = infos@;
            infos.push(TargetInfo { hostname, addr: addrs[i] });
            assert(target_views(infos@) =~= target_views(before).push(
                (numbered_hostname(target@, i as nat), addrs@[i as int]),
            ));
            assert(target_infos(target@, addrs@, resolve_all).take(i + 1) =~= target_infos(
                target@,
                addrs@,
                resolve_all,
            ).take(i as int).push((numbered_hostname(target@, i as nat), addrs@[i as int])));
        }
        assert(target_infos(target@, addrs@, resolve_all).take(n as int) =~= target_infos(
            target@,
            addrs@,
            resolve_all,
        ));
    } else if addrs.len() > 0 {
        let ghost before = infos@;
        infos.push(TargetInfo { hostname: target.clone(), addr: addrs[0] });
        assert(target_views(infos@) =~= target_views(before) + target_infos(target@, addrs@, resolve_all));
    } else {
        assert(target_views(infos@) =~= target_views(infos@) + target_infos(target@, addrs@, resolve_all));
    }
}

/// The targets to trace: for each configured target, in order, the addresses
/// its lookup gave (all of them, numbered, where all are traced; else the
/// first); or the message of the first target whose lookup failed.
/// `lookups[i]` is the lookup of `cfg.targets[i]`, its error as displayed.
pub fn resolve_targets<A: Copy>(cfg: &TrippyConfig, lookups: &Vec<Result<Vec<A>, String>>) -> (res: Result<
    Vec<TargetInfo<A>>,
    String,
>)
    requires
        lookups@.len() == cfg.targets@.len(),
    ensures
        match (res, resolved_targets(cfg.targets@, lookups@, cfg.dns_resolve_all)) {
            (Ok(infos), Ok(expected)) => target_views(infos@) == expected,
            (Err(msg), Err(expected)) => msg@ == expected,
            _ => false,
        },
{
    let n = cfg.targets.len();
    let mut infos: Vec<TargetInfo<A>> = Vec::new();
    assert(target_views(infos@) =~= Seq::empty());
    for t in 0..n
        invariant
            n == cfg.targets@.len(),
            n == lookups@.len(),
            resolved_targets(cfg.targets@.take(t as int), lookups@.take(t as int), cfg.dns_resolve_all)
                == Ok::<Seq<(Seq<char>, A)>, Seq<char>>(target_views(infos@)),
    {
        let ghost targets1 = cfg.targets@.take(t + 1);
        let ghost lookups1 = lookups@.take(t + 1);
        proof {
            assert(targets1.take(t as int) =~= cfg.targets@.take(t as int));
            assert(lookups1.take(t as int) =~= lookups@.take(t as int));
        }
        match &lookups[t] {
            Err(e) => {
                let mut msg = String::from_str("failed to resolve target: ");
                msg.append(cfg.targets[t].as_str());
                msg.append(" (");
                msg.append(e.as_str());
                msg.append(")");
                proof {
                    lemma_resolved_error_stays(
                        cfg.targets@,
                        lookups@,
                        cfg.dns_resolve_all,
                        t + 1,
                        msg@,
                    );
                }
                return Err(msg);
            },
            Ok(addrs) => {
                push_target_infos(&mut infos, &cfg.targets[t], addrs, cfg.dns_resolve_all);
            },
        }
    }
    proof {
        assert(cfg.targets@.take(n as int) =~= cfg.targets@);
        assert(lookups@.take(n as int) =~= lookups@);
    }
    Ok(infos)
}

/// The trace identifier of the `i`-th tracer: the process id plus the index kept to 16 bits.
pub open spec fn tracer_identifier(pid: u16, i: int) -> int {
    pid + i % 65536
}

/// The trace identifiers of the tracers started for `count` targets; none of
/// them overflows.
pub fn tracer_identifiers(pid: u16, count: usize) -> (res: Vec<u16>)
    requires
        forall|i: int| 0 <= i < count ==> #[trigger] tracer_identifier(pid, i) <= u16::MAX,
    ensures
        res@.len() == count,
        forall|i: int| 0 <= i < count ==> #[trigger] res@[i] == tracer_identifier(pid, i),
{
    let mut ids: Vec<u16> = Vec::new();
    for i in 0..count
        invariant
            forall|i: int| 0 <= i < count ==> #[trigger] tracer_identifier(pid, i) <= u16::MAX,
            ids@.len() == i,
            forall|j: int| 0 <= j < i ==> #[trigger] ids@[j] == tracer_identifier(pid, j),
    {
        assert(tracer_identifier(pid, i as int) <= u16::MAX);
        let offset: u16 = (i % 65536) as u16;
        ids.push(pid + offset);
    }
    ids
}

/// Tracers started together get distinct trace identifiers, as long as there
/// are no more than 65536 of them.
pub proof fn lemma_identifiers_distinct(pid: u16, i: int, j: int)
    requires
        0 <= i < j < 65536,
    ensures
        tracer_identifier(pid, i) != tracer_identifier(pid, j),
{
}

/// Information about a trace needed for the TUI, stream and reports: the trace
/// data `data`, the addresses (of type `A`) and the settings it runs with.
#[derive(Clone, Debug)]
pub struct TraceInfo<D, A> {
    pub data: D,
    pub source_addr: A,
    pub target_hostname: String,
    pub target_addr: A,
    pub privilege_mode: PrivilegeMode,
    pub multipath_strategy: MultipathStrategy,
    pub port_direction: PortDirection,
    pub protocol: Protocol,
    pub first_ttl: u8,
    pub max_ttl: u8,
    pub grace_duration: TimeSpan,
    pub min_round_duration: TimeSpan,
    pub max_round_duration: TimeSpan,
    pub max_inflight: u8,
    pub initial_sequence: u16,
    pub icmp_extensions: IcmpExtensionParseMode,
    pub read_timeout: TimeSpan,
    pub packet_size: u16,
    pub payload_pattern: u8,
    pub interface: Option<String>,
    pub geoip_mmdb_file: Option<String>,
    pub dns_resolve_all: bool,
}

impl<D, A> TraceInfo<D, A> {
    /// The trace information made of the given parts.
    #[allow(clippy::too_many_arguments)]
    pub fn new(
        data: D,
        source_addr: A,
        target_hostname: String,
        target_addr: A,
        privilege_mode: PrivilegeMode,
        multipath_strategy: MultipathStrategy,
        port_direction: PortDirection,
        protocol: Protocol,
        first_ttl: u8,
        max_ttl: u8,
        grace_duration: TimeSpan,
        min_round_duration: TimeSpan,
        max_round_duration: TimeSpan,
        max_inflight: u8,
        initial_sequence: u16,
        icmp_extensions: IcmpExtensionParseMode,
        read_timeout: TimeSpan,
        packet_size: u16,
        payload_pattern: u8,
        interface: Option<String>,
        geoip_mmdb_file: Option<String>,
        dns_resolve_all: bool,
    ) -> (res: Self)
        ensures
            res == (TraceInfo {
                data,
                source_addr,
                target_hostname,
                target_addr,
                privilege_mode,
                multipath_strategy,
                port_direction,
                protocol,
                first_ttl,
                max_ttl,
                grace_duration,
                min_round_duration,
                max_round_duration,
                max_inflight,
                initial_sequence,
                icmp_extensions,
                read_timeout,
                packet_size,
                payload_pattern,
                interface,
                geoip_mmdb_file,
                dns_resolve_all,
            }),
    {
        TraceInfo {
            data,
            source_addr,
            target_hostname,
            target_addr,
            privilege_mode,
            multipath_strategy,
            port_direction,
            protocol,
            first_ttl,
            max_ttl,
            grace_duration,
            min_round_duration,
            max_round_duration,
            max_inflight,
            initial_sequence,
            icmp_extensions,
            read_timeout,
            packet_size,
            payload_pattern,
            interface,
            geoip_mmdb_file,
            dns_resolve_all,
        }
    }
}

fn clone_optional(s: &Option<String>) -> (res: Option<String>)
    ensures
        res == *s,
{
    match s {
        Some(v) => Some(v.clone()),
        None => None,
    }
}

/// Makes the information of a trace from the run's settings.
pub fn make_trace_info<D, A>(
    args: &TrippyConfig,
    trace_data: D,
    source_addr: A,
    target: String,
    target_addr: A,
) -> (res: TraceInfo<D, A>)
    ensures
        res == (TraceInfo {
            data: trace_data,
            source_addr,
            target_hostname: target,
            target_addr,
            privilege_mode: args.privilege_mode,
            multipath_strategy: args.multipath_strategy,
            port_direction: args.port_direction,
            protocol: args.protocol,
            first_ttl: args.first_ttl,
            max_ttl: args.max_ttl,
            grace_duration: args.grace_duration,
            min_round_duration: args.min_round_duration,
            max_round_duration: args.max_round_duration,
            max_inflight: args.max_inflight,
            initial_sequence: args.initial_sequence,
            icmp_extensions: args.icmp_extension_parse_mode,
            read_timeout: args.read_timeout,
            packet_size: args.packet_size,
            payload_pattern: args.payload_pattern,
            interface: args.interface,
            geoip_mmdb_file: args.geoip_mmdb_file,
            dns_resolve_all: args.dns_resolve_all,
        }),
{
    TraceInfo::new(
        trace_data,
        source_addr,
        target,
        target_addr,
        args.privilege_mode,
        args.multipath_strategy,
        args.port_direction,
        args.protocol,
        args.first_ttl,
        args.max_ttl,
        args.grace_duration,
        args.min_round_duration,
        args.max_round_duration,
        args.max_inflight,
        args.initial_sequence,
        args.icmp_extension_parse_mode,
        args.read_timeout,
        args.packet_size,
        args.payload_pattern,
        clone_optional(&args.interface),
        clone_optional(&args.geoip_mmdb_file),
        args.dns_resolve_all,
    )
}

/// The text listing the TUI theme color items.
pub open spec fn theme_items_text(variants: Seq<&str>) -> Seq<char> {
    "TUI theme color items: "@ + seq_join(str_views(variants), ", "@)
}

/// Lists the TUI theme color items, given the names of the items.
pub fn tui_theme_items(variants: &[&str]) -> (res: String)
    ensures
        res@ == theme_items_text(variants@),
{
    let joined = join_strs(variants, ", ");
    let mut s = String::from_str("TUI theme color items: ");
    s.append(joined.as_str());
    s
}

/// The text listing the TUI binding commands.
pub open spec fn binding_commands_text(variants: Seq<&str>) -> Seq<char> {
    "TUI binding commands: "@ + seq_join(str_views(variants), ", "@)
}

/// Lists the TUI binding commands, given the names of the commands.
pub fn tui_binding_commands(variants: &[&str]) -> (res: String)
    ensures
        res@ == binding_commands_text(variants@),
{
    let joined = join_strs(variants, ", ");
    let mut s = String::from_str("TUI binding commands: ");
    s.append(joined.as_str());
    s
}

/// Where a run stands: the step to take next, or how it ended.
#[derive(Clone, Debug)]
pub enum TrippyStage {
    ConfigureLogging,
    StartDnsResolver,
    CreateGeoIpLookup,
    ResolveTargets,
    StartTracers,
    DropPrivileges,
    RunFrontend,
    /// The run ended well.
    Finished,
    /// The run ended with this error.
    Failed(String),
}

/// How a step of a run went.
#[derive(Clone, Debug)]
pub enum StepOutcome {
    /// The step succeeded.
    Done,
    /// Resolving the targets succeeded with this many addresses to trace.
    Resolved(usize),
    /// The step failed with this error (as displayed).
    Error(String),
}

/// The step after a step that succeeded.
pub open spec fn following(stage: TrippyStage) -> TrippyStage {
    match stage {
        TrippyStage::ConfigureLogging => TrippyStage::StartDnsResolver,
        TrippyStage::StartDnsResolver => TrippyStage::CreateGeoIpLookup,
        TrippyStage::CreateGeoIpLookup => TrippyStage::ResolveTargets,
        TrippyStage::ResolveTargets => TrippyStage::StartTracers,
        TrippyStage::StartTracers => TrippyStage::DropPrivileges,
        TrippyStage::DropPrivileges => TrippyStage::RunFrontend,
        TrippyStage::RunFrontend => TrippyStage::Finished,
        other => other,
    }
}

/// Whether an outcome reports that resolving the targets gave no address.
pub open spec fn found_none(outcome: StepOutcome) -> bool {
    match outcome {
        StepOutcome::Resolved(n) => n == 0,
        StepOutcome::Done => true,
        StepOutcome::Error(_) => false,
    }
}

/// The error of a run whose targets gave no address.
pub open spec fn no_addresses_text(targets: Seq<String>, addr_family: Seq<char>) -> Seq<char> {
    "failed to find any valid IP addresses for "@ + seq_join(string_views(targets), ", "@)
        + " for address family "@ + addr_family
}

/// Whether `next` is the stage of a run after `stage` went as `outcome`: an
/// ended run stays ended; a failed step ends the run with its error; resolving
/// the targets to no address ends the run with that error; any other step that
/// succeeded moves on to the next step, in the order logging, DNS resolver,
/// GeoIp lookup, targets, tracers, privileges, frontend.
pub open spec fn is_next_stage(cfg: TrippyConfig, stage: TrippyStage, outcome: StepOutcome, next: TrippyStage) -> bool {
    match stage {
        TrippyStage::Finished => next is Finished,
        TrippyStage::Failed(e) => next matches TrippyStage::Failed(m) && m@ == e@,
        _ => match outcome {
            StepOutcome::Error(e) => next matches TrippyStage::Failed(m) && m@ == e@,
            _ => if stage is ResolveTargets && found_none(outcome) {
                next matches TrippyStage::Failed(m) && m@ == no_addresses_text(cfg.targets@, cfg.addr_family@)
            } else {
                next == following(stage)
            },
        },
    }
}

/// The tracers are started exactly when resolving the targets gave an address.
pub proof fn lemma_tracers_need_addresses(cfg: TrippyConfig, outcome: StepOutcome, next: TrippyStage)
    requires
        is_next_stage(cfg, TrippyStage::ResolveTargets, outcome, next),
    ensures
        (next is StartTracers) <==> (outcome matches StepOutcome::Resolved(n) && n > 0),
{
}

/// A run never skips a step: a run that has not ended moves to the next step or fails.
pub proof fn lemma_no_step_skipped(cfg: TrippyConfig, stage: TrippyStage, outcome: StepOutcome, next: TrippyStage)
    requires
        is_next_stage(cfg, stage, outcome, next),
        !(stage is Finished),
        !(stage is Failed),
    ensures
        next == following(stage) || next is Failed,
{
}

/// Takes a run one step further: the stage after `stage` went as `outcome`.
pub fn run_trippy(cfg: &TrippyConfig, stage: TrippyStage, outcome: StepOutcome) -> (res: TrippyStage)
    ensures
        is_next_stage(*cfg, stage, outcome, res),
{
    match stage {
        TrippyStage::Finished => TrippyStage::Finished,
        TrippyStage::Failed(e) => TrippyStage::Failed(e),
        _ => match outcome {
            StepOutcome::Error(e) => TrippyStage::Failed(e),
            StepOutcome::Resolved(n) if matches!(stage, TrippyStage::ResolveTargets) && n > 0 => {
                TrippyStage::StartTracers
            },
            _ => match stage {
                TrippyStage::ResolveTargets => {
                    let targets = join_strings(&cfg.targets, ", ");
                    let mut msg = String::from_str("failed to find any valid IP addresses for ");
                    msg.append(targets.as_str());
                    msg.append(" for address family ");
                    msg.append(cfg.addr_family.as_str());
                    TrippyStage::Failed(msg)
                },
                TrippyStage::ConfigureLogging => TrippyStage::StartDnsResolver,
                TrippyStage::StartDnsResolver => TrippyStage::CreateGeoIpLookup,
                TrippyStage::CreateGeoIpLookup => TrippyStage::ResolveTargets,
                TrippyStage::StartTracers => TrippyStage::DropPrivileges,
                TrippyStage::DropPrivileges => TrippyStage::RunFrontend,
                TrippyStage::RunFrontend => TrippyStage::Finished,
                other => other,
            },
        },
    }
}

} // verus!
