//! The table of hops: the status of a hop, the text of its cells, and how the
//! hostname cell presents the addresses seen at the hop.

use crate::dns::{dns_entry_text, format_dns_entry, AsInfo, DnsEntry, Resolved, Unresolved};
use crate::frontend::{AddressMode, GeoIpMode, TuiColor, TuiConfig};
use crate::geoip::GeoIpCity;
use crate::text::{
    decimal, format_decimal, itertools_join, join_strings, push_decimal, seq_join, string_views,
};
use vstd::prelude::*;
use vstd::string::*;

verus! {

/// The status light of a hop in the table.
#[derive(Clone, Copy, Debug, PartialEq, Eq)]
pub enum HopStatus {
    /// The target, and every probe was lost.
    TargetAllLost,
    /// The target, and some probes were lost.
    TargetSomeLost,
    /// Not the target, and every probe was lost.
    AllLost,
    /// Not the target, and some probes were lost.
    SomeLost,
    /// No probe was lost.
    Healthy,
}

/// The status of a hop from the probes sent and answered and whether it is the target.
pub open spec fn hop_status(total_sent: nat, total_recv: nat, is_target: bool) -> HopStatus {
    let lost = total_sent - total_recv;
    if is_target && lost == total_sent {
        HopStatus::TargetAllLost
    } else if is_target && lost > 0 {
        HopStatus::TargetSomeLost
    } else if !is_target && lost == total_sent {
        HopStatus::AllLost
    } else if !is_target && lost > 0 {
        HopStatus::SomeLost
    } else {
        HopStatus::Healthy
    }
}

impl HopStatus {
    /// The symbol shown in the status column.
    pub open spec fn spec_symbol(self) -> Seq<char> {
        match self {
            HopStatus::TargetAllLost => "🔴"@,
            HopStatus::TargetSomeLost => "🟡"@,
            HopStatus::AllLost => "🟤"@,
            HopStatus::SomeLost => "🔵"@,
            HopStatus::Healthy => "🟢"@,
        }
    }

    /// The symbol shown in the status column.
    pub fn symbol(&self) -> (res: &'static str)
        ensures
            res@ == self.spec_symbol(),
    {
        match self {
            HopStatus::TargetAllLost => "🔴",
            HopStatus::TargetSomeLost => "🟡",
            HopStatus::AllLost => "🟤",
            HopStatus::SomeLost => "🔵",
            HopStatus::Healthy => "🟢",
        }
    }
}

/// A hop is shown healthy exactly when probes were sent and all were
/// answered; the target statuses are given to the target only, the others
/// only to the other hops.
pub proof fn lemma_status_meaning(total_sent: nat, total_recv: nat, is_target: bool)
    requires
        total_recv <= total_sent,
    ensures
        (hop_status(total_sent, total_recv, is_target) is Healthy) <==> (total_recv == total_sent && total_sent
            > 0),
        (hop_status(total_sent, total_recv, is_target) is TargetAllLost) <==> (is_target && total_recv == 0),
        (hop_status(total_sent, total_recv, is_target) is AllLost) <==> (!is_target && total_recv == 0),
        (hop_status(total_sent, total_recv, is_target) is TargetSomeLost) <==> (is_target && 0 < total_recv
            < total_sent),
        (hop_status(total_sent, total_recv, is_target) is SomeLost) <==> (!is_target && 0 < total_recv
            < total_sent),
{
}

/// What the table reads of a hop: its time-to-live, the probes sent and
/// answered, and each address seen at the hop (its text) with how often it answered.
#[derive(Clone, Debug)]
pub struct Hop {
    pub ttl: u8,
    pub total_sent: usize,
    pub total_recv: usize,
    pub addrs: Vec<(String, usize)>,
}

/// The status of a hop; the probes answered never exceed the probes sent.
pub fn render_status_cell(hop: &Hop, is_target: bool) -> (res: HopStatus)
    requires
        hop.total_recv <= hop.total_sent,
    ensures
        res == hop_status(hop.total_sent as nat, hop.total_recv as nat, is_target),
{
    let lost = hop.total_sent - hop.total_recv;
    if is_target && lost == hop.total_sent {
        HopStatus::TargetAllLost
    } else if is_target && lost > 0 {
        HopStatus::TargetSomeLost
    } else if !is_target && lost == hop.total_sent {
        HopStatus::AllLost
    } else if !is_target && lost > 0 {
        HopStatus::SomeLost
    } else {
        HopStatus::Healthy
    }
}

/// The time-to-live cell.
pub fn render_ttl_cell(hop: &Hop) -> (res: String)
    ensures
        res@ == decimal(hop.ttl as nat),
{
    format_decimal(hop.ttl as u128)
}

/// The probes-sent cell.
pub fn render_total_sent_cell(hop: &Hop) -> (res: String)
    ensures
        res@ == decimal(hop.total_sent as nat),
{
    format_decimal(hop.total_sent as u128)
}

/// The probes-answered cell.
pub fn render_total_recv_cell(hop: &Hop) -> (res: String)
    ensures
        res@ == decimal(hop.total_recv as nat),
{
    format_decimal(hop.total_recv as u128)
}

/// The two autonomous-system lines of the hop details.
pub open spec fn as_details_text(lookup_as_info: bool, asinfo: Option<AsInfo>) -> Seq<char> {
    if !lookup_as_info {
        "AS Name: <not enabled>\nAS Info: <not enabled>"@
    } else {
        match asinfo {
            None => "AS Name: <awaited>\nAS Info: <awaited>"@,
            Some(info) => if info.asn@.len() == 0 {
                "AS Name: <not found>\nAS Info: <not found>"@
            } else {
                "AS Name: AS"@ + info.asn@ + " "@ + info.name@ + "\nAS Info: "@ + info.prefix@ + " "@
                    + info.registry@ + " "@ + info.allocated@
            },
        }
    }
}

/// The host line of the hop details.
pub open spec fn hosts_details_text(hostnames: Option<Seq<Seq<char>>>) -> Seq<char> {
    match hostnames {
        None => "Host: <awaited>"@,
        Some(hosts) => if hosts.len() == 0 {
            "Host: <not found>"@
        } else {
            "Host: "@ + seq_join(hosts, " "@)
        },
    }
}

/// The views of the hostnames, where there are any.
pub open spec fn host_views(hostnames: Option<Vec<String>>) -> Option<Seq<Seq<char>>> {
    match hostnames {
        Some(hosts) => Some(string_views(hosts@)),
        None => None,
    }
}

/// The position of a city: latitude, longitude and radius, zero where unknown.
pub open spec fn coordinates_text(coordinates: Option<(String, String, u16)>) -> Seq<char> {
    match coordinates {
        Some((lat, long, radius)) => lat@ + ", "@ + long@ + " (~"@ + decimal(radius as nat) + "km)"@,
        None => "0, 0 (~0km)"@,
    }
}

/// The two GeoIp lines of the hop details.
pub open spec fn geo_details_text(geoip: Option<GeoIpCity>) -> Seq<char> {
    match geoip {
        None => "Geo: <not found>\nPos: <not found>"@,
        Some(geo) => "Geo: "@ + geo.long_name@ + "\nPos: "@ + coordinates_text(geo.coordinates),
    }
}

/// The hop details of one address: the address with its place among the
/// addresses of the hop, then its host, autonomous system and GeoIp lines.
pub open spec fn details_text(
    addr: Seq<char>,
    index: nat,
    count: nat,
    hostnames: Option<Seq<Seq<char>>>,
    asinfo: Option<AsInfo>,
    geoip: Option<GeoIpCity>,
    lookup_as_info: bool,
) -> Seq<char> {
    addr + " ["@ + decimal(index) + " of "@ + decimal(count) + "]\n"@ + hosts_details_text(hostnames)
        + "\n"@ + as_details_text(lookup_as_info, asinfo) + "\n"@ + geo_details_text(geoip)
}

fn format_as_details(lookup_as_info: bool, asinfo: &Option<AsInfo>) -> (res: String)
    ensures
        res@ == as_details_text(lookup_as_info, *asinfo),
{
    if !lookup_as_info {
        String::from_str("AS Name: <not enabled>\nAS Info: <not enabled>")
    } else {
        match asinfo {
            None => String::from_str("AS Name: <awaited>\nAS Info: <awaited>"),
            Some(info) => {
                if info.asn.as_str().is_empty() {
                    String::from_str("AS Name: <not found>\nAS Info: <not found>")
                } else {
                    let mut s = String::from_str("AS Name: AS");
                    s.append(info.asn.as_str());
                    s.append(" ");
                    s.append(info.name.as_str());
                    s.append("\nAS Info: ");
                    s.append(info.prefix.as_str());
                    s.append(" ");
                    s.append(info.registry.as_str());
                    s.append(" ");
                    s.append(info.allocated.as_str());
                    s
                }
            },
        }
    }
}

fn format_hosts_details(hostnames: &Option<Vec<String>>) -> (res: String)
    ensures
        res@ == hosts_details_text(host_views(*hostnames)),
{
    match hostnames {
        None => String::from_str("Host: <awaited>"),
        Some(hosts) => {
            if hosts.len() == 0 {
                String::from_str("Host: <not found>")
            } else {
                let joined = join_strings(hosts, " ");
                let mut s = String::from_str("Host: ");
                s.append(joined.as_str());
                s
            }
        },
    }
}

fn format_geo_details(geoip: &Option<GeoIpCity>) -> (res: String)
    ensures
        res@ == geo_details_text(*geoip),
{
    match geoip {
        None => String::from_str("Geo: <not found>\nPos: <not found>"),
        Some(geo) => {
            let mut s = String::from_str("Geo: ");
            s.append(geo.long_name.as_str());
            s.append("\nPos: ");
            match &geo.coordinates {
                Some((lat, long, radius)) => {
                    s.append(lat.as_str());
                    s.append(", ");
                    s.append(long.as_str());
                    s.append(" (~");
                    push_decimal(&mut s, *radius as u128);
                    s.append("km)");
                },
                None => {
                    s.append("0, 0 (~0km)");
                },
            }
            s
        },
    }
}

/// Formats the hop details of one address (the `index`-th of `count`).
pub fn fmt_details_line(
    addr: &String,
    index: usize,
    count: usize,
    hostnames: Option<Vec<String>>,
    asinfo: Option<AsInfo>,
    geoip: Option<GeoIpCity>,
    config: &TuiConfig,
) -> (res: String)
    ensures
        res@ == details_text(
            addr@,
            index as nat,
            count as nat,
            host_views(hostnames),
            asinfo,
            geoip,
            config.lookup_as_info,
        ),
{
    let as_formatted = format_as_details(config.lookup_as_info, &asinfo);
    let hosts_rendered = format_hosts_details(&hostnames);
    let geoip_formatted = format_geo_details(&geoip);
    let mut s = addr.clone();
    s.append(" [");
    push_decimal(&mut s, index as u128);
    s.append(" of ");
    push_decimal(&mut s, count as u128);
    s.append("]\n");
    s.append(hosts_rendered.as_str());
    s.append("\n");
    s.append(as_formatted.as_str());
    s.append("\n");
    s.append(geoip_formatted.as_str());
    s
}

/// The hop details at `offset` among the addresses of the hop, from the lookup of that address.
pub open spec fn format_details_text(
    hop: Hop,
    offset: nat,
    dns_entry: Option<DnsEntry>,
    geoip: Option<GeoIpCity>,
    lookup_as_info: bool,
) -> Seq<char> {
    if offset >= hop.addrs@.len() {
        "Error: no addr for index "@ + decimal(offset)
    } else {
        let count = hop.addrs@.len();
        let index = offset + 1;
        match dns_entry.unwrap() {
            DnsEntry::Pending(addr) => details_text(addr@, index, count, None, None, geoip, lookup_as_info),
            DnsEntry::Resolved(Resolved::WithAsInfo(addr, hosts, info)) => details_text(
                addr@,
                index,
                count,
                Some(string_views(hosts@)),
                Some(info),
                geoip,
                lookup_as_info,
            ),
            DnsEntry::NotFound(Unresolved::WithAsInfo(addr, info)) => details_text(
                addr@,
                index,
                count,
                Some(Seq::empty()),
                Some(info),
                geoip,
                lookup_as_info,
            ),
            DnsEntry::Resolved(Resolved::Normal(addr, hosts)) => details_text(
                addr@,
                index,
                count,
                Some(string_views(hosts@)),
                None,
                geoip,
                lookup_as_info,
            ),
            DnsEntry::NotFound(Unresolved::Normal(addr)) => details_text(
                addr@,
                index,
                count,
                Some(Seq::empty()),
                None,
                geoip,
                lookup_as_info,
            ),
            DnsEntry::Failed(ip) => "Failed: "@ + ip@,
            DnsEntry::Timeout(ip) => "Timeout: "@ + ip@,
        }
    }
}

/// Formats the details of the address at `offset` among the addresses of the hop;
/// `dns_entry` and `geoip` are the lookups of that address, made where it exists.
pub fn format_details(
    hop: &Hop,
    offset: usize,
    dns_entry: Option<DnsEntry>,
    geoip: Option<GeoIpCity>,
    config: &TuiConfig,
) -> (res: String)
    requires
        offset < hop.addrs@.len() ==> dns_entry is Some,
    ensures
        res@ == format_details_text(*hop, offset as nat, dns_entry, geoip, config.lookup_as_info),
{
    if offset >= hop.addrs.len() {
        let mut s = String::from_str("Error: no addr for index ");
        push_decimal(&mut s, offset as u128);
        return s;
    }
    let count = hop.addrs.len();
    let index = offset + 1;
    match dns_entry {
        Some(DnsEntry::Pending(addr)) => fmt_details_line(&addr, index, count, None, None, geoip, config),
        Some(DnsEntry::Resolved(Resolved::WithAsInfo(addr, hosts, asinfo))) => {
            fmt_details_line(&addr, index, count, Some(hosts), Some(asinfo), geoip, config)
        },
        Some(DnsEntry::NotFound(Unresolved::WithAsInfo(addr, asinfo))) => {
            fmt_details_line(&addr, index, count, Some(Vec::new()), Some(asinfo), geoip, config)
        },
        Some(DnsEntry::Resolved(Resolved::Normal(addr, hosts))) => {
            fmt_details_line(&addr, index, count, Some(hosts), None, geoip, config)
        },
        Some(DnsEntry::NotFound(Unresolved::Normal(addr))) => {
            fmt_details_line(&addr, index, count, Some(Vec::new()), None, geoip, config)
        },
        Some(DnsEntry::Failed(ip)) => {
            let mut s = String::from_str("Failed: ");
            s.append(ip.as_str());
            s
        },
        Some(DnsEntry::Timeout(ip)) => {
            let mut s = String::from_str("Timeout: ");
            s.append(ip.as_str());
            s
        },
        None => String::new(),
    }
}

/// The address as the address mode shows it, from its text and its reverse lookup.
pub open spec fn address_text(addr: Seq<char>, dns_entry: Option<DnsEntry>, config: TuiConfig) -> Seq<char> {
    match config.address_mode {
        AddressMode::IP => addr,
        AddressMode::Host => dns_entry_text(dns_entry.unwrap(), config.lookup_as_info, config.as_mode),
        AddressMode::Both => dns_entry_text(dns_entry.unwrap(), config.lookup_as_info, config.as_mode)
            + " ("@ + addr + ")"@,
    }
}

/// The GeoIp text that the GeoIp mode shows, if any.
pub open spec fn geo_text(geoip: Option<GeoIpCity>, mode: GeoIpMode) -> Option<Seq<char>> {
    match (mode, geoip) {
        (GeoIpMode::Short, Some(geo)) => Some(geo.short_name@),
        (GeoIpMode::Long, Some(geo)) => Some(geo.long_name@),
        (GeoIpMode::Location, Some(geo)) => Some(geo.location@),
        _ => None,
    }
}

/// An address as the hostname cell shows it: the address, its GeoIp text in
/// brackets, and, where the hop has several addresses, its share of the replies.
pub open spec fn formatted_address(
    addr: Seq<char>,
    share: Seq<char>,
    addr_count: nat,
    dns_entry: Option<DnsEntry>,
    geoip: Option<GeoIpCity>,
    config: TuiConfig,
) -> Seq<char> {
    let text = address_text(addr, dns_entry, config);
    match geo_text(geoip, config.geoip_mode) {
        Some(geo) => if addr_count > 1 {
            text + " ["@ + geo + "] ["@ + share + "%]"@
        } else {
            text + " ["@ + geo + "]"@
        },
        None => if addr_count > 1 {
            text + " ["@ + share + "%]"@
        } else {
            text
        },
    }
}

/// Formats an address of the hop for the hostname cell. `share` is the
/// address's share of the replies in percent, written with one decimal;
/// `dns_entry` is its reverse lookup (of the kind `config.dns_lookup()` names),
/// made unless the address mode shows IP addresses only; `geoip` its GeoIp lookup.
pub fn format_address(
    addr: &String,
    share: &String,
    hop: &Hop,
    dns_entry: &Option<DnsEntry>,
    geoip: &Option<GeoIpCity>,
    config: &TuiConfig,
) -> (res: String)
    requires
        config.address_mode != AddressMode::IP ==> dns_entry is Some,
    ensures
        res@ == formatted_address(addr@, share@, hop.addrs@.len() as nat, *dns_entry, *geoip, *config),
{
    let mut text = match config.address_mode {
        AddressMode::IP => addr.clone(),
        AddressMode::Host => {
            let entry = dns_entry.as_ref().unwrap();
            format_dns_entry(entry, config.lookup_as_info, config.as_mode)
        },
        AddressMode::Both => {
            let entry = dns_entry.as_ref().unwrap();
            let mut hostname = format_dns_entry(entry, config.lookup_as_info, config.as_mode);
            hostname.append(" (");
            hostname.append(addr.as_str());
            hostname.append(")");
            hostname
        },
    };
    let geo: Option<&String> = match (config.geoip_mode, geoip) {
        (GeoIpMode::Short, Some(g)) => Some(&g.short_name),
        (GeoIpMode::Long, Some(g)) => Some(&g.long_name),
        (GeoIpMode::Location, Some(g)) => Some(&g.location),
        _ => None,
    };
    let several = hop.addrs.len() > 1;
    match geo {
        Some(g) => {
            text.append(" [");
            text.append(g.as_str());
            if several {
                text.append("] [");
                text.append(share.as_str());
                text.append("%]");
            } else {
                text.append("]");
            }
        },
        None => {
            if several {
                text.append(" [");
                text.append(share.as_str());
                text.append("%]");
            }
        },
    }
    text
}

/// Whether the hop is hidden: private hops are hidden and the hop lies within
/// the privacy time-to-live.
pub open spec fn is_hidden(hide_private_hops: bool, config: TuiConfig, hop: Hop) -> bool {
    hide_private_hops && config.privacy_max_ttl >= hop.ttl
}

/// Whether the hop is hidden from view.
pub fn is_hidden_hop(hide_private_hops: bool, config: &TuiConfig, hop: &Hop) -> (res: bool)
    ensures
        res == is_hidden(hide_private_hops, *config, *hop),
        res == (hide_private_hops && hop.ttl <= config.privacy_max_ttl),
{
    hide_private_hops && config.privacy_max_ttl >= hop.ttl
}

/// The text of the hostname cell in detailed mode.
pub open spec fn details_cell_text(
    hide_private_hops: bool,
    config: TuiConfig,
    hop: Hop,
    details: Seq<char>,
) -> Seq<char> {
    if hop.total_recv > 0 {
        if is_hidden(hide_private_hops, config, hop) {
            "**Hidden**"@
        } else {
            details
        }
    } else {
        "No response"@
    }
}

/// The hostname cell in detailed mode, which is six rows high; `details` is the
/// formatted details of the selected address, read only where the hop answered
/// and is not hidden.
pub fn render_hostname_with_details(
    hide_private_hops: bool,
    config: &TuiConfig,
    hop: &Hop,
    details: &String,
) -> (res: (String, u16))
    ensures
        res.1 == 6,
        res.0@ == details_cell_text(hide_private_hops, *config, *hop, details@),
{
    let rendered = if hop.total_recv > 0 {
        if is_hidden_hop(hide_private_hops, config, hop) {
            String::from_str("**Hidden**")
        } else {
            details.clone()
        }
    } else {
        String::from_str("No response")
    };
    (rendered, 6)
}

/// Sorts `(index, count)` pairs by count: calls
/// `itertools::Itertools::sorted_unstable_by_key` with the count as key and
/// collects the result. The contract takes the result to hold the same pairs
/// (as a multiset) in ascending order of count; the order of pairs with equal
/// counts is left unsaid, as the sort is unstable.
#[verifier::external_body]
fn sorted_by_count(items: Vec<(usize, usize)>) -> (res: Vec<(usize, usize)>)
    ensures
        res@.to_multiset() == items@.to_multiset(),
        forall|i: int, j: int| 0 <= i <= j < res@.len() ==> res@[i].1 <= res@[j].1,
{
    itertools::Itertools::sorted_unstable_by_key(items.into_iter(), |item| item.1).collect()
}

/// How many addresses the hostname cell shows at most.
pub open spec fn shown_len(max_addrs: nat, n: nat) -> nat {
    if max_addrs < n {
        max_addrs
    } else {
        n
    }
}

/// Whether `order` (indices into the addresses of a hop) lists the most
/// frequent addresses, at most `max_addrs` of them, from the most frequent down.
pub open spec fn is_display_order(addrs: Seq<(String, usize)>, max_addrs: nat, order: Seq<usize>) -> bool {
    &&& order.len() == shown_len(max_addrs, addrs.len())
    &&& order.no_duplicates()
    &&& forall|i: int| 0 <= i < order.len() ==> order[i] < addrs.len()
    &&& forall|i: int, j: int|
        #![trigger order[i], order[j]]
        0 <= i < j < order.len() ==> addrs[order[j] as int].1 <= addrs[order[i] as int].1
    &&& forall|k: int, i: int|
        #![trigger addrs[k], order[i]]
        0 <= k < addrs.len() && !order.contains(k as usize) && 0 <= i < order.len()
            ==> addrs[k].1 <= addrs[order[i] as int].1
}

/// Where the cell may show as many addresses as the hop has, it shows all of them.
pub proof fn lemma_display_order_shows_all(addrs: Seq<(String, usize)>, max_addrs: nat, order: Seq<usize>)
    requires
        addrs.len() <= usize::MAX,
        is_display_order(addrs, max_addrs, order),
        max_addrs >= addrs.len(),
    ensures
        forall|k: usize| k < addrs.len() ==> #[trigger] order.contains(k),
{
    let n = addrs.len();
    assert forall|k: usize| k < n implies #[trigger] order.contains(k) by {
        if !order.contains(k) {
            // `order` holds n distinct indices below n, all but k: too many.
            let others = indices_except(n, k);
            lemma_bounded_set_len(n, k);
            assert forall|x: usize| order.to_set().contains(x) implies others.contains(x) by {
                assert(order.contains(x));
                let i = choose|i: int| 0 <= i < order.len() && order[i] == x;
                assert(order[i] < n);
            }
            assert(order.to_set().subset_of(others));
            order.unique_seq_to_set();
            vstd::set_lib::lemma_len_subset(order.to_set(), others);
            assert(false);
        }
    }
}

spec fn indices_below(n: nat) -> Set<usize> {
    Set::new(|x: usize| x < n)
}

spec fn indices_except(n: nat, k: usize) -> Set<usize> {
    Set::new(|x: usize| x < n && x != k)
}

proof fn lemma_bounded_set_len(n: nat, k: usize)
    requires
        k < n,
        n <= usize::MAX + 1,
    ensures
        indices_except(n, k).finite(),
        indices_except(n, k).len() == n - 1,
{
    lemma_prefix_set_len(n);
    assert(indices_except(n, k) =~= indices_below(n).remove(k));
}

proof fn lemma_prefix_set_len(n: nat)
    requires
        n <= usize::MAX + 1,
    ensures
        indices_below(n).finite(),
        indices_below(n).len() == n,
    decreases n,
{
    if n == 0 {
        assert(indices_below(n) =~= Set::empty());
    } else {
        lemma_prefix_set_len((n - 1) as nat);
        assert(indices_below(n) =~= indices_below((n - 1) as nat).insert((n - 1) as usize));
    }
}

/// The pairs of index and count of the addresses, in order.
pub open spec fn indexed_counts(addrs: Seq<(String, usize)>) -> Seq<(usize, usize)> {
    Seq::new(addrs.len(), |i: int| (i as usize, addrs[i].1))
}

proof fn lemma_sorted_pairs(addrs: Seq<(String, usize)>, sorted: Seq<(usize, usize)>)
    requires
        addrs.len() <= usize::MAX,
        sorted.to_multiset() == indexed_counts(addrs).to_multiset(),
    ensures
        sorted.len() == addrs.len(),
        forall|p: int|
            #![trigger sorted[p]]
            0 <= p < sorted.len() ==> sorted[p].0 < addrs.len() && sorted[p].1 == addrs[sorted[p].0 as int].1,
        forall|p: int, q: int|
            #![trigger sorted[p], sorted[q]]
            0 <= p < sorted.len() && 0 <= q < sorted.len() && p != q ==> sorted[p].0 != sorted[q].0,
        forall|k: int|
            #![trigger addrs[k]]
            0 <= k < addrs.len() ==> sorted.contains((k as usize, addrs[k].1)),
{
    broadcast use vstd::seq_lib::group_to_multiset_ensures;

    let items = indexed_counts(addrs);
    assert(items.no_duplicates());
    items.lemma_multiset_has_no_duplicates();
    assert(sorted.len() == items.len()) by {
        vstd::seq_lib::to_multiset_len(sorted);
        vstd::seq_lib::to_multiset_len(items);
    }
    assert forall|p: int| 0 <= p < sorted.len() implies #[trigger] items.contains(sorted[p]) by {
        vstd::seq_lib::to_multiset_contains(sorted, sorted[p]);
        vstd::seq_lib::to_multiset_contains(items, sorted[p]);
    }
    assert forall|p: int|
        #![trigger sorted[p]]
        0 <= p < sorted.len() implies sorted[p].0 < addrs.len() && sorted[p].1 == addrs[sorted[p].0 as int].1 by {
        assert(items.contains(sorted[p]));
        let j = choose|j: int| 0 <= j < items.len() && items[j] == sorted[p];
        assert(items[j] == (j as usize, addrs[j].1));
    }
    assert forall|x: (usize, usize)| sorted.to_multiset().contains(x) implies sorted.to_multiset().count(x)
        == 1 by {
        assert(items.to_multiset().contains(x));
    }
    sorted.lemma_multiset_has_no_duplicates_conv();
    assert forall|p: int, q: int|
        #![trigger sorted[p], sorted[q]]
        0 <= p < sorted.len() && 0 <= q < sorted.len() && p != q implies sorted[p].0 != sorted[q].0 by {
        if sorted[p].0 == sorted[q].0 {
            assert(sorted[p] == sorted[q]);
        }
    }
    assert forall|k: int|
        #![trigger addrs[k]]
        0 <= k < addrs.len() implies sorted.contains((k as usize, addrs[k].1)) by {
        assert(items[k] == (k as usize, addrs[k].1));
        assert(items.contains(items[k]));
        vstd::seq_lib::to_multiset_contains(items, items[k]);
        vstd::seq_lib::to_multiset_contains(sorted, items[k]);
    }
}

/// The indices of the addresses that the hostname cell shows when it shows at
/// most `max_addrs` of them: the most frequent first.
pub fn shown_addresses(hop: &Hop, max_addrs: u8) -> (res: Vec<usize>)
    ensures
        is_display_order(hop.addrs@, max_addrs as nat, res@),
{
    let n = hop.addrs.len();
    let mut items: Vec<(usize, usize)> = Vec::new();
    for i in 0..n
        invariant
            n == hop.addrs@.len(),
            items@ =~= indexed_counts(hop.addrs@).take(i as int),
    {
        items.push((i, hop.addrs[i].1));
    }
    assert(items@ =~= indexed_counts(hop.addrs@));
    let sorted = sorted_by_count(items);
    proof {
        lemma_sorted_pairs(hop.addrs@, sorted@);
    }
    let m: usize = if (max_addrs as usize) < n {
        max_addrs as usize
    } else {
        n
    };
    let mut order: Vec<usize> = Vec::new();
    let mut k: usize = 0;
    while k < m
        invariant
            m <= n,
            n == hop.addrs@.len(),
            n == sorted@.len(),
            k <= m,
            order@.len() == k,
            forall|j: int| 0 <= j < k ==> order@[j] == sorted@[n - 1 - j].0,
        decreases m - k,
    {
        order.push(sorted[n - 1 - k].0);
        k = k + 1;
    }
    proof {
        let addrs = hop.addrs@;
        let s = sorted@;
        let o = order@;
        assert forall|i: int, j: int| 0 <= i < o.len() && 0 <= j < o.len() && i != j implies o[i] != o[j] by {
            assert(s[n - 1 - i].0 != s[n - 1 - j].0);
        }
        assert forall|i: int| 0 <= i < o.len() implies o[i] < addrs.len() by {
            assert(s[n - 1 - i].0 < addrs.len());
        }
        assert forall|i: int, j: int|
            #![trigger o[i], o[j]]
            0 <= i < j < o.len() implies addrs[o[j] as int].1 <= addrs[o[i] as int].1 by {
            assert(s[n - 1 - j].1 <= s[n - 1 - i].1);
            assert(s[n - 1 - i].1 == addrs[s[n - 1 - i].0 as int].1);
            assert(s[n - 1 - j].1 == addrs[s[n - 1 - j].0 as int].1);
        }
        assert forall|kk: int, i: int|
            #![trigger addrs[kk], o[i]]
            0 <= kk < addrs.len() && !o.contains(kk as usize) && 0 <= i < o.len()
                implies addrs[kk].1 <= addrs[o[i] as int].1 by {
            assert(s.contains((kk as usize, addrs[kk].1)));
            let p = choose|p: int| 0 <= p < s.len() && s[p] == (kk as usize, addrs[kk].1);
            if p >= n - m {
                let j = n - 1 - p;
                assert(o[j] == s[p].0);
                assert(o.contains(kk as usize));
            }
            assert(s[p].1 <= s[n - 1 - i].1);
            assert(s[p].1 == addrs[s[p].0 as int].1);
            assert(s[n - 1 - i].1 == addrs[s[n - 1 - i].0 as int].1);
        }
    }
    order
}

/// `n` kept within `lo..=hi`.
pub open spec fn clamp(n: nat, lo: nat, hi: nat) -> nat {
    if n < lo {
        lo
    } else if n > hi {
        hi
    } else {
        n
    }
}

/// The texts at the given indices, in that order.
pub open spec fn texts_in_order(texts: Seq<String>, order: Seq<usize>) -> Seq<Seq<char>> {
    order.map_values(|i: usize| texts[i as int]@)
}

/// Whether `cell` (text and height in rows) is the hostname cell of the hop in
/// normal mode, where `texts[i]` is the formatted `i`-th address of the hop:
/// hidden hops and hops without replies take one row; otherwise all addresses
/// in the order they were seen, or the `max_addrs` most frequent ones.
pub open spec fn is_hostname_cell(
    hide_private_hops: bool,
    config: TuiConfig,
    hop: Hop,
    texts: Seq<String>,
    cell: (Seq<char>, u16),
) -> bool {
    if hop.total_recv > 0 {
        if is_hidden(hide_private_hops, config, hop) {
            cell.0 == "**Hidden**"@ && cell.1 == 1
        } else {
            match config.max_addrs {
                None => {
                    &&& cell.0 == seq_join(string_views(texts), "\n"@)
                    &&& cell.1 == clamp(hop.addrs@.len() as nat, 1, 255)
                },
                Some(m) => {
                    &&& exists|order: Seq<usize>|
                        is_display_order(hop.addrs@, m as nat, order) && cell.0 == seq_join(
                            texts_in_order(texts, order),
                            "\n"@,
                        )
                    &&& cell.1 == clamp(hop.addrs@.len() as nat, 1, m as nat)
                },
            }
        }
    } else {
        cell.0 == "No response"@ && cell.1 == 1
    }
}

fn clamped_count(n: usize, hi: u8) -> (res: u16)
    requires
        hi >= 1,
    ensures
        res == clamp(n as nat, 1, hi as nat),
{
    if n < 1 {
        1
    } else if n > hi as usize {
        hi as u16
    } else {
        n as u16
    }
}

/// Whether the hostname cell of the hop shows addresses at all: the hop
/// answered and is not hidden.
pub open spec fn shows_addresses(hide_private_hops: bool, config: TuiConfig, hop: Hop) -> bool {
    hop.total_recv > 0 && !is_hidden(hide_private_hops, config, hop)
}

/// Whether `order` lists the addresses (by index) that the hostname cell of
/// the hop shows in normal mode, in the order shown: none where no address is
/// shown; otherwise every address in the order seen, or the `max_addrs` most
/// frequent ones from the most frequent down.
pub open spec fn is_hostname_order(
    hide_private_hops: bool,
    config: TuiConfig,
    hop: Hop,
    order: Seq<usize>,
) -> bool {
    if shows_addresses(hide_private_hops, config, hop) {
        match config.max_addrs {
            None => order == Seq::new(hop.addrs@.len(), |i: int| i as usize),
            Some(m) => is_display_order(hop.addrs@, m as nat, order),
        }
    } else {
        order.len() == 0
    }
}

/// The addresses (by index) whose formatted text the hostname cell shows in
/// normal mode, in the order shown. Only these need a reverse lookup.
pub fn hostname_addresses(hide_private_hops: bool, config: &TuiConfig, hop: &Hop) -> (res: Vec<usize>)
    ensures
        is_hostname_order(hide_private_hops, *config, *hop, res@),
        forall|i: int| 0 <= i < res@.len() ==> res@[i] < hop.addrs@.len(),
{
    if hop.total_recv > 0 && !is_hidden_hop(hide_private_hops, config, hop) {
        match config.max_addrs {
            None => {
                let n = hop.addrs.len();
                let mut order: Vec<usize> = Vec::new();
                for i in 0..n
                    invariant
                        n == hop.addrs@.len(),
                        order@ =~= Seq::new(i as nat, |k: int| k as usize),
                {
                    order.push(i);
                }
                order
            },
            Some(max_addr) => shown_addresses(hop, max_addr),
        }
    } else {
        Vec::new()
    }
}

/// Whether `cell` (text and height in rows) is the hostname cell of the hop in
/// normal mode, where `shown` holds the texts of the addresses that
/// `hostname_addresses` lists, in that order.
pub open spec fn is_hostname_lines_cell(
    hide_private_hops: bool,
    config: TuiConfig,
    hop: Hop,
    shown: Seq<Seq<char>>,
    cell: (Seq<char>, u16),
) -> bool {
    if hop.total_recv > 0 {
        if is_hidden(hide_private_hops, config, hop) {
            cell.0 == "**Hidden**"@ && cell.1 == 1
        } else {
            &&& cell.0 == seq_join(shown, "\n"@)
            &&& cell.1 == match config.max_addrs {
                None => clamp(hop.addrs@.len() as nat, 1, 255),
                Some(m) => clamp(hop.addrs@.len() as nat, 1, m as nat),
            }
        }
    } else {
        cell.0 == "No response"@ && cell.1 == 1
    }
}

/// The hostname cell in normal mode and its height in rows, from the texts of
/// the shown addresses: `shown[i]` is the formatted text of the address that
/// `hostname_addresses` lists at `i`. A limit of zero addresses is refused (as
/// by `clamp`) only where addresses are shown.
pub fn render_hostname_lines(
    hide_private_hops: bool,
    config: &TuiConfig,
    hop: &Hop,
    shown: &Vec<String>,
) -> (res: (String, u16))
    requires
        config.max_addrs == Some(0u8) ==> !shows_addresses(hide_private_hops, *config, *hop),
    ensures
        is_hostname_lines_cell(hide_private_hops, *config, *hop, string_views(shown@), (res.0@, res.1)),
{
    if hop.total_recv > 0 {
        if is_hidden_hop(hide_private_hops, config, hop) {
            (String::from_str("**Hidden**"), 1)
        } else {
            let hostnames = itertools_join(shown, "\n");
            let height = match config.max_addrs {
                None => clamped_count(hop.addrs.len(), 255),
                Some(max_addr) => clamped_count(hop.addrs.len(), max_addr),
            };
            (hostnames, height)
        }
    } else {
        (String::from_str("No response"), 1)
    }
}

/// The texts of the addresses listed in `order`, in that order.
fn texts_at(texts: &Vec<String>, order: &Vec<usize>) -> (res: Vec<String>)
    requires
        forall|i: int| 0 <= i < order@.len() ==> order@[i] < texts@.len(),
    ensures
        string_views(res@) =~= texts_in_order(texts@, order@),
{
    let mut lines: Vec<String> = Vec::new();
    let mut i: usize = 0;
    while i < order.len()
        invariant
            i <= order@.len(),
            forall|k: int| 0 <= k < order@.len() ==> order@[k] < texts@.len(),
            string_views(lines@) =~= texts_in_order(texts@, order@).take(i as int),
        decreases order@.len() - i,
    {
        let line = texts[order[i]].clone();
        let ghost before = lines@;
        lines.push(line);
        assert(string_views(lines@) =~= string_views(before).push(texts@[order@[i as int] as int]@));
        assert(texts_in_order(texts@, order@).take(i + 1) =~= texts_in_order(texts@, order@).take(
            i as int,
        ).push(texts@[order@[i as int] as int]@));
        i = i + 1;
    }
    assert(texts_in_order(texts@, order@).take(order@.len() as int) =~= texts_in_order(texts@, order@));
    lines
}

/// The hostname cell of the hop in normal mode, given the texts of the
/// addresses that `hostname_addresses` lists, is the hostname cell given the
/// texts of all addresses.
proof fn lemma_lines_cell_is_hostname_cell(
    hide_private_hops: bool,
    config: TuiConfig,
    hop: Hop,
    texts: Seq<String>,
    order: Seq<usize>,
    cell: (Seq<char>, u16),
)
    requires
        texts.len() == hop.addrs@.len(),
        hop.addrs@.len() <= usize::MAX,
        is_hostname_order(hide_private_hops, config, hop, order),
        is_hostname_lines_cell(hide_private_hops, config, hop, texts_in_order(texts, order), cell),
    ensures
        is_hostname_cell(hide_private_hops, config, hop, texts, cell),
{
    if shows_addresses(hide_private_hops, config, hop) {
        match config.max_addrs {
            None => {
                assert forall|i: int| 0 <= i < order.len() implies order[i] as int == i by {
                    assert(order[i] == i as usize);
                }
                assert(texts_in_order(texts, order) =~= string_views(texts));
            },
            Some(m) => {
                assert(is_display_order(hop.addrs@, m as nat, order));
            },
        }
    }
}

/// The hostname cell in normal mode and its height in rows. `texts[i]` is the
/// formatted `i`-th address of the hop; only the texts of the addresses that
/// `hostname_addresses` lists are read. A limit of zero addresses is refused
/// (as by `clamp`) only where addresses are shown: for a hop that answered and
/// is not hidden.
pub fn render_hostname(
    hide_private_hops: bool,
    config: &TuiConfig,
    hop: &Hop,
    texts: &Vec<String>,
) -> (res: (String, u16))
    requires
        texts@.len() == hop.addrs@.len(),
        config.max_addrs == Some(0u8) ==> !(hop.total_recv > 0 && !is_hidden(
            hide_private_hops,
            *config,
            *hop,
        )),
    ensures
        is_hostname_cell(hide_private_hops, *config, *hop, texts@, (res.0@, res.1)),
{
    let n = hop.addrs.len();
    let order = hostname_addresses(hide_private_hops, config, hop);
    let shown = texts_at(texts, &order);
    let res = render_hostname_lines(hide_private_hops, config, hop, &shown);
    proof {
        assert(hop.addrs@.len() == n as int);
        lemma_lines_cell_is_hostname_cell(
            hide_private_hops,
            *config,
            *hop,
            texts@,
            order@,
            (res.0@, res.1),
        );
    }
    res
}

/// What the table knows of a hop beyond the hop itself: which hop is selected
/// (by its time-to-live), whether details are shown and private hops hidden,
/// and whether the hop is the target and lies in the current round.
#[derive(Clone, Copy, Debug)]
pub struct RowContext {
    pub selected_hop_ttl: Option<u8>,
    pub show_hop_details: bool,
    pub hide_private_hops: bool,
    pub is_target: bool,
    pub is_in_round: bool,
}

/// Whether the row of the hop shows the details of the selected address.
pub open spec fn shows_details(ctx: RowContext, hop: Hop) -> bool {
    ctx.selected_hop_ttl == Some(hop.ttl) && ctx.show_hop_details
}

/// Whether the row of the hop shows the details of the selected address: it is
/// the selected hop and details are switched on.
pub fn uses_hop_details(ctx: &RowContext, hop: &Hop) -> (res: bool)
    ensures
        res == shows_details(*ctx, *hop),
        res == (ctx.selected_hop_ttl == Some(hop.ttl) && ctx.show_hop_details),
{
    let is_selected_hop = match ctx.selected_hop_ttl {
        Some(ttl) => ttl == hop.ttl,
        None => false,
    };
    is_selected_hop && ctx.show_hop_details
}

/// The cells of a row of the hop table that are not measurements of time or
/// loss, the row's height, and the colour of its text: the theme's active
/// colour for a hop in the current round, else its inactive colour.
#[derive(Clone, Debug)]
pub struct TableRow {
    pub ttl: String,
    pub hostname: String,
    pub total_sent: String,
    pub total_recv: String,
    pub status: HopStatus,
    pub height: u16,
    pub color: TuiColor,
}

/// What a row of the hop table reads of the lookups: the addresses whose
/// formatted text its hostname cell shows, in the order shown, and whether it
/// shows the formatted details of the selected address. Only these need a
/// reverse lookup.
#[derive(Clone, Debug)]
pub struct RowLookups {
    pub addresses: Vec<usize>,
    pub details: bool,
}

/// Whether `addresses` and `details` are what the row of the hop reads: the
/// details where the row shows details for a hop that answered and is not
/// hidden; the addresses of the hostname cell where it does not show details.
pub open spec fn is_row_lookups(
    ctx: RowContext,
    hop: Hop,
    config: TuiConfig,
    addresses: Seq<usize>,
    details: bool,
) -> bool {
    &&& details == (shows_details(ctx, hop) && shows_addresses(ctx.hide_private_hops, config, hop))
    &&& shows_details(ctx, hop) ==> addresses.len() == 0
    &&& !shows_details(ctx, hop) ==> is_hostname_order(ctx.hide_private_hops, config, hop, addresses)
}

/// The lookups that the row of the hop reads.
pub fn row_lookups(ctx: &RowContext, hop: &Hop, config: &TuiConfig) -> (res: RowLookups)
    ensures
        is_row_lookups(*ctx, *hop, *config, res.addresses@, res.details),
        forall|i: int| 0 <= i < res.addresses@.len() ==> res.addresses@[i] < hop.addrs@.len(),
{
    if uses_hop_details(ctx, hop) {
        let details = hop.total_recv > 0 && !is_hidden_hop(ctx.hide_private_hops, config, hop);
        RowLookups { addresses: Vec::new(), details }
    } else {
        let addresses = hostname_addresses(ctx.hide_private_hops, config, hop);
        RowLookups { addresses, details: false }
    }
}

/// Renders a row of the hop table from the lookups it reads: `shown[i]` is the
/// formatted text of the address that `row_lookups` lists at `i`, and
/// `details` the formatted details of the selected address (read only where
/// `row_lookups` says so).
pub fn render_table_row_lines(
    ctx: &RowContext,
    hop: &Hop,
    config: &TuiConfig,
    shown: &Vec<String>,
    details: &String,
) -> (res: TableRow)
    requires
        hop.total_recv <= hop.total_sent,
        config.max_addrs == Some(0u8) ==> !(shows_addresses(ctx.hide_private_hops, *config, *hop)
            && !shows_details(*ctx, *hop)),
    ensures
        res.ttl@ == decimal(hop.ttl as nat),
        res.total_sent@ == decimal(hop.total_sent as nat),
        res.total_recv@ == decimal(hop.total_recv as nat),
        res.status == hop_status(hop.total_sent as nat, hop.total_recv as nat, ctx.is_target),
        res.color == (if ctx.is_in_round {
            config.theme.hops_table_row_active_text_color
        } else {
            config.theme.hops_table_row_inactive_text_color
        }),
        shows_details(*ctx, *hop) ==> res.hostname@ == details_cell_text(
            ctx.hide_private_hops,
            *config,
            *hop,
            details@,
        ) && res.height == 6,
        !shows_details(*ctx, *hop) ==> is_hostname_lines_cell(
            ctx.hide_private_hops,
            *config,
            *hop,
            string_views(shown@),
            (res.hostname@, res.height),
        ),
{
    let ttl = render_ttl_cell(hop);
    let (hostname, height) = if uses_hop_details(ctx, hop) {
        render_hostname_with_details(ctx.hide_private_hops, config, hop, details)
    } else {
        render_hostname_lines(ctx.hide_private_hops, config, hop, shown)
    };
    let total_sent = render_total_sent_cell(hop);
    let total_recv = render_total_recv_cell(hop);
    let status = render_status_cell(hop, ctx.is_target);
    let color = if ctx.is_in_round {
        config.theme.hops_table_row_active_text_color
    } else {
        config.theme.hops_table_row_inactive_text_color
    };
    TableRow { ttl, hostname, total_sent, total_recv, status, height, color }
}

/// Renders a row of the hop table. `texts[i]` is the formatted `i`-th address
/// of the hop and `details` the formatted details of the selected address;
/// only what `row_lookups` lists is read.
pub fn render_table_row(
    ctx: &RowContext,
    hop: &Hop,
    config: &TuiConfig,
    texts: &Vec<String>,
    details: &String,
) -> (res: TableRow)
    requires
        hop.total_recv <= hop.total_sent,
        texts@.len() == hop.addrs@.len(),
        config.max_addrs == Some(0u8) ==> !(hop.total_recv > 0 && !is_hidden(
            ctx.hide_private_hops,
            *config,
            *hop,
        ) && !shows_details(*ctx, *hop)),
    ensures
        res.ttl@ == decimal(hop.ttl as nat),
        res.total_sent@ == decimal(hop.total_sent as nat),
        res.total_recv@ == decimal(hop.total_recv as nat),
        res.status == hop_status(hop.total_sent as nat, hop.total_recv as nat, ctx.is_target),
        res.color == (if ctx.is_in_round {
            config.theme.hops_table_row_active_text_color
        } else {
            config.theme.hops_table_row_inactive_text_color
        }),
        shows_details(*ctx, *hop) ==> res.hostname@ == details_cell_text(
            ctx.hide_private_hops,
            *config,
            *hop,
            details@,
        ) && res.height == 6,
        !shows_details(*ctx, *hop) ==> is_hostname_cell(
            ctx.hide_private_hops,
            *config,
            *hop,
            texts@,
            (res.hostname@, res.height),
        ),
{
    let n = hop.addrs.len();
    let lookups = row_lookups(ctx, hop, config);
    let shown = texts_at(texts, &lookups.addresses);
    let res = render_table_row_lines(ctx, hop, config, &shown, details);
    proof {
        assert(hop.addrs@.len() == n as int);
        if !shows_details(*ctx, *hop) {
            lemma_lines_cell_is_hostname_cell(
                ctx.hide_private_hops,
                *config,
                *hop,
                texts@,
                lookups.addresses@,
                (res.hostname@, res.height),
            );
        }
    }
    res
}

/// With private hops hidden, a hop that answered shows "**Hidden**" in one
/// row exactly where its time-to-live is at or below the privacy maximum: every
/// such hop, not only the one at that maximum, is hidden, and a hop above it
/// shows its addresses (all of them, in the order seen, where no limit is set).
pub proof fn lemma_private_hops_hidden(
    config: TuiConfig,
    hop: Hop,
    texts: Seq<String>,
    cell: (Seq<char>, u16),
)
    requires
        is_hostname_cell(true, config, hop, texts, cell),
        hop.total_recv > 0,
    ensures
        hop.ttl <= config.privacy_max_ttl ==> cell.0 == "**Hidden**"@ && cell.1 == 1,
        hop.ttl > config.privacy_max_ttl && config.max_addrs is None ==> cell.0 == seq_join(
            string_views(texts),
            "\n"@,
        ),
{
}

/// Where private hops are not hidden, no hop that answered is shown as hidden
/// (with no limit on addresses it shows all its addresses, whatever its
/// time-to-live).
pub proof fn lemma_nothing_hidden_when_shown(
    config: TuiConfig,
    hop: Hop,
    texts: Seq<String>,
    cell: (Seq<char>, u16),
)
    requires
        is_hostname_cell(false, config, hop, texts, cell),
        hop.total_recv > 0,
        config.max_addrs is None,
    ensures
        cell.0 == seq_join(string_views(texts), "\n"@),
{
}

/// A row shows the details of the selected address, six rows high, exactly
/// when its hop is the selected one and details are switched on; with details
/// switched off every row, selected or not, shows the normal hostname cell.
pub proof fn lemma_details_only_when_switched_on(
    ctx: RowContext,
    hop: Hop,
    config: TuiConfig,
    texts: Seq<String>,
    details: Seq<char>,
    hostname: Seq<char>,
    height: u16,
)
    requires
        shows_details(ctx, hop) ==> hostname == details_cell_text(
            ctx.hide_private_hops,
            config,
            hop,
            details,
        ) && height == 6,
        !shows_details(ctx, hop) ==> is_hostname_cell(
            ctx.hide_private_hops,
            config,
            hop,
            texts,
            (hostname, height),
        ),
    ensures
        !ctx.show_hop_details ==> is_hostname_cell(
            ctx.hide_private_hops,
            config,
            hop,
            texts,
            (hostname, height),
        ),
        ctx.selected_hop_ttl != Some(hop.ttl) ==> is_hostname_cell(
            ctx.hide_private_hops,
            config,
            hop,
            texts,
            (hostname, height),
        ),
        ctx.selected_hop_ttl == Some(hop.ttl) && ctx.show_hop_details ==> height == 6,
        ctx.selected_hop_ttl == Some(hop.ttl) && ctx.show_hop_details && hop.total_recv > 0
            && !ctx.hide_private_hops ==> hostname == details,
{
}

/// Where the reverse lookup resolved the address to some hostnames, the second
/// line of its details is "Host: " and those hostnames joined with spaces,
/// whether or not autonomous system information came with them.
pub proof fn lemma_details_host_line(
    hop: Hop,
    offset: nat,
    addr: String,
    hosts: Vec<String>,
    info: AsInfo,
    geoip: Option<GeoIpCity>,
    lookup_as_info: bool,
)
    requires
        offset < hop.addrs@.len(),
        hosts@.len() > 0,
    ensures
        (addr@ + " ["@ + decimal(offset + 1) + " of "@ + decimal(hop.addrs@.len() as nat) + "]\n"@ + "Host: "@
            + seq_join(string_views(hosts@), " "@) + "\n"@).is_prefix_of(
            format_details_text(
                hop,
                offset,
                Some(DnsEntry::Resolved(Resolved::Normal(addr, hosts))),
                geoip,
                lookup_as_info,
            ),
        ),
        (addr@ + " ["@ + decimal(offset + 1) + " of "@ + decimal(hop.addrs@.len() as nat) + "]\n"@ + "Host: "@
            + seq_join(string_views(hosts@), " "@) + "\n"@).is_prefix_of(
            format_details_text(
                hop,
                offset,
                Some(DnsEntry::Resolved(Resolved::WithAsInfo(addr, hosts, info))),
                geoip,
                lookup_as_info,
            ),
        ),
{
    let line = addr@ + " ["@ + decimal(offset + 1) + " of "@ + decimal(hop.addrs@.len() as nat)
        + "]\n"@ + "Host: "@ + seq_join(string_views(hosts@), " "@) + "\n"@;
    let normal = format_details_text(
        hop,
        offset,
        Some(DnsEntry::Resolved(Resolved::Normal(addr, hosts))),
        geoip,
        lookup_as_info,
    );
    let with_info = format_details_text(
        hop,
        offset,
        Some(DnsEntry::Resolved(Resolved::WithAsInfo(addr, hosts, info))),
        geoip,
        lookup_as_info,
    );
    assert(normal =~= line + (as_details_text(lookup_as_info, None) + "\n"@ + geo_details_text(geoip)));
    assert(with_info =~= line + (as_details_text(lookup_as_info, Some(info)) + "\n"@ + geo_details_text(
        geoip,
    )));
    assert(line.is_prefix_of(normal)) by {
        assert(normal.take(line.len() as int) =~= line);
    }
    assert(line.is_prefix_of(with_info)) by {
        assert(with_info.take(line.len() as int) =~= line);
    }
}

/// Each GeoIp mode shows its own field of the city in brackets after the
/// address: Short the short name, Long the long name, Location the location;
/// where the hop has several addresses the share of replies follows.
pub proof fn lemma_geoip_mode_fields(
    addr: Seq<char>,
    share: Seq<char>,
    addr_count: nat,
    geo: GeoIpCity,
    config: TuiConfig,
)
    requires
        config.address_mode == AddressMode::IP,
    ensures
        config.geoip_mode == GeoIpMode::Short && addr_count <= 1 ==> formatted_address(
            addr,
            share,
            addr_count,
            None,
            Some(geo),
            config,
        ) == addr + " ["@ + geo.short_name@ + "]"@,
        config.geoip_mode == GeoIpMode::Long && addr_count <= 1 ==> formatted_address(
            addr,
            share,
            addr_count,
            None,
            Some(geo),
            config,
        ) == addr + " ["@ + geo.long_name@ + "]"@,
        config.geoip_mode == GeoIpMode::Location && addr_count <= 1 ==> formatted_address(
            addr,
            share,
            addr_count,
            None,
            Some(geo),
            config,
        ) == addr + " ["@ + geo.location@ + "]"@,
        config.geoip_mode == GeoIpMode::Location && addr_count > 1 ==> formatted_address(
            addr,
            share,
            addr_count,
            None,
            Some(geo),
            config,
        ) == addr + " ["@ + geo.location@ + "] ["@ + share + "%]"@,
        config.geoip_mode == GeoIpMode::Off ==> formatted_address(
            addr,
            share,
            addr_count,
            None,
            Some(geo),
            config,
        ) == formatted_address(addr, share, addr_count, None, None, config),
{
}

/// The address mode picks what names the address, before any GeoIp text or
/// share: the address itself (IP), the text of its reverse lookup as
/// `format_dns_entry` writes it (Host), or that text with the address in
/// parentheses after it (Both).
pub proof fn lemma_address_modes(addr: Seq<char>, share: Seq<char>, entry: DnsEntry, config: TuiConfig)
    ensures
        config.address_mode == AddressMode::IP ==> formatted_address(
            addr,
            share,
            1,
            Some(entry),
            None,
            config,
        ) == addr,
        config.address_mode == AddressMode::Host ==> formatted_address(
            addr,
            share,
            1,
            Some(entry),
            None,
            config,
        ) == dns_entry_text(entry, config.lookup_as_info, config.as_mode),
        config.address_mode == AddressMode::Both ==> formatted_address(
            addr,
            share,
            1,
            Some(entry),
            None,
            config,
        ) == dns_entry_text(entry, config.lookup_as_info, config.as_mode) + " ("@ + addr + ")"@,
        formatted_address(addr, share, 2, Some(entry), None, config) == formatted_address(
            addr,
            share,
            1,
            Some(entry),
            None,
            config,
        ) + " ["@ + share + "%]"@,
{
}

proof fn lemma_details_text_geo_suffix(
    addr: Seq<char>,
    index: nat,
    count: nat,
    hostnames: Option<Seq<Seq<char>>>,
    asinfo: Option<AsInfo>,
    geo: GeoIpCity,
    lookup_as_info: bool,
)
    ensures
        ("\n"@ + "Geo: "@ + geo.long_name@ + "\nPos: "@ + coordinates_text(geo.coordinates)).is_suffix_of(
            details_text(addr, index, count, hostnames, asinfo, Some(geo), lookup_as_info),
        ),
{
    let text = details_text(addr, index, count, hostnames, asinfo, Some(geo), lookup_as_info);
    let tail = "\n"@ + "Geo: "@ + geo.long_name@ + "\nPos: "@ + coordinates_text(geo.coordinates);
    let head = addr + " ["@ + decimal(index) + " of "@ + decimal(count) + "]\n"@ + hosts_details_text(
        hostnames,
    ) + "\n"@ + as_details_text(lookup_as_info, asinfo);
    assert(text =~= head + tail);
    assert(text.skip(text.len() - tail.len()) =~= tail);
}

/// The details of an address that was looked up end with its GeoIp lines:
/// "Geo: " and the long name of its city, then "Pos: " and the city's
/// coordinates, whatever its reverse lookup found.
pub proof fn lemma_details_geo_lines(
    hop: Hop,
    offset: nat,
    entry: DnsEntry,
    geo: GeoIpCity,
    lookup_as_info: bool,
)
    requires
        offset < hop.addrs@.len(),
        !(entry is Failed),
        !(entry is Timeout),
    ensures
        ("\n"@ + "Geo: "@ + geo.long_name@ + "\nPos: "@ + coordinates_text(geo.coordinates)).is_suffix_of(
            format_details_text(hop, offset, Some(entry), Some(geo), lookup_as_info),
        ),
{
    let count = hop.addrs@.len() as nat;
    let index = offset + 1;
    match entry {
        DnsEntry::Pending(addr) => {
            lemma_details_text_geo_suffix(addr@, index, count, None, None, geo, lookup_as_info);
        },
        DnsEntry::Resolved(Resolved::WithAsInfo(addr, hosts, info)) => {
            lemma_details_text_geo_suffix(
                addr@,
                index,
                count,
                Some(string_views(hosts@)),
                Some(info),
                geo,
                lookup_as_info,
            );
        },
        DnsEntry::NotFound(Unresolved::WithAsInfo(addr, info)) => {
            lemma_details_text_geo_suffix(addr@, index, count, Some(Seq::empty()), Some(info), geo, lookup_as_info);
        },
        DnsEntry::Resolved(Resolved::Normal(addr, hosts)) => {
            lemma_details_text_geo_suffix(
                addr@,
                index,
                count,
                Some(string_views(hosts@)),
                None,
                geo,
                lookup_as_info,
            );
        },
        DnsEntry::NotFound(Unresolved::Normal(addr)) => {
            lemma_details_text_geo_suffix(addr@, index, count, Some(Seq::empty()), None, geo, lookup_as_info);
        },
        _ => {},
    }
}

} // verus!
