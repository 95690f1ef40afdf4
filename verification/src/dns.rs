//! What a reverse DNS lookup gives back for an address, and how the table writes it.

use crate::text::{seq_join, string_views, join_strings};
use vstd::prelude::*;
use vstd::string::*;

verus! {

/// How the autonomous system of an address is shown.
#[derive(Clone, Copy, Debug, PartialEq, Eq)]
pub enum AsMode {
    Asn,
    Prefix,
    CountryCode,
    Registry,
    Allocated,
    Name,
}

/// Information about the autonomous system of an address.
#[derive(Clone, Debug)]
pub struct AsInfo {
    pub asn: String,
    pub prefix: String,
    pub cc: String,
    pub registry: String,
    pub allocated: String,
    pub name: String,
}

/// A resolved address (held as its text) with its hostnames.
#[derive(Clone, Debug)]
pub enum Resolved {
    Normal(String, Vec<String>),
    WithAsInfo(String, Vec<String>, AsInfo),
}

/// An address (held as its text) with no hostname.
#[derive(Clone, Debug)]
pub enum Unresolved {
    Normal(String),
    WithAsInfo(String, AsInfo),
}

/// The state of a reverse lookup of an address (held as its text).
#[derive(Clone, Debug)]
pub enum DnsEntry {
    Pending(String),
    Resolved(Resolved),
    NotFound(Unresolved),
    Failed(String),
    Timeout(String),
}

/// Which reverse lookup the table asks of the resolver.
#[derive(Clone, Copy, Debug, PartialEq, Eq)]
pub enum DnsLookup {
    /// Hostnames only.
    Plain,
    /// Hostnames and autonomous system information.
    WithAsInfo,
}

/// The text of the autonomous system information in the given mode.
pub open spec fn asinfo_text(info: AsInfo, mode: AsMode) -> Seq<char> {
    let asn = "AS"@ + info.asn@;
    match mode {
        AsMode::Asn => asn,
        AsMode::Prefix => asn + " ["@ + info.prefix@ + "]"@,
        AsMode::CountryCode => asn + " ["@ + info.cc@ + "]"@,
        AsMode::Registry => asn + " ["@ + info.registry@ + "]"@,
        AsMode::Allocated => asn + " ["@ + info.allocated@ + "]"@,
        AsMode::Name => asn + " ["@ + info.name@ + "]"@,
    }
}

/// Whether the autonomous system information is shown: it was asked for and an ASN was found.
pub open spec fn shows_asinfo(info: AsInfo, lookup_as_info: bool) -> bool {
    lookup_as_info && info.asn@.len() != 0
}

/// The text of a lookup result, with the autonomous system in front where it is shown.
pub open spec fn dns_entry_text(entry: DnsEntry, lookup_as_info: bool, mode: AsMode) -> Seq<char> {
    match entry {
        DnsEntry::Resolved(Resolved::Normal(_, hosts)) => seq_join(string_views(hosts@), " "@),
        DnsEntry::Resolved(Resolved::WithAsInfo(_, hosts, info)) => {
            if shows_asinfo(info, lookup_as_info) {
                asinfo_text(info, mode) + " "@ + seq_join(string_views(hosts@), " "@)
            } else {
                seq_join(string_views(hosts@), " "@)
            }
        },
        DnsEntry::NotFound(Unresolved::Normal(ip)) => ip@,
        DnsEntry::Pending(ip) => ip@,
        DnsEntry::NotFound(Unresolved::WithAsInfo(ip, info)) => {
            if shows_asinfo(info, lookup_as_info) {
                asinfo_text(info, mode) + " "@ + ip@
            } else {
                ip@
            }
        },
        DnsEntry::Failed(ip) => "Failed: "@ + ip@,
        DnsEntry::Timeout(ip) => "Timeout: "@ + ip@,
    }
}

/// Where no autonomous system information is asked for, the AS mode changes nothing.
pub proof fn lemma_as_mode_unused_without_lookup(entry: DnsEntry, mode1: AsMode, mode2: AsMode)
    ensures
        dns_entry_text(entry, false, mode1) == dns_entry_text(entry, false, mode2),
{
}

fn push_bracketed(s: &mut String, item: &String)
    ensures
        final(s)@ == old(s)@ + " ["@ + item@ + "]"@,
{
    s.append(" [");
    s.append(item.as_str());
    s.append("]");
}

/// Formats autonomous system information in the given mode.
pub fn format_asinfo(asinfo: &AsInfo, as_mode: AsMode) -> (res: String)
    ensures
        res@ == asinfo_text(*asinfo, as_mode),
{
    let mut s = String::from_str("AS");
    s.append(asinfo.asn.as_str());
    match as_mode {
        AsMode::Asn => {},
        AsMode::Prefix => push_bracketed(&mut s, &asinfo.prefix),
        AsMode::CountryCode => push_bracketed(&mut s, &asinfo.cc),
        AsMode::Registry => push_bracketed(&mut s, &asinfo.registry),
        AsMode::Allocated => push_bracketed(&mut s, &asinfo.allocated),
        AsMode::Name => push_bracketed(&mut s, &asinfo.name),
    }
    s
}

fn with_asinfo(info: &AsInfo, as_mode: AsMode, rest: &String) -> (res: String)
    ensures
        res@ == asinfo_text(*info, as_mode) + " "@ + rest@,
{
    let mut s = format_asinfo(info, as_mode);
    s.append(" ");
    s.append(rest.as_str());
    s
}

fn prefixed(prefix: &str, rest: &String) -> (res: String)
    ensures
        res@ == prefix@ + rest@,
{
    let mut s = String::from_str(prefix);
    s.append(rest.as_str());
    s
}

/// Formats a lookup result, with the autonomous system in front where it was
/// asked for and found.
pub fn format_dns_entry(dns_entry: &DnsEntry, lookup_as_info: bool, as_mode: AsMode) -> (res: String)
    ensures
        res@ == dns_entry_text(*dns_entry, lookup_as_info, as_mode),
{
    match dns_entry {
        DnsEntry::Resolved(Resolved::Normal(_, hosts)) => join_strings(hosts, " "),
        DnsEntry::Resolved(Resolved::WithAsInfo(_, hosts, asinfo)) => {
            let joined = join_strings(hosts, " ");
            if lookup_as_info && !asinfo.asn.as_str().is_empty() {
                with_asinfo(asinfo, as_mode, &joined)
            } else {
                joined
            }
        },
        DnsEntry::NotFound(Unresolved::Normal(ip)) => ip.clone(),
        DnsEntry::Pending(ip) => ip.clone(),
        DnsEntry::NotFound(Unresolved::WithAsInfo(ip, asinfo)) => {
            if lookup_as_info && !asinfo.asn.as_str().is_empty() {
                with_asinfo(asinfo, as_mode, ip)
            } else {
                ip.clone()
            }
        },
        DnsEntry::Failed(ip) => prefixed("Failed: ", ip),
        DnsEntry::Timeout(ip) => prefixed("Timeout: ", ip),
    }
}

/// Where the AS information of a lookup is asked for and found, the text of
/// the lookup starts with that information as `format_asinfo` writes it in the
/// requested AS mode, then a space: the hostnames for a resolved address, the
/// address for an unresolved one. So the AS mode acts on both kinds alike; in
/// Name mode, for instance, the AS number is followed by the name in brackets.
pub proof fn lemma_as_mode_applies_to_lookups(
    addr: String,
    hosts: Vec<String>,
    info: AsInfo,
    mode: AsMode,
)
    requires
        info.asn@.len() > 0,
    ensures
        dns_entry_text(DnsEntry::Resolved(Resolved::WithAsInfo(addr, hosts, info)), true, mode)
            == asinfo_text(info, mode) + " "@ + seq_join(string_views(hosts@), " "@),
        dns_entry_text(DnsEntry::NotFound(Unresolved::WithAsInfo(addr, info)), true, mode)
            == asinfo_text(info, mode) + " "@ + addr@,
        mode == AsMode::Name ==> dns_entry_text(
            DnsEntry::Resolved(Resolved::WithAsInfo(addr, hosts, info)),
            true,
            mode,
        ) == "AS"@ + info.asn@ + " ["@ + info.name@ + "]"@ + " "@ + seq_join(
            string_views(hosts@),
            " "@,
        ),
{
}

} // verus!
