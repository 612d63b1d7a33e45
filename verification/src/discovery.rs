//! SSDP-based discovery for Samsung Smart TVs on the local network.
//!
//! This module holds what discovery decides: the M-SEARCH requests it sends,
//! which responses come from Samsung TVs, what their headers say, and the
//! record of the TVs found, one per IP address. Sending, receiving and the
//! TLS probe are the caller's.
use std::time::Duration;

use crate::client::TvInfo;
use crate::config::{duration_nanos, seconds};
use crate::encoding::{parse_url, parsed_url, url_port, url_port_number};
use crate::text::{
    has_substring, lines_of, lowercased, owned, split_lines, split_once, split_once_spec,
    str_contains, str_eq, to_lowercase, to_uppercase, trim, trimmed, uppercased, decode_utf8_lossy,
    utf8_lossy,
};
use vstd::prelude::*;

verus! {

/// SSDP multicast address.
pub const SSDP_ADDR: [u8; 4] = [239, 255, 255, 250];

/// SSDP port.
pub const SSDP_PORT: u16 = 1900;

/// Information about a discovered Samsung TV.
#[derive(Debug, Clone)]
pub struct DiscoveredTv {
    /// IP address of the TV.
    pub ip: String,
    /// WebSocket port (typically 8001 or 8002).
    pub port: u16,
    /// Whether the TV supports secure connections (port 8002).
    pub supports_tls: bool,
    /// Location URL from SSDP response.
    pub location: Option<String>,
    /// Model name if available from SSDP.
    pub model: Option<String>,
    /// Friendly name if available from SSDP.
    pub name: Option<String>,
    /// Unique device ID.
    pub usn: Option<String>,
    /// Full TV info (fetched separately if requested).
    pub info: Option<TvInfo>,
}

impl DiscoveredTv {
    /// Creates a new DiscoveredTv with minimal info.
    pub fn new(ip: String) -> (r: Self)
        ensures
            r.ip == ip,
            r.port == 8001,
            !r.supports_tls,
            r.location is None,
            r.model is None,
            r.name is None,
            r.usn is None,
            r.info is None,
    {
        DiscoveredTv {
            ip,
            port: 8001,
            supports_tls: false,
            location: None,
            model: None,
            name: None,
            usn: None,
            info: None,
        }
    }
}

/// Options for TV discovery.
#[derive(Debug, Clone, Copy)]
pub struct DiscoveryOptions {
    /// How long to wait for responses.
    pub timeout: Duration,
    /// Whether to fetch full TV info via HTTP after discovery.
    pub fetch_info: bool,
    /// Specific IPv4 interface (its four octets) to bind to; `None` binds to
    /// all interfaces.
    pub bind_addr: Option<[u8; 4]>,
}

impl Default for DiscoveryOptions {
    /// A 5 s timeout, no info fetching, all interfaces.
    fn default() -> (r: Self)
        ensures
            duration_nanos(r.timeout) == 5_000_000_000,
            !r.fetch_info,
            r.bind_addr is None,
    {
        DiscoveryOptions { timeout: seconds(5), fetch_info: false, bind_addr: None }
    }
}

impl DiscoveryOptions {
    /// Creates new discovery options with default values.
    pub fn new() -> (r: Self)
        ensures
            duration_nanos(r.timeout) == 5_000_000_000,
            !r.fetch_info,
            r.bind_addr is None,
    {
        Self::default()
    }

    /// Sets the discovery timeout.
    pub fn timeout(self, timeout: Duration) -> (r: Self)
        ensures
            r == (DiscoveryOptions { timeout: timeout, ..self }),
    {
        DiscoveryOptions { timeout, ..self }
    }

    /// Whether to fetch full TV info after discovery.
    pub fn fetch_info(self, fetch: bool) -> (r: Self)
        ensures
            r == (DiscoveryOptions { fetch_info: fetch, ..self }),
    {
        DiscoveryOptions { fetch_info: fetch, ..self }
    }

    /// Sets a specific interface to bind to.
    pub fn bind_addr(self, addr: [u8; 4]) -> (r: Self)
        ensures
            r == (DiscoveryOptions { bind_addr: Some(addr), ..self }),
    {
        DiscoveryOptions { bind_addr: Some(addr), ..self }
    }
}

/// The search targets of the M-SEARCH requests, in the order they are sent.
pub fn search_targets() -> (r: Vec<&'static str>)
    ensures
        r@.map_values(|t: &str| t@) == seq![
            "urn:samsung.com:device:RemoteControlReceiver:1"@,
            "urn:dial-multiscreen-org:service:dial:1"@,
            "ssdp:all"@,
        ],
{
    let mut r: Vec<&'static str> = Vec::new();
    r.push("urn:samsung.com:device:RemoteControlReceiver:1");
    r.push("urn:dial-multiscreen-org:service:dial:1");
    r.push("ssdp:all");
    assert(r@.map_values(|t: &str| t@) =~= seq![
        "urn:samsung.com:device:RemoteControlReceiver:1"@,
        "urn:dial-multiscreen-org:service:dial:1"@,
        "ssdp:all"@,
    ]);
    r
}

/// The text of an M-SEARCH request for the search target `st`.
pub open spec fn m_search_text(st: Seq<char>) -> Seq<char> {
    "M-SEARCH * HTTP/1.1\r\nHOST: 239.255.255.250:1900\r\nMAN: \"ssdp:discover\"\r\nMX: 3\r\nST: "@
        + st + "\r\n\r\n"@
}

/// Builds the M-SEARCH request for the search target `st`.
pub fn m_search_request(st: &str) -> (r: String)
    ensures
        r@ == m_search_text(st@),
{
    let mut r = String::new();
    r.append(
        "M-SEARCH * HTTP/1.1\r\nHOST: 239.255.255.250:1900\r\nMAN: \"ssdp:discover\"\r\nMX: 3\r\nST: ",
    );
    r.append(st);
    r.append("\r\n\r\n");
    r
}

/// The address that the TLS probe connects to: port 8002 of the TV.
pub fn tls_probe_address(ip: &str) -> (r: String)
    ensures
        r@ == ip@ + ":8002"@,
{
    let mut r = owned(ip);
    r.append(":8002");
    r
}

/// Whether lower-cased response text names a Samsung TV: it mentions
/// `samsung`, `tizen` or `remotecontrolreceiver`.
pub open spec fn names_samsung(lowered: Seq<char>) -> bool {
    has_substring(lowered, "samsung"@) || has_substring(lowered, "tizen"@) || has_substring(
        lowered,
        "remotecontrolreceiver"@,
    )
}

/// Decides `names_samsung` on text that has already been lower-cased.
pub fn mentions_samsung(lowered: &str) -> (r: bool)
    ensures
        r == names_samsung(lowered@),
{
    str_contains(lowered, "samsung") || str_contains(lowered, "tizen") || str_contains(
        lowered,
        "remotecontrolreceiver",
    )
}

/// Checks if an SSDP response is from a Samsung TV (case-insensitively).
pub fn is_samsung_tv(response: &str) -> (r: bool)
    ensures
        r == names_samsung(lowercased(response@)),
{
    let lowered = to_lowercase(response);
    mentions_samsung(lowered.as_str())
}

/// What an SSDP response sets of a discovered TV.
pub struct SsdpFields {
    pub port: u16,
    pub location: Option<Seq<char>>,
    pub usn: Option<Seq<char>>,
    pub model: Option<Seq<char>>,
}

/// The characters of an optional string.
pub open spec fn opt_chars(o: Option<String>) -> Option<Seq<char>> {
    match o {
        Some(s) => Some(s@),
        None => None,
    }
}

/// The fields of a discovered TV that SSDP headers set.
pub open spec fn ssdp_fields(tv: DiscoveredTv) -> SsdpFields {
    SsdpFields {
        port: tv.port,
        location: opt_chars(tv.location),
        usn: opt_chars(tv.usn),
        model: opt_chars(tv.model),
    }
}

/// A `LOCATION` header: the location is recorded, and its explicit port
/// becomes the TV's port when it is 8001 or 8002 (the API ports; SSDP
/// locations usually name another one).
pub open spec fn location_effect(
    f: SsdpFields,
    value: Seq<char>,
    explicit_port: Option<u16>,
) -> SsdpFields {
    let located = SsdpFields { location: Some(value), ..f };
    match explicit_port {
        Some(p) => if p == 8001 || p == 8002 {
            SsdpFields { port: p, ..located }
        } else {
            located
        },
        None => located,
    }
}

/// The explicit port of a location URL, when it parses.
pub open spec fn location_port(value: Seq<char>) -> Option<u16> {
    match parsed_url(value) {
        Some(serialization) => url_port(serialization),
        None => None,
    }
}

/// One header, its name upper-cased: `LOCATION`, `USN` and `SERVER` (when
/// the server string mentions `Samsung` or `Tizen`) set their field; any
/// other header changes nothing.
pub open spec fn header_effect(f: SsdpFields, key: Seq<char>, value: Seq<char>) -> SsdpFields {
    if key == "LOCATION"@ {
        location_effect(f, value, location_port(value))
    } else if key == "USN"@ {
        SsdpFields { usn: Some(value), ..f }
    } else if key == "SERVER"@ {
        if has_substring(value, "Samsung"@) || has_substring(value, "Tizen"@) {
            SsdpFields { model: Some(value), ..f }
        } else {
            f
        }
    } else {
        f
    }
}

/// One response line: the trimmed line is split at its first `:` into a
/// header name (trimmed, upper-cased) and a value (trimmed); a line with no
/// `:` changes nothing.
pub open spec fn line_effect(f: SsdpFields, line: Seq<char>) -> SsdpFields {
    match split_once_spec(trimmed(line), ':') {
        Some((key, value)) => header_effect(f, uppercased(trimmed(key)), trimmed(value)),
        None => f,
    }
}

/// The lines of a response, applied in order.
pub open spec fn lines_effect(f: SsdpFields, lines: Seq<Seq<char>>) -> SsdpFields
    decreases lines.len(),
{
    if lines.len() == 0 {
        f
    } else {
        line_effect(lines_effect(f, lines.drop_last()), lines.last())
    }
}

/// The fields that SSDP does not set are left as they were.
pub open spec fn same_identity(a: DiscoveredTv, b: DiscoveredTv) -> bool {
    &&& a.ip == b.ip
    &&& a.supports_tls == b.supports_tls
    &&& a.name == b.name
    &&& a.info == b.info
}

/// Records a `LOCATION` header whose URL has the explicit port
/// `explicit_port` (`None` when the URL names none or does not parse).
pub fn apply_location(tv: &mut DiscoveredTv, value: &str, explicit_port: Option<u16>)
    ensures
        ssdp_fields(*final(tv)) == location_effect(ssdp_fields(*old(tv)), value@, explicit_port),
        same_identity(*final(tv), *old(tv)),
{
    tv.location = Some(owned(value));
    match explicit_port {
        Some(p) => {
            if p == 8001 || p == 8002 {
                tv.port = p;
            }
        },
        None => {},
    }
}

/// Applies one header whose name is already upper-cased.
pub fn apply_ssdp_header(tv: &mut DiscoveredTv, key: &str, value: &str)
    ensures
        ssdp_fields(*final(tv)) == header_effect(ssdp_fields(*old(tv)), key@, value@),
        same_identity(*final(tv), *old(tv)),
{
    if str_eq(key, "LOCATION") {
        let explicit_port = match parse_url(value) {
            Ok(u) => url_port_number(&u),
            Err(_) => None,
        };
        apply_location(tv, value, explicit_port);
    } else if str_eq(key, "USN") {
        tv.usn = Some(owned(value));
    } else if str_eq(key, "SERVER") {
        if str_contains(value, "Samsung") || str_contains(value, "Tizen") {
            tv.model = Some(owned(value));
        }
    }
}

/// Parses SSDP response headers into DiscoveredTv fields.
pub fn parse_ssdp_response(response: &str, tv: &mut DiscoveredTv)
    ensures
        ssdp_fields(*final(tv)) == lines_effect(ssdp_fields(*old(tv)), lines_of(response@)),
        same_identity(*final(tv), *old(tv)),
{
    let lines = split_lines(response);
    let ghost all = lines@.map_values(|l: &str| l@);
    let mut i: usize = 0;
    assert(all.take(0) =~= Seq::<Seq<char>>::empty());
    while i < lines.len()
        invariant
            all == lines@.map_values(|l: &str| l@),
            all == lines_of(response@),
            i <= lines.len(),
            ssdp_fields(*tv) == lines_effect(ssdp_fields(*old(tv)), all.take(i as int)),
            same_identity(*tv, *old(tv)),
        decreases lines.len() - i,
    {
        let line = trim(lines[i]);
        match split_once(line, ':') {
            Some((key, value)) => {
                let key = to_uppercase(trim(key));
                apply_ssdp_header(tv, key.as_str(), trim(value));
            },
            None => {},
        }
        assert(all.take(i + 1).drop_last() =~= all.take(i as int));
        assert(all.take(i + 1).last() == lines@[i as int]@);
        i = i + 1;
    }
    assert(all.take(lines.len() as int) =~= all);
}

/// How listening for responses failed.
pub enum ReceiveFailure {
    /// The read timed out without data (`WouldBlock`).
    WouldBlock,
    /// The read timed out (`TimedOut`).
    TimedOut,
    /// Any other error.
    Other,
}

/// Listening stops once reads time out; other errors are skipped.
pub fn keeps_listening(failure: ReceiveFailure) -> (r: bool)
    ensures
        r == (failure is Other),
{
    match failure {
        ReceiveFailure::Other => true,
        _ => false,
    }
}

/// The TVs found so far, one per IP address, in the order they answered.
pub struct DiscoveryRegistry {
    tvs: Vec<DiscoveredTv>,
}

impl DiscoveryRegistry {
    /// The TVs found, in order.
    pub closed spec fn found(&self) -> Seq<DiscoveredTv> {
        self.tvs@
    }

    /// No two of the recorded TVs share an IP address.
    pub open spec fn distinct_ips(&self) -> bool {
        forall|i: int, j: int|
            0 <= i < j < self.found().len() ==> #[trigger] self.found()[i].ip@
                != #[trigger] self.found()[j].ip@
    }

    /// Whether some recorded TV has the IP address `ip`.
    pub open spec fn knows_ip(&self, ip: Seq<char>) -> bool {
        exists|i: int| 0 <= i < self.found().len() && #[trigger] self.found()[i].ip@ == ip
    }

    /// An empty record.
    pub fn new() -> (r: Self)
        ensures
            r.found().len() == 0,
            r.distinct_ips(),
    {
        DiscoveryRegistry { tvs: Vec::new() }
    }

    /// Whether a TV with the IP address `ip` has been recorded.
    pub fn knows(&self, ip: &str) -> (r: bool)
        ensures
            r == self.knows_ip(ip@),
    {
        let mut i: usize = 0;
        while i < self.tvs.len()
            invariant
                i <= self.tvs.len(),
                forall|k: int| 0 <= k < i ==> self.found()[k].ip@ != ip@,
            decreases self.tvs.len() - i,
        {
            if str_eq(self.tvs[i].ip.as_str(), ip) {
                return true;
            }
            i = i + 1;
        }
        false
    }

    /// A response from `ip`: when it comes from a Samsung TV not yet
    /// recorded, the TV it describes (not yet probed for TLS); otherwise
    /// `None`, so the first response from each address is the one kept.
    pub fn candidate(&self, response: &str, ip: &str) -> (r: Option<DiscoveredTv>)
        ensures
            r is Some <==> names_samsung(lowercased(response@)) && !self.knows_ip(ip@),
            r matches Some(tv) ==> {
                &&& tv.ip@ == ip@
                &&& !tv.supports_tls
                &&& tv.name is None
                &&& tv.info is None
                &&& ssdp_fields(tv) == lines_effect(
                    SsdpFields { port: 8001, location: None, usn: None, model: None },
                    lines_of(response@),
                )
            },
    {
        if !is_samsung_tv(response) || self.knows(ip) {
            return None;
        }
        let mut tv = DiscoveredTv::new(owned(ip));
        parse_ssdp_response(response, &mut tv);
        Some(tv)
    }

    /// A datagram from `ip`: its bytes are read as UTF-8 (invalid sequences
    /// replaced) and taken in as `candidate` takes a response.
    pub fn candidate_from_datagram(&self, datagram: &[u8], ip: &str) -> (r: Option<DiscoveredTv>)
        ensures
            r is Some <==> names_samsung(lowercased(utf8_lossy(datagram@))) && !self.knows_ip(ip@),
            r matches Some(tv) ==> {
                &&& tv.ip@ == ip@
                &&& !tv.supports_tls
                &&& tv.name is None
                &&& tv.info is None
                &&& ssdp_fields(tv) == lines_effect(
                    SsdpFields { port: 8001, location: None, usn: None, model: None },
                    lines_of(utf8_lossy(datagram@)),
                )
            },
    {
        let text = decode_utf8_lossy(datagram);
        self.candidate(text.as_str(), ip)
    }

    /// Records a TV and whether it accepts TLS on port 8002; a TV that does
    /// is to be reached on port 8002.
    pub fn record(&mut self, tv: DiscoveredTv, supports_tls: bool)
        requires
            old(self).distinct_ips(),
            !old(self).knows_ip(tv.ip@),
        ensures
            final(self).distinct_ips(),
            final(self).found() == old(self).found().push(
                DiscoveredTv {
                    supports_tls: supports_tls,
                    port: if supports_tls {
                        8002
                    } else {
                        tv.port
                    },
                    ..tv
                },
            ),
    {
        let port = if supports_tls {
            8002
        } else {
            tv.port
        };
        self.tvs.push(DiscoveredTv { supports_tls, port, ..tv });
        assert forall|i: int, j: int|
            0 <= i < j < self.found().len() implies #[trigger] self.found()[i].ip@
            != #[trigger] self.found()[j].ip@ by {
            if j == self.found().len() - 1 {
                assert(old(self).found()[i].ip@ != tv.ip@);
            } else {
                assert(old(self).found()[i] == self.found()[i]);
                assert(old(self).found()[j] == self.found()[j]);
            }
        }
    }

    /// The TVs found, in the order they answered.
    pub fn into_tvs(self) -> (r: Vec<DiscoveredTv>)
        ensures
            r@ == self.found(),
    {
        self.tvs
    }
}

/// A response counts as coming from a Samsung TV exactly when its
/// lower-cased text contains `samsung`, `tizen` or `remotecontrolreceiver`;
/// nothing else (a DIAL or other UPnP answer, say) makes it count.
pub proof fn law_samsung_recognition(lowered: Seq<char>)
    ensures
        names_samsung(lowered) <==> (has_substring(lowered, "samsung"@) || has_substring(
            lowered,
            "tizen"@,
        ) || has_substring(lowered, "remotecontrolreceiver"@)),
{
}

/// Header names that the parser tells apart are different strings.
proof fn lemma_header_names_differ()
    ensures
        "SERVER"@ != "LOCATION"@,
        "SERVER"@ != "USN"@,
        "USN"@ != "LOCATION"@,
{
    reveal_strlit("SERVER");
    reveal_strlit("LOCATION");
    reveal_strlit("USN");
    assert("SERVER"@.len() == 6);
    assert("LOCATION"@.len() == 8);
    assert("USN"@.len() == 3);
}

/// A `SERVER` header whose value mentions `Samsung` or `Tizen` sets the
/// model to that value and nothing else; one that mentions neither changes
/// nothing.
pub proof fn law_server_header_sets_model(f: SsdpFields, value: Seq<char>)
    ensures
        (has_substring(value, "Samsung"@) || has_substring(value, "Tizen"@)) ==> header_effect(
            f,
            "SERVER"@,
            value,
        ) == (SsdpFields { model: Some(value), ..f }),
        has_substring(value, "Samsung"@) ==> header_effect(f, "SERVER"@, value).model == Some(
            value,
        ),
        has_substring(value, "Tizen"@) ==> header_effect(f, "SERVER"@, value).model == Some(
            value,
        ),
        !has_substring(value, "Samsung"@) && !has_substring(value, "Tizen"@) ==> header_effect(
            f,
            "SERVER"@,
            value,
        ) == f,
{
    lemma_header_names_differ();
}

/// A `USN` header sets the USN to its value and nothing else.
pub proof fn law_usn_header_sets_usn(f: SsdpFields, value: Seq<char>)
    ensures
        header_effect(f, "USN"@, value) == (SsdpFields { usn: Some(value), ..f }),
{
    lemma_header_names_differ();
}

/// A `LOCATION` header records its value as the location; the port changes
/// only to the URL's explicit port, and only when that is 8001 or 8002;
/// USN and model stay.
pub proof fn law_location_header(f: SsdpFields, value: Seq<char>)
    ensures
        header_effect(f, "LOCATION"@, value).location == Some(value),
        header_effect(f, "LOCATION"@, value).usn == f.usn,
        header_effect(f, "LOCATION"@, value).model == f.model,
        header_effect(f, "LOCATION"@, value).port != f.port ==> (location_port(value) == Some(
            header_effect(f, "LOCATION"@, value).port,
        ) && (header_effect(f, "LOCATION"@, value).port == 8001 || header_effect(
            f,
            "LOCATION"@,
            value,
        ).port == 8002)),
        (location_port(value) matches Some(p) && (p == 8001 || p == 8002)) ==> header_effect(
            f,
            "LOCATION"@,
            value,
        ).port == location_port(value)->0,
{
}

} // verus!
