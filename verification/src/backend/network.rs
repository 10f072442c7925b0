//! Network probes: the checks made before a TCP or HTTP probe, the reading of
//! their outcome, and the remote connection form.

use vstd::prelude::*;

use super::error::BackendError;
use crate::text::{
    lemma_ipv4_display_is_input,
    decimal, eq_ignore_ascii_case, eq_ignore_ascii_case_exec, ipv4_display, ipv4_octets, ipv4_string,
    is_ipv4, parse_ipv4, push_decimal, push_str, str_eq, string_of,
};
use crate::url_parts::{opt_parsed_view, parse_url, url_parse, ParsedUrl, ParsedUrlView};

verus! {

/// The limit of a remote HTTP(S) probe.
pub const REMOTE_PROBE_TIMEOUT_MS: u64 = 10_000;

/// How a TCP connection attempt ended.
#[derive(Clone, Copy, PartialEq, Eq, Structural)]
pub enum TcpOutcome {
    Connected,
    Failed,
    TimedOut,
}

/// The check made before a TCP probe: a zero timeout is a caller error.
pub fn check_tcp_timeout(timeout_ms: u64) -> (r: Result<(), BackendError>)
    ensures
        timeout_ms == 0 ==> r == Err::<(), BackendError>(BackendError::InvalidTimeout),
        timeout_ms != 0 ==> r is Ok,
{
    if timeout_ms == 0 {
        Err(BackendError::InvalidTimeout)
    } else {
        Ok(())
    }
}

/// A TCP probe succeeds only when the connection was made; a failure or a
/// timeout means the port is not reachable, which is no error.
pub fn tcp_probe_result(outcome: TcpOutcome) -> (r: bool)
    ensures
        r == (outcome == TcpOutcome::Connected),
{
    match outcome {
        TcpOutcome::Connected => true,
        _ => false,
    }
}

/// The URL probed for a protocol, a host and a port.
pub open spec fn probe_url(protocol: Seq<char>, host: Seq<char>, port: u16) -> Seq<char> {
    protocol + "://"@ + host + ":"@ + decimal(port as nat)
}

/// What an HTTP probe does once its arguments passed the checks.
pub enum UrlProbe {
    /// The URL does not parse as one of the requested scheme: the probe fails
    /// without a request.
    Fail,
    /// Send a GET to this URL.
    Get(String),
}

/// The protocols an HTTP probe accepts: lower-case `http` and `https`.
pub open spec fn is_probe_protocol(protocol: Seq<char>) -> bool {
    protocol == "http"@ || protocol == "https"@
}

/// What `check_url` decides before it sends anything.
pub open spec fn check_url_decision(
    protocol: Seq<char>,
    host: Seq<char>,
    port: u16,
    timeout_ms: u64,
    r: Result<UrlProbe, BackendError>,
) -> bool {
    if timeout_ms == 0 {
        r == Err::<UrlProbe, BackendError>(BackendError::InvalidTimeout)
    } else if !is_probe_protocol(protocol) {
        r == Err::<UrlProbe, BackendError>(BackendError::InvalidProtocol)
    } else {
        r matches Ok(p) && probe_of_parse(protocol, url_parse(probe_url(protocol, host, port)), p)
    }
}

/// What a probe does with the parse of its URL: a URL that did not parse, or
/// parsed with another scheme, fails without a request; else its
/// serialization is requested.
pub open spec fn probe_of_parse(protocol: Seq<char>, parsed: Option<ParsedUrlView>, r: UrlProbe) -> bool {
    match parsed {
        None => r is Fail,
        Some(u) => if u.scheme != protocol {
            r is Fail
        } else {
            r matches UrlProbe::Get(s) && s@ == u.serialized
        },
    }
}

/// Decides the probe from the parse of its URL.
pub fn probe_from_parse(protocol: &str, parsed: Option<ParsedUrl>) -> (r: UrlProbe)
    ensures
        probe_of_parse(protocol@, opt_parsed_view(parsed), r),
{
    match parsed {
        None => UrlProbe::Fail,
        Some(parsed) => {
            if !str_eq(parsed.scheme.as_str(), protocol) {
                UrlProbe::Fail
            } else {
                UrlProbe::Get(parsed.serialized)
            }
        },
    }
}

/// The part of `check_url` before the request: a zero timeout and a protocol
/// other than `http`/`https` are caller errors; `PROTOCOL://HOST:PORT` must
/// parse as a URL of that scheme, or the probe fails without a request.
pub fn check_url_plan(protocol: &str, host: &str, port: u16, timeout_ms: u64) -> (r: Result<
    UrlProbe,
    BackendError,
>)
    ensures
        check_url_decision(protocol@, host@, port, timeout_ms, r),
{
    if timeout_ms == 0 {
        return Err(BackendError::InvalidTimeout);
    }
    if !str_eq(protocol, "http") && !str_eq(protocol, "https") {
        return Err(BackendError::InvalidProtocol);
    }
    let mut url = string_of(protocol);
    push_str(&mut url, "://");
    push_str(&mut url, host);
    push_str(&mut url, ":");
    push_decimal(&mut url, port as u64);
    assert(url@ =~= probe_url(protocol@, host@, port));
    Ok(probe_from_parse(protocol, parse_url(url.as_str())))
}

/// A response counts as an available service only when its final status is
/// `2xx`; every `3xx`, `4xx`, `5xx` and other status means the service is not
/// available under this protocol.
pub open spec fn is_available_status(status: u16) -> bool {
    200 <= status && status <= 299
}

/// Reads the final status of the probe's response.
pub fn http_probe_result(status: u16) -> (r: bool)
    ensures
        r == is_available_status(status),
{
    200 <= status && status <= 299
}

/// Only a 2xx final status means a service is available, and the same holds
/// of a starting local web UI: a service asking for credentials (401), a
/// redirect (3xx) or an error status is not available.
pub proof fn law_only_2xx_counts(status: u16)
    ensures
        is_available_status(status) <==> 200 <= status && status <= 299,
        is_ready_status(status) <==> is_available_status(status),
        !is_available_status(401),
        !is_available_status(301) && !is_available_status(302) && !is_available_status(500),
{
}

/// The local web UI of a starting `dsh` is ready only on a 2xx response.
pub open spec fn is_ready_status(status: u16) -> bool {
    200 <= status && status <= 299
}

/// Reads the final status of a readiness probe of the local web UI.
pub fn ready_probe_result(status: u16) -> (r: bool)
    ensures
        r == is_ready_status(status),
{
    200 <= status && status <= 299
}

/// The host as a connection address uses it: `localhost` in any ASCII case
/// becomes `localhost`, an IPv4 address its canonical text; nothing else is a host.
pub open spec fn normalized_host(host: Seq<char>) -> Option<Seq<char>> {
    if eq_ignore_ascii_case(host, "localhost"@) {
        Some("localhost"@)
    } else if is_ipv4(host) {
        Some(ipv4_display(ipv4_octets(host)))
    } else {
        None
    }
}

/// Validates a host and converts it to the text a connection address uses.
pub fn normalize_host(host: &str) -> (r: Result<String, BackendError>)
    ensures
        match normalized_host(host@) {
            Some(h) => r matches Ok(s) && s@ == h,
            None => r == Err::<String, BackendError>(BackendError::InvalidHost),
        },
{
    if eq_ignore_ascii_case_exec(host, "localhost") {
        return Ok(string_of("localhost"));
    }
    match parse_ipv4(host) {
        Some(octets) => Ok(ipv4_string(octets)),
        None => Err(BackendError::InvalidHost),
    }
}

/// The address `connect_remote` answers with.
pub open spec fn remote_address(protocol: Seq<char>, host: Seq<char>, port: u16) -> Seq<char> {
    protocol + "://"@ + host + ":"@ + decimal(port as nat)
}

/// A remote connection that passed its checks: the address to answer with,
/// and the probe to make.
pub struct RemotePlan {
    pub address: String,
    pub probe: UrlProbe,
}

/// The outcome of the checks of `connect_remote`, before any request.
pub open spec fn connect_remote_decision(
    protocol: Seq<char>,
    host: Seq<char>,
    port: u16,
    r: Result<RemotePlan, BackendError>,
) -> bool {
    if port == 0 {
        r == Err::<RemotePlan, BackendError>(BackendError::InvalidPort)
    } else {
        match normalized_host(host) {
            None => r == Err::<RemotePlan, BackendError>(BackendError::InvalidHost),
            Some(h) => if !is_probe_protocol(protocol) {
                r == Err::<RemotePlan, BackendError>(BackendError::InvalidProtocol)
            } else {
                r matches Ok(plan) && plan.address@ == remote_address(protocol, h, port)
                    && check_url_decision(protocol, h, port, REMOTE_PROBE_TIMEOUT_MS, Ok(plan.probe))
            },
        }
    }
}

/// The checks of `connect_remote`: the port must not be zero, the host must be
/// `localhost` or an IPv4 address, the protocol `http` or `https`, checked in
/// that order; then the address and the single probe of that protocol.
pub fn connect_remote(protocol: &str, host: &str, port: u16) -> (r: Result<RemotePlan, BackendError>)
    ensures
        connect_remote_decision(protocol@, host@, port, r),
{
    if port == 0 {
        return Err(BackendError::InvalidPort);
    }
    let host = normalize_host(host)?;
    let probe = check_url_plan(protocol, host.as_str(), port, REMOTE_PROBE_TIMEOUT_MS)?;
    let mut address = string_of(protocol);
    push_str(&mut address, "://");
    push_str(&mut address, host.as_str());
    push_str(&mut address, ":");
    push_decimal(&mut address, port as u64);
    assert(address@ =~= remote_address(protocol@, host@, port));
    Ok(RemotePlan { address, probe })
}

/// The answer of `connect_remote` once its probe is done: the normalized
/// address when the service answered, else `ServiceUnavailable`.
pub fn connect_remote_finish(plan: RemotePlan, available: bool) -> (r: Result<String, BackendError>)
    ensures
        available ==> (r matches Ok(s) && s@ == plan.address@),
        !available ==> r == Err::<String, BackendError>(BackendError::ServiceUnavailable),
{
    if available {
        Ok(plan.address)
    } else {
        Err(BackendError::ServiceUnavailable)
    }
}

/// What a remote host becomes: `localhost` in any letter case becomes the
/// lower-case `localhost`; a dotted-quad IPv4 address is kept as typed (it is
/// already canonical); a domain name, an IPv6 address, a URL or anything else
/// is refused.
pub proof fn law_remote_hosts(host: Seq<char>)
    ensures
        eq_ignore_ascii_case(host, "localhost"@) ==> normalized_host(host) == Some("localhost"@),
        !eq_ignore_ascii_case(host, "localhost"@) && is_ipv4(host) ==> normalized_host(host)
            == Some(host),
        !eq_ignore_ascii_case(host, "localhost"@) && !is_ipv4(host) ==> normalized_host(host)
            is None,
{
    if !eq_ignore_ascii_case(host, "localhost"@) && is_ipv4(host) {
        lemma_ipv4_display_is_input(host);
    }
}

/// Normalizing is stable: the text of an accepted host is accepted again and
/// normalizes to itself. An IPv4 address is kept exactly as typed, since the
/// parser refuses any other spelling of it.
pub proof fn law_normalize_host_idempotent(host: Seq<char>)
    requires
        normalized_host(host) is Some,
    ensures
        normalized_host(normalized_host(host).unwrap()) == normalized_host(host),
        is_ipv4(host) && !eq_ignore_ascii_case(host, "localhost"@) ==> normalized_host(host)
            == Some(host),
{
    reveal_strlit("localhost");
    if eq_ignore_ascii_case(host, "localhost"@) {
        assert(eq_ignore_ascii_case("localhost"@, "localhost"@));
    } else {
        lemma_ipv4_display_is_input(host);
    }
}

} // verus!
