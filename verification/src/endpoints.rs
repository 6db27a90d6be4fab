//! Derivation of the session's control endpoints from the duplex-channel
//! address.
//!
//! The client is started with one address, the duplex channel's.  The three
//! one-shot control endpoints (clear, resize, scrollback backfill) live on
//! the same host behind plain HTTP: the scheme is substituted (`ws` to
//! `http`, `wss` to `https`, anything else kept), the channel's path, query
//! and fragment are dropped, and each endpoint's own path and query are
//! appended.

use vstd::prelude::*;

use crate::text::{dec_chars, push_dec, str_eq};

verus! {

/// The scheme of the control endpoints for a duplex-channel scheme.
pub open spec fn http_scheme(scheme: Seq<char>) -> Seq<char> {
    if scheme == "ws"@ {
        "http"@
    } else if scheme == "wss"@ {
        "https"@
    } else {
        scheme
    }
}

/// The common prefix of every control endpoint: substituted scheme,
/// separator, and the authority (host, port and any user info) of the
/// duplex-channel address, with its path, query and fragment dropped.
pub open spec fn http_base_chars(scheme: Seq<char>, authority: Seq<char>) -> Seq<char> {
    http_scheme(scheme) + "://"@ + authority
}

/// The clear endpoint: the base followed by `/clear`.
pub open spec fn clear_endpoint_chars(scheme: Seq<char>, authority: Seq<char>) -> Seq<char> {
    http_base_chars(scheme, authority) + "/clear"@
}

/// The resize endpoint for a given terminal size: the base followed by
/// `/resize` with the size in character cells as query parameters.
pub open spec fn resize_endpoint_chars(
    scheme: Seq<char>,
    authority: Seq<char>,
    cols: u16,
    rows: u16,
) -> Seq<char> {
    http_base_chars(scheme, authority) + "/resize?cols="@ + dec_chars(cols as nat) + "&rows="@
        + dec_chars(rows as nat)
}

/// The scrollback-backfill endpoint for a given line count: the base
/// followed by `/raw` with the count as its query parameter.
pub open spec fn raw_endpoint_chars(
    scheme: Seq<char>,
    authority: Seq<char>,
    lines: u64,
) -> Seq<char> {
    http_base_chars(scheme, authority) + "/raw?lines="@ + dec_chars(lines as nat)
}

/// The two components of the duplex-channel address that the control
/// endpoints are derived from.  Immutable for the run's lifetime.
#[derive(Clone, PartialEq, Eq, Debug)]
pub struct EndpointBase {
    /// The duplex-channel address's scheme, e.g. `ws`.
    pub scheme: String,
    /// Everything between `://` and the path: host, optional port, optional
    /// user info.
    pub authority: String,
}

impl EndpointBase {
    pub fn new(scheme: String, authority: String) -> (r: EndpointBase)
        ensures
            r.scheme@ == scheme@,
            r.authority@ == authority@,
    {
        EndpointBase { scheme, authority }
    }

    /// The control endpoints' common prefix.
    pub fn http_base(&self) -> (r: String)
        ensures
            r@ == http_base_chars(self.scheme@, self.authority@),
    {
        let mut s = if str_eq(self.scheme.as_str(), "ws") {
            String::from_str("http")
        } else if str_eq(self.scheme.as_str(), "wss") {
            String::from_str("https")
        } else {
            String::from_str(self.scheme.as_str())
        };
        s.append("://");
        s.append(self.authority.as_str());
        s
    }

    /// The address a remote screen clear is requested at.
    pub fn clear_url(&self) -> (r: String)
        ensures
            r@ == clear_endpoint_chars(self.scheme@, self.authority@),
    {
        let mut s = self.http_base();
        s.append("/clear");
        s
    }

    /// The address a terminal resize is reported to, with the new size as
    /// its query parameters.
    pub fn resize_url(&self, cols: u16, rows: u16) -> (r: String)
        ensures
            r@ == resize_endpoint_chars(self.scheme@, self.authority@, cols, rows),
    {
        let mut s = self.http_base();
        s.append("/resize?cols=");
        push_dec(&mut s, cols as u64);
        s.append("&rows=");
        push_dec(&mut s, rows as u64);
        s
    }

    /// The address the scrollback backfill is fetched from, with the wanted
    /// line count as its query parameter.
    pub fn raw_url(&self, lines: u64) -> (r: String)
        ensures
            r@ == raw_endpoint_chars(self.scheme@, self.authority@, lines),
    {
        let mut s = self.http_base();
        s.append("/raw?lines=");
        push_dec(&mut s, lines);
        s
    }
}

} // verus!
