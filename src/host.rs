use vstd::prelude::*;

use crate::text::{chars_of, decimal, push_all, push_decimal, string_from_chars};

verus! {

/// A host name, as a well-formed host parser delivers it: an ASCII domain
/// name (punycode where needed), or the canonical text of an IPv4 or IPv6
/// address (an IPv6 address without brackets).
#[derive(Debug)]
pub enum Host {
    Domain(String),
    IPv4(String),
    IPv6(String),
}

/// The mathematical value of a `Host`.
pub enum HostView {
    Domain(Seq<char>),
    IPv4(Seq<char>),
    IPv6(Seq<char>),
}

impl HostView {
    /// The text of the host name.
    pub open spec fn text(self) -> Seq<char> {
        match self {
            HostView::Domain(t) => t,
            HostView::IPv4(t) => t,
            HostView::IPv6(t) => t,
        }
    }

    /// Whether the host is an IP address.
    pub open spec fn is_ip(self) -> bool {
        !(self is Domain)
    }
}

impl View for Host {
    type V = HostView;

    open spec fn view(&self) -> HostView {
        match self {
            Host::Domain(t) => HostView::Domain(t@),
            Host::IPv4(t) => HostView::IPv4(t@),
            Host::IPv6(t) => HostView::IPv6(t@),
        }
    }
}

impl Clone for Host {
    fn clone(&self) -> (r: Self)
        ensures
            r@ == self@,
    {
        match self {
            Host::Domain(t) => Host::Domain(t.clone()),
            Host::IPv4(t) => Host::IPv4(t.clone()),
            Host::IPv6(t) => Host::IPv6(t.clone()),
        }
    }
}

impl Host {
    /// The text of the host name.
    pub fn text(&self) -> (r: &String)
        ensures
            r@ == self@.text(),
    {
        match self {
            Host::Domain(t) => t,
            Host::IPv4(t) => t,
            Host::IPv6(t) => t,
        }
    }

    /// Whether the host is an IP address.
    pub fn is_ip(&self) -> (r: bool)
        ensures
            r == self@.is_ip(),
    {
        match self {
            Host::Domain(_) => false,
            _ => true,
        }
    }
}

/// A WHOIS server's host name with an optional port.
#[derive(Debug)]
pub struct WhoIsHost {
    pub host: Host,
    pub port: Option<u16>,
}

/// The mathematical value of a `WhoIsHost`.
pub struct WhoIsHostView {
    pub host: HostView,
    pub port: Option<u16>,
}

impl View for WhoIsHost {
    type V = WhoIsHostView;

    open spec fn view(&self) -> WhoIsHostView {
        WhoIsHostView { host: self.host@, port: self.port }
    }
}

/// The address `host:port` to connect to, with `default_port` where the host
/// names no port; an IPv6 address stands in brackets.
pub open spec fn addr_string(h: WhoIsHostView, default_port: u16) -> Seq<char> {
    let port: u16 = match h.port {
        Some(p) => p,
        None => default_port,
    };
    let tail = seq![':'] + decimal(port as nat);
    match h.host {
        HostView::IPv6(t) => seq!['['] + t + seq![']'] + tail,
        _ => h.host.text() + tail,
    }
}

impl Clone for WhoIsHost {
    fn clone(&self) -> (r: Self)
        ensures
            r@ == self@,
    {
        WhoIsHost { host: self.host.clone(), port: self.port }
    }
}

impl WhoIsHost {
    /// The address to connect to, as `host:port`, `[address]:port` for an
    /// IPv6 address; `default_port` is used where the host names no port.
    pub fn to_addr_string(&self, default_port: u16) -> (r: String)
        ensures
            r@ == addr_string(self@, default_port),
    {
        let port: u16 = match self.port {
            Some(p) => p,
            None => default_port,
        };
        let text = chars_of(self.host.text().as_str());
        let mut out: Vec<char> = Vec::new();
        let ipv6 = match &self.host {
            Host::IPv6(_) => true,
            _ => false,
        };
        if ipv6 {
            out.push('[');
        }
        push_all(&mut out, &text);
        if ipv6 {
            out.push(']');
        }
        out.push(':');
        push_decimal(&mut out, port as u64);
        let r = string_from_chars(&out);
        assert(r@ =~= addr_string(self@, default_port));
        r
    }
}

} // verus!
