use vstd::prelude::*;

use crate::error::WhoIsError;
use crate::host::{addr_string, Host, HostView, WhoIsHost, WhoIsHostView};
use crate::referral::{find_referral, referral_target};
use crate::server_value::{
    request_of, server_at, ServerView, WhoIsServerValue, DEFAULT_WHOIS_HOST_PORT,
};
use crate::text::str_eq;
use crate::who_is::{server_for_suffix, DirectoryView, WhoIs};

verus! {

/// The number of referrals followed where the options do not say.
pub const DEFAULT_FOLLOW: u16 = 2;

/// The time limit of each network phase, in milliseconds, where the options
/// do not say.
pub const DEFAULT_TIMEOUT: u64 = 60000;

/// What is looked up: a domain name (ASCII, punycode where needed) or an IP
/// address, with no port.
#[derive(Debug)]
pub struct Target(pub(crate) Host);

impl View for Target {
    type V = HostView;

    closed spec fn view(&self) -> HostView {
        self.0@
    }
}

impl Clone for Target {
    fn clone(&self) -> (r: Self)
        ensures
            r@ == self@,
    {
        Target(self.0.clone())
    }
}

impl Target {
    /// The target `host`, taken as well-formed and without a port.
    pub fn from_host_unchecked(host: Host) -> (r: Target)
        ensures
            r@ == host@,
    {
        Target(host)
    }

    /// The host name or address looked up.
    pub fn host(&self) -> (r: &Host)
        ensures
            r@ == self@,
    {
        &self.0
    }
}

/// How to look up a target.
#[derive(Debug)]
pub struct WhoIsLookupOptions {
    /// The target that you want to lookup.
    pub target: Target,
    /// The WHOIS server to ask first; where it is `None`, the directory
    /// chooses one.
    pub server: Option<WhoIsServerValue>,
    /// The number of referrals to follow at most.
    pub follow: u16,
    /// The time limit of each network phase, in milliseconds; `None` for
    /// none.
    pub timeout: Option<u64>,
}

impl Clone for WhoIsLookupOptions {
    fn clone(&self) -> (r: Self)
        ensures
            r.target@ == self.target@,
            r.server is Some == self.server is Some,
            r.server matches Some(s) ==> s@ == self.server->0@,
            r.follow == self.follow,
            r.timeout == self.timeout,
    {
        let server = match &self.server {
            Some(s) => Some(s.clone()),
            None => None,
        };
        WhoIsLookupOptions {
            target: self.target.clone(),
            server,
            follow: self.follow,
            timeout: self.timeout,
        }
    }
}

impl WhoIsLookupOptions {
    /// The options for `target`: the directory chooses the server, two
    /// referrals are followed at most, and each network phase has sixty
    /// seconds.
    pub fn from_target(target: Target) -> (r: WhoIsLookupOptions)
        ensures
            r.target@ == target@,
            r.server is None,
            r.follow == DEFAULT_FOLLOW,
            r.timeout == Some(DEFAULT_TIMEOUT),
    {
        WhoIsLookupOptions {
            target,
            server: None,
            follow: DEFAULT_FOLLOW,
            timeout: Some(DEFAULT_TIMEOUT),
        }
    }
}

/// The server asked first for `target`: the one given, else the directory's
/// server for IP addresses or for the domain.
pub open spec fn first_server(d: DirectoryView, given: Option<ServerView>, target: HostView) -> Option<
    ServerView,
> {
    match given {
        Some(s) => Some(s),
        None => if target.is_ip() {
            Some(d.ip)
        } else {
            server_for_suffix(d.servers, target.text())
        },
    }
}

/// The mathematical value of a `Lookup`.
pub struct LookupView {
    pub server: ServerView,
    pub text: Seq<char>,
    pub follow: nat,
}

/// A lookup in progress: the server to ask next, the query text, and the
/// number of referrals that may still be followed.
///
/// The caller performs each exchange: it connects to `addr_string()`,
/// sends `request()`, and reads the response to its end. It then asks
/// `referral` whether to go on; if so, it parses the host that comes back
/// and hands the result to `follow_referral`. The last response read is the
/// result of the lookup.
#[derive(Debug)]
pub struct Lookup {
    server: WhoIsServerValue,
    text: String,
    follow: u16,
}

impl View for Lookup {
    type V = LookupView;

    closed spec fn view(&self) -> LookupView {
        LookupView { server: self.server@, text: self.text@, follow: self.follow as nat }
    }
}

/// The host to go on to after a response that was read from `addr`: the one
/// it refers to, unless no referral may be followed any more, or the
/// response has no referral, or it refers to `addr` itself.
pub open spec fn referral_to_follow(follow: nat, addr: Seq<char>, response: Seq<char>) -> Option<
    Seq<char>,
> {
    if follow == 0 {
        None
    } else {
        match referral_target(response) {
            Some(h) => if h == addr {
                None
            } else {
                Some(h)
            },
            None => None,
        }
    }
}

/// The message of the error for a domain for which no server is known.
pub open spec fn no_server_message() -> Seq<char> {
    "No whois server is known for this kind of object."@
}

/// The lookup that `options` start on the directory `d`, if a server is
/// known for its target.
pub open spec fn lookup_start(d: DirectoryView, options: WhoIsLookupOptions) -> Option<LookupView> {
    let given = match options.server {
        Some(s) => Some(s@),
        None => None,
    };
    match first_server(d, given, options.target@) {
        Some(s) => Some(LookupView { server: s, text: options.target@.text(), follow: options.follow as nat }),
        None => None,
    }
}

/// The mathematical value of an optional host.
pub open spec fn host_view(h: Option<WhoIsHost>) -> Option<WhoIsHostView> {
    match h {
        Some(h) => Some(h@),
        None => None,
    }
}

/// The lookup that goes on to the server at `host` (`None` where the
/// referred host is malformed), if a referral may still be followed.
pub open spec fn next_lookup(l: LookupView, host: Option<WhoIsHostView>) -> Option<LookupView> {
    match host {
        Some(h) => if l.follow > 0 {
            Some(LookupView { server: server_at(h), text: l.text, follow: (l.follow - 1) as nat })
        } else {
            None
        },
        None => None,
    }
}

impl WhoIs {
    /// Starts a lookup: the server is the one the options give, else the
    /// server for IP addresses for an address, else the server for the
    /// domain's longest known suffix; the query text is the domain or the
    /// address. A domain for which no server is known is an error.
    pub fn start_lookup(&self, options: &WhoIsLookupOptions) -> (r: Result<Lookup, WhoIsError>)
        ensures
            r is Ok == (lookup_start(self@, *options) is Some),
            r matches Ok(l) ==> Some(l@) == lookup_start(self@, *options),
            r matches Err(e) ==> (e matches WhoIsError::MapError(m) && m@ == no_server_message()),
    {
        let host = options.target.host();
        let server = match &options.server {
            Some(s) => s.clone(),
            None => if host.is_ip() {
                self.ip_server().clone()
            } else {
                match self.get_server_by_tld(host.text().as_str()) {
                    Some(s) => s.clone(),
                    None => {
                        return Err(
                            WhoIsError::MapError(
                                "No whois server is known for this kind of object.",
                            ),
                        );
                    },
                }
            },
        };
        Ok(Lookup { server, text: host.text().clone(), follow: options.follow })
    }
}

impl Lookup {
    /// The server to ask next.
    pub fn server(&self) -> (r: &WhoIsServerValue)
        ensures
            r@ == self@.server,
    {
        &self.server
    }

    /// The query text.
    pub fn text(&self) -> (r: &String)
        ensures
            r@ == self@.text,
    {
        &self.text
    }

    /// The number of referrals that may still be followed.
    pub fn follow_left(&self) -> (r: u16)
        ensures
            r == self@.follow,
    {
        self.follow
    }

    /// The address to connect to for the next exchange.
    pub fn addr_string(&self) -> (r: String)
        ensures
            r@ == addr_string(self@.server.host, DEFAULT_WHOIS_HOST_PORT),
    {
        self.server.addr_string()
    }

    /// The text to send in the next exchange.
    pub fn request(&self) -> (r: String)
        ensures
            r@ == request_of(self@.server, self@.text),
    {
        self.server.request(self.text.as_str())
    }

    /// The host to go on to after `response` was read from `addr`, or `None`
    /// where `response` is the result.
    pub fn referral(&self, addr: &str, response: &str) -> (r: Option<String>)
        ensures
            r is Some == referral_to_follow(self@.follow, addr@, response@) is Some,
            r matches Some(h) ==> h@ == referral_to_follow(self@.follow, addr@, response@)->0,
    {
        if self.follow == 0 {
            return None;
        }
        match find_referral(response) {
            Some(h) => if str_eq(h.as_str(), addr) {
                None
            } else {
                Some(h)
            },
            None => None,
        }
    }

    /// Goes on to the server at `host`, what the host parser made of the host
    /// that `referral` gave (`None` where it is malformed). The answer is
    /// whether there is a next exchange; where there is none the lookup is
    /// unchanged, and the last response is the result.
    pub fn follow_referral(&mut self, host: Option<WhoIsHost>) -> (r: bool)
        ensures
            r == (next_lookup(old(self)@, host_view(host)) is Some),
            r ==> Some(final(self)@) == next_lookup(old(self)@, host_view(host)),
            !r ==> final(self)@ == old(self)@,
    {
        if self.follow == 0 {
            return false;
        }
        match host {
            Some(h) => {
                self.server = WhoIsServerValue::from_host(h);
                self.follow = self.follow - 1;
                true
            },
            None => false,
        }
    }
}

/// Without a server in the options, any IP address is looked up first at the
/// directory's server for IP addresses, with the address as the query text.
pub proof fn lemma_ip_targets_use_ip_server(d: DirectoryView, options: WhoIsLookupOptions)
    requires
        options.server is None,
        options.target@.is_ip(),
    ensures
        lookup_start(d, options) is Some,
        lookup_start(d, options)->0.server == d.ip,
        lookup_start(d, options)->0.text == options.target@.text(),
{
}

/// One exchange of a lookup as it went: the address connected to, the
/// response read, and what the host parser made of the host that the
/// response refers to (`None` where it is malformed).
pub struct Exchange {
    pub addr: Seq<char>,
    pub response: Seq<char>,
    pub host: Option<WhoIsHostView>,
}

/// The lookup after the exchange `x`, where `x` leads to a next one.
pub open spec fn after_exchange(l: LookupView, x: Exchange) -> Option<LookupView> {
    match referral_to_follow(l.follow, x.addr, x.response) {
        Some(_) => next_lookup(l, x.host),
        None => None,
    }
}

/// The number of referrals that the lookup `l` follows when its exchanges go
/// as `trace` says, one after the other.
pub open spec fn referrals_followed(l: LookupView, trace: Seq<Exchange>) -> nat
    decreases trace.len(),
{
    if trace.len() == 0 {
        0
    } else {
        match after_exchange(l, trace[0]) {
            Some(n) => 1 + referrals_followed(n, trace.skip(1)),
            None => 0,
        }
    }
}

/// Whether the exchange `x` refers to another server whose host is
/// well-formed.
pub open spec fn refers_onward(x: Exchange) -> bool {
    &&& referral_target(x.response) is Some
    &&& referral_target(x.response)->0 != x.addr
    &&& x.host is Some
}

/// A lookup follows no more referrals than its options allow, so it ends
/// after at most that many exchanges and one more, whatever the servers
/// answer.
pub proof fn lemma_referrals_bounded(l: LookupView, trace: Seq<Exchange>)
    ensures
        referrals_followed(l, trace) <= l.follow,
    decreases trace.len(),
{
    if trace.len() > 0 {
        if let Some(n) = after_exchange(l, trace[0]) {
            lemma_referrals_bounded(n, trace.skip(1));
        }
    }
}

/// Where every server refers to another, well-formed host, a lookup follows
/// exactly as many referrals as its options allow, and its result is the
/// response of the exchange after the last one followed.
pub proof fn lemma_hop_budget(l: LookupView, trace: Seq<Exchange>)
    requires
        trace.len() > l.follow,
        forall|i: int| 0 <= i < trace.len() ==> refers_onward(#[trigger] trace[i]),
    ensures
        referrals_followed(l, trace) == l.follow,
    decreases trace.len(),
{
    if l.follow > 0 {
        let n = after_exchange(l, trace[0])->0;
        assert(after_exchange(l, trace[0]) is Some);
        assert forall|i: int| 0 <= i < trace.skip(1).len() implies refers_onward(
            #[trigger] trace.skip(1)[i],
        ) by {
            assert(trace.skip(1)[i] == trace[i + 1]);
        }
        lemma_hop_budget(n, trace.skip(1));
    }
}

/// A server whose response refers to the address it was reached at ends the
/// lookup with that response.
pub proof fn lemma_self_referral(l: LookupView, trace: Seq<Exchange>)
    requires
        trace.len() > 0,
        referral_target(trace[0].response) == Some(trace[0].addr),
    ensures
        referrals_followed(l, trace) == 0,
{
}

/// A response whose referral names a malformed host ends the lookup with
/// that response.
pub proof fn lemma_malformed_referral(l: LookupView, trace: Seq<Exchange>)
    requires
        trace.len() > 0,
        trace[0].host is None,
    ensures
        referrals_followed(l, trace) == 0,
{
}

} // verus!
