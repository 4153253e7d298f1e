use vstd::prelude::*;

use crate::config::{object_get, ConfigValue};
use crate::entries::{find_last, is_last, is_last_entry, last_map, lemma_last_map};
use crate::error::WhoIsError;
use crate::host::WhoIsHost;
use crate::server_value::{server_at, server_of, value_error, ServerView, WhoIsServerValue};
use crate::text::{chars_of, push_all, str_eq, string_from_chars};

verus! {

/// The servers of a list of entries, by suffix; where a suffix repeats, its
/// last entry counts.
pub open spec fn servers_map(e: Seq<(String, WhoIsServerValue)>) -> Map<Seq<char>, ServerView> {
    last_map(e).map_values(|v: WhoIsServerValue| v@)
}

/// The configured entries of a directory source: each key but `_` whose
/// value is not null.
pub open spec fn is_listed(cfg: Map<Seq<char>, ConfigValue>, k: Seq<char>) -> bool {
    cfg.contains_key(k) && k != "_"@ && !(cfg[k] is Null)
}

/// The server for IP addresses that a directory source names: the value of
/// `ip` in the object under `_`.
pub open spec fn ip_of(cfg: Map<Seq<char>, ConfigValue>) -> Option<ServerView> {
    if !cfg.contains_key("_"@) {
        None
    } else {
        match cfg["_"@] {
            ConfigValue::Object(e) => {
                let m = last_map(e@);
                if m.contains_key("ip"@) {
                    server_of(m["ip"@])
                } else {
                    None
                }
            },
            _ => None,
        }
    }
}

/// The message of the error for a source without a well-formed server for IP
/// addresses, if it has none.
pub open spec fn ip_error(cfg: Map<Seq<char>, ConfigValue>) -> Option<Seq<char>> {
    if !cfg.contains_key("_"@) {
        Some("Cannot find `_` in the server list."@)
    } else {
        match cfg["_"@] {
            ConfigValue::Object(e) => {
                let m = last_map(e@);
                if !m.contains_key("ip"@) {
                    Some("Cannot find `ip` in the `_` object in the server list."@)
                } else if m["ip"@] is Null {
                    Some("`ip` in the `_` object in the server list is null."@)
                } else if server_of(m["ip"@]) is None {
                    Some(value_error(m["ip"@]))
                } else {
                    None
                }
            },
            _ => Some("`_` in the server list is not an object."@),
        }
    }
}

/// Whether `msg` is the message of an error for the source `cfg`: that of
/// its server for IP addresses where that is malformed, else that of one of
/// its malformed entries.
pub open spec fn config_error(cfg: Map<Seq<char>, ConfigValue>, msg: Seq<char>) -> bool {
    match ip_error(cfg) {
        Some(m) => msg == m,
        None => exists|k: Seq<char>|
            #[trigger] is_listed(cfg, k) && server_of(cfg[k]) is None && msg == value_error(cfg[k]),
    }
}

/// Whether a directory source is well-formed: its server for IP addresses
/// and each of its configured entries describe a server.
pub open spec fn config_ok(cfg: Map<Seq<char>, ConfigValue>) -> bool {
    &&& ip_of(cfg) is Some
    &&& forall|k: Seq<char>| #[trigger] is_listed(cfg, k) ==> server_of(cfg[k]) is Some
}

/// The servers by suffix that a well-formed directory source describes.
pub open spec fn suffix_servers(cfg: Map<Seq<char>, ConfigValue>) -> Map<Seq<char>, ServerView> {
    Map::new(|k: Seq<char>| is_listed(cfg, k), |k: Seq<char>| server_of(cfg[k])->0)
}

/// The index of the first `.` at or after `i`, or the length of `s`.
pub open spec fn dot_index(s: Seq<char>, i: int) -> int
    decreases s.len() - i,
{
    if i < 0 || i >= s.len() {
        s.len() as int
    } else if s[i] == '.' {
        i
    } else {
        dot_index(s, i + 1)
    }
}

/// Where the first `.` at or after `i` stands.
pub proof fn lemma_dot_index(s: Seq<char>, i: int)
    requires
        0 <= i <= s.len(),
    ensures
        i <= dot_index(s, i) <= s.len(),
        dot_index(s, i) < s.len() ==> s[dot_index(s, i)] == '.',
        forall|j: int| i <= j < dot_index(s, i) ==> s[j] != '.',
    decreases s.len() - i,
{
    if i < s.len() && s[i] != '.' {
        lemma_dot_index(s, i + 1);
    }
}

/// `s` without its first label: what follows its first `.`, or the empty
/// string where there is none.
pub open spec fn strip_label(s: Seq<char>) -> Seq<char> {
    let d = dot_index(s, 0);
    if d < s.len() {
        s.skip(d + 1)
    } else {
        seq![]
    }
}

/// The server for a domain: that of `s` itself, else of the suffix that
/// remains once its first label is dropped, and so on down to the empty
/// suffix.
pub open spec fn server_for_suffix(m: Map<Seq<char>, ServerView>, s: Seq<char>) -> Option<
    ServerView,
>
    decreases s.len(),
{
    if m.contains_key(s) {
        Some(m[s])
    } else if s.len() == 0 {
        None
    } else {
        proof {
            lemma_dot_index(s, 0);
        }
        server_for_suffix(m, strip_label(s))
    }
}

/// The suffixes that a DNS search probes for `s`, in order: the same sequence
/// as the lookup of a server, `s` first and then each suffix left once
/// another label is dropped from the front, up to the first that the
/// directory already serves (not probed) or the empty one (not probed).
pub open spec fn probe_suffixes(m: Map<Seq<char>, ServerView>, s: Seq<char>) -> Seq<Seq<char>>
    decreases s.len(),
{
    if s.len() == 0 || m.contains_key(s) {
        seq![]
    } else {
        proof {
            lemma_dot_index(s, 0);
        }
        seq![s] + probe_suffixes(m, strip_label(s))
    }
}

/// The mathematical value of a `WhoIs`: its servers by suffix, and its
/// server for IP addresses.
pub struct DirectoryView {
    pub servers: Map<Seq<char>, ServerView>,
    pub ip: ServerView,
}

/// A directory of WHOIS servers: one server for each configured domain
/// suffix (the empty suffix standing for any domain), and one for IP
/// addresses.
#[derive(Debug)]
pub struct WhoIs {
    map: Vec<(String, WhoIsServerValue)>,
    ip: WhoIsServerValue,
}

impl View for WhoIs {
    type V = DirectoryView;

    closed spec fn view(&self) -> DirectoryView {
        DirectoryView { servers: servers_map(self.map@), ip: self.ip@ }
    }
}

fn strip_label_chars(s: &Vec<char>) -> (r: Vec<char>)
    ensures
        r@ == strip_label(s@),
{
    proof {
        lemma_dot_index(s@, 0);
    }
    let mut d: usize = 0;
    while d < s.len() && s[d] != '.'
        invariant
            d <= s.len(),
            dot_index(s@, 0) == dot_index(s@, d as int),
        decreases s.len() - d,
    {
        d = d + 1;
    }
    let mut r: Vec<char> = Vec::new();
    if d < s.len() {
        let mut i: usize = d + 1;
        while i < s.len()
            invariant
                d + 1 <= i <= s.len(),
                r@ == s@.subrange(d + 1, i as int),
            decreases s.len() - i,
        {
            r.push(s[i]);
            i = i + 1;
            assert(r@ =~= s@.subrange(d + 1, i as int));
        }
        assert(r@ =~= s@.skip(d + 1));
    } else {
        assert(r@ =~= seq![]);
    }
    r
}

impl WhoIs {
    /// A directory with no suffix entries, whose server for IP addresses is
    /// at `host`.
    pub fn from_host(host: WhoIsHost) -> (r: WhoIs)
        ensures
            r@.servers == Map::<Seq<char>, ServerView>::empty(),
            r@.ip == server_at(host@),
    {
        WhoIs { map: Vec::new(), ip: WhoIsServerValue::from_host(host) }
    }

    /// The directory that a directory source describes. The source maps each
    /// suffix to a server (a host string or an object), and holds under `_`
    /// an object whose `ip` names the server for IP addresses. Entries whose
    /// value is null are left out. A source without a well-formed server for
    /// IP addresses, or with a malformed entry, is an error.
    pub fn from_config(config: &Vec<(String, ConfigValue)>) -> (r: Result<WhoIs, WhoIsError>)
        ensures
            r is Ok == config_ok(last_map(config@)),
            r matches Ok(w) ==> w@.servers == suffix_servers(last_map(config@)) && w@.ip
                == ip_of(last_map(config@))->0,
            r matches Err(e) ==> (e matches WhoIsError::MapError(m) && config_error(
                last_map(config@),
                m@,
            )),
    {
        let ghost cfg = last_map(config@);
        proof {
            lemma_last_map(config@);
        }
        let ip = match object_get(config, "_") {
            Some(ConfigValue::Object(server)) => match object_get(server, "ip") {
                Some(ConfigValue::Null) => {
                    return Err(
                        WhoIsError::MapError("`ip` in the `_` object in the server list is null."),
                    );
                },
                Some(server) => match WhoIsServerValue::from_value(server) {
                    Ok(s) => s,
                    Err(e) => {
                        return Err(e);
                    },
                },
                None => {
                    return Err(
                        WhoIsError::MapError(
                            "Cannot find `ip` in the `_` object in the server list.",
                        ),
                    );
                },
            },
            Some(_) => {
                return Err(WhoIsError::MapError("`_` in the server list is not an object."));
            },
            None => {
                return Err(WhoIsError::MapError("Cannot find `_` in the server list."));
            },
        };
        assert(ip_error(cfg) is None);
        let mut map: Vec<(String, WhoIsServerValue)> = Vec::new();
        let mut i: usize = 0;
        while i < config.len()
            invariant
                i <= config.len(),
                cfg == last_map(config@),
                ip_error(cfg) is None,
                forall|j: int|
                    0 <= j < config.len() && is_last(config@, j) ==> #[trigger] cfg[config@[j].0@]
                        == config@[j].1,
                forall|k: Seq<char>|
                    #[trigger] cfg.contains_key(k) ==> exists|j: int|
                        0 <= j < config.len() && #[trigger] config@[j].0@ == k && is_last(config@, j),
                forall|j: int| 0 <= j < config.len() ==> #[trigger] cfg.contains_key(config@[j].0@),
                forall|k: Seq<char>|
                    #[trigger] servers_map(map@).contains_key(k) <==> (is_listed(cfg, k) && exists|j: int|
                        0 <= j < i && #[trigger] config@[j].0@ == k && is_last(config@, j)),
                forall|k: Seq<char>|
                    #[trigger] servers_map(map@).contains_key(k) ==> server_of(cfg[k]) == Some(
                        servers_map(map@)[k],
                    ),
            decreases config.len() - i,
        {
            let ghost key = config@[i as int].0@;
            let ghost old_map = map@;
            let last = is_last_entry(config, i);
            let take = !str_eq(config[i].0.as_str(), "_") && last && !matches!(
                config[i].1,
                ConfigValue::Null
            );
            assert(take ==> is_listed(cfg, key));
            if take {
                match WhoIsServerValue::from_value(&config[i].1) {
                    Ok(s) => {
                        map.push((config[i].0.clone(), s));
                        assert(map@.drop_last() == old_map);
                        assert(servers_map(map@) == servers_map(old_map).insert(key, s@));
                    },
                    Err(e) => {
                        assert(is_listed(cfg, key) && server_of(cfg[key]) is None);
                        return Err(e);
                    },
                }
            }
            proof {
                assert(!take ==> !(is_listed(cfg, key) && is_last(config@, i as int)));
                assert forall|k: Seq<char>|
                    #[trigger] servers_map(map@).contains_key(k) <==> (is_listed(cfg, k)
                        && exists|j: int|
                        0 <= j < i + 1 && #[trigger] config@[j].0@ == k && is_last(
                            config@,
                            j,
                        )) by {
                    if k != key {
                        if exists|j: int|
                            0 <= j < i + 1 && #[trigger] config@[j].0@ == k && is_last(
                                config@,
                                j,
                            ) {
                            let j = choose|j: int|
                                0 <= j < i + 1 && #[trigger] config@[j].0@ == k && is_last(
                                    config@,
                                    j,
                                );
                            assert(j < i);
                        }
                    } else {
                        if exists|j: int|
                            0 <= j < i && #[trigger] config@[j].0@ == k && is_last(
                                config@,
                                j,
                            ) {
                            let j = choose|j: int|
                                0 <= j < i && #[trigger] config@[j].0@ == k && is_last(
                                    config@,
                                    j,
                                );
                            assert(config@[i as int].0@ == config@[j].0@);
                            assert(false);
                        }
                    }
                }
            }
            i = i + 1;
        }
        assert forall|k: Seq<char>| #[trigger] is_listed(cfg, k) implies server_of(cfg[k]) is Some
            && servers_map(map@).contains_key(k) by {
            let j = choose|j: int|
                0 <= j < config.len() && #[trigger] config@[j].0@ == k && is_last(config@, j);
            assert(servers_map(map@).contains_key(k));
        }
        assert(config_ok(cfg));
        assert(ip_error(cfg) is None);
        assert(servers_map(map@) =~= suffix_servers(cfg));
        Ok(WhoIs { map, ip })
    }
}

impl Clone for WhoIs {
    fn clone(&self) -> (r: Self)
        ensures
            r@ == self@,
    {
        let mut map: Vec<(String, WhoIsServerValue)> = Vec::new();
        let mut i: usize = 0;
        while i < self.map.len()
            invariant
                i <= self.map.len(),
                map.len() == i,
                forall|j: int|
                    0 <= j < i ==> #[trigger] map@[j].0@ == self.map@[j].0@ && map@[j].1@
                        == self.map@[j].1@,
            decreases self.map.len() - i,
        {
            let k = self.map[i].0.clone();
            let v = self.map[i].1.clone();
            let ghost before = map@;
            map.push((k, v));
            assert forall|j: int| 0 <= j < i + 1 implies #[trigger] map@[j].0@ == self.map@[j].0@
                && map@[j].1@ == self.map@[j].1@ by {
                if j < i {
                    assert(map@[j] == before[j]);
                }
            }
            i = i + 1;
        }
        proof {
            lemma_servers_map_views(map@, self.map@);
        }
        WhoIs { map, ip: self.ip.clone() }
    }
}

/// Entries with the same suffixes and servers, one by one, make the same map.
proof fn lemma_servers_map_views(a: Seq<(String, WhoIsServerValue)>, b: Seq<(String, WhoIsServerValue)>)
    requires
        a.len() == b.len(),
        forall|j: int| 0 <= j < a.len() ==> #[trigger] a[j].0@ == b[j].0@ && a[j].1@ == b[j].1@,
    ensures
        servers_map(a) == servers_map(b),
{
    lemma_last_map(a);
    lemma_last_map(b);
    assert forall|k: Seq<char>| #[trigger] last_map(a).contains_key(k) implies last_map(
        b,
    ).contains_key(k) && last_map(a)[k]@ == last_map(b)[k]@ by {
        let i = choose|i: int| 0 <= i < a.len() && #[trigger] a[i].0@ == k && is_last(a, i);
        assert(b[i].0@ == k);
        assert forall|j: int| i < j < b.len() implies #[trigger] b[j].0@ != b[i].0@ by {
            assert(a[j].0@ != a[i].0@);
        }
    }
    assert forall|k: Seq<char>| #[trigger] last_map(b).contains_key(k) implies last_map(
        a,
    ).contains_key(k) by {
        let i = choose|i: int| 0 <= i < b.len() && #[trigger] b[i].0@ == k;
        assert(a[i].0@ == k);
    }
    assert(servers_map(a) =~= servers_map(b));
}

impl WhoIs {
    /// The index of the last entry for `key`, if any.
    fn index_of(&self, key: &Vec<char>) -> (r: Option<usize>)
        ensures
            r is None ==> !self@.servers.contains_key(key@),
            r matches Some(i) ==> i < self.map.len() && self@.servers.contains_key(key@)
                && self@.servers[key@] == self.map@[i as int].1@,
    {
        find_last(&self.map, key)
    }

    /// The server for the domain `tld`: that of the longest suffix of `tld`,
    /// dropping whole labels from the front down to the empty suffix, that
    /// the directory holds.
    pub fn get_server_by_tld(&self, tld: &str) -> (r: Option<&WhoIsServerValue>)
        ensures
            r is None ==> server_for_suffix(self@.servers, tld@) is None,
            r matches Some(s) ==> server_for_suffix(self@.servers, tld@) == Some(s@),
    {
        let mut cur = chars_of(tld);
        loop
            invariant
                server_for_suffix(self@.servers, tld@) == server_for_suffix(self@.servers, cur@),
            decreases cur.len(),
        {
            match self.index_of(&cur) {
                Some(i) => {
                    return Some(&self.map[i].1);
                },
                None => {},
            }
            if cur.len() == 0 {
                return None;
            }
            proof {
                lemma_dot_index(cur@, 0);
            }
            cur = strip_label_chars(&cur);
        }
    }

    /// The server for IP addresses.
    pub fn ip_server(&self) -> (r: &WhoIsServerValue)
        ensures
            r@ == self@.ip,
    {
        &self.ip
    }

    /// The configured suffixes, each once.
    pub fn suffixes(&self) -> (r: Vec<String>)
        ensures
            forall|k: Seq<char>|
                self@.servers.contains_key(k) <==> exists|i: int|
                    0 <= i < r.len() && #[trigger] r@[i]@ == k,
            forall|i: int, j: int| 0 <= i < j < r.len() ==> r@[i]@ != r@[j]@,
    {
        proof {
            lemma_last_map(self.map@);
        }
        let mut r: Vec<String> = Vec::new();
        let ghost mut src: Seq<int> = seq![];
        let mut i: usize = 0;
        while i < self.map.len()
            invariant
                i <= self.map.len(),
                src.len() == r.len(),
                forall|t: int|
                    0 <= t < r.len() ==> 0 <= #[trigger] src[t] < i && is_last(
                        self.map@,
                        src[t],
                    ) && r@[t]@ == self.map@[src[t]].0@,
                forall|j: int|
                    0 <= j < i && is_last(self.map@, j) ==> exists|t: int|
                        0 <= t < r.len() && #[trigger] r@[t]@ == self.map@[j].0@,
                forall|a: int, b: int| 0 <= a < b < r.len() ==> r@[a]@ != r@[b]@,
            decreases self.map.len() - i,
        {
            let ghost old_r = r@;
            let ghost old_src = src;
            let last = is_last_entry(&self.map, i);
            if last {
                let k = self.map[i].0.clone();
                assert forall|t: int| 0 <= t < old_r.len() implies old_r[t]@ != k@ by {
                    let j = old_src[t];
                    assert(self.map@[i as int].0@ != self.map@[j].0@);
                }
                r.push(k);
                proof {
                    src = src.push(i as int);
                }
            }
            proof {
                assert forall|j: int|
                    0 <= j < i + 1 && is_last(self.map@, j) implies exists|t: int|
                        0 <= t < r.len() && #[trigger] r@[t]@ == self.map@[j].0@ by {
                    if j < i {
                        let t = choose|t: int|
                            0 <= t < old_r.len() && #[trigger] old_r[t]@ == self.map@[j].0@;
                        assert(r@[t] == old_r[t]);
                    } else {
                        assert(r@[r.len() - 1]@ == self.map@[j].0@);
                    }
                }
            }
            i = i + 1;
        }
        proof {
            assert forall|k: Seq<char>|
                self@.servers.contains_key(k) <==> exists|t: int|
                    0 <= t < r.len() && #[trigger] r@[t]@ == k by {
                if self@.servers.contains_key(k) {
                    let j = choose|j: int|
                        0 <= j < self.map.len() && #[trigger] self.map@[j].0@ == k
                            && is_last(self.map@, j);
                    assert(self.map@[j].0@ == k);
                }
                if exists|t: int| 0 <= t < r.len() && #[trigger] r@[t]@ == k {
                    let t = choose|t: int| 0 <= t < r.len() && #[trigger] r@[t]@ == k;
                    assert(self.map@[src[t]].0@ == k);
                }
            }
        }
        r
    }

    /// Sets the server for `suffix`, in place of any it had.
    pub fn insert_server(&mut self, suffix: String, server: WhoIsServerValue)
        ensures
            final(self)@.servers == old(self)@.servers.insert(suffix@, server@),
            final(self)@.ip == old(self)@.ip,
    {
        let ghost old_map = self.map@;
        self.map.push((suffix, server));
        assert(self.map@.drop_last() == old_map);
    }

    /// The suffixes of `tld` to look up in DNS for a server, in order: `tld`
    /// itself, then each suffix left once another label is dropped from the
    /// front, up to the first that the directory already serves or the empty
    /// one, neither of which is looked up.
    pub fn srv_probe_suffixes(&self, tld: &str) -> (r: Vec<String>)
        ensures
            r@.map_values(|s: String| s@) == probe_suffixes(self@.servers, tld@),
    {
        let mut cur = chars_of(tld);
        let mut r: Vec<String> = Vec::new();
        loop
            invariant
                r@.map_values(|s: String| s@) + probe_suffixes(self@.servers, cur@)
                    == probe_suffixes(self@.servers, tld@),
            decreases cur.len(),
        {
            let known = self.index_of(&cur);
            if known.is_some() || cur.len() == 0 {
                assert(probe_suffixes(self@.servers, cur@) == Seq::<Seq<char>>::empty());
                assert(r@.map_values(|s: String| s@) + Seq::<Seq<char>>::empty() =~= r@.map_values(
                    |s: String| s@,
                ));
                return r;
            }
            let ghost before = r@.map_values(|s: String| s@);
            r.push(string_from_chars(&cur));
            proof {
                lemma_dot_index(cur@, 0);
            }
            let next = strip_label_chars(&cur);
            assert(r@.map_values(|s: String| s@) =~= before.push(cur@));
            assert(before.push(cur@) + probe_suffixes(self@.servers, next@) =~= before + (seq![cur@]
                + probe_suffixes(self@.servers, next@)));
            cur = next;
        }
    }

    /// Takes a server found in DNS for `suffix`: where its host is
    /// well-formed, it becomes the server for `suffix` and the answer is
    /// `true`; otherwise the directory is unchanged and the answer `false`.
    pub fn accept_srv_answer(&mut self, suffix: String, host: Option<WhoIsHost>) -> (r: bool)
        ensures
            r == host is Some,
            final(self)@.ip == old(self)@.ip,
            host matches Some(h) ==> final(self)@.servers == old(self)@.servers.insert(
                suffix@,
                server_at(h@),
            ),
            host is None ==> final(self)@.servers == old(self)@.servers,
    {
        match host {
            Some(h) => {
                self.insert_server(suffix, WhoIsServerValue::from_host(h));
                true
            },
            None => false,
        }
    }
}

/// The DNS name under which a WHOIS server for `suffix` is published as an
/// SRV record: `_nicname._tcp.<suffix>.`.
pub open spec fn srv_name_of(suffix: Seq<char>) -> Seq<char> {
    "_nicname._tcp."@ + suffix + seq!['.']
}

/// The DNS name of the SRV record of a WHOIS server for `suffix`.
pub fn srv_name(suffix: &str) -> (r: String)
    ensures
        r@ == srv_name_of(suffix@),
{
    let mut out = chars_of("_nicname._tcp.");
    let s = chars_of(suffix);
    push_all(&mut out, &s);
    out.push('.');
    string_from_chars(&out)
}

/// The host named by the target of an SRV record: the target without the
/// dot that ends a fully qualified name.
pub open spec fn srv_target_host_of(target: Seq<char>) -> Seq<char> {
    if target.len() > 0 && target.last() == '.' {
        target.drop_last()
    } else {
        target
    }
}

/// The host string of an SRV record's target.
pub fn srv_target_host(target: &str) -> (r: String)
    ensures
        r@ == srv_target_host_of(target@),
{
    let mut t = chars_of(target);
    if t.len() > 0 && t[t.len() - 1] == '.' {
        t.pop();
    }
    string_from_chars(&t)
}


/// The suffixes that a directory built from a source holds, as its
/// `suffixes` lists them, are exactly the keys of the source but `_` whose
/// value is not null.
pub proof fn lemma_config_round_trip(
    config: Seq<(String, ConfigValue)>,
    d: DirectoryView,
    keys: Seq<String>,
)
    requires
        d.servers == suffix_servers(last_map(config)),
        forall|k: Seq<char>|
            d.servers.contains_key(k) <==> exists|i: int|
                0 <= i < keys.len() && #[trigger] keys[i]@ == k,
    ensures
        forall|k: Seq<char>|
            (exists|i: int| 0 <= i < keys.len() && #[trigger] keys[i]@ == k) <==> (k != "_"@
                && (exists|j: int| 0 <= j < config.len() && #[trigger] config[j].0@ == k)
                && !(last_map(config)[k] is Null)),
{
    lemma_last_map(config);
    assert forall|k: Seq<char>|
        (exists|i: int| 0 <= i < keys.len() && #[trigger] keys[i]@ == k) <==> (k != "_"@ && (exists|
            j: int,
        | 0 <= j < config.len() && #[trigger] config[j].0@ == k) && !(last_map(config)[k] is Null)) by {
        assert(d.servers.contains_key(k) == is_listed(last_map(config), k));
    }
}

/// A source without `_`, or whose `_` is an object without `ip`, does not
/// make a directory.
pub proof fn lemma_missing_ip(cfg: Map<Seq<char>, ConfigValue>)
    requires
        !cfg.contains_key("_"@) || (cfg["_"@] matches ConfigValue::Object(e)
            && !last_map(e@).contains_key("ip"@)),
    ensures
        !config_ok(cfg),
{
}

} // verus!
