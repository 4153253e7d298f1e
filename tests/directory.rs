use whois_rust::config::ConfigValue;
use whois_rust::who_is::{srv_name, srv_target_host};
use whois_rust::{Host, Target, WhoIs, WhoIsError, WhoIsHost, WhoIsLookupOptions, WhoIsServerValue};

fn domain_host(name: &str) -> WhoIsHost {
    WhoIsHost { host: Host::Domain(name.to_string()), port: None }
}

fn host_str(name: &str) -> ConfigValue {
    ConfigValue::Str { text: name.to_string(), host: Some(domain_host(name)) }
}

fn bad_str(text: &str) -> ConfigValue {
    ConfigValue::Str { text: text.to_string(), host: None }
}

fn text_str(text: &str) -> ConfigValue {
    ConfigValue::Str { text: text.to_string(), host: None }
}

fn object(entries: Vec<(&str, ConfigValue)>) -> ConfigValue {
    ConfigValue::Object(entries.into_iter().map(|(k, v)| (k.to_string(), v)).collect())
}

fn config(entries: Vec<(&str, ConfigValue)>) -> Vec<(String, ConfigValue)> {
    entries.into_iter().map(|(k, v)| (k.to_string(), v)).collect()
}

fn ip_entry(name: &str) -> ConfigValue {
    object(vec![("ip", host_str(name))])
}

fn host_name(s: &WhoIsServerValue) -> String {
    s.host.host.text().clone()
}

fn domain_target(name: &str) -> WhoIsLookupOptions {
    WhoIsLookupOptions::from_target(Target::from_host_unchecked(Host::Domain(name.to_string())))
}

fn is_map_error<T>(r: &Result<T, WhoIsError>) -> bool {
    matches!(r, Err(WhoIsError::MapError(_)))
}

fn message<T>(r: Result<T, WhoIsError>) -> &'static str {
    match r {
        Err(WhoIsError::MapError(m)) => m,
        _ => panic!("expected a directory error"),
    }
}

#[test]
fn suffix_matching_selects_specific_catch_all_and_ip() {
    let who = WhoIs::from_config(&config(vec![
        ("org", host_str("a.example")),
        ("", host_str("b.example")),
        ("_", ip_entry("c.example")),
    ]))
    .unwrap();
    assert_eq!(host_name(who.get_server_by_tld("magiclen.org").unwrap()), "a.example");
    assert_eq!(host_name(who.get_server_by_tld("example.xyz").unwrap()), "b.example");
    assert_eq!(host_name(who.ip_server()), "c.example");

    let v4 = WhoIsLookupOptions::from_target(Target::from_host_unchecked(Host::IPv4(
        "66.42.43.17".to_string(),
    )));
    let l = who.start_lookup(&v4).unwrap();
    assert_eq!(host_name(l.server()), "c.example");
    let v6 = WhoIsLookupOptions::from_target(Target::from_host_unchecked(Host::IPv6(
        "fe80::5400:1ff:feaf:b71".to_string(),
    )));
    let l = who.start_lookup(&v6).unwrap();
    assert_eq!(host_name(l.server()), "c.example");
    assert_eq!(l.request(), "fe80::5400:1ff:feaf:b71\r\n");
}

#[test]
fn longest_suffix_wins() {
    let who = WhoIs::from_config(&config(vec![
        ("uk", host_str("uk.example")),
        ("co.uk", host_str("co-uk.example")),
        ("_", ip_entry("ip.example")),
    ]))
    .unwrap();
    assert_eq!(host_name(who.get_server_by_tld("example.co.uk").unwrap()), "co-uk.example");
    assert_eq!(host_name(who.get_server_by_tld("example.anything.uk").unwrap()), "uk.example");
    assert_eq!(host_name(who.get_server_by_tld("co.uk").unwrap()), "co-uk.example");
    assert!(who.get_server_by_tld("example.com").is_none());
    assert!(who.get_server_by_tld("").is_none());
}

#[test]
fn unknown_domain_without_catch_all_is_an_error() {
    let who = WhoIs::from_config(&config(vec![
        ("org", host_str("a.example")),
        ("_", ip_entry("ip.example")),
    ]))
    .unwrap();
    assert!(is_map_error(&who.start_lookup(&domain_target("example.com"))));
    let mut opts = domain_target("example.com");
    opts.server = Some(WhoIsServerValue::from_host(domain_host("given.example")));
    let l = who.start_lookup(&opts).unwrap();
    assert_eq!(host_name(l.server()), "given.example");
}

#[test]
fn suffixes_round_trip_without_null_entries() {
    let who = WhoIs::from_config(&config(vec![
        ("org", host_str("a.example")),
        ("net", ConfigValue::Null),
        ("", host_str("b.example")),
        ("com", object(vec![("host", host_str("c.example"))])),
        ("_", ip_entry("ip.example")),
    ]))
    .unwrap();
    let mut keys = who.suffixes();
    keys.sort();
    assert_eq!(keys, vec!["".to_string(), "com".to_string(), "org".to_string()]);
    assert!(who.get_server_by_tld("example.net").is_some());
    assert_eq!(host_name(who.get_server_by_tld("example.net").unwrap()), "b.example");
}

#[test]
fn repeated_key_takes_the_last_value() {
    let who = WhoIs::from_config(&config(vec![
        ("org", host_str("first.example")),
        ("org", host_str("second.example")),
        ("net", host_str("n.example")),
        ("net", ConfigValue::Null),
        ("_", ip_entry("ip.example")),
    ]))
    .unwrap();
    assert_eq!(who.suffixes(), vec!["org".to_string()]);
    assert_eq!(host_name(who.get_server_by_tld("x.org").unwrap()), "second.example");
}

#[test]
fn missing_ip_entry_fails() {
    assert!(is_map_error(&WhoIs::from_config(&config(vec![("org", host_str("a.example"))]))));
    assert!(is_map_error(&WhoIs::from_config(&config(vec![
        ("org", host_str("a.example")),
        ("_", object(vec![])),
    ]))));
    assert!(is_map_error(&WhoIs::from_config(&config(vec![("_", host_str("a.example"))]))));
    assert!(is_map_error(&WhoIs::from_config(&config(vec![(
        "_",
        object(vec![("ip", ConfigValue::Null)])
    )]))));
    assert!(is_map_error(&WhoIs::from_config(&config(vec![(
        "_",
        object(vec![("ip", bad_str("not a host"))])
    )]))));
}

#[test]
fn malformed_entries_fail() {
    let ip = || ("_", ip_entry("ip.example"));
    assert!(is_map_error(&WhoIs::from_config(&config(vec![ip(), ("org", ConfigValue::Bool(true))]))));
    assert!(is_map_error(&WhoIs::from_config(&config(vec![ip(), ("org", bad_str("x y"))]))));
    assert!(is_map_error(&WhoIs::from_config(&config(vec![ip(), ("org", ConfigValue::Other)]))));
    assert!(is_map_error(&WhoIs::from_config(&config(vec![
        ip(),
        ("org", object(vec![("query", text_str("$addr\r\n"))]))
    ]))));
    assert!(is_map_error(&WhoIs::from_config(&config(vec![
        ip(),
        ("org", object(vec![("host", host_str("a.example")), ("query", ConfigValue::Bool(false))]))
    ]))));
    assert!(is_map_error(&WhoIs::from_config(&config(vec![
        ip(),
        ("org", object(vec![("host", host_str("a.example")), ("punycode", text_str("no"))]))
    ]))));
    assert!(WhoIs::from_config(&config(vec![ip(), ("org", ConfigValue::Null)])).is_ok());
}

#[test]
fn server_value_from_object_reads_all_fields() {
    let v = object(vec![
        ("host", host_str("whois.arin.net")),
        ("query", text_str("n + $addr\r\n")),
        ("punycode", ConfigValue::Bool(false)),
    ]);
    let s = WhoIsServerValue::from_value(&v).unwrap();
    assert_eq!(host_name(&s), "whois.arin.net");
    assert_eq!(s.query.as_deref(), Some("n + $addr\r\n"));
    assert!(!s.punycode);
    let s = WhoIsServerValue::from_value(&host_str("whois.pir.org")).unwrap();
    assert_eq!(s.query, None);
    assert!(s.punycode);
}

#[test]
fn end_to_end_selection_and_request() {
    let who = WhoIs::from_config(&config(vec![
        ("org", object(vec![("host", host_str("whois.pir.org"))])),
        ("", host_str("whois.ripe.net")),
        (
            "_",
            object(vec![(
                "ip",
                object(vec![
                    ("host", host_str("whois.arin.net")),
                    ("query", text_str("n + $addr\r\n")),
                ]),
            )]),
        ),
    ]))
    .unwrap();
    let l = who.start_lookup(&domain_target("magiclen.org")).unwrap();
    assert_eq!(l.addr_string(), "whois.pir.org:43");
    assert_eq!(l.request(), "magiclen.org\r\n");
    assert_eq!(l.follow_left(), 2);

    let ip = WhoIsLookupOptions::from_target(Target::from_host_unchecked(Host::IPv4(
        "8.8.8.8".to_string(),
    )));
    let l = who.start_lookup(&ip).unwrap();
    assert_eq!(l.addr_string(), "whois.arin.net:43");
    assert_eq!(l.request(), "n + 8.8.8.8\r\n");
}

#[test]
fn from_host_has_only_the_ip_server() {
    let who = WhoIs::from_host(domain_host("whois.arin.net"));
    assert!(who.suffixes().is_empty());
    assert_eq!(host_name(who.ip_server()), "whois.arin.net");
    assert!(who.get_server_by_tld("lotteryusa.us").is_none());
}

#[test]
fn srv_probing_and_augmentation() {
    let mut who = WhoIs::from_host(domain_host("whois.arin.net"));
    assert_eq!(
        who.srv_probe_suffixes("www.lotteryusa.us"),
        vec!["www.lotteryusa.us".to_string(), "lotteryusa.us".to_string(), "us".to_string()]
    );
    assert_eq!(who.srv_probe_suffixes("example.com"), vec!["example.com".to_string(), "com".to_string()]);
    assert_eq!(who.srv_probe_suffixes("us"), vec!["us".to_string()]);
    assert!(who.srv_probe_suffixes("").is_empty());
    assert_eq!(srv_name("lotteryusa.us"), "_nicname._tcp.lotteryusa.us.");
    assert_eq!(srv_target_host("whois.nic.us."), "whois.nic.us");
    assert_eq!(srv_target_host("whois.nic.us"), "whois.nic.us");

    assert!(!who.accept_srv_answer("us".to_string(), None));
    assert!(who.suffixes().is_empty());
    assert!(who.accept_srv_answer("us".to_string(), Some(domain_host("whois.nic.us"))));
    assert_eq!(who.suffixes(), vec!["us".to_string()]);
    assert_eq!(host_name(who.get_server_by_tld("lotteryusa.us").unwrap()), "whois.nic.us");
    assert_eq!(
        who.srv_probe_suffixes("www.lotteryusa.us"),
        vec!["www.lotteryusa.us".to_string(), "lotteryusa.us".to_string()]
    );
    assert_eq!(who.srv_probe_suffixes("lotteryusa.us"), vec!["lotteryusa.us".to_string()]);
    assert!(who.srv_probe_suffixes("us").is_empty());

    who.insert_server("us".to_string(), WhoIsServerValue::from_host(domain_host("other.example")));
    assert_eq!(who.suffixes(), vec!["us".to_string()]);
    assert_eq!(host_name(who.get_server_by_tld("a.us").unwrap()), "other.example");
}

#[test]
fn cloned_directory_answers_alike() {
    let who = WhoIs::from_config(&config(vec![
        ("org", host_str("a.example")),
        ("_", ip_entry("ip.example")),
    ]))
    .unwrap();
    let copy = who.clone();
    assert_eq!(copy.suffixes(), vec!["org".to_string()]);
    assert_eq!(host_name(copy.get_server_by_tld("x.org").unwrap()), "a.example");
    assert_eq!(host_name(copy.ip_server()), "ip.example");
    let opts = domain_target("x.org");
    let again = opts.clone();
    assert_eq!(again.follow, 2);
    assert_eq!(again.target.host().text(), "x.org");
}

#[test]
fn no_server_known_has_its_own_message() {
    let who = WhoIs::from_config(&config(vec![("_", ip_entry("ip.example"))])).unwrap();
    assert_eq!(
        message(who.start_lookup(&domain_target("example.com"))),
        "No whois server is known for this kind of object."
    );
}

#[test]
fn server_value_errors_name_the_fault() {
    let not_server = "The server value is not an object or a host string.";
    assert_eq!(message(WhoIsServerValue::from_value(&ConfigValue::Other)), not_server);
    assert_eq!(message(WhoIsServerValue::from_value(&ConfigValue::Bool(true))), not_server);
    assert_eq!(message(WhoIsServerValue::from_value(&ConfigValue::Null)), not_server);
    assert_eq!(
        message(WhoIsServerValue::from_value(&bad_str("x y"))),
        "The server value is not a correct host string."
    );
    assert_eq!(
        message(WhoIsServerValue::from_value(&object(vec![]))),
        "The server value is an object, but it has not a host string."
    );
    assert_eq!(
        message(WhoIsServerValue::from_value(&object(vec![("host", ConfigValue::Bool(true))]))),
        "The server value is an object, but it has not a host string."
    );
    assert_eq!(
        message(WhoIsServerValue::from_value(&object(vec![("host", bad_str("x y"))]))),
        "The server value is an object, but it has not a correct host string."
    );
    assert_eq!(
        message(WhoIsServerValue::from_value(&object(vec![
            ("host", host_str("a.example")),
            ("query", ConfigValue::Null),
            ("punycode", text_str("no")),
        ]))),
        "The server value is an object, but it has an incorrect query string."
    );
    assert_eq!(
        message(WhoIsServerValue::from_value(&object(vec![
            ("host", host_str("a.example")),
            ("punycode", text_str("no")),
        ]))),
        "The server value is an object, but it has an incorrect punycode boolean value."
    );
}

#[test]
fn directory_errors_name_the_fault() {
    assert_eq!(
        message(WhoIs::from_config(&config(vec![("org", host_str("a.example"))]))),
        "Cannot find `_` in the server list."
    );
    assert_eq!(
        message(WhoIs::from_config(&config(vec![("_", host_str("a.example"))]))),
        "`_` in the server list is not an object."
    );
    assert_eq!(
        message(WhoIs::from_config(&config(vec![("_", object(vec![]))]))),
        "Cannot find `ip` in the `_` object in the server list."
    );
    assert_eq!(
        message(WhoIs::from_config(&config(vec![("_", object(vec![("ip", ConfigValue::Null)]))]))),
        "`ip` in the `_` object in the server list is null."
    );
    assert_eq!(
        message(WhoIs::from_config(&config(vec![("_", object(vec![("ip", bad_str("x y"))]))]))),
        "The server value is not a correct host string."
    );
    assert_eq!(
        message(WhoIs::from_config(&config(vec![
            ("org", ConfigValue::Other),
            ("_", object(vec![("ip", bad_str("x y"))])),
        ]))),
        "The server value is not a correct host string."
    );
    assert_eq!(
        message(WhoIs::from_config(&config(vec![
            ("org", ConfigValue::Other),
            ("_", ip_entry("ip.example")),
        ]))),
        "The server value is not an object or a host string."
    );
}
