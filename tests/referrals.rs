use whois_rust::referral::find_referral;
use whois_rust::{Host, Target, WhoIs, WhoIsHost, WhoIsLookupOptions, WhoIsServerValue};

fn domain_host(name: &str) -> WhoIsHost {
    WhoIsHost { host: Host::Domain(name.to_string()), port: None }
}

fn lookup_with(follow: u16) -> whois_rust::Lookup {
    let who = WhoIs::from_host(domain_host("whois.arin.net"));
    let mut opts = WhoIsLookupOptions::from_target(Target::from_host_unchecked(Host::Domain(
        "example.com".to_string(),
    )));
    opts.server = Some(WhoIsServerValue::from_host(domain_host("whois.verisign-grs.com")));
    opts.follow = follow;
    who.start_lookup(&opts).unwrap()
}

#[test]
fn referral_labels_and_schemes() {
    assert_eq!(find_referral("ReferralServer: whois://whois.ripe.net"), Some("whois.ripe.net".to_string()));
    assert_eq!(find_referral("ReferralServer:  rwhois://rwhois.example.net:4321\n"), Some("rwhois.example.net:4321".to_string()));
    assert_eq!(find_referral("Domain: x\nRegistrar WHOIS Server: whois.godaddy.com\nMore: y"), Some("whois.godaddy.com".to_string()));
    assert_eq!(find_referral("   Registrar Whois: whois.a.example\n"), Some("whois.a.example".to_string()));
    assert_eq!(find_referral("Whois Server:whois.b.example"), Some("whois.b.example".to_string()));
    assert_eq!(find_referral("WHOIS Server:\t whois.c.example\r\n"), Some("whois.c.example".to_string()));
    assert_eq!(find_referral("WHOIS Server: whois.d.example\r"), Some("whois.d.example".to_string()));
    assert_eq!(find_referral("WHOIS Server: a\rb\r\n"), Some("a\rb".to_string()));
    assert_eq!(find_referral("WHOIS Server: \r\n"), Some("".to_string()));
    assert_eq!(find_referral("no referral here\nwhois server: lower.example\n"), None);
    assert_eq!(find_referral(""), None);
    assert_eq!(find_referral("ReferralServer\n: x"), None);
}

#[test]
fn referral_takes_the_leftmost_label() {
    let text = "Whois Server: first.example\nReferralServer: second.example\n";
    assert_eq!(find_referral(text), Some("first.example".to_string()));
    assert_eq!(find_referral("Registrar Whois Server: x.example"), Some("x.example".to_string()));
}

#[test]
fn referral_value_may_be_empty_or_keep_other_space() {
    assert_eq!(find_referral("ReferralServer:\nnext line"), Some("".to_string()));
    assert_eq!(find_referral("ReferralServer: a b "), Some("a b ".to_string()));
    assert_eq!(find_referral("ReferralServer: whois:/x"), Some("whois:/x".to_string()));
}

#[test]
fn hop_budget_is_followed_exactly() {
    for follow in 0u16..4 {
        let mut l = lookup_with(follow);
        let mut hops = 0u16;
        loop {
            let addr = l.addr_string();
            let response = format!("ReferralServer: whois://hop{}.example\n", hops + 1);
            match l.referral(&addr, &response) {
                None => break,
                Some(h) => {
                    assert_eq!(h, format!("hop{}.example", hops + 1));
                    assert!(l.follow_referral(Some(domain_host(&h))));
                    hops += 1;
                    assert_eq!(l.addr_string(), format!("hop{}.example:43", hops));
                },
            }
        }
        assert_eq!(hops, follow);
        assert_eq!(l.follow_left(), 0);
    }
}

#[test]
fn self_referral_stops() {
    let l = lookup_with(2);
    let addr = l.addr_string();
    assert_eq!(addr, "whois.verisign-grs.com:43");
    let response = "Whois Server: whois.verisign-grs.com:43\n";
    assert_eq!(l.referral(&addr, response), None);
    let other = "Whois Server: whois.verisign-grs.com\n";
    assert_eq!(l.referral(&addr, other), Some("whois.verisign-grs.com".to_string()));
}

#[test]
fn malformed_referral_host_keeps_the_response() {
    let mut l = lookup_with(2);
    let addr = l.addr_string();
    let h = l.referral(&addr, "ReferralServer: not a host!\n").unwrap();
    assert_eq!(h, "not a host!");
    assert!(!l.follow_referral(None));
    assert_eq!(l.follow_left(), 2);
    assert_eq!(l.addr_string(), addr);
}

#[test]
fn no_referral_without_budget() {
    let mut l = lookup_with(0);
    let addr = l.addr_string();
    assert_eq!(l.referral(&addr, "ReferralServer: whois.ripe.net\n"), None);
    assert!(!l.follow_referral(Some(domain_host("whois.ripe.net"))));
    assert_eq!(l.addr_string(), addr);
}

#[test]
fn crlf_referral_is_followed() {
    let mut l = lookup_with(2);
    let addr = l.addr_string();
    let response = "Domain Name: EXAMPLE.COM\r\nRegistrar WHOIS Server: whois.example-registrar.com\r\n";
    let h = l.referral(&addr, response).unwrap();
    assert_eq!(h, "whois.example-registrar.com");
    assert!(l.follow_referral(Some(domain_host(&h))));
    assert_eq!(l.addr_string(), "whois.example-registrar.com:43");
    assert_eq!(l.request(), "example.com\r\n");
}
