use chip_in_inventory::model::{ApiError, Hub, Realm, RoutingChain, Service, Subdomain, VirtualHost, Zone};
use chip_in_inventory::text::{find_str, split_chars, str_equal};
use chip_in_inventory::urn::validate_urn;

#[test]
fn generates_urns_of_every_kind() {
    assert_eq!(Realm::generate_urn("quench"), "urn:chip-in:realm:quench");
    assert_eq!(Zone::generate_urn("quench", "example.com"), "urn:chip-in:zone:quench:example.com");
    assert_eq!(
        Subdomain::generate_urn("quench", "example.com", "www"),
        "urn:chip-in:subdomain:quench:example.com:www"
    );
    assert_eq!(VirtualHost::generate_urn("quench", "web"), "urn:chip-in:virtual-host:quench:web");
    assert_eq!(RoutingChain::generate_urn("quench", "default"), "urn:chip-in:routing-chain:quench:default");
    assert_eq!(Hub::generate_urn("quench", "hub1"), "urn:chip-in:network:quench:hub1");
    assert_eq!(Service::generate_urn("quench", "hub1", "db"), "urn:chip-in:service:quench:hub1:db");
}

#[test]
fn fqdn_of_apex_is_the_zone() {
    assert_eq!(Subdomain::generate_fqdn("example.com", "@"), "example.com");
}

#[test]
fn fqdn_of_other_names_prefixes_the_zone() {
    assert_eq!(Subdomain::generate_fqdn("example.com", "www"), "www.example.com");
    assert_eq!(Subdomain::generate_fqdn("example.com", "@@"), "@@.example.com");
    assert_eq!(Subdomain::generate_fqdn("example.com", ""), ".example.com");
}

#[test]
fn parses_a_subdomain_urn() {
    assert_eq!(
        Subdomain::parse_urn("urn:chip-in:subdomain:quench:example.com:www"),
        Some(("quench".to_string(), "example.com".to_string(), "www".to_string()))
    );
}

#[test]
fn parse_round_trips_generated_urn() {
    let urn = Subdomain::generate_urn("r1", "z.example", "api");
    assert_eq!(
        Subdomain::parse_urn(&urn),
        Some(("r1".to_string(), "z.example".to_string(), "api".to_string()))
    );
}

#[test]
fn parse_accepts_empty_pieces() {
    assert_eq!(
        Subdomain::parse_urn("urn:chip-in:subdomain:::"),
        Some((String::new(), String::new(), String::new()))
    );
}

#[test]
fn parse_refuses_other_shapes() {
    assert_eq!(Subdomain::parse_urn("urn:chip-in:zone:quench:example.com"), None);
    assert_eq!(Subdomain::parse_urn("urn:chip-in:zone:quench:example.com:www"), None);
    assert_eq!(Subdomain::parse_urn("urn:chip-in:subdomain:a:b:c:d"), None);
    assert_eq!(Subdomain::parse_urn("urn:chip-in:subdomain:a:b"), None);
    assert_eq!(Subdomain::parse_urn("URN:chip-in:subdomain:a:b:c"), None);
    assert_eq!(Subdomain::parse_urn("urn:chip_in:subdomain:a:b:c"), None);
    assert_eq!(Subdomain::parse_urn(""), None);
}

#[test]
fn validate_urn_accepts_missing_or_matching() {
    assert_eq!(validate_urn("Realm", "quench", None, "urn:chip-in:realm:quench"), Ok(()));
    let given = "urn:chip-in:realm:quench".to_string();
    assert_eq!(validate_urn("Realm", "quench", Some(&given), "urn:chip-in:realm:quench"), Ok(()));
}

#[test]
fn validate_urn_refuses_mismatch() {
    let given = "urn:chip-in:realm:other".to_string();
    assert_eq!(
        validate_urn("Realm", "quench", Some(&given), "urn:chip-in:realm:quench"),
        Err(ApiError::BadRequest(
            "URN mismatch for Realm 'quench': config.yaml has 'urn:chip-in:realm:other', but generated URN is 'urn:chip-in:realm:quench'.".to_string()
        ))
    );
}

#[test]
fn splits_on_separator() {
    assert_eq!(split_chars("a:b::c", ':'), vec!["a", "b", "", "c"]);
    assert_eq!(split_chars("", ':'), vec![""]);
    assert_eq!(split_chars(":", ':'), vec!["", ""]);
    assert_eq!(split_chars("żółw:ä", ':'), vec!["żółw", "ä"]);
}

#[test]
fn finds_first_occurrence() {
    assert_eq!(find_str("a/subdomains/b/subdomains/", "/subdomains/"), Some(1));
    assert_eq!(find_str("abc", "abcd"), None);
    assert_eq!(find_str("abc", ""), Some(0));
    assert_eq!(find_str("xyz", "y"), Some(1));
}

#[test]
fn compares_strings() {
    assert!(str_equal("abc", "abc"));
    assert!(!str_equal("abc", "abd"));
    assert!(!str_equal("abc", "ab"));
    assert!(str_equal("", ""));
}
