use chip_in_inventory::keys::{
    hub_dir, hub_key, hubs_prefix, realm_dir, realm_key, realms_prefix, routing_chain_key,
    routing_chains_prefix, service_key, services_prefix, subdomain_key, subdomains_prefix,
    virtual_host_key, virtual_hosts_prefix, zone_dir, zone_key, zones_prefix,
};
use chip_in_inventory::store::direct_child;

#[test]
fn key_layout() {
    assert_eq!(realms_prefix(), "realms/");
    assert_eq!(realm_key("q"), "realms/q");
    assert_eq!(realm_dir("q"), "realms/q/");
    assert_eq!(zones_prefix("q"), "realms/q/zones/");
    assert_eq!(zone_key("q", "z"), "realms/q/zones/z");
    assert_eq!(zone_dir("q", "z"), "realms/q/zones/z/");
    assert_eq!(subdomains_prefix("q", "z"), "realms/q/zones/z/subdomains/");
    assert_eq!(subdomain_key("q", "z", "s"), "realms/q/zones/z/subdomains/s");
    assert_eq!(virtual_hosts_prefix("q"), "realms/q/virtual-hosts/");
    assert_eq!(virtual_host_key("q", "v"), "realms/q/virtual-hosts/v");
    assert_eq!(routing_chains_prefix("q"), "realms/q/routing-chains/");
    assert_eq!(routing_chain_key("q", "default"), "realms/q/routing-chains/default");
    assert_eq!(hubs_prefix("q"), "realms/q/hubs/");
    assert_eq!(hub_key("q", "h"), "realms/q/hubs/h");
    assert_eq!(hub_dir("q", "h"), "realms/q/hubs/h/");
    assert_eq!(services_prefix("q", "h"), "realms/q/hubs/h/services/");
    assert_eq!(service_key("q", "h", "s"), "realms/q/hubs/h/services/s");
}

#[test]
fn realm_dir_holds_contents_but_not_other_realms() {
    let dir = realm_dir("a");
    for key in [
        zone_key("a", "z"),
        subdomain_key("a", "z", "s"),
        virtual_host_key("a", "v"),
        routing_chain_key("a", "c"),
        hub_key("a", "h"),
        service_key("a", "h", "s"),
    ] {
        assert!(key.starts_with(&dir), "{key}");
    }
    for key in [zone_key("ab", "z"), hub_key("ab", "h"), realm_key("a")] {
        assert!(!key.starts_with(&dir), "{key}");
    }
}

#[test]
fn zone_dir_does_not_hold_a_longer_named_zone() {
    assert!(subdomain_key("r", "a", "s").starts_with(&zone_dir("r", "a")));
    assert!(!subdomain_key("r", "ab", "s").starts_with(&zone_dir("r", "a")));
    assert!(!service_key("r", "ab", "s").starts_with(&hub_dir("r", "a")));
}

#[test]
fn listing_selects_one_level() {
    assert!(direct_child("realms/", &realm_key("q")));
    assert!(!direct_child("realms/", &zone_key("q", "z")));
    assert!(direct_child(&zones_prefix("q"), &zone_key("q", "z")));
    assert!(!direct_child(&zones_prefix("q"), &subdomain_key("q", "z", "s")));
    assert!(!direct_child(&zones_prefix("q"), "realms/other/zones/z"));
    assert!(!direct_child("realms/", "realm"));
    assert!(direct_child("realms/", "realms/"));
}

#[test]
fn keys_identify_resources() {
    assert_ne!(realm_key("a"), realm_key("b"));
    assert_ne!(zone_key("r", "a"), zone_key("r", "b"));
    assert_eq!(zone_key("r", "a"), zone_key("r", "a"));
}
