use chip_in_inventory::config::{
    plan_realm_at, plan_realm_now, HubConfig, RealmConfig, RoutingChainConfig, ServiceConfig,
    SubdomainConfig, VirtualHostConfig, ZoneConfig,
};
use chip_in_inventory::model::{
    ApiError, NewHub, NewRealm, NewRoutingChain, NewService, NewSubdomain, NewVirtualHost,
    NewZone, Timestamp,
};

fn ts(secs: i64) -> Timestamp {
    Timestamp { secs, nanos: 0 }
}

fn new_realm(name: &str) -> NewRealm {
    NewRealm {
        name: name.to_string(),
        title: "T".to_string(),
        description: None,
        cacert: "ca".to_string(),
        device_id_signing_key: "s".to_string(),
        device_id_verification_key: "v".to_string(),
        session_timeout: None,
        administrators: None,
        expired_at: None,
        disabled: false,
        created_at: None,
        updated_at: None,
    }
}

fn zone_config(name: &str, urn: Option<&str>, subdomains: Vec<SubdomainConfig>) -> ZoneConfig {
    ZoneConfig {
        base: NewZone {
            name: name.to_string(),
            title: "Z".to_string(),
            description: None,
            dns_provider: None,
            acme_certificate_provider: None,
            created_at: None,
            updated_at: None,
        },
        subdomains,
        urn: urn.map(|u| u.to_string()),
    }
}

fn subdomain_config(name: &str, urn: Option<&str>) -> SubdomainConfig {
    SubdomainConfig {
        base: NewSubdomain {
            name: name.to_string(),
            title: "S".to_string(),
            description: None,
            realm: None,
            destination_realm: None,
            share_cookie: false,
            created_at: None,
            updated_at: None,
        },
        urn: urn.map(|u| u.to_string()),
    }
}

fn hub_config(name: &str, urn: Option<&str>, services: Vec<ServiceConfig>) -> HubConfig {
    HubConfig {
        base: NewHub {
            name: name.to_string(),
            title: "H".to_string(),
            fqdn: "h.example".to_string(),
            server_address: None,
            server_port: None,
            server_cert: "c".to_string(),
            server_cert_key: "k".to_string(),
            description: None,
            attributes: serde_json::Value::Null,
            created_at: None,
            updated_at: None,
        },
        services,
        urn: urn.map(|u| u.to_string()),
    }
}

fn service_config(name: &str) -> ServiceConfig {
    ServiceConfig {
        base: NewService {
            name: name.to_string(),
            title: "S".to_string(),
            description: None,
            provider: "p".to_string(),
            consumers: Vec::new(),
            availability_management: None,
            singleton: None,
            created_at: None,
            updated_at: None,
        },
        urn: None,
    }
}

fn realm_config(name: &str, urn: Option<&str>) -> RealmConfig {
    RealmConfig {
        base: new_realm(name),
        zones: vec![
            zone_config(
                "example.com",
                Some("urn:chip-in:zone:q:example.com"),
                vec![subdomain_config("www", None), subdomain_config("api", Some("urn:wrong"))],
            ),
            zone_config("bad.com", Some("urn:chip-in:zone:q:other"), vec![subdomain_config("x", None)]),
        ],
        virtual_hosts: vec![VirtualHostConfig {
            base: NewVirtualHost {
                name: "web".to_string(),
                title: "W".to_string(),
                description: None,
                subdomain: "urn:chip-in:subdomain:q:example.com:www".to_string(),
                access_log_recorder: None,
                access_log_max_value_length: None,
                access_log_format: None,
                certificate: None,
                key: None,
                disabled: None,
                created_at: None,
                updated_at: None,
            },
            urn: None,
        }],
        routing_chains: vec![RoutingChainConfig {
            base: NewRoutingChain {
                name: None,
                title: "R".to_string(),
                description: None,
                rules: None,
                created_at: None,
                updated_at: None,
            },
            urn: Some("urn:chip-in:routing-chain:q:main".to_string()),
        }],
        hubs: vec![
            hub_config("h1", None, vec![service_config("db"), service_config("cache")]),
            hub_config("h2", Some("urn:chip-in:network:q:elsewhere"), vec![service_config("x")]),
        ],
        urn: urn.map(|u| u.to_string()),
    }
}

#[test]
fn refused_realm_stops_the_load() {
    let err = plan_realm_at(realm_config("q", Some("urn:chip-in:realm:r")), ts(5)).unwrap_err();
    assert_eq!(
        err,
        ApiError::BadRequest(
            "URN mismatch for Realm 'q': config.yaml has 'urn:chip-in:realm:r', but generated URN is 'urn:chip-in:realm:q'.".to_string()
        )
    );
    assert!(plan_realm_now(realm_config("q", Some("urn:chip-in:realm:r"))).is_err());
}

#[test]
fn refused_children_are_skipped_with_their_contents() {
    let plan = plan_realm_at(realm_config("q", Some("urn:chip-in:realm:q")), ts(5)).unwrap();
    assert_eq!(plan.realm.urn.as_deref(), Some("urn:chip-in:realm:q"));
    assert_eq!(plan.realm.created_at, ts(5));
    assert_eq!(plan.zones.len(), 2);
    let first = &plan.zones[0];
    assert_eq!(first.zone.as_ref().unwrap().urn.as_deref(), Some("urn:chip-in:zone:q:example.com"));
    assert_eq!(first.subdomains.len(), 2);
    let www = first.subdomains[0].as_ref().unwrap();
    assert_eq!(www.fqdn.as_deref(), Some("www.example.com"));
    assert_eq!(www.urn.as_deref(), Some("urn:chip-in:subdomain:q:example.com:www"));
    assert_eq!(
        first.subdomains[1].as_ref().unwrap_err(),
        &ApiError::BadRequest(
            "URN mismatch for Subdomain 'api': config.yaml has 'urn:wrong', but generated URN is 'urn:chip-in:subdomain:q:example.com:api'.".to_string()
        )
    );
    let second = &plan.zones[1];
    assert!(second.zone.is_err());
    assert!(second.subdomains.is_empty());
    assert_eq!(plan.virtual_hosts.len(), 1);
    assert_eq!(
        plan.virtual_hosts[0].as_ref().unwrap().urn.as_deref(),
        Some("urn:chip-in:virtual-host:q:web")
    );
    assert_eq!(plan.routing_chains.len(), 1);
    assert!(plan.routing_chains[0].is_err());
    assert_eq!(plan.hubs.len(), 2);
    assert_eq!(plan.hubs[0].services.len(), 2);
    assert_eq!(
        plan.hubs[0].services[1].as_ref().unwrap().urn,
        "urn:chip-in:service:q:h1:cache"
    );
    assert!(plan.hubs[1].hub.is_err());
    assert!(plan.hubs[1].services.is_empty());
}

#[test]
fn realm_plan_by_the_clock() {
    let plan = plan_realm_now(realm_config("q", None)).unwrap();
    assert!(plan.realm.created_at.secs > 1_600_000_000);
    assert_eq!(plan.zones.len(), 2);
    assert_eq!(plan.hubs[0].services.len(), 2);
}

#[test]
fn realm_names_are_not_checked_on_load() {
    let mut config = realm_config("", None);
    config.zones.clear();
    config.hubs.clear();
    let plan = plan_realm_at(config, ts(1)).unwrap();
    assert_eq!(plan.realm.name, "");
    assert_eq!(plan.realm.urn.as_deref(), Some("urn:chip-in:realm:"));
    assert!(plan.zones.is_empty());
}
