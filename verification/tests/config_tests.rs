use chip_in_inventory::config::{
    hub_from_config_at, realm_from_config_at, routing_chain_from_config_at,
    service_from_config_at, subdomain_from_config_at, virtual_host_from_config_at,
    zone_from_config_at,
};
use chip_in_inventory::model::{
    ApiError, NewHub, NewRealm, NewRoutingChain, NewService, NewSubdomain, NewVirtualHost,
    NewZone, Timestamp,
};

fn ts(secs: i64) -> Timestamp {
    Timestamp { secs, nanos: 0 }
}

fn realm(name: &str) -> NewRealm {
    NewRealm {
        name: name.to_string(),
        title: "T".to_string(),
        description: None,
        cacert: "ca".to_string(),
        device_id_signing_key: "s".to_string(),
        device_id_verification_key: "v".to_string(),
        session_timeout: None,
        administrators: None,
        expired_at: None,
        disabled: false,
        created_at: Some(ts(1)),
        updated_at: None,
    }
}

fn zone(name: &str) -> NewZone {
    NewZone {
        name: name.to_string(),
        title: "Z".to_string(),
        description: None,
        dns_provider: None,
        acme_certificate_provider: None,
        created_at: None,
        updated_at: None,
    }
}

#[test]
fn realm_from_config_with_and_without_urn() {
    let r = realm_from_config_at(realm("quench"), None, ts(9)).unwrap();
    assert_eq!(r.urn.as_deref(), Some("urn:chip-in:realm:quench"));
    assert_eq!(r.created_at, ts(1));
    assert_eq!(r.updated_at, ts(9));
    let good = "urn:chip-in:realm:quench".to_string();
    assert!(realm_from_config_at(realm("quench"), Some(&good), ts(9)).is_ok());
    let bad = "urn:chip-in:realm:other".to_string();
    assert_eq!(
        realm_from_config_at(realm("quench"), Some(&bad), ts(9)).unwrap_err(),
        ApiError::BadRequest(
            "URN mismatch for Realm 'quench': config.yaml has 'urn:chip-in:realm:other', but generated URN is 'urn:chip-in:realm:quench'.".to_string()
        )
    );
    assert!(realm_from_config_at(realm(""), None, ts(9)).is_ok());
}

#[test]
fn zone_and_subdomain_from_config() {
    let z = zone_from_config_at("q", zone("example.com"), None, ts(2)).unwrap();
    assert_eq!(z.urn.as_deref(), Some("urn:chip-in:zone:q:example.com"));
    assert_eq!(z.realm.as_deref(), Some("urn:chip-in:realm:q"));
    let bad = "urn:chip-in:zone:q:other".to_string();
    assert_eq!(
        zone_from_config_at("q", zone("example.com"), Some(&bad), ts(2)).unwrap_err(),
        ApiError::BadRequest(
            "URN mismatch for Zone 'example.com': config.yaml has 'urn:chip-in:zone:q:other', but generated URN is 'urn:chip-in:zone:q:example.com'.".to_string()
        )
    );
    let sub = NewSubdomain {
        name: "www".to_string(),
        title: "W".to_string(),
        description: None,
        realm: Some("dest".to_string()),
        destination_realm: None,
        share_cookie: false,
        created_at: None,
        updated_at: None,
    };
    let s = subdomain_from_config_at("q", "example.com", sub, None, ts(3)).unwrap();
    assert_eq!(s.fqdn.as_deref(), Some("www.example.com"));
    assert_eq!(s.zone.as_deref(), Some("urn:chip-in:zone:q:example.com"));
    assert_eq!(s.urn.as_deref(), Some("urn:chip-in:subdomain:q:example.com:www"));
    assert_eq!(s.realm.as_deref(), Some("dest"));
}

#[test]
fn realm_contents_from_config() {
    let vh = NewVirtualHost {
        name: "web".to_string(),
        title: "W".to_string(),
        description: None,
        subdomain: "urn:chip-in:subdomain:q:z:www".to_string(),
        access_log_recorder: None,
        access_log_max_value_length: None,
        access_log_format: None,
        certificate: None,
        key: None,
        disabled: None,
        created_at: None,
        updated_at: None,
    };
    let v = virtual_host_from_config_at("q", vh, None, ts(1)).unwrap();
    assert_eq!(v.urn.as_deref(), Some("urn:chip-in:virtual-host:q:web"));
    let rc = NewRoutingChain {
        name: None,
        title: "R".to_string(),
        description: None,
        rules: None,
        created_at: None,
        updated_at: None,
    };
    let wrong = "urn:chip-in:routing-chain:q:main".to_string();
    assert_eq!(
        routing_chain_from_config_at("q", rc, Some(&wrong), ts(1)).unwrap_err(),
        ApiError::BadRequest(
            "URN mismatch for RoutingChain 'default': config.yaml has 'urn:chip-in:routing-chain:q:main', but generated URN is 'urn:chip-in:routing-chain:q:default'.".to_string()
        )
    );
    let rc = NewRoutingChain {
        name: None,
        title: "R".to_string(),
        description: None,
        rules: None,
        created_at: None,
        updated_at: None,
    };
    let c = routing_chain_from_config_at("q", rc, None, ts(1)).unwrap();
    assert_eq!(c.name, "default");
    assert_eq!(c.urn.as_deref(), Some("urn:chip-in:routing-chain:q:default"));
    let hub = NewHub {
        name: "h".to_string(),
        title: "H".to_string(),
        fqdn: "h.example".to_string(),
        server_address: None,
        server_port: None,
        server_cert: "c".to_string(),
        server_cert_key: "k".to_string(),
        description: None,
        attributes: serde_json::Value::Null,
        created_at: None,
        updated_at: None,
    };
    let h = hub_from_config_at("q", hub, None, ts(1)).unwrap();
    assert_eq!(h.urn.as_deref(), Some("urn:chip-in:network:q:h"));
    let svc = NewService {
        name: "s".to_string(),
        title: "S".to_string(),
        description: None,
        provider: "p".to_string(),
        consumers: Vec::new(),
        availability_management: None,
        singleton: None,
        created_at: None,
        updated_at: None,
    };
    let s = service_from_config_at("q", "h", svc, None, ts(1)).unwrap();
    assert_eq!(s.urn, "urn:chip-in:service:q:h:s");
    assert_eq!(s.hub, "urn:chip-in:network:q:h");
    assert_eq!(s.realm, "urn:chip-in:realm:q");
}
