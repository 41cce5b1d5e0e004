use chip_in_inventory::model::{
    ApiError, Hub, NewHub, NewRealm, NewRoutingChain, NewService, NewSubdomain, NewVirtualHost,
    NewZone, Realm, RoutingChain, Service, Subdomain, Timestamp, UpdateHub, UpdateRealm,
    UpdateRoutingChain, UpdateService, UpdateSubdomain, UpdateVirtualHost, UpdateZone, Zone,
};
use chip_in_inventory::records::{
    deletion_outcome, ensure_hub_absent, ensure_parent_hub, ensure_realm_absent,
    ensure_routing_chain_slot_free, ensure_service_absent, ensure_subdomain_absent,
    ensure_virtual_host_absent, ensure_zone_absent, hub_from_request_at, hub_from_request_now,
    hub_with_update_at, populate_hub_fields, populate_routing_chain_fields,
    populate_service_fields, populate_service_list, populate_subdomain_fields,
    populate_subdomain_list, populate_zone_fields, populate_zone_list, realm_from_request_at,
    realm_from_request_now, realm_routing_chain, realm_with_update_at, realm_with_update_now,
    resolved_fqdn, routing_chain_from_request_at, routing_chain_with_update_at,
    service_from_request_at, service_with_update_at, subdomain_from_request_at,
    subdomain_with_update_at, virtual_host_from_request_at, virtual_host_with_update_at,
    zone_from_request_at, zone_from_request_now, routing_chain_from_request_now, zone_with_update_at,
};

fn ts(secs: i64) -> Timestamp {
    Timestamp { secs, nanos: 0 }
}

fn new_realm(name: &str) -> NewRealm {
    NewRealm {
        name: name.to_string(),
        title: "Quench".to_string(),
        description: Some("desc".to_string()),
        cacert: "ca".to_string(),
        device_id_signing_key: "sk".to_string(),
        device_id_verification_key: "vk".to_string(),
        session_timeout: Some(3600),
        administrators: Some(vec!["admin".to_string()]),
        expired_at: None,
        disabled: false,
        created_at: None,
        updated_at: None,
    }
}

fn update_realm(created: Option<Timestamp>, updated: Option<Timestamp>) -> UpdateRealm {
    UpdateRealm {
        title: "New title".to_string(),
        description: None,
        cacert: "ca2".to_string(),
        device_id_signing_key: "sk2".to_string(),
        device_id_verification_key: "vk2".to_string(),
        session_timeout: None,
        administrators: None,
        expired_at: Some("2030-01-01".to_string()),
        disabled: true,
        created_at: created,
        updated_at: updated,
    }
}

#[test]
fn realm_creation_fills_urn_and_times() {
    let realm = realm_from_request_at(new_realm("quench"), ts(100)).unwrap();
    assert_eq!(realm.name, "quench");
    assert_eq!(realm.urn.as_deref(), Some("urn:chip-in:realm:quench"));
    assert_eq!(realm.created_at, ts(100));
    assert_eq!(realm.updated_at, ts(100));
    assert_eq!(realm.session_timeout, Some(3600));
    let mut p = new_realm("quench");
    p.created_at = Some(ts(5));
    let realm = realm_from_request_at(p, ts(100)).unwrap();
    assert_eq!(realm.created_at, ts(5));
    assert_eq!(realm.updated_at, ts(100));
}

#[test]
fn realm_creation_refuses_empty_name() {
    assert_eq!(
        realm_from_request_at(new_realm(""), ts(1)).unwrap_err(),
        ApiError::BadRequest("Realm name cannot be empty".to_string())
    );
    assert_eq!(
        realm_from_request_now(new_realm("")).unwrap_err(),
        ApiError::BadRequest("Realm name cannot be empty".to_string())
    );
}

#[test]
fn realm_creation_by_the_clock() {
    let realm = realm_from_request_now(new_realm("q")).unwrap();
    assert_eq!(realm.created_at, realm.updated_at);
    assert!(realm.created_at.secs > 1_600_000_000);
}

#[test]
fn conflicts_name_the_resource() {
    assert_eq!(ensure_realm_absent("q", false), Ok(()));
    assert_eq!(
        ensure_realm_absent("q", true),
        Err(ApiError::Conflict("Realm 'q' already exists.".to_string()))
    );
    assert_eq!(
        ensure_zone_absent("q", "z", true),
        Err(ApiError::Conflict("Zone 'z' already exists in realm 'q'".to_string()))
    );
    assert_eq!(
        ensure_subdomain_absent("q", "z", "s", true),
        Err(ApiError::Conflict("Subdomain 's' already exists in zone 'q/z'".to_string()))
    );
    assert_eq!(
        ensure_virtual_host_absent("q", "v", true),
        Err(ApiError::Conflict("VirtualHost 'v' already exists in realm 'q'".to_string()))
    );
    assert_eq!(
        ensure_hub_absent("q", "h", true),
        Err(ApiError::Conflict("Hub 'h' already exists in realm 'q'".to_string()))
    );
    assert_eq!(
        ensure_service_absent("q", "h", "s", true),
        Err(ApiError::Conflict("Service 's' already exists in hub 'q/h'".to_string()))
    );
    assert_eq!(
        ensure_routing_chain_slot_free("q", true),
        Err(ApiError::Conflict(
            "A RoutingChain already exists in realm 'q'. Only one is allowed.".to_string()
        ))
    );
    assert_eq!(ensure_routing_chain_slot_free("q", false), Ok(()));
    assert_eq!(
        ensure_parent_hub("q", "h", false),
        Err(ApiError::ParentNotFound("Parent hub 'q/h' not found".to_string()))
    );
    assert_eq!(ensure_parent_hub("q", "h", true), Ok(()));
}

#[test]
fn realm_update_keeps_identity_and_creation_time() {
    let realm = realm_from_request_at(new_realm("quench"), ts(100)).unwrap();
    let updated = realm_with_update_at(realm.clone(), update_realm(None, None), ts(200));
    assert_eq!(updated.name, "quench");
    assert_eq!(updated.urn, realm.urn);
    assert_eq!(updated.title, "New title");
    assert_eq!(updated.description, None);
    assert_eq!(updated.expired_at.as_deref(), Some("2030-01-01"));
    assert!(updated.disabled);
    assert_eq!(updated.created_at, ts(100));
    assert_eq!(updated.updated_at, ts(200));
    let updated = realm_with_update_at(realm.clone(), update_realm(Some(ts(7)), Some(ts(8))), ts(200));
    assert_eq!(updated.created_at, ts(7));
    assert_eq!(updated.updated_at, ts(8));
    let updated = realm_with_update_now(realm.clone(), update_realm(None, Some(ts(9)))).unwrap();
    assert_eq!(updated.updated_at, ts(9));
    let updated = realm_with_update_now(realm, update_realm(None, None)).unwrap();
    assert_eq!(updated.created_at, ts(100));
    assert!(updated.updated_at.secs > 1_600_000_000);
    assert!(updated.updated_at.nanos < 1_000_000_000);
}

#[test]
fn deletion_of_nothing_is_not_found() {
    assert_eq!(deletion_outcome(true), Ok(()));
    assert_eq!(deletion_outcome(false), Err(ApiError::NotFound));
}

fn new_zone(name: &str) -> NewZone {
    NewZone {
        name: name.to_string(),
        title: "Zone".to_string(),
        description: None,
        dns_provider: Some("dns".to_string()),
        acme_certificate_provider: None,
        created_at: None,
        updated_at: Some(ts(3)),
    }
}

#[test]
fn zone_lifecycle() {
    assert_eq!(
        zone_from_request_at(new_zone(""), ts(1), ts(2)).unwrap_err(),
        ApiError::BadRequest("Zone name cannot be empty".to_string())
    );
    let mut zone = zone_from_request_at(new_zone("example.com"), ts(1), ts(2)).unwrap();
    assert_eq!(zone.created_at, ts(1));
    assert_eq!(zone.updated_at, ts(3));
    assert_eq!(zone.urn, None);
    assert_eq!(zone.realm, None);
    populate_zone_fields(&mut zone, "q");
    assert_eq!(zone.urn.as_deref(), Some("urn:chip-in:zone:q:example.com"));
    assert_eq!(zone.realm.as_deref(), Some("urn:chip-in:realm:q"));
    let update = UpdateZone {
        title: "T".to_string(),
        description: Some("d".to_string()),
        dns_provider: None,
        acme_certificate_provider: Some("acme".to_string()),
        created_at: None,
        updated_at: None,
    };
    let stored = zone_from_request_at(new_zone("example.com"), ts(1), ts(2)).unwrap();
    let updated = zone_with_update_at(stored, "q", update, ts(50));
    assert_eq!(updated.realm.as_deref(), Some("urn:chip-in:realm:q"));
    assert_eq!(updated.urn, None);
    assert_eq!(updated.dns_provider, None);
    assert_eq!(updated.created_at, ts(1));
    assert_eq!(updated.updated_at, ts(50));
    let by_clock = zone_from_request_now(new_zone("z")).unwrap();
    assert_eq!(by_clock.updated_at, ts(3));
}

#[test]
fn zone_listing_is_populated() {
    let zones = vec![
        zone_from_request_at(new_zone("a"), ts(1), ts(1)).unwrap(),
        zone_from_request_at(new_zone("b"), ts(1), ts(1)).unwrap(),
    ];
    let zones = populate_zone_list(zones, "q");
    assert_eq!(zones.len(), 2);
    assert_eq!(zones[1].urn.as_deref(), Some("urn:chip-in:zone:q:b"));
}

fn new_subdomain(name: &str) -> NewSubdomain {
    NewSubdomain {
        name: name.to_string(),
        title: "Sub".to_string(),
        description: None,
        realm: Some("other".to_string()),
        destination_realm: None,
        share_cookie: true,
        created_at: None,
        updated_at: None,
    }
}

#[test]
fn subdomain_lifecycle() {
    assert_eq!(
        subdomain_from_request_at(new_subdomain(""), ts(1)).unwrap_err(),
        ApiError::BadRequest("Subdomain name cannot be empty".to_string())
    );
    let mut sub = subdomain_from_request_at(new_subdomain("@"), ts(1)).unwrap();
    assert_eq!(sub.fqdn, None);
    assert_eq!(sub.realm.as_deref(), Some("other"));
    populate_subdomain_fields(&mut sub, "q", "example.com");
    assert_eq!(sub.fqdn.as_deref(), Some("example.com"));
    assert_eq!(sub.urn.as_deref(), Some("urn:chip-in:subdomain:q:example.com:@"));
    assert_eq!(sub.realm.as_deref(), Some("urn:chip-in:realm:q"));
    assert_eq!(sub.zone.as_deref(), Some("urn:chip-in:zone:q:example.com"));
    assert_eq!(
        Subdomain::parse_urn(sub.urn.as_deref().unwrap()),
        Some(("q".to_string(), "example.com".to_string(), "@".to_string()))
    );
    let update = UpdateSubdomain {
        title: "T2".to_string(),
        description: None,
        realm: None,
        destination_realm: Some("dest".to_string()),
        share_cookie: false,
        created_at: None,
        updated_at: Some(ts(9)),
    };
    let updated = subdomain_with_update_at(sub.clone(), update, ts(5));
    assert_eq!(updated.fqdn, sub.fqdn);
    assert_eq!(updated.realm, None);
    assert!(!updated.share_cookie);
    assert_eq!(updated.updated_at, ts(9));
    let list = populate_subdomain_list(vec![subdomain_from_request_at(new_subdomain("www"), ts(1)).unwrap()], "q", "z");
    assert_eq!(list[0].fqdn.as_deref(), Some("www.z"));
}

fn new_vhost(name: &str) -> NewVirtualHost {
    NewVirtualHost {
        name: name.to_string(),
        title: "VH".to_string(),
        description: None,
        subdomain: "urn:chip-in:subdomain:q:z:www".to_string(),
        access_log_recorder: None,
        access_log_max_value_length: Some(128),
        access_log_format: Some(serde_json::Value::Null),
        certificate: None,
        key: None,
        disabled: Some(false),
        created_at: None,
        updated_at: None,
    }
}

#[test]
fn virtual_host_lifecycle() {
    assert_eq!(
        virtual_host_from_request_at("q", new_vhost(""), ts(1)).unwrap_err(),
        ApiError::BadRequest("VirtualHost name cannot be empty".to_string())
    );
    let vhost = virtual_host_from_request_at("q", new_vhost("web"), ts(1)).unwrap();
    assert_eq!(vhost.realm.as_deref(), Some("urn:chip-in:realm:q"));
    assert_eq!(vhost.urn.as_deref(), Some("urn:chip-in:virtual-host:q:web"));
    let response = vhost.clone().into_response(Some("www.z".to_string()));
    assert_eq!(response.fqdn.as_deref(), Some("www.z"));
    assert_eq!(response.urn, vhost.urn);
    assert_eq!(response.access_log_max_value_length, Some(128));
    let update = UpdateVirtualHost {
        title: "T".to_string(),
        description: None,
        subdomain: "urn:chip-in:subdomain:q:z:api".to_string(),
        access_log_recorder: Some("rec".to_string()),
        access_log_max_value_length: None,
        access_log_format: None,
        certificate: None,
        key: None,
        disabled: None,
        created_at: Some(ts(0)),
        updated_at: None,
    };
    let updated = virtual_host_with_update_at(vhost, update, ts(77));
    assert_eq!(updated.urn.as_deref(), Some("urn:chip-in:virtual-host:q:web"));
    assert_eq!(updated.subdomain, "urn:chip-in:subdomain:q:z:api");
    assert_eq!(updated.created_at, ts(0));
    assert_eq!(updated.updated_at, ts(77));
}

#[test]
fn fqdn_is_resolved_from_the_found_subdomain() {
    let sub = subdomain_from_request_at(new_subdomain("www"), ts(1)).unwrap();
    assert_eq!(sub.fqdn, None);
    assert_eq!(resolved_fqdn("z", Ok(sub)), Some("www.z".to_string()));
    let apex = subdomain_from_request_at(new_subdomain("@"), ts(1)).unwrap();
    assert_eq!(resolved_fqdn("example.com", Ok(apex)), Some("example.com".to_string()));
    assert_eq!(resolved_fqdn("z", Err(ApiError::NotFound)), None);
}

fn new_chain(name: Option<&str>) -> NewRoutingChain {
    NewRoutingChain {
        name: name.map(|n| n.to_string()),
        title: "Chain".to_string(),
        description: None,
        rules: None,
        created_at: None,
        updated_at: None,
    }
}

#[test]
fn routing_chain_lifecycle() {
    let chain = routing_chain_from_request_at(new_chain(None), ts(1)).unwrap();
    assert_eq!(chain.name, "default");
    assert!(chain.rules.is_empty());
    assert_eq!(
        routing_chain_from_request_at(new_chain(Some("")), ts(1)).unwrap_err(),
        ApiError::BadRequest("RoutingChain name cannot be empty".to_string())
    );
    let mut found = realm_routing_chain(vec![chain.clone()], "default").unwrap();
    assert_eq!(found, chain);
    assert_eq!(realm_routing_chain(vec![chain.clone()], "other"), Err(ApiError::NotFound));
    assert_eq!(realm_routing_chain(Vec::new(), "default"), Err(ApiError::NotFound));
    populate_routing_chain_fields(&mut found, "q");
    assert_eq!(found.urn.as_deref(), Some("urn:chip-in:routing-chain:q:default"));
    let update = UpdateRoutingChain {
        title: "T".to_string(),
        description: Some("d".to_string()),
        rules: None,
        created_at: None,
        updated_at: None,
    };
    let updated = routing_chain_with_update_at(found, update, ts(9));
    assert_eq!(updated.urn.as_deref(), Some("urn:chip-in:routing-chain:q:default"));
    assert_eq!(updated.updated_at, ts(9));
    assert_eq!(updated.created_at, ts(1));
}

fn new_hub(name: &str) -> NewHub {
    NewHub {
        name: name.to_string(),
        title: "Hub".to_string(),
        fqdn: "hub.example.com".to_string(),
        server_address: None,
        server_port: Some(443),
        server_cert: "cert".to_string(),
        server_cert_key: "key".to_string(),
        description: None,
        attributes: serde_json::Value::Bool(true),
        created_at: None,
        updated_at: None,
    }
}

#[test]
fn hub_lifecycle() {
    assert_eq!(
        hub_from_request_at(new_hub(""), ts(1)).unwrap_err(),
        ApiError::BadRequest("Hub name cannot be empty".to_string())
    );
    let mut hub: Hub = hub_from_request_at(new_hub("h1"), ts(1)).unwrap();
    assert_eq!(hub.attributes, serde_json::Value::Bool(true));
    populate_hub_fields(&mut hub, "q");
    assert_eq!(hub.urn.as_deref(), Some("urn:chip-in:network:q:h1"));
    assert_eq!(hub.realm.as_deref(), Some("urn:chip-in:realm:q"));
    let copy = hub.clone();
    assert_eq!(copy.attributes, hub.attributes);
    let update = UpdateHub {
        title: "T".to_string(),
        fqdn: "h.example".to_string(),
        server_address: Some("10.0.0.1".to_string()),
        server_port: None,
        server_cert: "c2".to_string(),
        server_cert_key: "k2".to_string(),
        description: None,
        attributes: serde_json::Value::Null,
        created_at: None,
        updated_at: None,
    };
    let updated = hub_with_update_at(hub, update, ts(4));
    assert_eq!(updated.urn.as_deref(), Some("urn:chip-in:network:q:h1"));
    assert_eq!(updated.attributes, serde_json::Value::Null);
    assert_eq!(updated.server_port, None);
    assert!(hub_from_request_now(new_hub("h2")).is_ok());
}

fn new_service(name: &str) -> NewService {
    NewService {
        name: name.to_string(),
        title: "Svc".to_string(),
        description: None,
        provider: "p".to_string(),
        consumers: vec!["c".to_string()],
        availability_management: None,
        singleton: Some(true),
        created_at: None,
        updated_at: None,
    }
}

#[test]
fn service_lifecycle() {
    assert_eq!(
        service_from_request_at(new_service(""), ts(1)).unwrap_err(),
        ApiError::BadRequest("Service name cannot be empty".to_string())
    );
    let mut svc: Service = service_from_request_at(new_service("db"), ts(1)).unwrap();
    assert_eq!(svc.urn, "");
    populate_service_fields(&mut svc, "q", "h1");
    assert_eq!(svc.urn, "urn:chip-in:service:q:h1:db");
    assert_eq!(svc.hub, "urn:chip-in:network:q:h1");
    assert_eq!(svc.realm, "urn:chip-in:realm:q");
    let update = UpdateService {
        title: "T".to_string(),
        description: None,
        provider: "p2".to_string(),
        consumers: Vec::new(),
        availability_management: None,
        singleton: None,
        created_at: None,
        updated_at: None,
    };
    let updated = service_with_update_at(svc, update, ts(3));
    assert_eq!(updated.urn, "urn:chip-in:service:q:h1:db");
    assert_eq!(updated.provider, "p2");
    assert!(updated.consumers.is_empty());
    let list = populate_service_list(vec![service_from_request_at(new_service("x"), ts(1)).unwrap()], "r", "h");
    assert_eq!(list[0].urn, "urn:chip-in:service:r:h:x");
}

#[test]
fn errors_are_answered_with_status_and_message() {
    let cases = vec![
        (ApiError::Etcd("down".to_string()), 500, "Datastore error"),
        (ApiError::Json("eof".to_string()), 500, "JSON processing error: eof"),
        (ApiError::NotFound, 404, "Resource not found"),
        (ApiError::BadRequest("b".to_string()), 400, "b"),
        (ApiError::Conflict("c".to_string()), 409, "c"),
        (ApiError::ParentNotFound("p".to_string()), 400, "p"),
        (ApiError::Clock, 500, "Clock error"),
    ];
    for (err, status, message) in cases {
        let (s, body) = err.into_response();
        assert_eq!(s, status);
        assert_eq!(body.message, message);
    }
}

#[test]
fn errors_describe_themselves() {
    assert_eq!(ApiError::Etcd("x".to_string()).describe(), "etcd client error: x");
    assert_eq!(ApiError::Json("x".to_string()).describe(), "json serialization/deserialization error: x");
    assert_eq!(ApiError::NotFound.describe(), "resource not found");
    assert_eq!(ApiError::BadRequest("x".to_string()).describe(), "bad request: x");
    assert_eq!(ApiError::Conflict("x".to_string()).describe(), "resource already exists: x");
    assert_eq!(ApiError::ParentNotFound("x".to_string()).describe(), "parent resource not found: x");
    assert_eq!(ApiError::Clock.describe(), "system clock unreadable");
}

#[test]
fn datastore_errors_are_answered_alike() {
    let a = ApiError::Etcd("connection refused".to_string()).into_response();
    let b = ApiError::Etcd("lease expired".to_string()).into_response();
    assert_eq!(a, b);
    assert_eq!(a.0, 500);
    assert_eq!(a.1.message, "Datastore error");
}

#[test]
fn realm_type_is_plain_data() {
    let r: Realm = realm_from_request_at(new_realm("a"), ts(1)).unwrap();
    let z: Zone = zone_from_request_at(new_zone("b"), ts(1), ts(1)).unwrap();
    let c: RoutingChain = routing_chain_from_request_at(new_chain(Some("c")), ts(1)).unwrap();
    assert_eq!(r.clone(), r);
    assert_eq!(z.clone(), z);
    assert_eq!(c.clone(), c);
}

#[test]
fn routing_chain_creation_by_the_clock() {
    assert_eq!(
        routing_chain_from_request_now(new_chain(Some(""))).unwrap_err(),
        ApiError::BadRequest("RoutingChain name cannot be empty".to_string())
    );
    let chain = routing_chain_from_request_now(new_chain(None)).unwrap();
    assert_eq!(chain.name, "default");
    assert!(chain.created_at.secs > 1_600_000_000);
}

#[test]
fn clock_reads_after_the_epoch() {
    let t = chip_in_inventory::clock::current_time().unwrap();
    assert!(t.secs > 1_600_000_000);
    assert!(t.nanos < 1_000_000_000);
}

#[test]
fn clock_seconds_must_fit() {
    assert_eq!(chip_in_inventory::clock::time_since_epoch(5, 7), Some(chip_in_inventory::model::Timestamp { secs: 5, nanos: 7 }));
    assert_eq!(
        chip_in_inventory::clock::time_since_epoch(i64::MAX as u64, 0),
        Some(chip_in_inventory::model::Timestamp { secs: i64::MAX, nanos: 0 })
    );
    assert_eq!(chip_in_inventory::clock::time_since_epoch(i64::MAX as u64 + 1, 0), None);
}
