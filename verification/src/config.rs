//! What the configuration file read at startup makes of each resource.
//!
//! Each resource of the file is given as the body of its creation request
//! and, optionally, the URN the file expects it to have. A resource whose
//! given URN differs from the generated one is refused; otherwise it is
//! stored with its URNs (and a subdomain with its FQDN) filled in. A realm
//! of the file is turned into a plan: the realm to write and, for each
//! resource it holds, the record to write or its refusal.
use crate::clock::{clock_answer, clock_now, is_clock_reading};
use crate::model::{
    ApiError, Hub, NewHub, NewRealm, NewRoutingChain, NewService, NewSubdomain, NewVirtualHost,
    NewZone, Realm, RoutingChain, Rule, Service, Subdomain, Timestamp, VirtualHost, Zone,
};
use crate::records::{realm_from_request, routing_chain_name, rules_or_none};
use crate::urn::{
    fqdn_of, hub_urn, realm_urn, routing_chain_urn, service_urn, subdomain_urn, urn_accepted,
    urn_mismatch_message, validate_urn, virtual_host_urn, zone_urn,
};
use vstd::prelude::*;

verus! {

/// The URN given in the file, as characters.
pub open spec fn given_urn(urn: Option<&String>) -> Option<Seq<char>> {
    match urn {
        Some(u) => Some(u@),
        None => None,
    }
}

/// The refusal of a resource whose given URN `given` differs from
/// `generated`.
pub open spec fn is_urn_mismatch(
    e: ApiError,
    kind: Seq<char>,
    name: Seq<char>,
    given: Option<&String>,
    generated: Seq<char>,
) -> bool {
    e matches ApiError::BadRequest(m) && m@ == urn_mismatch_message(
        kind,
        name,
        given.unwrap()@,
        generated,
    )
}

/// The realm of the file with body `base`, at time `now`.
pub fn realm_from_config_at(base: NewRealm, urn: Option<&String>, now: Timestamp) -> (r: Result<
    Realm,
    ApiError,
>)
    ensures
        r is Ok <==> urn_accepted(given_urn(urn), realm_urn(base.name@)),
        r matches Ok(realm) ==> realm_from_request(realm, base, now),
        r matches Err(e) ==> is_urn_mismatch(e, "Realm"@, base.name@, urn, realm_urn(base.name@)),
{
    let realm_urn = Realm::generate_urn(base.name.as_str());
    validate_urn("Realm", base.name.as_str(), urn, realm_urn.as_str())?;
    Ok(Realm {
        name: base.name,
        title: base.title,
        description: base.description,
        urn: Some(realm_urn),
        cacert: base.cacert,
        device_id_signing_key: base.device_id_signing_key,
        device_id_verification_key: base.device_id_verification_key,
        session_timeout: base.session_timeout,
        administrators: base.administrators,
        expired_at: base.expired_at,
        disabled: base.disabled,
        created_at: base.created_at.unwrap_or(now),
        updated_at: base.updated_at.unwrap_or(now),
    })
}

/// `z` is the zone of the file with body `p` in realm `realm`, at `now`.
pub open spec fn zone_from_config(z: Zone, realm: Seq<char>, p: NewZone, now: Timestamp) -> bool {
    &&& z.name == p.name
    &&& z.title == p.title
    &&& z.description == p.description
    &&& z.dns_provider == p.dns_provider
    &&& z.acme_certificate_provider == p.acme_certificate_provider
    &&& z.urn matches Some(u) && u@ == zone_urn(realm, p.name@)
    &&& z.realm matches Some(r) && r@ == realm_urn(realm)
    &&& z.created_at == p.created_at.unwrap_or(now)
    &&& z.updated_at == p.updated_at.unwrap_or(now)
}

/// The zone of the file with body `base` in realm `realm_name`, at `now`.
pub fn zone_from_config_at(
    realm_name: &str,
    base: NewZone,
    urn: Option<&String>,
    now: Timestamp,
) -> (r: Result<Zone, ApiError>)
    ensures
        r is Ok <==> urn_accepted(given_urn(urn), zone_urn(realm_name@, base.name@)),
        r matches Ok(z) ==> zone_from_config(z, realm_name@, base, now),
        r matches Err(e) ==> is_urn_mismatch(
            e,
            "Zone"@,
            base.name@,
            urn,
            zone_urn(realm_name@, base.name@),
        ),
{
    let zone_urn = Zone::generate_urn(realm_name, base.name.as_str());
    validate_urn("Zone", base.name.as_str(), urn, zone_urn.as_str())?;
    Ok(Zone {
        name: base.name,
        title: base.title,
        description: base.description,
        dns_provider: base.dns_provider,
        acme_certificate_provider: base.acme_certificate_provider,
        urn: Some(zone_urn),
        realm: Some(Realm::generate_urn(realm_name)),
        created_at: base.created_at.unwrap_or(now),
        updated_at: base.updated_at.unwrap_or(now),
    })
}

/// `s` is the subdomain of the file with body `p` in zone `zone` of realm
/// `realm`, at `now`.
pub open spec fn subdomain_from_config(
    s: Subdomain,
    realm: Seq<char>,
    zone: Seq<char>,
    p: NewSubdomain,
    now: Timestamp,
) -> bool {
    &&& s.name == p.name
    &&& s.title == p.title
    &&& s.description == p.description
    &&& s.realm == p.realm
    &&& s.destination_realm == p.destination_realm
    &&& s.share_cookie == p.share_cookie
    &&& s.fqdn matches Some(f) && f@ == fqdn_of(zone, p.name@)
    &&& s.zone matches Some(z) && z@ == zone_urn(realm, zone)
    &&& s.urn matches Some(u) && u@ == subdomain_urn(realm, zone, p.name@)
    &&& s.created_at == p.created_at.unwrap_or(now)
    &&& s.updated_at == p.updated_at.unwrap_or(now)
}

/// The subdomain of the file with body `base` in zone `zone_name` of realm
/// `realm_name`, at `now`.
pub fn subdomain_from_config_at(
    realm_name: &str,
    zone_name: &str,
    base: NewSubdomain,
    urn: Option<&String>,
    now: Timestamp,
) -> (r: Result<Subdomain, ApiError>)
    ensures
        r is Ok <==> urn_accepted(
            given_urn(urn),
            subdomain_urn(realm_name@, zone_name@, base.name@),
        ),
        r matches Ok(s) ==> subdomain_from_config(s, realm_name@, zone_name@, base, now),
        r matches Err(e) ==> is_urn_mismatch(
            e,
            "Subdomain"@,
            base.name@,
            urn,
            subdomain_urn(realm_name@, zone_name@, base.name@),
        ),
{
    let sub_urn = Subdomain::generate_urn(realm_name, zone_name, base.name.as_str());
    validate_urn("Subdomain", base.name.as_str(), urn, sub_urn.as_str())?;
    let fqdn = Subdomain::generate_fqdn(zone_name, base.name.as_str());
    Ok(Subdomain {
        name: base.name,
        title: base.title,
        description: base.description,
        realm: base.realm,
        destination_realm: base.destination_realm,
        share_cookie: base.share_cookie,
        fqdn: Some(fqdn),
        zone: Some(Zone::generate_urn(realm_name, zone_name)),
        urn: Some(sub_urn),
        created_at: base.created_at.unwrap_or(now),
        updated_at: base.updated_at.unwrap_or(now),
    })
}

/// `v` is the virtual host of the file with body `p` in realm `realm`, at
/// `now`.
pub open spec fn virtual_host_from_config(
    v: VirtualHost,
    realm: Seq<char>,
    p: NewVirtualHost,
    now: Timestamp,
) -> bool {
    &&& v.name == p.name
    &&& v.title == p.title
    &&& v.description == p.description
    &&& v.realm matches Some(r) && r@ == realm_urn(realm)
    &&& v.urn matches Some(u) && u@ == virtual_host_urn(realm, p.name@)
    &&& v.subdomain == p.subdomain
    &&& v.access_log_recorder == p.access_log_recorder
    &&& v.access_log_max_value_length == p.access_log_max_value_length
    &&& v.access_log_format == p.access_log_format
    &&& v.certificate == p.certificate
    &&& v.key == p.key
    &&& v.disabled == p.disabled
    &&& v.created_at == p.created_at.unwrap_or(now)
    &&& v.updated_at == p.updated_at.unwrap_or(now)
}

/// The virtual host of the file with body `base` in realm `realm_name`, at
/// `now`.
pub fn virtual_host_from_config_at(
    realm_name: &str,
    base: NewVirtualHost,
    urn: Option<&String>,
    now: Timestamp,
) -> (r: Result<VirtualHost, ApiError>)
    ensures
        r is Ok <==> urn_accepted(given_urn(urn), virtual_host_urn(realm_name@, base.name@)),
        r matches Ok(v) ==> virtual_host_from_config(v, realm_name@, base, now),
        r matches Err(e) ==> is_urn_mismatch(
            e,
            "VirtualHost"@,
            base.name@,
            urn,
            virtual_host_urn(realm_name@, base.name@),
        ),
{
    let vhost_urn = VirtualHost::generate_urn(realm_name, base.name.as_str());
    validate_urn("VirtualHost", base.name.as_str(), urn, vhost_urn.as_str())?;
    Ok(VirtualHost {
        name: base.name,
        title: base.title,
        description: base.description,
        realm: Some(Realm::generate_urn(realm_name)),
        urn: Some(vhost_urn),
        subdomain: base.subdomain,
        access_log_recorder: base.access_log_recorder,
        access_log_max_value_length: base.access_log_max_value_length,
        access_log_format: base.access_log_format,
        certificate: base.certificate,
        key: base.key,
        disabled: base.disabled,
        created_at: base.created_at.unwrap_or(now),
        updated_at: base.updated_at.unwrap_or(now),
    })
}

/// `c` is the routing chain of the file with body `p` in realm `realm`, at
/// `now`; a chain without a name is the chain `default`.
pub open spec fn routing_chain_from_config(
    c: RoutingChain,
    realm: Seq<char>,
    p: NewRoutingChain,
    now: Timestamp,
) -> bool {
    &&& c.name@ == routing_chain_name(p)
    &&& c.title == p.title
    &&& c.description == p.description
    &&& c.urn matches Some(u) && u@ == routing_chain_urn(realm, routing_chain_name(p))
    &&& c.realm matches Some(r) && r@ == realm_urn(realm)
    &&& c.rules@ == rules_or_none(p.rules)
    &&& c.created_at == p.created_at.unwrap_or(now)
    &&& c.updated_at == p.updated_at.unwrap_or(now)
}

/// The routing chain of the file with body `base` in realm `realm_name`, at
/// `now`.
pub fn routing_chain_from_config_at(
    realm_name: &str,
    base: NewRoutingChain,
    urn: Option<&String>,
    now: Timestamp,
) -> (r: Result<RoutingChain, ApiError>)
    ensures
        r is Ok <==> urn_accepted(
            given_urn(urn),
            routing_chain_urn(realm_name@, routing_chain_name(base)),
        ),
        r matches Ok(c) ==> routing_chain_from_config(c, realm_name@, base, now),
        r matches Err(e) ==> is_urn_mismatch(
            e,
            "RoutingChain"@,
            routing_chain_name(base),
            urn,
            routing_chain_urn(realm_name@, routing_chain_name(base)),
        ),
{
    let name = match &base.name {
        Some(n) => n.clone(),
        None => String::from_str("default"),
    };
    let rc_urn = RoutingChain::generate_urn(realm_name, name.as_str());
    validate_urn("RoutingChain", name.as_str(), urn, rc_urn.as_str())?;
    let rules: Vec<Rule> = match base.rules {
        Some(v) => v,
        None => Vec::new(),
    };
    Ok(RoutingChain {
        name,
        title: base.title,
        description: base.description,
        urn: Some(rc_urn),
        realm: Some(Realm::generate_urn(realm_name)),
        rules,
        created_at: base.created_at.unwrap_or(now),
        updated_at: base.updated_at.unwrap_or(now),
    })
}

/// `h` is the hub of the file with body `p` in realm `realm`, at `now`.
pub open spec fn hub_from_config(h: Hub, realm: Seq<char>, p: NewHub, now: Timestamp) -> bool {
    &&& h.name == p.name
    &&& h.title == p.title
    &&& h.fqdn == p.fqdn
    &&& h.server_address == p.server_address
    &&& h.server_port == p.server_port
    &&& h.server_cert == p.server_cert
    &&& h.server_cert_key == p.server_cert_key
    &&& h.description == p.description
    &&& h.realm matches Some(r) && r@ == realm_urn(realm)
    &&& h.urn matches Some(u) && u@ == hub_urn(realm, p.name@)
    &&& h.attributes == p.attributes
    &&& h.created_at == p.created_at.unwrap_or(now)
    &&& h.updated_at == p.updated_at.unwrap_or(now)
}

/// The hub of the file with body `base` in realm `realm_name`, at `now`.
pub fn hub_from_config_at(realm_name: &str, base: NewHub, urn: Option<&String>, now: Timestamp) -> (r:
    Result<Hub, ApiError>)
    ensures
        r is Ok <==> urn_accepted(given_urn(urn), hub_urn(realm_name@, base.name@)),
        r matches Ok(h) ==> hub_from_config(h, realm_name@, base, now),
        r matches Err(e) ==> is_urn_mismatch(
            e,
            "Hub"@,
            base.name@,
            urn,
            hub_urn(realm_name@, base.name@),
        ),
{
    let hub_urn = Hub::generate_urn(realm_name, base.name.as_str());
    validate_urn("Hub", base.name.as_str(), urn, hub_urn.as_str())?;
    Ok(Hub {
        name: base.name,
        title: base.title,
        fqdn: base.fqdn,
        server_address: base.server_address,
        server_port: base.server_port,
        server_cert: base.server_cert,
        server_cert_key: base.server_cert_key,
        description: base.description,
        realm: Some(Realm::generate_urn(realm_name)),
        urn: Some(hub_urn),
        attributes: base.attributes,
        created_at: base.created_at.unwrap_or(now),
        updated_at: base.updated_at.unwrap_or(now),
    })
}

/// `s` is the service of the file with body `p` in hub `hub` of realm
/// `realm`, at `now`.
pub open spec fn service_from_config(
    s: Service,
    realm: Seq<char>,
    hub: Seq<char>,
    p: NewService,
    now: Timestamp,
) -> bool {
    &&& s.name == p.name
    &&& s.title == p.title
    &&& s.description == p.description
    &&& s.realm@ == realm_urn(realm)
    &&& s.provider == p.provider
    &&& s.consumers == p.consumers
    &&& s.availability_management == p.availability_management
    &&& s.singleton == p.singleton
    &&& s.hub@ == hub_urn(realm, hub)
    &&& s.urn@ == service_urn(realm, hub, p.name@)
    &&& s.created_at == p.created_at.unwrap_or(now)
    &&& s.updated_at == p.updated_at.unwrap_or(now)
}

/// The service of the file with body `base` in hub `hub_name` of realm
/// `realm_name`, at `now`.
pub fn service_from_config_at(
    realm_name: &str,
    hub_name: &str,
    base: NewService,
    urn: Option<&String>,
    now: Timestamp,
) -> (r: Result<Service, ApiError>)
    ensures
        r is Ok <==> urn_accepted(given_urn(urn), service_urn(realm_name@, hub_name@, base.name@)),
        r matches Ok(s) ==> service_from_config(s, realm_name@, hub_name@, base, now),
        r matches Err(e) ==> is_urn_mismatch(
            e,
            "Service"@,
            base.name@,
            urn,
            service_urn(realm_name@, hub_name@, base.name@),
        ),
{
    let svc_urn = Service::generate_urn(realm_name, hub_name, base.name.as_str());
    validate_urn("Service", base.name.as_str(), urn, svc_urn.as_str())?;
    Ok(Service {
        name: base.name,
        title: base.title,
        description: base.description,
        realm: Realm::generate_urn(realm_name),
        provider: base.provider,
        consumers: base.consumers,
        availability_management: base.availability_management,
        singleton: base.singleton,
        hub: Hub::generate_urn(realm_name, hub_name),
        urn: svc_urn,
        created_at: base.created_at.unwrap_or(now),
        updated_at: base.updated_at.unwrap_or(now),
    })
}

// ------------------------------------------------------------------------
// The whole file: what is written and what is refused
// ------------------------------------------------------------------------

/// A subdomain of the configuration file: its creation body and the URN the
/// file expects it to have.
#[derive(Debug)]
pub struct SubdomainConfig {
    pub base: NewSubdomain,
    pub urn: Option<String>,
}

/// A zone of the configuration file, with its subdomains.
#[derive(Debug)]
pub struct ZoneConfig {
    pub base: NewZone,
    pub subdomains: Vec<SubdomainConfig>,
    pub urn: Option<String>,
}

/// A virtual host of the configuration file.
#[derive(Debug)]
pub struct VirtualHostConfig {
    pub base: NewVirtualHost,
    pub urn: Option<String>,
}

/// A routing chain of the configuration file.
#[derive(Debug)]
pub struct RoutingChainConfig {
    pub base: NewRoutingChain,
    pub urn: Option<String>,
}

/// A service of the configuration file.
#[derive(Debug)]
pub struct ServiceConfig {
    pub base: NewService,
    pub urn: Option<String>,
}

/// A hub of the configuration file, with its services.
#[derive(Debug)]
pub struct HubConfig {
    pub base: NewHub,
    pub services: Vec<ServiceConfig>,
    pub urn: Option<String>,
}

/// A realm of the configuration file, with everything it holds.
#[derive(Debug)]
pub struct RealmConfig {
    pub base: NewRealm,
    pub zones: Vec<ZoneConfig>,
    pub virtual_hosts: Vec<VirtualHostConfig>,
    pub routing_chains: Vec<RoutingChainConfig>,
    pub hubs: Vec<HubConfig>,
    pub urn: Option<String>,
}

/// What becomes of a zone of the file: the zone to write, or its refusal;
/// and what becomes of each of its subdomains (none when the zone is
/// refused).
#[derive(Debug)]
pub struct ZonePlan {
    pub zone: Result<Zone, ApiError>,
    pub subdomains: Vec<Result<Subdomain, ApiError>>,
}

/// What becomes of a hub of the file and of each of its services (none when
/// the hub is refused).
#[derive(Debug)]
pub struct HubPlan {
    pub hub: Result<Hub, ApiError>,
    pub services: Vec<Result<Service, ApiError>>,
}

/// What becomes of an accepted realm of the file: the realm to write, then
/// what becomes of each resource it holds, in the order of the file.
#[derive(Debug)]
pub struct RealmPlan {
    pub realm: Realm,
    pub zones: Vec<ZonePlan>,
    pub virtual_hosts: Vec<Result<VirtualHost, ApiError>>,
    pub routing_chains: Vec<Result<RoutingChain, ApiError>>,
    pub hubs: Vec<HubPlan>,
}

/// The URN the file gives for a resource, as characters.
pub open spec fn expected_urn(urn: Option<String>) -> Option<Seq<char>> {
    match urn {
        Some(u) => Some(u@),
        None => None,
    }
}

/// `e` refuses a resource of the file whose given URN differs from the one
/// generated for it.
pub open spec fn urn_refusal(
    e: ApiError,
    kind: Seq<char>,
    name: Seq<char>,
    given: Option<String>,
    generated: Seq<char>,
) -> bool {
    e matches ApiError::BadRequest(m) && m@ == urn_mismatch_message(
        kind,
        name,
        given.unwrap()@,
        generated,
    )
}

/// `r` is what becomes of subdomain `c` of zone `zone` of realm `realm`.
pub open spec fn subdomain_outcome(
    r: Result<Subdomain, ApiError>,
    realm: Seq<char>,
    zone: Seq<char>,
    c: SubdomainConfig,
    now: Timestamp,
) -> bool {
    let generated = subdomain_urn(realm, zone, c.base.name@);
    match r {
        Ok(s) => urn_accepted(expected_urn(c.urn), generated) && subdomain_from_config(
            s,
            realm,
            zone,
            c.base,
            now,
        ),
        Err(e) => !urn_accepted(expected_urn(c.urn), generated) && urn_refusal(
            e,
            "Subdomain"@,
            c.base.name@,
            c.urn,
            generated,
        ),
    }
}

/// `p` is what becomes of zone `c` of realm `realm`: a refused zone takes
/// its subdomains with it.
pub open spec fn zone_outcome(p: ZonePlan, realm: Seq<char>, c: ZoneConfig, now: Timestamp) -> bool {
    let generated = zone_urn(realm, c.base.name@);
    match p.zone {
        Ok(z) => {
            &&& urn_accepted(expected_urn(c.urn), generated)
            &&& zone_from_config(z, realm, c.base, now)
            &&& p.subdomains@.len() == c.subdomains@.len()
            &&& forall|i: int|
                0 <= i < p.subdomains@.len() ==> subdomain_outcome(
                    #[trigger] p.subdomains@[i],
                    realm,
                    c.base.name@,
                    c.subdomains@[i],
                    now,
                )
        },
        Err(e) => {
            &&& !urn_accepted(expected_urn(c.urn), generated)
            &&& urn_refusal(e, "Zone"@, c.base.name@, c.urn, generated)
            &&& p.subdomains@.len() == 0
        },
    }
}

/// `r` is what becomes of virtual host `c` of realm `realm`.
pub open spec fn virtual_host_outcome(
    r: Result<VirtualHost, ApiError>,
    realm: Seq<char>,
    c: VirtualHostConfig,
    now: Timestamp,
) -> bool {
    let generated = virtual_host_urn(realm, c.base.name@);
    match r {
        Ok(v) => urn_accepted(expected_urn(c.urn), generated) && virtual_host_from_config(
            v,
            realm,
            c.base,
            now,
        ),
        Err(e) => !urn_accepted(expected_urn(c.urn), generated) && urn_refusal(
            e,
            "VirtualHost"@,
            c.base.name@,
            c.urn,
            generated,
        ),
    }
}

/// `r` is what becomes of routing chain `c` of realm `realm`.
pub open spec fn routing_chain_outcome(
    r: Result<RoutingChain, ApiError>,
    realm: Seq<char>,
    c: RoutingChainConfig,
    now: Timestamp,
) -> bool {
    let generated = routing_chain_urn(realm, routing_chain_name(c.base));
    match r {
        Ok(v) => urn_accepted(expected_urn(c.urn), generated) && routing_chain_from_config(
            v,
            realm,
            c.base,
            now,
        ),
        Err(e) => !urn_accepted(expected_urn(c.urn), generated) && urn_refusal(
            e,
            "RoutingChain"@,
            routing_chain_name(c.base),
            c.urn,
            generated,
        ),
    }
}

/// `r` is what becomes of service `c` of hub `hub` of realm `realm`.
pub open spec fn service_outcome(
    r: Result<Service, ApiError>,
    realm: Seq<char>,
    hub: Seq<char>,
    c: ServiceConfig,
    now: Timestamp,
) -> bool {
    let generated = service_urn(realm, hub, c.base.name@);
    match r {
        Ok(v) => urn_accepted(expected_urn(c.urn), generated) && service_from_config(
            v,
            realm,
            hub,
            c.base,
            now,
        ),
        Err(e) => !urn_accepted(expected_urn(c.urn), generated) && urn_refusal(
            e,
            "Service"@,
            c.base.name@,
            c.urn,
            generated,
        ),
    }
}

/// `p` is what becomes of hub `c` of realm `realm`: a refused hub takes its
/// services with it.
pub open spec fn hub_outcome(p: HubPlan, realm: Seq<char>, c: HubConfig, now: Timestamp) -> bool {
    let generated = hub_urn(realm, c.base.name@);
    match p.hub {
        Ok(h) => {
            &&& urn_accepted(expected_urn(c.urn), generated)
            &&& hub_from_config(h, realm, c.base, now)
            &&& p.services@.len() == c.services@.len()
            &&& forall|i: int|
                0 <= i < p.services@.len() ==> service_outcome(
                    #[trigger] p.services@[i],
                    realm,
                    c.base.name@,
                    c.services@[i],
                    now,
                )
        },
        Err(e) => {
            &&& !urn_accepted(expected_urn(c.urn), generated)
            &&& urn_refusal(e, "Hub"@, c.base.name@, c.urn, generated)
            &&& p.services@.len() == 0
        },
    }
}

/// `p` is what becomes of an accepted realm `c` of the file at `now`.
pub open spec fn realm_plan(p: RealmPlan, c: RealmConfig, now: Timestamp) -> bool {
    let realm = c.base.name@;
    &&& realm_from_request(p.realm, c.base, now)
    &&& p.zones@.len() == c.zones@.len()
    &&& forall|i: int|
        0 <= i < p.zones@.len() ==> zone_outcome(#[trigger] p.zones@[i], realm, c.zones@[i], now)
    &&& p.virtual_hosts@.len() == c.virtual_hosts@.len()
    &&& forall|i: int|
        0 <= i < p.virtual_hosts@.len() ==> virtual_host_outcome(
            #[trigger] p.virtual_hosts@[i],
            realm,
            c.virtual_hosts@[i],
            now,
        )
    &&& p.routing_chains@.len() == c.routing_chains@.len()
    &&& forall|i: int|
        0 <= i < p.routing_chains@.len() ==> routing_chain_outcome(
            #[trigger] p.routing_chains@[i],
            realm,
            c.routing_chains@[i],
            now,
        )
    &&& p.hubs@.len() == c.hubs@.len()
    &&& forall|i: int|
        0 <= i < p.hubs@.len() ==> hub_outcome(#[trigger] p.hubs@[i], realm, c.hubs@[i], now)
}

/// What becomes of each subdomain of zone `zone_name` of realm `realm_name`.
fn plan_subdomains(
    realm_name: &str,
    zone_name: &str,
    configs: Vec<SubdomainConfig>,
    now: Timestamp,
) -> (r: Vec<Result<Subdomain, ApiError>>)
    ensures
        r@.len() == configs@.len(),
        forall|i: int|
            0 <= i < r@.len() ==> subdomain_outcome(
                #[trigger] r@[i],
                realm_name@,
                zone_name@,
                configs@[i],
                now,
            ),
{
    let ghost all = configs@;
    let mut out: Vec<Result<Subdomain, ApiError>> = Vec::new();
    for c in it: configs.into_iter()
        invariant
            it.seq() == all,
            out@.len() == it.index(),
            forall|j: int|
                0 <= j < out@.len() ==> subdomain_outcome(
                    #[trigger] out@[j],
                    realm_name@,
                    zone_name@,
                    all[j],
                    now,
                ),
    {
        let ghost cg = c;
        let r = subdomain_from_config_at(realm_name, zone_name, c.base, c.urn.as_ref(), now);
        assert(subdomain_outcome(r, realm_name@, zone_name@, cg, now));
        out.push(r);
    }
    out
}

/// What becomes of each virtual host of realm `realm_name`.
fn plan_virtual_hosts(realm_name: &str, configs: Vec<VirtualHostConfig>, now: Timestamp) -> (r: Vec<Result<VirtualHost, ApiError>>)
    ensures
        r@.len() == configs@.len(),
        forall|i: int| 0 <= i < r@.len() ==> virtual_host_outcome(#[trigger] r@[i], realm_name@, configs@[i], now),
{
    let ghost all = configs@;
    let mut out: Vec<Result<VirtualHost, ApiError>> = Vec::new();
    for c in it: configs.into_iter()
        invariant
            it.seq() == all,
            out@.len() == it.index(),
            forall|j: int| 0 <= j < out@.len() ==> virtual_host_outcome(#[trigger] out@[j], realm_name@, all[j], now),
    {
        let ghost cg = c;
        let r = virtual_host_from_config_at(realm_name, c.base, c.urn.as_ref(), now);
        assert(virtual_host_outcome(r, realm_name@, cg, now));
        out.push(r);
    }
    out
}

/// What becomes of each routing chain of realm `realm_name`.
fn plan_routing_chains(realm_name: &str, configs: Vec<RoutingChainConfig>, now: Timestamp) -> (r: Vec<Result<RoutingChain, ApiError>>)
    ensures
        r@.len() == configs@.len(),
        forall|i: int| 0 <= i < r@.len() ==> routing_chain_outcome(#[trigger] r@[i], realm_name@, configs@[i], now),
{
    let ghost all = configs@;
    let mut out: Vec<Result<RoutingChain, ApiError>> = Vec::new();
    for c in it: configs.into_iter()
        invariant
            it.seq() == all,
            out@.len() == it.index(),
            forall|j: int| 0 <= j < out@.len() ==> routing_chain_outcome(#[trigger] out@[j], realm_name@, all[j], now),
    {
        let ghost cg = c;
        let r = routing_chain_from_config_at(realm_name, c.base, c.urn.as_ref(), now);
        assert(routing_chain_outcome(r, realm_name@, cg, now));
        out.push(r);
    }
    out
}

/// What becomes of each service of hub `hub_name` of realm `realm_name`.
fn plan_services(realm_name: &str, hub_name: &str, configs: Vec<ServiceConfig>, now: Timestamp) -> (r: Vec<Result<Service, ApiError>>)
    ensures
        r@.len() == configs@.len(),
        forall|i: int| 0 <= i < r@.len() ==> service_outcome(#[trigger] r@[i], realm_name@, hub_name@, configs@[i], now),
{
    let ghost all = configs@;
    let mut out: Vec<Result<Service, ApiError>> = Vec::new();
    for c in it: configs.into_iter()
        invariant
            it.seq() == all,
            out@.len() == it.index(),
            forall|j: int| 0 <= j < out@.len() ==> service_outcome(#[trigger] out@[j], realm_name@, hub_name@, all[j], now),
    {
        let ghost cg = c;
        let r = service_from_config_at(realm_name, hub_name, c.base, c.urn.as_ref(), now);
        assert(service_outcome(r, realm_name@, hub_name@, cg, now));
        out.push(r);
    }
    out
}

/// What becomes of zone `c` of realm `realm_name` and of its subdomains.
fn plan_zone(realm_name: &str, c: ZoneConfig, now: Timestamp) -> (p: ZonePlan)
    ensures
        zone_outcome(p, realm_name@, c, now),
{
    match zone_from_config_at(realm_name, c.base, c.urn.as_ref(), now) {
        Ok(zone) => {
            let subdomains = plan_subdomains(realm_name, zone.name.as_str(), c.subdomains, now);
            ZonePlan { zone: Ok(zone), subdomains }
        },
        Err(e) => ZonePlan { zone: Err(e), subdomains: Vec::new() },
    }
}

/// What becomes of hub `c` of realm `realm_name` and of its services.
fn plan_hub(realm_name: &str, c: HubConfig, now: Timestamp) -> (p: HubPlan)
    ensures
        hub_outcome(p, realm_name@, c, now),
{
    match hub_from_config_at(realm_name, c.base, c.urn.as_ref(), now) {
        Ok(hub) => {
            let services = plan_services(realm_name, hub.name.as_str(), c.services, now);
            HubPlan { hub: Ok(hub), services }
        },
        Err(e) => HubPlan { hub: Err(e), services: Vec::new() },
    }
}

/// What becomes of each zone of realm `realm_name`.
fn plan_zones(realm_name: &str, configs: Vec<ZoneConfig>, now: Timestamp) -> (r: Vec<ZonePlan>)
    ensures
        r@.len() == configs@.len(),
        forall|i: int| 0 <= i < r@.len() ==> zone_outcome(#[trigger] r@[i], realm_name@, configs@[i], now),
{
    let ghost all = configs@;
    let mut out: Vec<ZonePlan> = Vec::new();
    for c in it: configs.into_iter()
        invariant
            it.seq() == all,
            out@.len() == it.index(),
            forall|j: int| 0 <= j < out@.len() ==> zone_outcome(#[trigger] out@[j], realm_name@, all[j], now),
    {
        let ghost cg = c;
        let r = plan_zone(realm_name, c, now);
        assert(zone_outcome(r, realm_name@, cg, now));
        out.push(r);
    }
    out
}

/// What becomes of each hub of realm `realm_name`.
fn plan_hubs(realm_name: &str, configs: Vec<HubConfig>, now: Timestamp) -> (r: Vec<HubPlan>)
    ensures
        r@.len() == configs@.len(),
        forall|i: int| 0 <= i < r@.len() ==> hub_outcome(#[trigger] r@[i], realm_name@, configs@[i], now),
{
    let ghost all = configs@;
    let mut out: Vec<HubPlan> = Vec::new();
    for c in it: configs.into_iter()
        invariant
            it.seq() == all,
            out@.len() == it.index(),
            forall|j: int| 0 <= j < out@.len() ==> hub_outcome(#[trigger] out@[j], realm_name@, all[j], now),
    {
        let ghost cg = c;
        let r = plan_hub(realm_name, c, now);
        assert(hub_outcome(r, realm_name@, cg, now));
        out.push(r);
    }
    out
}

/// What the configuration file makes of realm `config` at time `now`: a realm
/// whose given URN differs from its generated one is refused, and the whole
/// load stops there; otherwise the realm is written, and each resource it
/// holds is written or refused on its own, a refused zone or hub taking its
/// subdomains or services with it.
pub fn plan_realm_at(config: RealmConfig, now: Timestamp) -> (r: Result<RealmPlan, ApiError>)
    ensures
        r is Ok <==> urn_accepted(expected_urn(config.urn), realm_urn(config.base.name@)),
        r matches Ok(p) ==> realm_plan(p, config, now),
        r matches Err(e) ==> urn_refusal(
            e,
            "Realm"@,
            config.base.name@,
            config.urn,
            realm_urn(config.base.name@),
        ),
{
    let ghost cg = config;
    let realm = match realm_from_config_at(config.base, config.urn.as_ref(), now) {
        Ok(realm) => realm,
        Err(e) => return Err(e),
    };
    let zones = plan_zones(realm.name.as_str(), config.zones, now);
    let virtual_hosts = plan_virtual_hosts(realm.name.as_str(), config.virtual_hosts, now);
    let routing_chains = plan_routing_chains(realm.name.as_str(), config.routing_chains, now);
    let hubs = plan_hubs(realm.name.as_str(), config.hubs, now);
    let p = RealmPlan { realm, zones, virtual_hosts, routing_chains, hubs };
    assert(realm_plan(p, cg, now));
    Ok(p)
}

/// What the configuration file makes of realm `config` now, by the system
/// clock: the realm's URN is checked before the clock is read, and a clock
/// that cannot be read stops the load.
pub fn plan_realm_now(config: RealmConfig) -> (r: Result<RealmPlan, ApiError>)
    ensures
        r matches Ok(p) ==> exists|now: Timestamp| is_clock_reading(now) && realm_plan(p, config, now),
        !urn_accepted(expected_urn(config.urn), realm_urn(config.base.name@)) ==> (r matches Err(e)
            && urn_refusal(e, "Realm"@, config.base.name@, config.urn, realm_urn(config.base.name@))),
        urn_accepted(expected_urn(config.urn), realm_urn(config.base.name@)) ==> r is Ok || r
            == Err::<RealmPlan, ApiError>(ApiError::Clock),
        urn_accepted(expected_urn(config.urn), realm_urn(config.base.name@)) ==> exists|
            answer: Option<Timestamp>,
        |
            #[trigger] clock_answer(answer) && match answer {
                Some(now) => (r matches Ok(p) && realm_plan(p, config, now)),
                None => r == Err::<RealmPlan, ApiError>(ApiError::Clock),
            },
{
    let generated = Realm::generate_urn(config.base.name.as_str());
    match validate_urn("Realm", config.base.name.as_str(), config.urn.as_ref(), generated.as_str()) {
        Ok(()) => {},
        Err(e) => return Err(e),
    }
    match clock_now() {
        Ok(now) => plan_realm_at(config, now),
        Err(e) => Err(e),
    }
}

} // verus!
