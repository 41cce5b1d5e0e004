//! The decisions the inventory service takes on its requests: how a record
//! is built from a creation request, when a request is refused, how an
//! update request changes a stored record, and which read-only fields
//! (URNs, FQDNs) a record is given before it is returned.
//!
//! Each builder that needs the current time comes in two forms: one that
//! takes the time as an argument and is specified exactly, and one that
//! reads the system clock and states what holds whatever time it read.
use crate::clock::{answer_of, clock_answer, clock_now, is_clock_reading, stamp_source};
use crate::model::{
    ApiError, ErrorResponse, Hub, NewHub, NewRealm, NewRoutingChain, NewService, NewSubdomain,
    NewVirtualHost, NewZone, Realm, RoutingChain, Rule, Service, Subdomain, Timestamp, UpdateHub,
    UpdateRealm, UpdateRoutingChain, UpdateService, UpdateSubdomain, UpdateVirtualHost, UpdateZone,
    VirtualHost, VirtualHostResponse, Zone,
};
use crate::text::str_equal;
use crate::urn::{
    fqdn_of, hub_urn, lemma_parse_generated_subdomain_urn, parsed_subdomain_urn, realm_urn,
    routing_chain_urn, service_urn, subdomain_urn, virtual_host_urn, zone_urn,
};
use vstd::prelude::*;

verus! {

broadcast use vstd::std_specs::vec::axiom_spec_into_iter;

// ------------------------------------------------------------------------
// Errors
// ------------------------------------------------------------------------

/// The HTTP status an error is answered with.
pub open spec fn status_of(e: ApiError) -> u16 {
    match e {
        ApiError::Etcd(_) => 500,
        ApiError::Json(_) => 500,
        ApiError::NotFound => 404,
        ApiError::BadRequest(_) => 400,
        ApiError::Conflict(_) => 409,
        ApiError::ParentNotFound(_) => 400,
        ApiError::Clock => 500,
    }
}

/// The message an error is answered with.
pub open spec fn message_of(e: ApiError) -> Seq<char> {
    match e {
        ApiError::Etcd(_) => "Datastore error"@,
        ApiError::Json(m) => "JSON processing error: "@ + m@,
        ApiError::NotFound => "Resource not found"@,
        ApiError::BadRequest(m) => m@,
        ApiError::Conflict(m) => m@,
        ApiError::ParentNotFound(m) => m@,
        ApiError::Clock => "Clock error"@,
    }
}

/// The text describing an error (for logs).
pub open spec fn description_of(e: ApiError) -> Seq<char> {
    match e {
        ApiError::Etcd(m) => "etcd client error: "@ + m@,
        ApiError::Json(m) => "json serialization/deserialization error: "@ + m@,
        ApiError::NotFound => "resource not found"@,
        ApiError::BadRequest(m) => "bad request: "@ + m@,
        ApiError::Conflict(m) => "resource already exists: "@ + m@,
        ApiError::ParentNotFound(m) => "parent resource not found: "@ + m@,
        ApiError::Clock => "system clock unreadable"@,
    }
}

impl ApiError {
    /// The HTTP status and the body of the answer to a request that failed
    /// with this error.
    pub fn into_response(self) -> (r: (u16, ErrorResponse))
        ensures
            r.0 == status_of(self),
            r.1.message@ == message_of(self),
    {
        match self {
            ApiError::Etcd(_) => (500, ErrorResponse { message: String::from_str("Datastore error") }),
            ApiError::Json(e) => {
                let mut m = String::from_str("JSON processing error: ");
                m.append(e.as_str());
                (500, ErrorResponse { message: m })
            },
            ApiError::NotFound => (404, ErrorResponse { message: String::from_str("Resource not found") }),
            ApiError::BadRequest(m) => (400, ErrorResponse { message: m }),
            ApiError::Conflict(m) => (409, ErrorResponse { message: m }),
            ApiError::ParentNotFound(m) => (400, ErrorResponse { message: m }),
            ApiError::Clock => (500, ErrorResponse { message: String::from_str("Clock error") }),
        }
    }

    /// The text describing this error.
    pub fn describe(&self) -> (r: String)
        ensures
            r@ == description_of(*self),
    {
        let (head, tail) = match self {
            ApiError::Etcd(m) => ("etcd client error: ", m.as_str()),
            ApiError::Json(m) => ("json serialization/deserialization error: ", m.as_str()),
            ApiError::NotFound => ("resource not found", ""),
            ApiError::BadRequest(m) => ("bad request: ", m.as_str()),
            ApiError::Conflict(m) => ("resource already exists: ", m.as_str()),
            ApiError::ParentNotFound(m) => ("parent resource not found: ", m.as_str()),
            ApiError::Clock => ("system clock unreadable", ""),
        };
        proof {
            reveal_strlit("");
        }
        let mut s = String::from_str(head);
        s.append(tail);
        s
    }
}

/// Every datastore failure is answered alike, with status 500 and the message
/// "Datastore error": nothing of what the datastore client reported reaches
/// the client of the service.
pub proof fn lemma_datastore_errors_answered_alike(a: String, b: String)
    ensures
        status_of(ApiError::Etcd(a)) == 500,
        status_of(ApiError::Etcd(b)) == 500,
        message_of(ApiError::Etcd(a)) == "Datastore error"@,
        message_of(ApiError::Etcd(a)) == message_of(ApiError::Etcd(b)),
{
}

/// A deletion that removed nothing is answered with "not found".
pub fn deletion_outcome(deleted: bool) -> (r: Result<(), ApiError>)
    ensures
        r is Ok <==> deleted,
        !deleted ==> r == Err::<(), ApiError>(ApiError::NotFound),
{
    if deleted {
        Ok(())
    } else {
        Err(ApiError::NotFound)
    }
}

/// The text `head + name + tail`.
fn enclose(head: &str, name: &str, tail: &str) -> (s: String)
    ensures
        s@ == head@ + name@ + tail@,
{
    let mut s = String::from_str(head);
    s.append(name);
    s.append(tail);
    s
}

/// The text `a + x + b + y + c`.
fn enclose2(a: &str, x: &str, b: &str, y: &str, c: &str) -> (s: String)
    ensures
        s@ == a@ + x@ + b@ + y@ + c@,
{
    let mut s = String::from_str(a);
    s.append(x);
    s.append(b);
    s.append(y);
    s.append(c);
    s
}

/// The text `a + x + b + y + c + z + d`.
fn enclose3(a: &str, x: &str, b: &str, y: &str, c: &str, z: &str, d: &str) -> (s: String)
    ensures
        s@ == a@ + x@ + b@ + y@ + c@ + z@ + d@,
{
    let mut s = enclose2(a, x, b, y, c);
    s.append(z);
    s.append(d);
    s
}

fn bad_request(msg: &str) -> (e: ApiError)
    ensures
        e matches ApiError::BadRequest(m) && m@ == msg@,
{
    ApiError::BadRequest(String::from_str(msg))
}

// ------------------------------------------------------------------------
// Realms
// ------------------------------------------------------------------------

/// `r` is the realm that the creation request `p` makes at time `now`.
pub open spec fn realm_from_request(r: Realm, p: NewRealm, now: Timestamp) -> bool {
    &&& r.name == p.name
    &&& r.title == p.title
    &&& r.description == p.description
    &&& r.urn matches Some(u) && u@ == realm_urn(p.name@)
    &&& r.cacert == p.cacert
    &&& r.device_id_signing_key == p.device_id_signing_key
    &&& r.device_id_verification_key == p.device_id_verification_key
    &&& r.session_timeout == p.session_timeout
    &&& r.administrators == p.administrators
    &&& r.expired_at == p.expired_at
    &&& r.disabled == p.disabled
    &&& r.created_at == p.created_at.unwrap_or(now)
    &&& r.updated_at == p.updated_at.unwrap_or(now)
}

/// The realm made by a creation request at time `now`; a request with an
/// empty name is refused.
pub fn realm_from_request_at(payload: NewRealm, now: Timestamp) -> (r: Result<Realm, ApiError>)
    ensures
        r is Ok <==> payload.name@.len() > 0,
        r matches Ok(realm) ==> realm_from_request(realm, payload, now),
        r matches Err(e) ==> e matches ApiError::BadRequest(m) && m@
            == "Realm name cannot be empty"@,
{
    if payload.name.as_str().is_empty() {
        return Err(bad_request("Realm name cannot be empty"));
    }
    let urn = Realm::generate_urn(payload.name.as_str());
    Ok(Realm {
        name: payload.name,
        description: payload.description,
        title: payload.title,
        urn: Some(urn),
        cacert: payload.cacert,
        device_id_signing_key: payload.device_id_signing_key,
        device_id_verification_key: payload.device_id_verification_key,
        session_timeout: payload.session_timeout,
        administrators: payload.administrators,
        expired_at: payload.expired_at,
        disabled: payload.disabled,
        created_at: payload.created_at.unwrap_or(now),
        updated_at: payload.updated_at.unwrap_or(now),
    })
}

/// The realm made by a creation request now, by the system clock.
pub fn realm_from_request_now(payload: NewRealm) -> (r: Result<Realm, ApiError>)
    ensures
        r matches Ok(v) ==> exists|now: Timestamp|
            is_clock_reading(now) && realm_from_request(v, payload, now),
        payload.name@.len() == 0 ==> (r matches Err(e) && e matches ApiError::BadRequest(m) && m@
            == "Realm name cannot be empty"@),
        payload.name@.len() > 0 ==> r is Ok || r == Err::<Realm, ApiError>(ApiError::Clock),
        payload.name@.len() > 0 ==> exists|answer: Option<Timestamp>|
            #[trigger] clock_answer(answer) && match answer {
                Some(now) => (r matches Ok(v) && realm_from_request(v, payload, now)),
                None => r == Err::<Realm, ApiError>(ApiError::Clock),
            },
{
    if payload.name.as_str().is_empty() {
        return Err(bad_request("Realm name cannot be empty"));
    }
    match clock_now() {
        Ok(now) => realm_from_request_at(payload, now),
        Err(e) => Err(e),
    }
}

/// A realm can be created only under a name not yet taken.
pub fn ensure_realm_absent(name: &str, exists: bool) -> (r: Result<(), ApiError>)
    ensures
        r is Ok <==> !exists,
        r matches Err(e) ==> e matches ApiError::Conflict(m) && m@ == "Realm '"@ + name@
            + "' already exists."@,
{
    if exists {
        return Err(ApiError::Conflict(enclose("Realm '", name, "' already exists.")));
    }
    Ok(())
}


/// `r` is `old` changed by the update request `p` at time `now`: the name
/// and URN stay, the creation time stays unless the request gives one.
pub open spec fn realm_updated(r: Realm, old: Realm, p: UpdateRealm, now: Timestamp) -> bool {
    &&& r.name == old.name
    &&& r.urn == old.urn
    &&& r.title == p.title
    &&& r.description == p.description
    &&& r.cacert == p.cacert
    &&& r.device_id_signing_key == p.device_id_signing_key
    &&& r.device_id_verification_key == p.device_id_verification_key
    &&& r.session_timeout == p.session_timeout
    &&& r.administrators == p.administrators
    &&& r.expired_at == p.expired_at
    &&& r.disabled == p.disabled
    &&& r.created_at == p.created_at.unwrap_or(old.created_at)
    &&& r.updated_at == p.updated_at.unwrap_or(now)
}

/// A stored realm changed by an update request at time `now`.
pub fn realm_with_update_at(realm: Realm, payload: UpdateRealm, now: Timestamp) -> (r: Realm)
    ensures
        realm_updated(r, realm, payload, now),
{
    Realm {
        name: realm.name,
        urn: realm.urn,
        description: payload.description,
        title: payload.title,
        device_id_signing_key: payload.device_id_signing_key,
        device_id_verification_key: payload.device_id_verification_key,
        cacert: payload.cacert,
        session_timeout: payload.session_timeout,
        administrators: payload.administrators,
        expired_at: payload.expired_at,
        disabled: payload.disabled,
        created_at: payload.created_at.unwrap_or(realm.created_at),
        updated_at: payload.updated_at.unwrap_or(now),
    }
}

/// The time given, or else the time now by the system clock.
fn given_or_now(given: Option<Timestamp>) -> (r: Result<Timestamp, ApiError>)
    ensures
        given matches Some(g) ==> r == Ok::<Timestamp, ApiError>(g),
        given is None ==> (r matches Ok(t) ==> is_clock_reading(t)),
        r matches Err(e) ==> e == ApiError::Clock,
        stamp_source(given, answer_of(r)),
{
    match given {
        Some(g) => Ok(g),
        None => clock_now(),
    }
}


/// A stored realm changed by an update request now, by the system clock
/// (read only when the request gives no update time).
pub fn realm_with_update_now(realm: Realm, payload: UpdateRealm) -> (r: Result<Realm, ApiError>)
    ensures
        r matches Ok(v) ==> exists|now: Timestamp|
            realm_updated(v, realm, payload, now) && (payload.updated_at is None ==> is_clock_reading(now)),
        payload.updated_at is Some ==> r is Ok,
        r matches Err(e) ==> e == ApiError::Clock,
        exists|answer: Option<Timestamp>|
            #[trigger] stamp_source(payload.updated_at, answer) && match answer {
                Some(now) => (r matches Ok(v) && realm_updated(v, realm, payload, now)),
                None => r == Err::<Realm, ApiError>(ApiError::Clock),
            },
{
    match given_or_now(payload.updated_at) {
        Ok(now) => Ok(realm_with_update_at(realm, payload, now)),
        Err(e) => Err(e),
    }
}

// ------------------------------------------------------------------------
// Zones
// ------------------------------------------------------------------------

/// `z` is the zone that creation request `p` makes, with `created_now` and
/// `updated_now` standing for the times missing from the request.
pub open spec fn zone_from_request(
    z: Zone,
    p: NewZone,
    created_now: Timestamp,
    updated_now: Timestamp,
) -> bool {
    &&& z.name == p.name
    &&& z.title == p.title
    &&& z.description == p.description
    &&& z.dns_provider == p.dns_provider
    &&& z.acme_certificate_provider == p.acme_certificate_provider
    &&& z.urn is None
    &&& z.realm is None
    &&& z.created_at == p.created_at.unwrap_or(created_now)
    &&& z.updated_at == p.updated_at.unwrap_or(updated_now)
}

/// The zone made by a creation request; a request with an empty name is
/// refused.
pub fn zone_from_request_at(payload: NewZone, created_now: Timestamp, updated_now: Timestamp) -> (r:
    Result<Zone, ApiError>)
    ensures
        r is Ok <==> payload.name@.len() > 0,
        r matches Ok(zone) ==> zone_from_request(zone, payload, created_now, updated_now),
        r matches Err(e) ==> e matches ApiError::BadRequest(m) && m@
            == "Zone name cannot be empty"@,
{
    if payload.name.as_str().is_empty() {
        return Err(bad_request("Zone name cannot be empty"));
    }
    Ok(Zone {
        name: payload.name,
        title: payload.title,
        description: payload.description,
        dns_provider: payload.dns_provider,
        acme_certificate_provider: payload.acme_certificate_provider,
        urn: None,
        realm: None,
        created_at: payload.created_at.unwrap_or(created_now),
        updated_at: payload.updated_at.unwrap_or(updated_now),
    })
}

/// The zone made by a creation request now; the clock is read once for each
/// time missing from the request.
pub fn zone_from_request_now(payload: NewZone) -> (r: Result<Zone, ApiError>)
    ensures
        r matches Ok(zone) ==> exists|c: Timestamp, u: Timestamp|
            zone_from_request(zone, payload, c, u)
                && (payload.created_at is None ==> is_clock_reading(c))
                && (payload.updated_at is None ==> is_clock_reading(u)),
        payload.name@.len() == 0 ==> (r matches Err(e) && e matches ApiError::BadRequest(m) && m@
            == "Zone name cannot be empty"@),
        payload.name@.len() > 0 ==> r is Ok || r == Err::<Zone, ApiError>(ApiError::Clock),
        payload.name@.len() > 0 && payload.created_at is Some && payload.updated_at is Some ==> r is Ok,
        payload.name@.len() > 0 ==> exists|c: Option<Timestamp>|
            #[trigger] stamp_source(payload.created_at, c) && match c {
                None => r == Err::<Zone, ApiError>(ApiError::Clock),
                Some(ct) => exists|u: Option<Timestamp>|
                    #[trigger] stamp_source(payload.updated_at, u) && match u {
                        None => r == Err::<Zone, ApiError>(ApiError::Clock),
                        Some(ut) => (r matches Ok(z) && zone_from_request(z, payload, ct, ut)),
                    },
            },
{
    if payload.name.as_str().is_empty() {
        return Err(bad_request("Zone name cannot be empty"));
    }
    let created_now = match given_or_now(payload.created_at) {
        Ok(t) => t,
        Err(e) => return Err(e),
    };
    let updated_now = match given_or_now(payload.updated_at) {
        Ok(t) => t,
        Err(e) => return Err(e),
    };
    zone_from_request_at(payload, created_now, updated_now)
}

/// A zone can be created only under a name not yet taken in its realm.
pub fn ensure_zone_absent(realm_id: &str, name: &str, exists: bool) -> (r: Result<(), ApiError>)
    ensures
        r is Ok <==> !exists,
        r matches Err(e) ==> e matches ApiError::Conflict(m) && m@ == "Zone '"@ + name@
            + "' already exists in realm '"@ + realm_id@ + "'"@,
{
    if exists {
        return Err(ApiError::Conflict(enclose2("Zone '", name, "' already exists in realm '", realm_id, "'")));
    }
    Ok(())
}

/// `z` is `old` with its read-only fields filled in for realm `realm_id`.
pub open spec fn zone_populated(z: Zone, old: Zone, realm_id: Seq<char>) -> bool {
    &&& z == Zone { urn: z.urn, realm: z.realm, ..old }
    &&& z.urn matches Some(u) && u@ == zone_urn(realm_id, old.name@)
    &&& z.realm matches Some(r) && r@ == realm_urn(realm_id)
}

/// Helper to populate read-only fields for a Zone
pub fn populate_zone_fields(zone: &mut Zone, realm_id: &str)
    ensures
        zone_populated(*final(zone), *old(zone), realm_id@),
{
    zone.urn = Some(Zone::generate_urn(realm_id, zone.name.as_str()));
    zone.realm = Some(Realm::generate_urn(realm_id));
}

/// `z` is `old` changed by update request `p` in realm `realm_id` at `now`.
pub open spec fn zone_updated(
    z: Zone,
    old: Zone,
    realm_id: Seq<char>,
    p: UpdateZone,
    now: Timestamp,
) -> bool {
    &&& z.name == old.name
    &&& z.urn == old.urn
    &&& z.title == p.title
    &&& z.description == p.description
    &&& z.dns_provider == p.dns_provider
    &&& z.acme_certificate_provider == p.acme_certificate_provider
    &&& z.realm matches Some(r) && r@ == realm_urn(realm_id)
    &&& z.created_at == p.created_at.unwrap_or(old.created_at)
    &&& z.updated_at == p.updated_at.unwrap_or(now)
}

/// A stored zone changed by an update request at time `now`.
pub fn zone_with_update_at(zone: Zone, realm_id: &str, payload: UpdateZone, now: Timestamp) -> (r:
    Zone)
    ensures
        zone_updated(r, zone, realm_id@, payload, now),
{
    Zone {
        name: zone.name,
        urn: zone.urn,
        description: payload.description,
        title: payload.title,
        dns_provider: payload.dns_provider,
        acme_certificate_provider: payload.acme_certificate_provider,
        realm: Some(Realm::generate_urn(realm_id)),
        created_at: payload.created_at.unwrap_or(zone.created_at),
        updated_at: payload.updated_at.unwrap_or(now),
    }
}

/// A stored zone changed by an update request now, by the system clock.
pub fn zone_with_update_now(zone: Zone, realm_id: &str, payload: UpdateZone) -> (r: Result<Zone, ApiError>)
    ensures
        r matches Ok(v) ==> exists|now: Timestamp|
            zone_updated(v, zone, realm_id@, payload, now) && (payload.updated_at is None ==> is_clock_reading(now)),
        payload.updated_at is Some ==> r is Ok,
        r matches Err(e) ==> e == ApiError::Clock,
        exists|answer: Option<Timestamp>|
            #[trigger] stamp_source(payload.updated_at, answer) && match answer {
                Some(now) => (r matches Ok(v) && zone_updated(v, zone, realm_id@, payload, now)),
                None => r == Err::<Zone, ApiError>(ApiError::Clock),
            },
{
    match given_or_now(payload.updated_at) {
        Ok(now) => Ok(zone_with_update_at(zone, realm_id, payload, now)),
        Err(e) => Err(e),
    }
}

// ------------------------------------------------------------------------
// Subdomains
// ------------------------------------------------------------------------

/// `s` is the subdomain that creation request `p` makes at time `now`.
pub open spec fn subdomain_from_request(s: Subdomain, p: NewSubdomain, now: Timestamp) -> bool {
    &&& s.name == p.name
    &&& s.title == p.title
    &&& s.description == p.description
    &&& s.realm == p.realm
    &&& s.destination_realm == p.destination_realm
    &&& s.share_cookie == p.share_cookie
    &&& s.fqdn is None
    &&& s.zone is None
    &&& s.urn is None
    &&& s.created_at == p.created_at.unwrap_or(now)
    &&& s.updated_at == p.updated_at.unwrap_or(now)
}

/// The subdomain made by a creation request at time `now`; a request with an
/// empty name is refused.
pub fn subdomain_from_request_at(payload: NewSubdomain, now: Timestamp) -> (r: Result<
    Subdomain,
    ApiError,
>)
    ensures
        r is Ok <==> payload.name@.len() > 0,
        r matches Ok(sub) ==> subdomain_from_request(sub, payload, now),
        r matches Err(e) ==> e matches ApiError::BadRequest(m) && m@
            == "Subdomain name cannot be empty"@,
{
    if payload.name.as_str().is_empty() {
        return Err(bad_request("Subdomain name cannot be empty"));
    }
    Ok(Subdomain {
        name: payload.name,
        title: payload.title,
        description: payload.description,
        realm: payload.realm,
        destination_realm: payload.destination_realm,
        share_cookie: payload.share_cookie,
        fqdn: None,
        zone: None,
        urn: None,
        created_at: payload.created_at.unwrap_or(now),
        updated_at: payload.updated_at.unwrap_or(now),
    })
}

/// The subdomain made by a creation request now, by the system clock.
pub fn subdomain_from_request_now(payload: NewSubdomain) -> (r: Result<Subdomain, ApiError>)
    ensures
        r matches Ok(v) ==> exists|now: Timestamp|
            is_clock_reading(now) && subdomain_from_request(v, payload, now),
        payload.name@.len() == 0 ==> (r matches Err(e) && e matches ApiError::BadRequest(m) && m@
            == "Subdomain name cannot be empty"@),
        payload.name@.len() > 0 ==> r is Ok || r == Err::<Subdomain, ApiError>(ApiError::Clock),
        payload.name@.len() > 0 ==> exists|answer: Option<Timestamp>|
            #[trigger] clock_answer(answer) && match answer {
                Some(now) => (r matches Ok(v) && subdomain_from_request(v, payload, now)),
                None => r == Err::<Subdomain, ApiError>(ApiError::Clock),
            },
{
    if payload.name.as_str().is_empty() {
        return Err(bad_request("Subdomain name cannot be empty"));
    }
    match clock_now() {
        Ok(now) => subdomain_from_request_at(payload, now),
        Err(e) => Err(e),
    }
}

/// A subdomain can be created only under a name not yet taken in its zone.
pub fn ensure_subdomain_absent(realm_id: &str, zone_id: &str, name: &str, exists: bool) -> (r:
    Result<(), ApiError>)
    ensures
        r is Ok <==> !exists,
        r matches Err(e) ==> e matches ApiError::Conflict(m) && m@ == "Subdomain '"@ + name@
            + "' already exists in zone '"@ + realm_id@ + "/"@ + zone_id@ + "'"@,
{
    if exists {
        return Err(
            ApiError::Conflict(
                enclose3(
                    "Subdomain '",
                    name,
                    "' already exists in zone '",
                    realm_id,
                    "/",
                    zone_id,
                    "'",
                ),
            ),
        );
    }
    Ok(())
}

/// `s` is `old` with its read-only fields filled in for zone `zone_id` of
/// realm `realm_id`.
pub open spec fn subdomain_populated(
    s: Subdomain,
    old: Subdomain,
    realm_id: Seq<char>,
    zone_id: Seq<char>,
) -> bool {
    &&& s == Subdomain { urn: s.urn, realm: s.realm, zone: s.zone, fqdn: s.fqdn, ..old }
    &&& s.urn matches Some(u) && u@ == subdomain_urn(realm_id, zone_id, old.name@)
    &&& s.realm matches Some(r) && r@ == realm_urn(realm_id)
    &&& s.zone matches Some(z) && z@ == zone_urn(realm_id, zone_id)
    &&& s.fqdn matches Some(f) && f@ == fqdn_of(zone_id, old.name@)
}

/// Helper to populate read-only fields for a Subdomain
pub fn populate_subdomain_fields(subdomain: &mut Subdomain, realm_id: &str, zone_id: &str)
    ensures
        subdomain_populated(*final(subdomain), *old(subdomain), realm_id@, zone_id@),
{
    subdomain.urn = Some(Subdomain::generate_urn(realm_id, zone_id, subdomain.name.as_str()));
    subdomain.realm = Some(Realm::generate_urn(realm_id));
    subdomain.zone = Some(Zone::generate_urn(realm_id, zone_id));
    subdomain.fqdn = Some(Subdomain::generate_fqdn(zone_id, subdomain.name.as_str()));
}

/// The URN a subdomain is given when populated parses back into the realm,
/// zone and name it was populated with (none of them holding a `:`), so a
/// virtual host naming that URN finds the subdomain again.
pub proof fn lemma_populated_subdomain_urn_parses(
    s: Subdomain,
    old: Subdomain,
    realm_id: Seq<char>,
    zone_id: Seq<char>,
)
    requires
        subdomain_populated(s, old, realm_id, zone_id),
        !realm_id.contains(':'),
        !zone_id.contains(':'),
        !old.name@.contains(':'),
    ensures
        parsed_subdomain_urn(s.urn.unwrap()@) == Some((realm_id, zone_id, s.name@)),
{
    lemma_parse_generated_subdomain_urn(realm_id, zone_id, old.name@);
}

/// `s` is `old` changed by update request `p` at time `now`.
pub open spec fn subdomain_updated(s: Subdomain, old: Subdomain, p: UpdateSubdomain, now: Timestamp) -> bool {
    &&& s.name == old.name
    &&& s.fqdn == old.fqdn
    &&& s.zone == old.zone
    &&& s.urn == old.urn
    &&& s.title == p.title
    &&& s.description == p.description
    &&& s.realm == p.realm
    &&& s.destination_realm == p.destination_realm
    &&& s.share_cookie == p.share_cookie
    &&& s.created_at == p.created_at.unwrap_or(old.created_at)
    &&& s.updated_at == p.updated_at.unwrap_or(now)
}

/// A stored subdomain changed by an update request at time `now`.
pub fn subdomain_with_update_at(sub: Subdomain, payload: UpdateSubdomain, now: Timestamp) -> (r:
    Subdomain)
    ensures
        subdomain_updated(r, sub, payload, now),
{
    Subdomain {
        name: sub.name,
        fqdn: sub.fqdn,
        zone: sub.zone,
        urn: sub.urn,
        title: payload.title,
        description: payload.description,
        realm: payload.realm,
        destination_realm: payload.destination_realm,
        share_cookie: payload.share_cookie,
        created_at: payload.created_at.unwrap_or(sub.created_at),
        updated_at: payload.updated_at.unwrap_or(now),
    }
}

/// A stored subdomain changed by an update request now, by the system clock.
pub fn subdomain_with_update_now(sub: Subdomain, payload: UpdateSubdomain) -> (r: Result<Subdomain, ApiError>)
    ensures
        r matches Ok(v) ==> exists|now: Timestamp|
            subdomain_updated(v, sub, payload, now) && (payload.updated_at is None ==> is_clock_reading(now)),
        payload.updated_at is Some ==> r is Ok,
        r matches Err(e) ==> e == ApiError::Clock,
        exists|answer: Option<Timestamp>|
            #[trigger] stamp_source(payload.updated_at, answer) && match answer {
                Some(now) => (r matches Ok(v) && subdomain_updated(v, sub, payload, now)),
                None => r == Err::<Subdomain, ApiError>(ApiError::Clock),
            },
{
    match given_or_now(payload.updated_at) {
        Ok(now) => Ok(subdomain_with_update_at(sub, payload, now)),
        Err(e) => Err(e),
    }
}

// ------------------------------------------------------------------------
// Virtual hosts
// ------------------------------------------------------------------------

/// `v` is the virtual host that creation request `p` makes in realm
/// `realm_id` at time `now`.
pub open spec fn virtual_host_from_request(
    v: VirtualHost,
    realm_id: Seq<char>,
    p: NewVirtualHost,
    now: Timestamp,
) -> bool {
    &&& v.name == p.name
    &&& v.title == p.title
    &&& v.description == p.description
    &&& v.realm matches Some(r) && r@ == realm_urn(realm_id)
    &&& v.urn matches Some(u) && u@ == virtual_host_urn(realm_id, p.name@)
    &&& v.subdomain == p.subdomain
    &&& v.access_log_recorder == p.access_log_recorder
    &&& v.access_log_max_value_length == p.access_log_max_value_length
    &&& v.access_log_format == p.access_log_format
    &&& v.certificate == p.certificate
    &&& v.key == p.key
    &&& v.disabled == p.disabled
    &&& v.created_at == p.created_at.unwrap_or(now)
    &&& v.updated_at == p.updated_at.unwrap_or(now)
}

/// The virtual host made by a creation request in realm `realm_id` at time
/// `now`; a request with an empty name is refused.
pub fn virtual_host_from_request_at(realm_id: &str, payload: NewVirtualHost, now: Timestamp) -> (r:
    Result<VirtualHost, ApiError>)
    ensures
        r is Ok <==> payload.name@.len() > 0,
        r matches Ok(v) ==> virtual_host_from_request(v, realm_id@, payload, now),
        r matches Err(e) ==> e matches ApiError::BadRequest(m) && m@
            == "VirtualHost name cannot be empty"@,
{
    if payload.name.as_str().is_empty() {
        return Err(bad_request("VirtualHost name cannot be empty"));
    }
    let realm = Realm::generate_urn(realm_id);
    let urn = VirtualHost::generate_urn(realm_id, payload.name.as_str());
    Ok(VirtualHost {
        name: payload.name,
        description: payload.description,
        title: payload.title,
        realm: Some(realm),
        urn: Some(urn),
        subdomain: payload.subdomain,
        access_log_recorder: payload.access_log_recorder,
        access_log_max_value_length: payload.access_log_max_value_length,
        access_log_format: payload.access_log_format,
        certificate: payload.certificate,
        key: payload.key,
        disabled: payload.disabled,
        created_at: payload.created_at.unwrap_or(now),
        updated_at: payload.updated_at.unwrap_or(now),
    })
}

/// The virtual host made by a creation request now, by the system clock.
pub fn virtual_host_from_request_now(realm_id: &str, payload: NewVirtualHost) -> (r: Result<VirtualHost, ApiError>)
    ensures
        r matches Ok(v) ==> exists|now: Timestamp|
            is_clock_reading(now) && virtual_host_from_request(v, realm_id@, payload, now),
        payload.name@.len() == 0 ==> (r matches Err(e) && e matches ApiError::BadRequest(m) && m@
            == "VirtualHost name cannot be empty"@),
        payload.name@.len() > 0 ==> r is Ok || r == Err::<VirtualHost, ApiError>(ApiError::Clock),
        payload.name@.len() > 0 ==> exists|answer: Option<Timestamp>|
            #[trigger] clock_answer(answer) && match answer {
                Some(now) => (r matches Ok(v) && virtual_host_from_request(v, realm_id@, payload, now)),
                None => r == Err::<VirtualHost, ApiError>(ApiError::Clock),
            },
{
    if payload.name.as_str().is_empty() {
        return Err(bad_request("VirtualHost name cannot be empty"));
    }
    match clock_now() {
        Ok(now) => virtual_host_from_request_at(realm_id, payload, now),
        Err(e) => Err(e),
    }
}

/// A virtual host can be created only under a name not yet taken in its realm.
pub fn ensure_virtual_host_absent(realm_id: &str, name: &str, exists: bool) -> (r: Result<
    (),
    ApiError,
>)
    ensures
        r is Ok <==> !exists,
        r matches Err(e) ==> e matches ApiError::Conflict(m) && m@ == "VirtualHost '"@ + name@
            + "' already exists in realm '"@ + realm_id@ + "'"@,
{
    if exists {
        return Err(
            ApiError::Conflict(enclose2("VirtualHost '", name, "' already exists in realm '", realm_id, "'")),
        );
    }
    Ok(())
}

/// `v` is `old` changed by update request `p` at time `now`.
pub open spec fn virtual_host_updated(
    v: VirtualHost,
    old: VirtualHost,
    p: UpdateVirtualHost,
    now: Timestamp,
) -> bool {
    &&& v.name == old.name
    &&& v.realm == old.realm
    &&& v.urn == old.urn
    &&& v.title == p.title
    &&& v.description == p.description
    &&& v.subdomain == p.subdomain
    &&& v.access_log_recorder == p.access_log_recorder
    &&& v.access_log_max_value_length == p.access_log_max_value_length
    &&& v.access_log_format == p.access_log_format
    &&& v.certificate == p.certificate
    &&& v.key == p.key
    &&& v.disabled == p.disabled
    &&& v.created_at == p.created_at.unwrap_or(old.created_at)
    &&& v.updated_at == p.updated_at.unwrap_or(now)
}

/// A stored virtual host changed by an update request at time `now`.
pub fn virtual_host_with_update_at(
    vhost: VirtualHost,
    payload: UpdateVirtualHost,
    now: Timestamp,
) -> (r: VirtualHost)
    ensures
        virtual_host_updated(r, vhost, payload, now),
{
    VirtualHost {
        name: vhost.name,
        realm: vhost.realm,
        urn: vhost.urn,
        description: payload.description,
        title: payload.title,
        subdomain: payload.subdomain,
        access_log_recorder: payload.access_log_recorder,
        access_log_max_value_length: payload.access_log_max_value_length,
        access_log_format: payload.access_log_format,
        certificate: payload.certificate,
        key: payload.key,
        disabled: payload.disabled,
        created_at: payload.created_at.unwrap_or(vhost.created_at),
        updated_at: payload.updated_at.unwrap_or(now),
    }
}

/// A stored virtual host changed by an update request now, by the system clock.
pub fn virtual_host_with_update_now(vhost: VirtualHost, payload: UpdateVirtualHost) -> (r: Result<VirtualHost, ApiError>)
    ensures
        r matches Ok(v) ==> exists|now: Timestamp|
            virtual_host_updated(v, vhost, payload, now) && (payload.updated_at is None ==> is_clock_reading(now)),
        payload.updated_at is Some ==> r is Ok,
        r matches Err(e) ==> e == ApiError::Clock,
        exists|answer: Option<Timestamp>|
            #[trigger] stamp_source(payload.updated_at, answer) && match answer {
                Some(now) => (r matches Ok(v) && virtual_host_updated(v, vhost, payload, now)),
                None => r == Err::<VirtualHost, ApiError>(ApiError::Clock),
            },
{
    match given_or_now(payload.updated_at) {
        Ok(now) => Ok(virtual_host_with_update_at(vhost, payload, now)),
        Err(e) => Err(e),
    }
}

/// The FQDN a virtual host is answered with, given the lookup of the
/// subdomain its subdomain URN names in zone `zone_id`: the FQDN made of the
/// subdomain's name and the zone when the subdomain was found, else none.
pub fn resolved_fqdn(zone_id: &str, found: Result<Subdomain, ApiError>) -> (r: Option<String>)
    ensures
        found matches Ok(s) ==> r matches Some(f) && f@ == fqdn_of(zone_id@, s.name@),
        found is Err ==> r is None,
{
    match found {
        Ok(s) => Some(Subdomain::generate_fqdn(zone_id, s.name.as_str())),
        Err(_) => None,
    }
}

impl VirtualHost {
    /// The answer for this virtual host, with FQDN `fqdn`.
    pub fn into_response(self, fqdn: Option<String>) -> (r: VirtualHostResponse)
        ensures
            r == (VirtualHostResponse {
                name: self.name,
                title: self.title,
                description: self.description,
                realm: self.realm,
                urn: self.urn,
                fqdn: fqdn,
                subdomain: self.subdomain,
                access_log_recorder: self.access_log_recorder,
                access_log_max_value_length: self.access_log_max_value_length,
                access_log_format: self.access_log_format,
                certificate: self.certificate,
                key: self.key,
                disabled: self.disabled,
                created_at: self.created_at,
                updated_at: self.updated_at,
            }),
    {
        VirtualHostResponse {
            name: self.name,
            title: self.title,
            description: self.description,
            realm: self.realm,
            urn: self.urn,
            fqdn,
            subdomain: self.subdomain,
            access_log_recorder: self.access_log_recorder,
            access_log_max_value_length: self.access_log_max_value_length,
            access_log_format: self.access_log_format,
            certificate: self.certificate,
            key: self.key,
            disabled: self.disabled,
            created_at: self.created_at,
            updated_at: self.updated_at,
        }
    }
}

// ------------------------------------------------------------------------
// Routing chains (one per realm)
// ------------------------------------------------------------------------

/// The rules given, or none.
pub open spec fn rules_or_none(rules: Option<Vec<Rule>>) -> Seq<Rule> {
    match rules {
        Some(v) => v@,
        None => Seq::<Rule>::empty(),
    }
}

fn rules_given(rules: Option<Vec<Rule>>) -> (r: Vec<Rule>)
    ensures
        r@ == rules_or_none(rules),
{
    match rules {
        Some(v) => v,
        None => Vec::new(),
    }
}

/// The name of the routing chain a creation request makes: the name given,
/// or `default`.
pub open spec fn routing_chain_name(p: NewRoutingChain) -> Seq<char> {
    match p.name {
        Some(n) => n@,
        None => "default"@,
    }
}

/// `c` is the routing chain that creation request `p` makes at time `now`.
pub open spec fn routing_chain_from_request(c: RoutingChain, p: NewRoutingChain, now: Timestamp) -> bool {
    &&& c.name@ == routing_chain_name(p)
    &&& c.title == p.title
    &&& c.description == p.description
    &&& c.urn is None
    &&& c.realm is None
    &&& c.rules@ == rules_or_none(p.rules)
    &&& c.created_at == p.created_at.unwrap_or(now)
    &&& c.updated_at == p.updated_at.unwrap_or(now)
}

/// The routing chain made by a creation request at time `now`; a request
/// whose name is empty is refused (a request without a name makes the chain
/// `default`).
pub fn routing_chain_from_request_at(payload: NewRoutingChain, now: Timestamp) -> (r: Result<
    RoutingChain,
    ApiError,
>)
    ensures
        r is Ok <==> routing_chain_name(payload).len() > 0,
        r matches Ok(c) ==> routing_chain_from_request(c, payload, now),
        r matches Err(e) ==> e matches ApiError::BadRequest(m) && m@
            == "RoutingChain name cannot be empty"@,
{
    let name = match payload.name {
        Some(n) => n,
        None => String::from_str("default"),
    };
    if name.as_str().is_empty() {
        return Err(bad_request("RoutingChain name cannot be empty"));
    }
    Ok(RoutingChain {
        name,
        title: payload.title,
        description: payload.description,
        urn: None,
        realm: None,
        rules: rules_given(payload.rules),
        created_at: payload.created_at.unwrap_or(now),
        updated_at: payload.updated_at.unwrap_or(now),
    })
}

/// The routing chain made by a creation request now, by the system clock.
pub fn routing_chain_from_request_now(payload: NewRoutingChain) -> (r: Result<
    RoutingChain,
    ApiError,
>)
    ensures
        r matches Ok(c) ==> exists|now: Timestamp|
            is_clock_reading(now) && routing_chain_from_request(c, payload, now),
        routing_chain_name(payload).len() == 0 ==> (r matches Err(e) && e matches ApiError::BadRequest(m)
            && m@ == "RoutingChain name cannot be empty"@),
        routing_chain_name(payload).len() > 0 ==> r is Ok || r == Err::<RoutingChain, ApiError>(
            ApiError::Clock,
        ),
        routing_chain_name(payload).len() > 0 ==> exists|answer: Option<Timestamp>|
            #[trigger] clock_answer(answer) && match answer {
                Some(now) => (r matches Ok(v) && routing_chain_from_request(v, payload, now)),
                None => r == Err::<RoutingChain, ApiError>(ApiError::Clock),
            },
{
    proof {
        reveal_strlit("default");
    }
    let unnamed = match &payload.name {
        Some(n) => n.as_str().is_empty(),
        None => false,
    };
    if unnamed {
        return Err(bad_request("RoutingChain name cannot be empty"));
    }
    match clock_now() {
        Ok(now) => routing_chain_from_request_at(payload, now),
        Err(e) => Err(e),
    }
}

/// A realm holds at most one routing chain: a creation is refused when the
/// realm already holds one.
pub fn ensure_routing_chain_slot_free(realm_id: &str, exists: bool) -> (r: Result<(), ApiError>)
    ensures
        r is Ok <==> !exists,
        r matches Err(e) ==> e matches ApiError::Conflict(m) && m@
            == "A RoutingChain already exists in realm '"@ + realm_id@ + "'. Only one is allowed."@,
{
    if exists {
        return Err(
            ApiError::Conflict(
                enclose("A RoutingChain already exists in realm '", realm_id, "'. Only one is allowed."),
            ),
        );
    }
    Ok(())
}

/// The routing chain `routing_chain_id` of a realm, given the chains stored
/// in the realm: the realm's chain when it bears that name, else not found.
pub fn realm_routing_chain(stored: Vec<RoutingChain>, routing_chain_id: &str) -> (r: Result<
    RoutingChain,
    ApiError,
>)
    ensures
        r is Ok <==> stored@.len() > 0 && stored@[0].name@ == routing_chain_id@,
        r matches Ok(c) ==> c == stored@[0],
        r matches Err(e) ==> e == ApiError::NotFound,
{
    let mut stored = stored;
    if stored.len() == 0 {
        return Err(ApiError::NotFound);
    }
    let chain = stored.swap_remove(0);
    if !str_equal(chain.name.as_str(), routing_chain_id) {
        return Err(ApiError::NotFound);
    }
    Ok(chain)
}

/// `c` is `old` with its read-only fields filled in for realm `realm_id`.
pub open spec fn routing_chain_populated(c: RoutingChain, old: RoutingChain, realm_id: Seq<char>) -> bool {
    &&& c == RoutingChain { urn: c.urn, realm: c.realm, ..old }
    &&& c.urn matches Some(u) && u@ == routing_chain_urn(realm_id, old.name@)
    &&& c.realm matches Some(r) && r@ == realm_urn(realm_id)
}

/// Helper to populate read-only fields for a RoutingChain
pub fn populate_routing_chain_fields(rchain: &mut RoutingChain, realm_id: &str)
    ensures
        routing_chain_populated(*final(rchain), *old(rchain), realm_id@),
{
    rchain.urn = Some(RoutingChain::generate_urn(realm_id, rchain.name.as_str()));
    rchain.realm = Some(Realm::generate_urn(realm_id));
}

/// `c` is `old` changed by update request `p` at time `now`; an update
/// without rules leaves the chain with none.
pub open spec fn routing_chain_updated(
    c: RoutingChain,
    old: RoutingChain,
    p: UpdateRoutingChain,
    now: Timestamp,
) -> bool {
    &&& c.name == old.name
    &&& c.urn == old.urn
    &&& c.realm == old.realm
    &&& c.title == p.title
    &&& c.description == p.description
    &&& c.rules@ == rules_or_none(p.rules)
    &&& c.created_at == p.created_at.unwrap_or(old.created_at)
    &&& c.updated_at == p.updated_at.unwrap_or(now)
}

/// A stored routing chain changed by an update request at time `now`.
pub fn routing_chain_with_update_at(
    rchain: RoutingChain,
    payload: UpdateRoutingChain,
    now: Timestamp,
) -> (r: RoutingChain)
    ensures
        routing_chain_updated(r, rchain, payload, now),
{
    RoutingChain {
        name: rchain.name,
        urn: rchain.urn,
        realm: rchain.realm,
        description: payload.description,
        title: payload.title,
        created_at: payload.created_at.unwrap_or(rchain.created_at),
        updated_at: payload.updated_at.unwrap_or(now),
        rules: rules_given(payload.rules),
    }
}

/// A stored routing chain changed by an update request now, by the system clock.
pub fn routing_chain_with_update_now(rchain: RoutingChain, payload: UpdateRoutingChain) -> (r: Result<RoutingChain, ApiError>)
    ensures
        r matches Ok(v) ==> exists|now: Timestamp|
            routing_chain_updated(v, rchain, payload, now) && (payload.updated_at is None ==> is_clock_reading(now)),
        payload.updated_at is Some ==> r is Ok,
        r matches Err(e) ==> e == ApiError::Clock,
        exists|answer: Option<Timestamp>|
            #[trigger] stamp_source(payload.updated_at, answer) && match answer {
                Some(now) => (r matches Ok(v) && routing_chain_updated(v, rchain, payload, now)),
                None => r == Err::<RoutingChain, ApiError>(ApiError::Clock),
            },
{
    match given_or_now(payload.updated_at) {
        Ok(now) => Ok(routing_chain_with_update_at(rchain, payload, now)),
        Err(e) => Err(e),
    }
}

// ------------------------------------------------------------------------
// Hubs
// ------------------------------------------------------------------------

/// `h` is the hub that creation request `p` makes at time `now`.
pub open spec fn hub_from_request(h: Hub, p: NewHub, now: Timestamp) -> bool {
    &&& h.name == p.name
    &&& h.title == p.title
    &&& h.fqdn == p.fqdn
    &&& h.server_address == p.server_address
    &&& h.server_port == p.server_port
    &&& h.server_cert == p.server_cert
    &&& h.server_cert_key == p.server_cert_key
    &&& h.description == p.description
    &&& h.realm is None
    &&& h.urn is None
    &&& h.attributes == p.attributes
    &&& h.created_at == p.created_at.unwrap_or(now)
    &&& h.updated_at == p.updated_at.unwrap_or(now)
}

/// The hub made by a creation request at time `now`; a request with an empty
/// name is refused.
pub fn hub_from_request_at(payload: NewHub, now: Timestamp) -> (r: Result<Hub, ApiError>)
    ensures
        r is Ok <==> payload.name@.len() > 0,
        r matches Ok(h) ==> hub_from_request(h, payload, now),
        r matches Err(e) ==> e matches ApiError::BadRequest(m) && m@
            == "Hub name cannot be empty"@,
{
    if payload.name.as_str().is_empty() {
        return Err(bad_request("Hub name cannot be empty"));
    }
    Ok(Hub {
        name: payload.name,
        description: payload.description,
        title: payload.title,
        fqdn: payload.fqdn,
        server_address: payload.server_address,
        server_port: payload.server_port,
        server_cert: payload.server_cert,
        server_cert_key: payload.server_cert_key,
        realm: None,
        urn: None,
        attributes: payload.attributes,
        created_at: payload.created_at.unwrap_or(now),
        updated_at: payload.updated_at.unwrap_or(now),
    })
}

/// The hub made by a creation request now, by the system clock.
pub fn hub_from_request_now(payload: NewHub) -> (r: Result<Hub, ApiError>)
    ensures
        r matches Ok(v) ==> exists|now: Timestamp|
            is_clock_reading(now) && hub_from_request(v, payload, now),
        payload.name@.len() == 0 ==> (r matches Err(e) && e matches ApiError::BadRequest(m) && m@
            == "Hub name cannot be empty"@),
        payload.name@.len() > 0 ==> r is Ok || r == Err::<Hub, ApiError>(ApiError::Clock),
        payload.name@.len() > 0 ==> exists|answer: Option<Timestamp>|
            #[trigger] clock_answer(answer) && match answer {
                Some(now) => (r matches Ok(v) && hub_from_request(v, payload, now)),
                None => r == Err::<Hub, ApiError>(ApiError::Clock),
            },
{
    if payload.name.as_str().is_empty() {
        return Err(bad_request("Hub name cannot be empty"));
    }
    match clock_now() {
        Ok(now) => hub_from_request_at(payload, now),
        Err(e) => Err(e),
    }
}

/// A hub can be created only under a name not yet taken in its realm.
pub fn ensure_hub_absent(realm_id: &str, name: &str, exists: bool) -> (r: Result<(), ApiError>)
    ensures
        r is Ok <==> !exists,
        r matches Err(e) ==> e matches ApiError::Conflict(m) && m@ == "Hub '"@ + name@
            + "' already exists in realm '"@ + realm_id@ + "'"@,
{
    if exists {
        return Err(ApiError::Conflict(enclose2("Hub '", name, "' already exists in realm '", realm_id, "'")));
    }
    Ok(())
}

/// `h` is `old` with its read-only fields filled in for realm `realm_id`.
pub open spec fn hub_populated(h: Hub, old: Hub, realm_id: Seq<char>) -> bool {
    &&& h == Hub { urn: h.urn, realm: h.realm, ..old }
    &&& h.urn matches Some(u) && u@ == hub_urn(realm_id, old.name@)
    &&& h.realm matches Some(r) && r@ == realm_urn(realm_id)
}

/// Helper to populate read-only fields for a Hub
pub fn populate_hub_fields(hub: &mut Hub, realm_id: &str)
    ensures
        hub_populated(*final(hub), *old(hub), realm_id@),
{
    hub.urn = Some(Hub::generate_urn(realm_id, hub.name.as_str()));
    hub.realm = Some(Realm::generate_urn(realm_id));
}

/// `h` is `old` changed by update request `p` at time `now`.
pub open spec fn hub_updated(h: Hub, old: Hub, p: UpdateHub, now: Timestamp) -> bool {
    &&& h.name == old.name
    &&& h.realm == old.realm
    &&& h.urn == old.urn
    &&& h.title == p.title
    &&& h.fqdn == p.fqdn
    &&& h.description == p.description
    &&& h.server_address == p.server_address
    &&& h.server_port == p.server_port
    &&& h.server_cert == p.server_cert
    &&& h.server_cert_key == p.server_cert_key
    &&& h.attributes == p.attributes
    &&& h.created_at == p.created_at.unwrap_or(old.created_at)
    &&& h.updated_at == p.updated_at.unwrap_or(now)
}

/// A stored hub changed by an update request at time `now`.
pub fn hub_with_update_at(hub: Hub, payload: UpdateHub, now: Timestamp) -> (r: Hub)
    ensures
        hub_updated(r, hub, payload, now),
{
    Hub {
        name: hub.name,
        realm: hub.realm,
        urn: hub.urn,
        title: payload.title,
        fqdn: payload.fqdn,
        description: payload.description,
        server_address: payload.server_address,
        server_port: payload.server_port,
        server_cert: payload.server_cert,
        server_cert_key: payload.server_cert_key,
        attributes: payload.attributes,
        created_at: payload.created_at.unwrap_or(hub.created_at),
        updated_at: payload.updated_at.unwrap_or(now),
    }
}

/// A stored hub changed by an update request now, by the system clock.
pub fn hub_with_update_now(hub: Hub, payload: UpdateHub) -> (r: Result<Hub, ApiError>)
    ensures
        r matches Ok(v) ==> exists|now: Timestamp|
            hub_updated(v, hub, payload, now) && (payload.updated_at is None ==> is_clock_reading(now)),
        payload.updated_at is Some ==> r is Ok,
        r matches Err(e) ==> e == ApiError::Clock,
        exists|answer: Option<Timestamp>|
            #[trigger] stamp_source(payload.updated_at, answer) && match answer {
                Some(now) => (r matches Ok(v) && hub_updated(v, hub, payload, now)),
                None => r == Err::<Hub, ApiError>(ApiError::Clock),
            },
{
    match given_or_now(payload.updated_at) {
        Ok(now) => Ok(hub_with_update_at(hub, payload, now)),
        Err(e) => Err(e),
    }
}

// ------------------------------------------------------------------------
// Services
// ------------------------------------------------------------------------

/// `s` is the service that creation request `p` makes at time `now`; its
/// read-only fields are empty until it is populated.
pub open spec fn service_from_request(s: Service, p: NewService, now: Timestamp) -> bool {
    &&& s.name == p.name
    &&& s.title == p.title
    &&& s.description == p.description
    &&& s.realm@.len() == 0
    &&& s.provider == p.provider
    &&& s.consumers == p.consumers
    &&& s.availability_management == p.availability_management
    &&& s.singleton == p.singleton
    &&& s.hub@.len() == 0
    &&& s.urn@.len() == 0
    &&& s.created_at == p.created_at.unwrap_or(now)
    &&& s.updated_at == p.updated_at.unwrap_or(now)
}

/// The service made by a creation request at time `now`; a request with an
/// empty name is refused.
pub fn service_from_request_at(payload: NewService, now: Timestamp) -> (r: Result<Service, ApiError>)
    ensures
        r is Ok <==> payload.name@.len() > 0,
        r matches Ok(s) ==> service_from_request(s, payload, now),
        r matches Err(e) ==> e matches ApiError::BadRequest(m) && m@
            == "Service name cannot be empty"@,
{
    if payload.name.as_str().is_empty() {
        return Err(bad_request("Service name cannot be empty"));
    }
    Ok(Service {
        name: payload.name,
        title: payload.title,
        description: payload.description,
        realm: String::new(),
        provider: payload.provider,
        consumers: payload.consumers,
        availability_management: payload.availability_management,
        singleton: payload.singleton,
        hub: String::new(),
        urn: String::new(),
        created_at: payload.created_at.unwrap_or(now),
        updated_at: payload.updated_at.unwrap_or(now),
    })
}

/// The service made by a creation request now, by the system clock.
pub fn service_from_request_now(payload: NewService) -> (r: Result<Service, ApiError>)
    ensures
        r matches Ok(v) ==> exists|now: Timestamp|
            is_clock_reading(now) && service_from_request(v, payload, now),
        payload.name@.len() == 0 ==> (r matches Err(e) && e matches ApiError::BadRequest(m) && m@
            == "Service name cannot be empty"@),
        payload.name@.len() > 0 ==> r is Ok || r == Err::<Service, ApiError>(ApiError::Clock),
        payload.name@.len() > 0 ==> exists|answer: Option<Timestamp>|
            #[trigger] clock_answer(answer) && match answer {
                Some(now) => (r matches Ok(v) && service_from_request(v, payload, now)),
                None => r == Err::<Service, ApiError>(ApiError::Clock),
            },
{
    if payload.name.as_str().is_empty() {
        return Err(bad_request("Service name cannot be empty"));
    }
    match clock_now() {
        Ok(now) => service_from_request_at(payload, now),
        Err(e) => Err(e),
    }
}

/// A service is created only in a hub that exists; whatever kept the hub from
/// being read is answered as a missing parent.
pub fn ensure_parent_hub(realm_id: &str, hub_id: &str, hub_found: bool) -> (r: Result<(), ApiError>)
    ensures
        r is Ok <==> hub_found,
        r matches Err(e) ==> e matches ApiError::ParentNotFound(m) && m@ == "Parent hub '"@
            + realm_id@ + "/"@ + hub_id@ + "' not found"@,
{
    if !hub_found {
        return Err(ApiError::ParentNotFound(enclose2("Parent hub '", realm_id, "/", hub_id, "' not found")));
    }
    Ok(())
}

/// A service can be created only under a name not yet taken in its hub.
pub fn ensure_service_absent(realm_id: &str, hub_id: &str, name: &str, exists: bool) -> (r: Result<
    (),
    ApiError,
>)
    ensures
        r is Ok <==> !exists,
        r matches Err(e) ==> e matches ApiError::Conflict(m) && m@ == "Service '"@ + name@
            + "' already exists in hub '"@ + realm_id@ + "/"@ + hub_id@ + "'"@,
{
    if exists {
        return Err(
            ApiError::Conflict(
                enclose3("Service '", name, "' already exists in hub '", realm_id, "/", hub_id, "'"),
            ),
        );
    }
    Ok(())
}

/// `s` is `old` with its read-only fields filled in for hub `hub_id` of realm
/// `realm_id`.
pub open spec fn service_populated(
    s: Service,
    old: Service,
    realm_id: Seq<char>,
    hub_id: Seq<char>,
) -> bool {
    &&& s == Service { urn: s.urn, hub: s.hub, realm: s.realm, ..old }
    &&& s.urn@ == service_urn(realm_id, hub_id, old.name@)
    &&& s.hub@ == hub_urn(realm_id, hub_id)
    &&& s.realm@ == realm_urn(realm_id)
}

/// Helper to populate read-only fields for a Service
pub fn populate_service_fields(service: &mut Service, realm_id: &str, hub_id: &str)
    ensures
        service_populated(*final(service), *old(service), realm_id@, hub_id@),
{
    service.urn = Service::generate_urn(realm_id, hub_id, service.name.as_str());
    service.hub = Hub::generate_urn(realm_id, hub_id);
    service.realm = Realm::generate_urn(realm_id);
}

/// `s` is `old` changed by update request `p` at time `now`.
pub open spec fn service_updated(s: Service, old: Service, p: UpdateService, now: Timestamp) -> bool {
    &&& s.name == old.name
    &&& s.realm == old.realm
    &&& s.hub == old.hub
    &&& s.urn == old.urn
    &&& s.title == p.title
    &&& s.description == p.description
    &&& s.provider == p.provider
    &&& s.consumers == p.consumers
    &&& s.availability_management == p.availability_management
    &&& s.singleton == p.singleton
    &&& s.created_at == p.created_at.unwrap_or(old.created_at)
    &&& s.updated_at == p.updated_at.unwrap_or(now)
}

/// A stored service changed by an update request at time `now`.
pub fn service_with_update_at(service: Service, payload: UpdateService, now: Timestamp) -> (r:
    Service)
    ensures
        service_updated(r, service, payload, now),
{
    Service {
        name: service.name,
        realm: service.realm,
        hub: service.hub,
        urn: service.urn,
        title: payload.title,
        description: payload.description,
        provider: payload.provider,
        consumers: payload.consumers,
        availability_management: payload.availability_management,
        singleton: payload.singleton,
        created_at: payload.created_at.unwrap_or(service.created_at),
        updated_at: payload.updated_at.unwrap_or(now),
    }
}

/// A stored service changed by an update request now, by the system clock.
pub fn service_with_update_now(service: Service, payload: UpdateService) -> (r: Result<Service, ApiError>)
    ensures
        r matches Ok(v) ==> exists|now: Timestamp|
            service_updated(v, service, payload, now) && (payload.updated_at is None ==> is_clock_reading(now)),
        payload.updated_at is Some ==> r is Ok,
        r matches Err(e) ==> e == ApiError::Clock,
        exists|answer: Option<Timestamp>|
            #[trigger] stamp_source(payload.updated_at, answer) && match answer {
                Some(now) => (r matches Ok(v) && service_updated(v, service, payload, now)),
                None => r == Err::<Service, ApiError>(ApiError::Clock),
            },
{
    match given_or_now(payload.updated_at) {
        Ok(now) => Ok(service_with_update_at(service, payload, now)),
        Err(e) => Err(e),
    }
}


// ------------------------------------------------------------------------
// Listings
// ------------------------------------------------------------------------

/// The zones of a listing, each with its read-only fields filled in.
pub fn populate_zone_list(zones: Vec<Zone>, realm_id: &str) -> (r: Vec<Zone>)
    ensures
        r@.len() == zones@.len(),
        forall|i: int| 0 <= i < r@.len() ==> zone_populated(#[trigger] r@[i], zones@[i], realm_id@),
{
    let ghost all = zones@;
    let mut out: Vec<Zone> = Vec::new();
    for item in it: zones.into_iter()
        invariant
            it.seq() == all,
            out@.len() == it.index(),
            forall|i: int| 0 <= i < out@.len() ==> zone_populated(#[trigger] out@[i], all[i], realm_id@),
    {
        let mut item = item;
        populate_zone_fields(&mut item, realm_id);
        out.push(item);
    }
    out
}

/// The subdomains of a listing, each with its read-only fields filled in.
pub fn populate_subdomain_list(subdomains: Vec<Subdomain>, realm_id: &str, zone_id: &str) -> (r: Vec<Subdomain>)
    ensures
        r@.len() == subdomains@.len(),
        forall|i: int| 0 <= i < r@.len() ==> subdomain_populated(#[trigger] r@[i], subdomains@[i], realm_id@, zone_id@),
{
    let ghost all = subdomains@;
    let mut out: Vec<Subdomain> = Vec::new();
    for item in it: subdomains.into_iter()
        invariant
            it.seq() == all,
            out@.len() == it.index(),
            forall|i: int| 0 <= i < out@.len() ==> subdomain_populated(#[trigger] out@[i], all[i], realm_id@, zone_id@),
    {
        let mut item = item;
        populate_subdomain_fields(&mut item, realm_id, zone_id);
        out.push(item);
    }
    out
}

/// The routing chains of a listing, each with its read-only fields filled in.
pub fn populate_routing_chain_list(rchains: Vec<RoutingChain>, realm_id: &str) -> (r: Vec<RoutingChain>)
    ensures
        r@.len() == rchains@.len(),
        forall|i: int| 0 <= i < r@.len() ==> routing_chain_populated(#[trigger] r@[i], rchains@[i], realm_id@),
{
    let ghost all = rchains@;
    let mut out: Vec<RoutingChain> = Vec::new();
    for item in it: rchains.into_iter()
        invariant
            it.seq() == all,
            out@.len() == it.index(),
            forall|i: int| 0 <= i < out@.len() ==> routing_chain_populated(#[trigger] out@[i], all[i], realm_id@),
    {
        let mut item = item;
        populate_routing_chain_fields(&mut item, realm_id);
        out.push(item);
    }
    out
}

/// The hubs of a listing, each with its read-only fields filled in.
pub fn populate_hub_list(hubs: Vec<Hub>, realm_id: &str) -> (r: Vec<Hub>)
    ensures
        r@.len() == hubs@.len(),
        forall|i: int| 0 <= i < r@.len() ==> hub_populated(#[trigger] r@[i], hubs@[i], realm_id@),
{
    let ghost all = hubs@;
    let mut out: Vec<Hub> = Vec::new();
    for item in it: hubs.into_iter()
        invariant
            it.seq() == all,
            out@.len() == it.index(),
            forall|i: int| 0 <= i < out@.len() ==> hub_populated(#[trigger] out@[i], all[i], realm_id@),
    {
        let mut item = item;
        populate_hub_fields(&mut item, realm_id);
        out.push(item);
    }
    out
}

/// The services of a listing, each with its read-only fields filled in.
pub fn populate_service_list(services: Vec<Service>, realm_id: &str, hub_id: &str) -> (r: Vec<Service>)
    ensures
        r@.len() == services@.len(),
        forall|i: int| 0 <= i < r@.len() ==> service_populated(#[trigger] r@[i], services@[i], realm_id@, hub_id@),
{
    let ghost all = services@;
    let mut out: Vec<Service> = Vec::new();
    for item in it: services.into_iter()
        invariant
            it.seq() == all,
            out@.len() == it.index(),
            forall|i: int| 0 <= i < out@.len() ==> service_populated(#[trigger] out@[i], all[i], realm_id@, hub_id@),
    {
        let mut item = item;
        populate_service_fields(&mut item, realm_id, hub_id);
        out.push(item);
    }
    out
}

} // verus!
