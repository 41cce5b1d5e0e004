//! Data models of the inventory: realms, zones, subdomains, virtual hosts,
//! routing chains, hubs and services, the request bodies that create and
//! update them, and the error type of the service.
//!
//! Timestamps are held as seconds and nanoseconds since the Unix epoch;
//! free-form JSON attributes are carried as `serde_json::Value` and never
//! inspected by the inventory's logic.
use std::collections::HashMap;
use vstd::prelude::*;

verus! {

/// `serde_json::Value`: a JSON document that the inventory stores and hands
/// back without looking inside it.
#[verifier::external_type_specification]
#[verifier::external_body]
pub struct ExJsonValue(serde_json::Value);

/// `serde_json::Value`'s `clone` (a derived impl in serde_json): the copy is
/// the same JSON value.
pub assume_specification[ <serde_json::Value as Clone>::clone ](v: &serde_json::Value) -> (res: serde_json::Value)
    ensures
        res == *v,
;

/// A point in time, in UTC: whole seconds since the Unix epoch and the
/// nanoseconds past that second.
#[derive(Clone, Copy, Debug, PartialEq, Eq)]
pub struct Timestamp {
    pub secs: i64,
    pub nanos: u32,
}

/// Structure for error responses
#[derive(Clone, Debug, PartialEq, Eq)]
pub struct ErrorResponse {
    pub message: String,
}

/// Errors of the inventory service.
#[derive(Clone, Debug, PartialEq, Eq)]
pub enum ApiError {
    /// The datastore failed; the text is the datastore client's message.
    Etcd(String),
    /// A stored or received document could not be (de)serialised; the text
    /// is the JSON library's message.
    Json(String),
    NotFound,
    BadRequest(String),
    Conflict(String),
    ParentNotFound(String),
    /// The system clock could not be read as a time after the Unix epoch.
    Clock,
}

/// Structure representing Realm information
#[derive(Clone, Debug, PartialEq)]
pub struct Realm {
    pub name: String,
    pub title: String,
    pub created_at: Timestamp,
    pub description: Option<String>,
    pub urn: Option<String>,
    pub cacert: String,
    pub device_id_signing_key: String,
    pub device_id_verification_key: String,
    pub session_timeout: Option<i64>,
    pub administrators: Option<Vec<String>>,
    pub expired_at: Option<String>,
    pub disabled: bool,
    pub updated_at: Timestamp,
}

/// Structure used as a request body when creating a new Realm
#[derive(Debug)]
pub struct NewRealm {
    pub name: String,
    pub title: String,
    pub description: Option<String>,
    pub cacert: String,
    pub device_id_signing_key: String,
    pub device_id_verification_key: String,
    pub session_timeout: Option<i64>,
    pub administrators: Option<Vec<String>>,
    pub expired_at: Option<String>,
    pub disabled: bool,
    pub created_at: Option<Timestamp>,
    pub updated_at: Option<Timestamp>,
}

/// Structure used as a request body when updating a Realm
#[derive(Debug)]
pub struct UpdateRealm {
    pub title: String,
    pub description: Option<String>,
    pub cacert: String,
    pub device_id_signing_key: String,
    pub device_id_verification_key: String,
    pub session_timeout: Option<i64>,
    pub administrators: Option<Vec<String>>,
    pub expired_at: Option<String>,
    pub disabled: bool,
    pub created_at: Option<Timestamp>,
    pub updated_at: Option<Timestamp>,
}

/// Structure representing Zone information
#[derive(Clone, Debug, PartialEq)]
pub struct Zone {
    pub name: String,
    pub title: String,
    pub description: Option<String>,
    pub urn: Option<String>,
    pub dns_provider: Option<String>,
    pub realm: Option<String>,
    pub acme_certificate_provider: Option<String>,
    pub created_at: Timestamp,
    pub updated_at: Timestamp,
}

/// Structure used as a request body when creating a new Zone
#[derive(Debug)]
pub struct NewZone {
    pub name: String,
    pub title: String,
    pub description: Option<String>,
    pub dns_provider: Option<String>,
    pub acme_certificate_provider: Option<String>,
    pub created_at: Option<Timestamp>,
    pub updated_at: Option<Timestamp>,
}

/// Structure used as a request body when updating a Zone
#[derive(Debug)]
pub struct UpdateZone {
    pub title: String,
    pub description: Option<String>,
    pub dns_provider: Option<String>,
    pub acme_certificate_provider: Option<String>,
    pub created_at: Option<Timestamp>,
    pub updated_at: Option<Timestamp>,
}

/// Structure representing Subdomain information for storage and full response
#[derive(Clone, Debug, PartialEq)]
pub struct Subdomain {
    pub name: String,
    pub title: String,
    pub description: Option<String>,
    pub realm: Option<String>,
    pub destination_realm: Option<String>,
    pub share_cookie: bool,
    pub fqdn: Option<String>,
    pub zone: Option<String>,
    pub urn: Option<String>,
    pub created_at: Timestamp,
    pub updated_at: Timestamp,
}

/// Structure for creating a new Subdomain
#[derive(Debug)]
pub struct NewSubdomain {
    pub name: String,
    pub title: String,
    pub description: Option<String>,
    pub realm: Option<String>,
    pub destination_realm: Option<String>,
    pub share_cookie: bool,
    pub created_at: Option<Timestamp>,
    pub updated_at: Option<Timestamp>,
}

/// Structure for updating a Subdomain. Note: `name` is immutable.
#[derive(Debug)]
pub struct UpdateSubdomain {
    pub title: String,
    pub description: Option<String>,
    pub realm: Option<String>,
    pub destination_realm: Option<String>,
    pub share_cookie: bool,
    pub created_at: Option<Timestamp>,
    pub updated_at: Option<Timestamp>,
}

/// Structure representing VirtualHost information
#[derive(Clone, Debug, PartialEq)]
pub struct VirtualHost {
    pub name: String,
    pub title: String,
    pub description: Option<String>,
    pub realm: Option<String>,
    pub urn: Option<String>,
    pub subdomain: String,
    pub access_log_recorder: Option<String>,
    pub access_log_max_value_length: Option<i32>,
    pub access_log_format: Option<serde_json::Value>,
    pub certificate: Option<String>,
    pub key: Option<String>,
    pub disabled: Option<bool>,
    pub created_at: Timestamp,
    pub updated_at: Timestamp,
}

/// Structure representing VirtualHost information for API responses, including derived fields.
#[derive(Clone, Debug, PartialEq)]
pub struct VirtualHostResponse {
    pub name: String,
    pub title: String,
    pub description: Option<String>,
    pub realm: Option<String>,
    pub urn: Option<String>,
    pub fqdn: Option<String>,
    pub subdomain: String,
    pub access_log_recorder: Option<String>,
    pub access_log_max_value_length: Option<i32>,
    pub access_log_format: Option<serde_json::Value>,
    pub certificate: Option<String>,
    pub key: Option<String>,
    pub disabled: Option<bool>,
    pub created_at: Timestamp,
    pub updated_at: Timestamp,
}

/// Structure used as a request body when creating a VirtualHost
#[derive(Debug)]
pub struct NewVirtualHost {
    pub name: String,
    pub title: String,
    pub description: Option<String>,
    pub subdomain: String,
    pub access_log_recorder: Option<String>,
    pub access_log_max_value_length: Option<i32>,
    pub access_log_format: Option<serde_json::Value>,
    pub certificate: Option<String>,
    pub key: Option<String>,
    pub disabled: Option<bool>,
    pub created_at: Option<Timestamp>,
    pub updated_at: Option<Timestamp>,
}

/// Structure used as a request body when updating a VirtualHost
#[derive(Debug)]
pub struct UpdateVirtualHost {
    pub title: String,
    pub description: Option<String>,
    pub subdomain: String,
    pub access_log_recorder: Option<String>,
    pub access_log_max_value_length: Option<i32>,
    pub access_log_format: Option<serde_json::Value>,
    pub certificate: Option<String>,
    pub key: Option<String>,
    pub disabled: Option<bool>,
    pub created_at: Option<Timestamp>,
    pub updated_at: Option<Timestamp>,
}

// --- RoutingChain related structures ---
#[derive(Clone, Debug, PartialEq)]
pub struct Proxy {
    pub upstream: String,
    pub auth_scope_name: Option<String>,
}

#[derive(Clone, Debug, PartialEq)]
pub struct Redirect {
    pub url: String,
}

#[derive(Clone, Debug, PartialEq)]
pub struct ReturnStaticText {
    pub content: String,
    pub status: u16,
}

#[derive(Clone, Debug, PartialEq)]
pub struct RequireAuthentication {
    pub auth_scope_name: String,
    pub protected_upstream: String,
    pub oidc_client_id: String,
    pub oidc_client_secret: String,
    pub oidc_authorization_endpoint: String,
    pub oidc_redirect_url: String,
    pub oidc_token_endpoint: String,
    pub oidc_dialect: Option<String>,
}

#[derive(Clone, Debug, PartialEq)]
pub struct SetUpstreamRequestHeader {
    pub name: String,
    pub value: String,
}

#[derive(Clone, Debug, PartialEq)]
pub struct SetDownstreamResponseHeader {
    pub name: String,
    pub value: String,
}

#[derive(Clone, Debug, PartialEq)]
pub enum Action {
    Proxy(Proxy),
    Redirect(Redirect),
    ReturnStaticText(ReturnStaticText),
    RequireAuthentication(RequireAuthentication),
    SetUpstreamRequestHeader(SetUpstreamRequestHeader),
    SetDownstreamResponseHeader(SetDownstreamResponseHeader),
}

#[derive(Clone, Debug, PartialEq)]
pub struct Rule {
    pub match_condition: String,
    pub action: Action,
}

/// Structure representing RoutingChain information
#[derive(Clone, Debug, PartialEq)]
pub struct RoutingChain {
    pub name: String,
    pub title: String,
    pub description: Option<String>,
    pub urn: Option<String>,
    pub rules: Vec<Rule>,
    pub realm: Option<String>,
    pub created_at: Timestamp,
    pub updated_at: Timestamp,
}

/// Structure used for creating and updating a RoutingChain
#[derive(Debug)]
pub struct NewRoutingChain {
    pub name: Option<String>,
    pub title: String,
    pub description: Option<String>,
    pub rules: Option<Vec<Rule>>,
    pub created_at: Option<Timestamp>,
    pub updated_at: Option<Timestamp>,
}

/// Structure used for updating a RoutingChain
#[derive(Debug)]
pub struct UpdateRoutingChain {
    pub title: String,
    pub description: Option<String>,
    pub rules: Option<Vec<Rule>>,
    pub created_at: Option<Timestamp>,
    pub updated_at: Option<Timestamp>,
}

/// Structure representing Hub information
#[derive(Clone, Debug, PartialEq)]
pub struct Hub {
    pub name: String,
    pub title: String,
    pub fqdn: String,
    pub server_address: Option<String>,
    pub server_port: Option<u16>,
    pub server_cert: String,
    pub server_cert_key: String,
    pub description: Option<String>,
    pub realm: Option<String>,
    pub urn: Option<String>,
    pub attributes: serde_json::Value,
    pub created_at: Timestamp,
    pub updated_at: Timestamp,
}

/// Structure used as a request body when creating a new Hub
#[derive(Debug)]
pub struct NewHub {
    pub name: String,
    pub title: String,
    pub fqdn: String,
    pub server_address: Option<String>,
    pub server_port: Option<u16>,
    pub server_cert: String,
    pub server_cert_key: String,
    pub description: Option<String>,
    pub attributes: serde_json::Value,
    pub created_at: Option<Timestamp>,
    pub updated_at: Option<Timestamp>,
}

/// Structure used as a request body when updating a Hub
#[derive(Debug)]
pub struct UpdateHub {
    pub title: String,
    pub fqdn: String,
    pub server_address: Option<String>,
    pub server_port: Option<u16>,
    pub server_cert: String,
    pub server_cert_key: String,
    pub description: Option<String>,
    pub attributes: serde_json::Value,
    pub created_at: Option<Timestamp>,
    pub updated_at: Option<Timestamp>,
}

/// Structure representing Service information
#[derive(Clone, Debug, PartialEq)]
pub struct Service {
    pub name: String,
    pub title: String,
    pub description: Option<String>,
    pub realm: String,
    pub provider: String,
    pub consumers: Vec<String>,
    pub availability_management: Option<AvailabilityManagement>,
    pub singleton: Option<bool>,
    pub hub: String,
    pub urn: String,
    pub created_at: Timestamp,
    pub updated_at: Timestamp,
}

/// Structure representing AvailabilityManagement information
#[derive(Clone, Debug, PartialEq)]
pub struct AvailabilityManagement {
    pub cluster_manager_urn: String,
    pub service_id: String,
    pub description: Option<String>,
    pub start_at: Option<String>,
    pub stop_at: Option<String>,
    pub ondemand_start_on_consumer: Option<bool>,
    pub ondemand_start_on_payload: Option<bool>,
    pub idle_timeout: Option<i32>,
    pub image: Option<String>,
    pub command: Option<Vec<String>>,
    pub options: Option<Vec<String>>,
    pub env: Option<HashMap<String, String>>,
    pub mount_points: Option<Vec<MountPoint>>,
}

#[derive(Clone, Debug, PartialEq)]
pub struct MountPoint {
    pub volume_size: i32,
    pub target: String,
}

/// Structure used as a request body when creating a new Service
#[derive(Debug)]
pub struct NewService {
    pub name: String,
    pub title: String,
    pub description: Option<String>,
    pub provider: String,
    pub consumers: Vec<String>,
    pub availability_management: Option<AvailabilityManagement>,
    pub singleton: Option<bool>,
    pub created_at: Option<Timestamp>,
    pub updated_at: Option<Timestamp>,
}

/// Structure used as a request body when updating a Service
#[derive(Debug)]
pub struct UpdateService {
    pub title: String,
    pub description: Option<String>,
    pub provider: String,
    pub consumers: Vec<String>,
    pub availability_management: Option<AvailabilityManagement>,
    pub singleton: Option<bool>,
    pub created_at: Option<Timestamp>,
    pub updated_at: Option<Timestamp>,
}

} // verus!
