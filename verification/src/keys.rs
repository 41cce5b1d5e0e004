//! Layout of the inventory in the datastore's key space.
//!
//! A realm `r` is stored at `realms/r`; everything inside it lies under the
//! directory `realms/r/`: zones at `realms/r/zones/z`, their subdomains at
//! `realms/r/zones/z/subdomains/s`, virtual hosts at
//! `realms/r/virtual-hosts/v`, routing chains at `realms/r/routing-chains/c`,
//! hubs at `realms/r/hubs/h` and their services at
//! `realms/r/hubs/h/services/s`.
use crate::text::starts_with;
use vstd::prelude::*;

verus! {

pub open spec fn realm_key_of(realm: Seq<char>) -> Seq<char> {
    "realms/"@ + realm
}

pub open spec fn realm_dir_of(realm: Seq<char>) -> Seq<char> {
    "realms/"@ + realm + "/"@
}

pub open spec fn zones_prefix_of(realm: Seq<char>) -> Seq<char> {
    realm_dir_of(realm) + "zones/"@
}

pub open spec fn zone_key_of(realm: Seq<char>, zone: Seq<char>) -> Seq<char> {
    zones_prefix_of(realm) + zone
}

pub open spec fn zone_dir_of(realm: Seq<char>, zone: Seq<char>) -> Seq<char> {
    zone_key_of(realm, zone) + "/"@
}

pub open spec fn subdomains_prefix_of(realm: Seq<char>, zone: Seq<char>) -> Seq<char> {
    zone_dir_of(realm, zone) + "subdomains/"@
}

pub open spec fn subdomain_key_of(realm: Seq<char>, zone: Seq<char>, name: Seq<char>) -> Seq<char> {
    subdomains_prefix_of(realm, zone) + name
}

pub open spec fn virtual_hosts_prefix_of(realm: Seq<char>) -> Seq<char> {
    realm_dir_of(realm) + "virtual-hosts/"@
}

pub open spec fn virtual_host_key_of(realm: Seq<char>, name: Seq<char>) -> Seq<char> {
    virtual_hosts_prefix_of(realm) + name
}

pub open spec fn routing_chains_prefix_of(realm: Seq<char>) -> Seq<char> {
    realm_dir_of(realm) + "routing-chains/"@
}

pub open spec fn routing_chain_key_of(realm: Seq<char>, name: Seq<char>) -> Seq<char> {
    routing_chains_prefix_of(realm) + name
}

pub open spec fn hubs_prefix_of(realm: Seq<char>) -> Seq<char> {
    realm_dir_of(realm) + "hubs/"@
}

pub open spec fn hub_key_of(realm: Seq<char>, hub: Seq<char>) -> Seq<char> {
    hubs_prefix_of(realm) + hub
}

pub open spec fn hub_dir_of(realm: Seq<char>, hub: Seq<char>) -> Seq<char> {
    hub_key_of(realm, hub) + "/"@
}

pub open spec fn services_prefix_of(realm: Seq<char>, hub: Seq<char>) -> Seq<char> {
    hub_dir_of(realm, hub) + "services/"@
}

pub open spec fn service_key_of(realm: Seq<char>, hub: Seq<char>, name: Seq<char>) -> Seq<char> {
    services_prefix_of(realm, hub) + name
}

/// `key` lies directly under `prefix`: it begins with it and the rest holds
/// no `/`. Listing a prefix yields the values of such keys only.
pub open spec fn is_direct_child(prefix: Seq<char>, key: Seq<char>) -> bool {
    starts_with(key, prefix) && !key.skip(prefix.len() as int).contains('/')
}

/// The key prefix under which all realms are stored.
pub fn realms_prefix() -> (p: String)
    ensures
        p@ == "realms/"@,
{
    String::from_str("realms/")
}

pub fn realm_key(name: &str) -> (k: String)
    ensures
        k@ == realm_key_of(name@),
{
    let mut s = String::from_str("realms/");
    s.append(name);
    s
}

pub fn realm_dir(name: &str) -> (k: String)
    ensures
        k@ == realm_dir_of(name@),
{
    let mut s = String::from_str("realms/");
    s.append(name);
    s.append("/");
    s
}

pub fn zones_prefix(realm_id: &str) -> (k: String)
    ensures
        k@ == zones_prefix_of(realm_id@),
{
    let mut s = realm_dir(realm_id);
    s.append("zones/");
    s
}

pub fn zone_key(realm_id: &str, zone_id: &str) -> (k: String)
    ensures
        k@ == zone_key_of(realm_id@, zone_id@),
{
    let mut s = zones_prefix(realm_id);
    s.append(zone_id);
    s
}

pub fn zone_dir(realm_id: &str, zone_id: &str) -> (k: String)
    ensures
        k@ == zone_dir_of(realm_id@, zone_id@),
{
    let mut s = zone_key(realm_id, zone_id);
    s.append("/");
    s
}

pub fn subdomains_prefix(realm_id: &str, zone_id: &str) -> (k: String)
    ensures
        k@ == subdomains_prefix_of(realm_id@, zone_id@),
{
    let mut s = zone_dir(realm_id, zone_id);
    s.append("subdomains/");
    s
}

pub fn subdomain_key(realm_id: &str, zone_id: &str, subdomain_id: &str) -> (k: String)
    ensures
        k@ == subdomain_key_of(realm_id@, zone_id@, subdomain_id@),
{
    let mut s = subdomains_prefix(realm_id, zone_id);
    s.append(subdomain_id);
    s
}

pub fn virtual_hosts_prefix(realm_id: &str) -> (k: String)
    ensures
        k@ == virtual_hosts_prefix_of(realm_id@),
{
    let mut s = realm_dir(realm_id);
    s.append("virtual-hosts/");
    s
}

pub fn virtual_host_key(realm_id: &str, virtual_host_id: &str) -> (k: String)
    ensures
        k@ == virtual_host_key_of(realm_id@, virtual_host_id@),
{
    let mut s = virtual_hosts_prefix(realm_id);
    s.append(virtual_host_id);
    s
}

pub fn routing_chains_prefix(realm_id: &str) -> (k: String)
    ensures
        k@ == routing_chains_prefix_of(realm_id@),
{
    let mut s = realm_dir(realm_id);
    s.append("routing-chains/");
    s
}

pub fn routing_chain_key(realm_id: &str, routing_chain_id: &str) -> (k: String)
    ensures
        k@ == routing_chain_key_of(realm_id@, routing_chain_id@),
{
    let mut s = routing_chains_prefix(realm_id);
    s.append(routing_chain_id);
    s
}

pub fn hubs_prefix(realm_id: &str) -> (k: String)
    ensures
        k@ == hubs_prefix_of(realm_id@),
{
    let mut s = realm_dir(realm_id);
    s.append("hubs/");
    s
}

pub fn hub_key(realm_id: &str, hub_id: &str) -> (k: String)
    ensures
        k@ == hub_key_of(realm_id@, hub_id@),
{
    let mut s = hubs_prefix(realm_id);
    s.append(hub_id);
    s
}

pub fn hub_dir(realm_id: &str, hub_id: &str) -> (k: String)
    ensures
        k@ == hub_dir_of(realm_id@, hub_id@),
{
    let mut s = hub_key(realm_id, hub_id);
    s.append("/");
    s
}

pub fn services_prefix(realm_id: &str, hub_id: &str) -> (k: String)
    ensures
        k@ == services_prefix_of(realm_id@, hub_id@),
{
    let mut s = hub_dir(realm_id, hub_id);
    s.append("services/");
    s
}

pub fn service_key(realm_id: &str, hub_id: &str, service_id: &str) -> (k: String)
    ensures
        k@ == service_key_of(realm_id@, hub_id@, service_id@),
{
    let mut s = services_prefix(realm_id, hub_id);
    s.append(service_id);
    s
}

// ------------------------------------------------------------------------
// Laws of the key layout
// ------------------------------------------------------------------------

/// `base + b + "/" + rest` begins with the directory `base + a + "/"` exactly
/// when `a` and `b` are the same name, for names without `/`.
pub proof fn lemma_dir_prefix(base: Seq<char>, a: Seq<char>, b: Seq<char>, rest: Seq<char>)
    requires
        !a.contains('/'),
        !b.contains('/'),
    ensures
        starts_with(base + b + "/"@ + rest, base + a + "/"@) <==> a == b,
{
    reveal_strlit("/");
    let key = base + b + "/"@ + rest;
    let dir = base + a + "/"@;
    let n = base.len() as int;
    if a == b {
        assert(key.take(dir.len() as int) =~= dir);
    } else if starts_with(key, dir) {
        assert(key.take(dir.len() as int) == dir);
        if a.len() < b.len() {
            assert(dir[n + a.len() as int] == '/');
            assert(key[n + a.len() as int] == b[a.len() as int]);
            assert(key.take(dir.len() as int)[n + a.len() as int] == key[n + a.len() as int]);
        } else if a.len() > b.len() {
            assert(key[n + b.len() as int] == '/');
            assert(dir[n + b.len() as int] == a[b.len() as int]);
            assert(key.take(dir.len() as int)[n + b.len() as int] == key[n + b.len() as int]);
        } else {
            assert forall|i: int| 0 <= i < a.len() implies a[i] == b[i] by {
                assert(dir[n + i] == a[i]);
                assert(key[n + i] == b[i]);
                assert(key.take(dir.len() as int)[n + i] == key[n + i]);
            }
            assert(a =~= b);
        }
    }
}

/// Under `prefix`, the key `prefix + name` is a direct child exactly when
/// `name` has no `/`, and a key `prefix + name + "/" + rest` never is.
pub proof fn lemma_direct_child(prefix: Seq<char>, name: Seq<char>, rest: Seq<char>)
    ensures
        is_direct_child(prefix, prefix + name) <==> !name.contains('/'),
        !is_direct_child(prefix, prefix + name + "/"@ + rest),
{
    reveal_strlit("/");
    assert((prefix + name).take(prefix.len() as int) =~= prefix);
    assert((prefix + name).skip(prefix.len() as int) =~= name);
    let deep = prefix + name + "/"@ + rest;
    assert(deep.take(prefix.len() as int) =~= prefix);
    assert(deep.skip(prefix.len() as int)[name.len() as int] == '/');
}

/// Every key of a resource inside realm `r` lies in the directory of `r`, so
/// that deleting a realm together with its directory removes all of them.
pub proof fn lemma_realm_dir_holds_contents(
    r: Seq<char>,
    z: Seq<char>,
    s: Seq<char>,
    v: Seq<char>,
    c: Seq<char>,
    h: Seq<char>,
    x: Seq<char>,
)
    ensures
        starts_with(zone_key_of(r, z), realm_dir_of(r)),
        starts_with(subdomain_key_of(r, z, s), realm_dir_of(r)),
        starts_with(virtual_host_key_of(r, v), realm_dir_of(r)),
        starts_with(routing_chain_key_of(r, c), realm_dir_of(r)),
        starts_with(hub_key_of(r, h), realm_dir_of(r)),
        starts_with(service_key_of(r, h, x), realm_dir_of(r)),
{
    let d = realm_dir_of(r);
    assert(zone_key_of(r, z).take(d.len() as int) =~= d);
    assert(subdomain_key_of(r, z, s).take(d.len() as int) =~= d);
    assert(virtual_host_key_of(r, v).take(d.len() as int) =~= d);
    assert(routing_chain_key_of(r, c).take(d.len() as int) =~= d);
    assert(hub_key_of(r, h).take(d.len() as int) =~= d);
    assert(service_key_of(r, h, x).take(d.len() as int) =~= d);
}

/// No key of a resource inside realm `r2` lies in the directory of another
/// realm `r1` (realm names without `/`), so deleting a realm leaves every
/// other realm's contents in place.
pub proof fn lemma_realm_dir_excludes_other_realms(
    r1: Seq<char>,
    r2: Seq<char>,
    z: Seq<char>,
    s: Seq<char>,
    v: Seq<char>,
    c: Seq<char>,
    h: Seq<char>,
    x: Seq<char>,
)
    requires
        r1 != r2,
        !r1.contains('/'),
        !r2.contains('/'),
    ensures
        !starts_with(zone_key_of(r2, z), realm_dir_of(r1)),
        !starts_with(subdomain_key_of(r2, z, s), realm_dir_of(r1)),
        !starts_with(virtual_host_key_of(r2, v), realm_dir_of(r1)),
        !starts_with(routing_chain_key_of(r2, c), realm_dir_of(r1)),
        !starts_with(hub_key_of(r2, h), realm_dir_of(r1)),
        !starts_with(service_key_of(r2, h, x), realm_dir_of(r1)),
{
    let p = "realms/"@;
    lemma_dir_prefix(p, r1, r2, "zones/"@ + z);
    assert(zone_key_of(r2, z) =~= p + r2 + "/"@ + ("zones/"@ + z));
    lemma_dir_prefix(p, r1, r2, "zones/"@ + z + "/"@ + "subdomains/"@ + s);
    assert(subdomain_key_of(r2, z, s) =~= p + r2 + "/"@ + ("zones/"@ + z + "/"@ + "subdomains/"@
        + s));
    lemma_dir_prefix(p, r1, r2, "virtual-hosts/"@ + v);
    assert(virtual_host_key_of(r2, v) =~= p + r2 + "/"@ + ("virtual-hosts/"@ + v));
    lemma_dir_prefix(p, r1, r2, "routing-chains/"@ + c);
    assert(routing_chain_key_of(r2, c) =~= p + r2 + "/"@ + ("routing-chains/"@ + c));
    lemma_dir_prefix(p, r1, r2, "hubs/"@ + h);
    assert(hub_key_of(r2, h) =~= p + r2 + "/"@ + ("hubs/"@ + h));
    lemma_dir_prefix(p, r1, r2, "hubs/"@ + h + "/"@ + "services/"@ + x);
    assert(service_key_of(r2, h, x) =~= p + r2 + "/"@ + ("hubs/"@ + h + "/"@ + "services/"@ + x));
}

/// The directory of zone `z` holds the zone's subdomains and no subdomain of
/// another zone `z2` of any realm's same zone list (zone names without `/`),
/// so deleting a zone removes exactly its own subdomains.
pub proof fn lemma_zone_dir_holds_its_subdomains(r: Seq<char>, z: Seq<char>, z2: Seq<char>, s: Seq<char>)
    requires
        !z.contains('/'),
        !z2.contains('/'),
    ensures
        starts_with(subdomain_key_of(r, z, s), zone_dir_of(r, z)),
        starts_with(subdomain_key_of(r, z2, s), zone_dir_of(r, z)) <==> z == z2,
{
    let p = zones_prefix_of(r);
    lemma_dir_prefix(p, z, z2, "subdomains/"@ + s);
    assert(subdomain_key_of(r, z2, s) =~= p + z2 + "/"@ + ("subdomains/"@ + s));
    assert(zone_dir_of(r, z) =~= p + z + "/"@);
    lemma_dir_prefix(p, z, z, "subdomains/"@ + s);
    assert(subdomain_key_of(r, z, s) =~= p + z + "/"@ + ("subdomains/"@ + s));
}

/// The directory of hub `h` holds the hub's services and no service of
/// another hub `h2` of the realm (hub names without `/`), so deleting a hub
/// removes exactly its own services.
pub proof fn lemma_hub_dir_holds_its_services(r: Seq<char>, h: Seq<char>, h2: Seq<char>, x: Seq<char>)
    requires
        !h.contains('/'),
        !h2.contains('/'),
    ensures
        starts_with(service_key_of(r, h, x), hub_dir_of(r, h)),
        starts_with(service_key_of(r, h2, x), hub_dir_of(r, h)) <==> h == h2,
{
    let p = hubs_prefix_of(r);
    lemma_dir_prefix(p, h, h2, "services/"@ + x);
    assert(service_key_of(r, h2, x) =~= p + h2 + "/"@ + ("services/"@ + x));
    assert(hub_dir_of(r, h) =~= p + h + "/"@);
    lemma_dir_prefix(p, h, h, "services/"@ + x);
    assert(service_key_of(r, h, x) =~= p + h + "/"@ + ("services/"@ + x));
}

/// Listing a kind of resource yields that kind only: realms listed under
/// `realms/`, zones under the realm's zone prefix and hubs under its hub
/// prefix are direct children exactly when their names have no `/`, while
/// the keys nested below them (a realm's contents, a zone's subdomains, a
/// hub's services) never are.
pub proof fn lemma_listing_selects_one_level(
    r: Seq<char>,
    z: Seq<char>,
    s: Seq<char>,
    h: Seq<char>,
    x: Seq<char>,
)
    ensures
        is_direct_child("realms/"@, realm_key_of(r)) <==> !r.contains('/'),
        !is_direct_child("realms/"@, zone_key_of(r, z)),
        !is_direct_child("realms/"@, hub_key_of(r, h)),
        is_direct_child(zones_prefix_of(r), zone_key_of(r, z)) <==> !z.contains('/'),
        !is_direct_child(zones_prefix_of(r), subdomain_key_of(r, z, s)),
        is_direct_child(subdomains_prefix_of(r, z), subdomain_key_of(r, z, s)) <==> !s.contains(
            '/',
        ),
        is_direct_child(hubs_prefix_of(r), hub_key_of(r, h)) <==> !h.contains('/'),
        !is_direct_child(hubs_prefix_of(r), service_key_of(r, h, x)),
        is_direct_child(services_prefix_of(r, h), service_key_of(r, h, x)) <==> !x.contains('/'),
{
    let p = "realms/"@;
    lemma_direct_child(p, r, "zones/"@ + z);
    assert(zone_key_of(r, z) =~= p + r + "/"@ + ("zones/"@ + z));
    lemma_direct_child(p, r, "hubs/"@ + h);
    assert(hub_key_of(r, h) =~= p + r + "/"@ + ("hubs/"@ + h));
    lemma_direct_child(zones_prefix_of(r), z, "subdomains/"@ + s);
    assert(subdomain_key_of(r, z, s) =~= zones_prefix_of(r) + z + "/"@ + ("subdomains/"@ + s));
    lemma_direct_child(subdomains_prefix_of(r, z), s, Seq::<char>::empty());
    lemma_direct_child(hubs_prefix_of(r), h, "services/"@ + x);
    assert(service_key_of(r, h, x) =~= hubs_prefix_of(r) + h + "/"@ + ("services/"@ + x));
    lemma_direct_child(services_prefix_of(r, h), x, Seq::<char>::empty());
}

/// Read after write: the key a resource is saved under is the key it is read
/// back from by its own names, and by no other names.
pub proof fn lemma_keys_identify_resources(
    r1: Seq<char>,
    r2: Seq<char>,
    a1: Seq<char>,
    a2: Seq<char>,
    b1: Seq<char>,
    b2: Seq<char>,
)
    ensures
        realm_key_of(r1) == realm_key_of(r2) <==> r1 == r2,
        zone_key_of(r1, a1) == zone_key_of(r1, a2) <==> a1 == a2,
        subdomain_key_of(r1, a1, b1) == subdomain_key_of(r1, a1, b2) <==> b1 == b2,
        virtual_host_key_of(r1, a1) == virtual_host_key_of(r1, a2) <==> a1 == a2,
        routing_chain_key_of(r1, a1) == routing_chain_key_of(r1, a2) <==> a1 == a2,
        hub_key_of(r1, a1) == hub_key_of(r1, a2) <==> a1 == a2,
        service_key_of(r1, a1, b1) == service_key_of(r1, a1, b2) <==> b1 == b2,
{
    lemma_append_cancel("realms/"@, r1, r2);
    lemma_append_cancel(zones_prefix_of(r1), a1, a2);
    lemma_append_cancel(subdomains_prefix_of(r1, a1), b1, b2);
    lemma_append_cancel(virtual_hosts_prefix_of(r1), a1, a2);
    lemma_append_cancel(routing_chains_prefix_of(r1), a1, a2);
    lemma_append_cancel(hubs_prefix_of(r1), a1, a2);
    lemma_append_cancel(services_prefix_of(r1, a1), b1, b2);
}

proof fn lemma_append_cancel(p: Seq<char>, a: Seq<char>, b: Seq<char>)
    ensures
        p + a == p + b <==> a == b,
{
    if p + a == p + b {
        assert((p + a).skip(p.len() as int) =~= a);
        assert((p + b).skip(p.len() as int) =~= b);
    }
}

} // verus!
