//! URNs of inventory resources (`urn:chip-in:<kind>:<realm>:...:<name>`),
//! subdomain FQDNs, and the checks made on URNs given in a configuration file.
use crate::model::{ApiError, Hub, Realm, RoutingChain, Service, Subdomain, VirtualHost, Zone};
use crate::text::{
    join_with, lemma_join_split, lemma_split_concat, lemma_split_free, lemma_split_pieces_free,
    split_chars, split_on, str_equal,
};
use vstd::prelude::*;

verus! {

pub open spec fn realm_urn(name: Seq<char>) -> Seq<char> {
    "urn:chip-in:realm:"@ + name
}

pub open spec fn zone_urn(realm: Seq<char>, name: Seq<char>) -> Seq<char> {
    "urn:chip-in:zone:"@ + realm + ":"@ + name
}

pub open spec fn subdomain_urn(realm: Seq<char>, zone: Seq<char>, name: Seq<char>) -> Seq<char> {
    "urn:chip-in:subdomain:"@ + realm + ":"@ + zone + ":"@ + name
}

pub open spec fn virtual_host_urn(realm: Seq<char>, name: Seq<char>) -> Seq<char> {
    "urn:chip-in:virtual-host:"@ + realm + ":"@ + name
}

pub open spec fn routing_chain_urn(realm: Seq<char>, name: Seq<char>) -> Seq<char> {
    "urn:chip-in:routing-chain:"@ + realm + ":"@ + name
}

pub open spec fn hub_urn(realm: Seq<char>, name: Seq<char>) -> Seq<char> {
    "urn:chip-in:network:"@ + realm + ":"@ + name
}

pub open spec fn service_urn(realm: Seq<char>, hub: Seq<char>, name: Seq<char>) -> Seq<char> {
    "urn:chip-in:service:"@ + realm + ":"@ + hub + ":"@ + name
}

/// The apex name `@` of a zone.
pub open spec fn apex() -> Seq<char> {
    seq!['@']
}

/// The FQDN of subdomain `name` in zone `zone`: the zone itself for the
/// apex `@`, otherwise `name.zone`.
pub open spec fn fqdn_of(zone: Seq<char>, name: Seq<char>) -> Seq<char> {
    if name == apex() {
        zone
    } else {
        name + "."@ + zone
    }
}

/// What `Subdomain::parse_urn` gives for `urn`: the realm, zone and name of a
/// six-part URN of the form `urn:chip-in:subdomain:<realm>:<zone>:<name>`.
pub open spec fn parsed_subdomain_urn(urn: Seq<char>) -> Option<(Seq<char>, Seq<char>, Seq<char>)> {
    let p = split_on(urn, ':');
    if p.len() == 6 && p[0] == "urn"@ && p[1] == "chip-in"@ && p[2] == "subdomain"@ {
        Some((p[3], p[4], p[5]))
    } else {
        None
    }
}

/// What `validate_urn` accepts: no URN given, or the generated one.
pub open spec fn urn_accepted(given: Option<Seq<char>>, generated: Seq<char>) -> bool {
    match given {
        Some(u) => u == generated,
        None => true,
    }
}

/// The message of a URN mismatch found in the configuration file.
pub open spec fn urn_mismatch_message(
    resource_type: Seq<char>,
    name: Seq<char>,
    given: Seq<char>,
    generated: Seq<char>,
) -> Seq<char> {
    "URN mismatch for "@ + resource_type + " '"@ + name + "': config.yaml has '"@ + given
        + "', but generated URN is '"@ + generated + "'."@
}

impl Realm {
    pub fn generate_urn(name: &str) -> (urn: String)
        ensures
            urn@ == realm_urn(name@),
    {
        let mut s = String::from_str("urn:chip-in:realm:");
        s.append(name);
        s
    }
}

impl Zone {
    pub fn generate_urn(realm: &str, name: &str) -> (urn: String)
        ensures
            urn@ == zone_urn(realm@, name@),
    {
        let mut s = String::from_str("urn:chip-in:zone:");
        s.append(realm);
        s.append(":");
        s.append(name);
        s
    }
}

impl Subdomain {
    pub fn generate_urn(realm: &str, zone: &str, name: &str) -> (urn: String)
        ensures
            urn@ == subdomain_urn(realm@, zone@, name@),
    {
        let mut s = String::from_str("urn:chip-in:subdomain:");
        s.append(realm);
        s.append(":");
        s.append(zone);
        s.append(":");
        s.append(name);
        s
    }

    /// Generates FQDN based on subdomain name and zone name
    pub fn generate_fqdn(zone_name: &str, name: &str) -> (fqdn: String)
        ensures
            fqdn@ == fqdn_of(zone_name@, name@),
    {
        proof {
            reveal_strlit("@");
            assert("@"@ =~= apex());
        }
        if str_equal(name, "@") {
            String::from_str(zone_name)
        } else {
            let mut s = String::from_str(name);
            s.append(".");
            s.append(zone_name);
            s
        }
    }

    /// Parses a subdomain URN into (realm, zone, name)
    pub fn parse_urn(urn: &str) -> (parts: Option<(String, String, String)>)
        ensures
            match parts {
                Some((realm, zone, name)) => parsed_subdomain_urn(urn@) == Some(
                    (realm@, zone@, name@),
                ),
                None => parsed_subdomain_urn(urn@) is None,
            },
    {
        let pieces = split_chars(urn, ':');
        let ghost p = split_on(urn@, ':');
        assert(pieces@.len() == p.len());
        if pieces.len() == 6 {
            assert(pieces[0]@ == p[0]);
            assert(pieces[1]@ == p[1]);
            assert(pieces[2]@ == p[2]);
            assert(pieces[3]@ == p[3]);
            assert(pieces[4]@ == p[4]);
            assert(pieces[5]@ == p[5]);
            if str_equal(pieces[0].as_str(), "urn") && str_equal(pieces[1].as_str(), "chip-in")
                && str_equal(pieces[2].as_str(), "subdomain") {
                return Some((pieces[3].clone(), pieces[4].clone(), pieces[5].clone()));
            }
        }
        None
    }
}

impl VirtualHost {
    pub fn generate_urn(realm: &str, name: &str) -> (urn: String)
        ensures
            urn@ == virtual_host_urn(realm@, name@),
    {
        let mut s = String::from_str("urn:chip-in:virtual-host:");
        s.append(realm);
        s.append(":");
        s.append(name);
        s
    }
}

impl RoutingChain {
    pub fn generate_urn(realm: &str, name: &str) -> (urn: String)
        ensures
            urn@ == routing_chain_urn(realm@, name@),
    {
        let mut s = String::from_str("urn:chip-in:routing-chain:");
        s.append(realm);
        s.append(":");
        s.append(name);
        s
    }
}

impl Hub {
    pub fn generate_urn(realm: &str, name: &str) -> (urn: String)
        ensures
            urn@ == hub_urn(realm@, name@),
    {
        let mut s = String::from_str("urn:chip-in:network:");
        s.append(realm);
        s.append(":");
        s.append(name);
        s
    }
}

impl Service {
    pub fn generate_urn(realm: &str, hub: &str, name: &str) -> (urn: String)
        ensures
            urn@ == service_urn(realm@, hub@, name@),
    {
        let mut s = String::from_str("urn:chip-in:service:");
        s.append(realm);
        s.append(":");
        s.append(hub);
        s.append(":");
        s.append(name);
        s
    }
}

/// Checks a URN given in the configuration file for a resource against the
/// URN generated for it. A resource given without a URN is accepted.
pub fn validate_urn(
    resource_type: &str,
    name: &str,
    yaml_urn: Option<&String>,
    generated_urn: &str,
) -> (r: Result<(), ApiError>)
    ensures
        r is Ok <==> urn_accepted(
            match yaml_urn {
                Some(u) => Some(u@),
                None => None,
            },
            generated_urn@,
        ),
        r matches Err(e) ==> (e matches ApiError::BadRequest(msg) && msg@ == urn_mismatch_message(
            resource_type@,
            name@,
            yaml_urn.unwrap()@,
            generated_urn@,
        )),
{
    match yaml_urn {
        Some(urn) => {
            if !str_equal(urn.as_str(), generated_urn) {
                let mut msg = String::from_str("URN mismatch for ");
                msg.append(resource_type);
                msg.append(" '");
                msg.append(name);
                msg.append("': config.yaml has '");
                msg.append(urn.as_str());
                msg.append("', but generated URN is '");
                msg.append(generated_urn);
                msg.append("'.");
                return Err(ApiError::BadRequest(msg));
            }
            Ok(())
        },
        None => Ok(()),
    }
}

/// The pieces of a subdomain URN whose realm, zone and name hold no `:`.
proof fn lemma_subdomain_urn_pieces(realm: Seq<char>, zone: Seq<char>, name: Seq<char>)
    requires
        !realm.contains(':'),
        !zone.contains(':'),
        !name.contains(':'),
    ensures
        split_on(subdomain_urn(realm, zone, name), ':') == seq![
            "urn"@,
            "chip-in"@,
            "subdomain"@,
            realm,
            zone,
            name,
        ],
{
    reveal_strlit("urn:chip-in:subdomain:");
    reveal_strlit(":");
    reveal_strlit("urn");
    reveal_strlit("chip-in");
    reveal_strlit("subdomain");
    let u = "urn"@;
    let c = "chip-in"@;
    let d = "subdomain"@;
    assert(!u.contains(':')) by {
        assert(u =~= seq!['u', 'r', 'n']);
    }
    assert(!c.contains(':')) by {
        assert(c =~= seq!['c', 'h', 'i', 'p', '-', 'i', 'n']);
    }
    assert(!d.contains(':')) by {
        assert(d =~= seq!['s', 'u', 'b', 'd', 'o', 'm', 'a', 'i', 'n']);
    }
    lemma_split_free(u, ':');
    lemma_split_free(c, ':');
    lemma_split_free(d, ':');
    lemma_split_free(realm, ':');
    lemma_split_free(zone, ':');
    lemma_split_free(name, ':');
    let s1 = u.push(':') + c;
    let s2 = s1.push(':') + d;
    let s3 = s2.push(':') + realm;
    let s4 = s3.push(':') + zone;
    let s5 = s4.push(':') + name;
    lemma_split_concat(u, c, ':');
    lemma_split_concat(s1, d, ':');
    lemma_split_concat(s2, realm, ':');
    lemma_split_concat(s3, zone, ':');
    lemma_split_concat(s4, name, ':');
    assert(subdomain_urn(realm, zone, name) =~= s5);
    assert(split_on(s5, ':') =~= seq![u, c, d, realm, zone, name]);
}

/// Round trip: parsing the URN generated for a subdomain gives back its
/// realm, zone and name, whenever none of them holds a `:`.
pub proof fn lemma_parse_generated_subdomain_urn(realm: Seq<char>, zone: Seq<char>, name: Seq<char>)
    requires
        !realm.contains(':'),
        !zone.contains(':'),
        !name.contains(':'),
    ensures
        parsed_subdomain_urn(subdomain_urn(realm, zone, name)) == Some((realm, zone, name)),
{
    lemma_subdomain_urn_pieces(realm, zone, name);
}

/// Parsing accepts only generated URNs: a URN that parses is exactly the URN
/// generated for the realm, zone and name it yields, and these hold no `:`.
pub proof fn lemma_parsed_subdomain_urn_is_generated(urn: Seq<char>)
    requires
        parsed_subdomain_urn(urn) is Some,
    ensures
        ({
            let (realm, zone, name) = parsed_subdomain_urn(urn).unwrap();
            &&& urn == subdomain_urn(realm, zone, name)
            &&& !realm.contains(':')
            &&& !zone.contains(':')
            &&& !name.contains(':')
        }),
{
    let p = split_on(urn, ':');
    lemma_join_split(urn, ':');
    lemma_split_pieces_free(urn, ':');
    assert(!p[3].contains(':'));
    assert(!p[4].contains(':'));
    assert(!p[5].contains(':'));
    reveal_strlit("urn:chip-in:subdomain:");
    reveal_strlit(":");
    reveal_strlit("urn");
    reveal_strlit("chip-in");
    reveal_strlit("subdomain");
    let q5 = p.drop_last();
    let q4 = q5.drop_last();
    let q3 = q4.drop_last();
    let q2 = q3.drop_last();
    let q1 = q2.drop_last();
    assert(q1 =~= seq![p[0]]);
    assert(join_with(q1, ':') == p[0]);
    assert(join_with(q2, ':') == p[0].push(':') + p[1]);
    assert(join_with(q3, ':') == (p[0].push(':') + p[1]).push(':') + p[2]);
    assert(join_with(q4, ':') == ((p[0].push(':') + p[1]).push(':') + p[2]).push(':') + p[3]);
    assert(join_with(q5, ':') == (((p[0].push(':') + p[1]).push(':') + p[2]).push(':')
        + p[3]).push(':') + p[4]);
    assert(urn == ((((p[0].push(':') + p[1]).push(':') + p[2]).push(':') + p[3]).push(':')
        + p[4]).push(':') + p[5]);
    assert("urn:chip-in:subdomain:"@ =~= ((p[0].push(':') + p[1]).push(':') + p[2]).push(':'));
    assert(urn =~= subdomain_urn(p[3], p[4], p[5]));
}

} // verus!
