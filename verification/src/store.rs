//! How the inventory reads the answers of its datastore: which listed
//! entries belong to a listing, which entries of a realm are subdomains and
//! of which zone, when a read found nothing, when a deletion removed
//! something, and which guard a conditional write is made under.
use crate::keys::{is_direct_child, subdomain_key_of, zone_key_of};
use crate::model::{ApiError, Subdomain};
use crate::records::{populate_subdomain_fields, subdomain_populated};
use crate::text::{
    contains_char_from, find, find_from, find_str, has_prefix, lemma_find_from_bounds,
    lemma_split_concat, lemma_split_free, split_chars, split_on,
};
use vstd::prelude::*;

verus! {

broadcast use vstd::std_specs::vec::axiom_spec_into_iter;

/// An entry of a datastore listing, as the service sees it: its key (none
/// when the key is not valid UTF-8) and its value decoded as a resource
/// (none when the value does not decode).
pub type ListedEntry<T> = (Option<String>, Option<T>);

/// The values that listing `prefix` yields from the datastore's entries:
/// those of direct children of `prefix` whose value decodes, in order.
pub open spec fn listing<T>(prefix: Seq<char>, entries: Seq<ListedEntry<T>>) -> Seq<T>
    decreases entries.len(),
{
    if entries.len() == 0 {
        Seq::<T>::empty()
    } else {
        let rest = listing(prefix, entries.drop_last());
        let e = entries.last();
        if e.0 is Some && e.1 is Some && is_direct_child(prefix, e.0->0@) {
            rest.push(e.1->0)
        } else {
            rest
        }
    }
}

/// Whether `key` lies directly under `prefix`.
pub fn direct_child(prefix: &str, key: &str) -> (r: bool)
    ensures
        r == is_direct_child(prefix@, key@),
{
    if !has_prefix(key, prefix) {
        return false;
    }
    let n = prefix.unicode_len();
    !contains_char_from(key, '/', n)
}

/// The resources of a listing under `prefix`: the decoded values of the
/// entries that lie directly under it, in the order listed.
pub fn select_direct_children<T>(prefix: &str, entries: Vec<ListedEntry<T>>) -> (r: Vec<T>)
    ensures
        r@ == listing(prefix@, entries@),
{
    let ghost all = entries@;
    let mut out: Vec<T> = Vec::new();
    for e in it: entries.into_iter()
        invariant
            it.seq() == all,
            out@ == listing(prefix@, all.take(it.index() as int)),
    {
        let ghost i = it.index();
        assert(all.take(i + 1).drop_last() =~= all.take(i as int));
        let (key, value) = e;
        match (key, value) {
            (Some(k), Some(v)) => {
                if direct_child(prefix, k.as_str()) {
                    out.push(v);
                }
            },
            _ => {},
        }
    }
    assert(all.take(all.len() as int) =~= all);
    out
}


/// Where a key found under a realm's zones places a subdomain: not at all
/// (`None`) unless the key holds `/subdomains/` with no `/` after it; then
/// in the zone named by the fourth `/`-separated piece of the key when the
/// key has at least six pieces, else in no particular zone (`Some(None)`).
pub open spec fn subdomain_place(key: Seq<char>) -> Option<Option<Seq<char>>> {
    match find(key, "/subdomains/"@) {
        None => None,
        Some(pos) => if key.skip(pos + "/subdomains/"@.len()).contains('/') {
            None
        } else {
            let pieces = split_on(key, '/');
            if pieces.len() >= 6 {
                Some(Some(pieces[3]))
            } else {
                Some(None)
            }
        },
    }
}

/// Where `key` places a subdomain of a realm.
pub fn subdomain_place_of(key: &str) -> (r: Option<Option<String>>)
    ensures
        match r {
            None => subdomain_place(key@) is None,
            Some(None) => subdomain_place(key@) == Some(None::<Seq<char>>),
            Some(Some(z)) => subdomain_place(key@) == Some(Some(z@)),
        },
{
    let marker = "/subdomains/";
    proof {
        reveal_strlit("/subdomains/");
    }
    // the key's length fits in a `usize`, and so does the end of the marker
    let _len = key.unicode_len();
    match find_str(key, marker) {
        None => None,
        Some(pos) => {
            proof {
                lemma_find_from_bounds(key@, marker@, 0);
            }
            let start = pos + marker.unicode_len();
            if contains_char_from(key, '/', start) {
                return None;
            }
            let pieces = split_chars(key, '/');
            assert(pieces@.len() == split_on(key@, '/').len());
            if pieces.len() >= 6 {
                assert(pieces@[3]@ == split_on(key@, '/')[3]);
                Some(Some(pieces[3].clone()))
            } else {
                Some(None)
            }
        },
    }
}

/// The positions of the entries of a realm listing that are subdomains:
/// a key placing a subdomain, and a value that decodes.
pub open spec fn subdomain_positions(entries: Seq<ListedEntry<Subdomain>>) -> Seq<int>
    decreases entries.len(),
{
    if entries.len() == 0 {
        Seq::<int>::empty()
    } else {
        let rest = subdomain_positions(entries.drop_last());
        let e = entries.last();
        if e.0 is Some && e.1 is Some && subdomain_place(e.0->0@) is Some {
            rest.push(entries.len() - 1)
        } else {
            rest
        }
    }
}

/// `out` is the subdomain of entry `e` of realm `realm_id`: the stored one
/// with its read-only fields filled in when its key names its zone, as
/// stored otherwise.
pub open spec fn realm_subdomain_of(
    out: Subdomain,
    e: ListedEntry<Subdomain>,
    realm_id: Seq<char>,
) -> bool {
    match subdomain_place(e.0->0@) {
        Some(Some(zone)) => subdomain_populated(out, e.1->0, realm_id, zone),
        _ => out == e.1->0,
    }
}

proof fn lemma_positions_bounded(entries: Seq<ListedEntry<Subdomain>>)
    ensures
        forall|j: int|
            0 <= j < subdomain_positions(entries).len() ==> 0 <= #[trigger] subdomain_positions(
                entries,
            )[j] < entries.len(),
    decreases entries.len(),
{
    if entries.len() > 0 {
        let rest = entries.drop_last();
        lemma_positions_bounded(rest);
        let p = subdomain_positions(entries);
        assert forall|j: int| 0 <= j < p.len() implies 0 <= #[trigger] p[j] < entries.len() by {
            if j < subdomain_positions(rest).len() {
                assert(p[j] == subdomain_positions(rest)[j]);
            }
        }
    }
}

/// All subdomains of realm `realm_id`, from a listing of the keys under the
/// realm's zones: one for each entry that is a subdomain, in order.
pub fn collect_realm_subdomains(realm_id: &str, entries: Vec<ListedEntry<Subdomain>>) -> (r: Vec<
    Subdomain,
>)
    ensures
        r@.len() == subdomain_positions(entries@).len(),
        forall|j: int|
            0 <= j < r@.len() ==> realm_subdomain_of(
                #[trigger] r@[j],
                entries@[subdomain_positions(entries@)[j]],
                realm_id@,
            ),
{
    let ghost all = entries@;
    let mut out: Vec<Subdomain> = Vec::new();
    for e in it: entries.into_iter()
        invariant
            it.seq() == all,
            out@.len() == subdomain_positions(all.take(it.index() as int)).len(),
            forall|j: int|
                0 <= j < out@.len() ==> realm_subdomain_of(
                    #[trigger] out@[j],
                    all[subdomain_positions(all.take(it.index() as int))[j]],
                    realm_id@,
                ),
    {
        let ghost i = it.index() as int;
        let ghost before = all.take(i);
        let ghost after = all.take(i + 1);
        proof {
            assert(after.drop_last() =~= before);
            assert(after.last() == all[i]);
            lemma_positions_bounded(before);
        }
        let ghost out_before = out@;
        let (key, value) = e;
        match (key, value) {
            (Some(k), Some(v)) => {
                match subdomain_place_of(k.as_str()) {
                    Some(Some(zone)) => {
                        let mut sub = v;
                        populate_subdomain_fields(&mut sub, realm_id, zone.as_str());
                        out.push(sub);
                    },
                    Some(None) => {
                        out.push(v);
                    },
                    None => {},
                }
            },
            _ => {},
        }
        proof {
            assert forall|j: int| 0 <= j < out@.len() implies realm_subdomain_of(
                #[trigger] out@[j],
                all[subdomain_positions(after)[j]],
                realm_id@,
            ) by {
                if j < out_before.len() {
                    assert(out@[j] == out_before[j]);
                    assert(subdomain_positions(after)[j] == subdomain_positions(before)[j]);
                } else {
                    assert(subdomain_positions(after)[j] == i);
                }
            }
        }
    }
    proof {
        assert(all.take(all.len() as int) =~= all);
    }
    out
}

/// The answer to a read of one key: the decoded value when the key was
/// found (or the decoding error), "not found" otherwise.
pub fn lookup_outcome<T>(found: Option<Result<T, ApiError>>) -> (r: Result<T, ApiError>)
    ensures
        match found {
            Some(res) => r == res,
            None => r == Err::<T, ApiError>(ApiError::NotFound),
        },
{
    match found {
        Some(res) => res,
        None => Err(ApiError::NotFound),
    }
}

/// A deletion removed something when it reports a positive count.
pub fn removed_any(deleted: i64) -> (r: bool)
    ensures
        r == (deleted > 0),
{
    deleted > 0
}

/// A cascading deletion (the resource's key, then its directory) removed the
/// resource when the first of its operations was a deletion that reports a
/// positive count.
pub fn cascade_removed(first_deleted: Option<i64>) -> (r: bool)
    ensures
        r == (first_deleted matches Some(n) && n > 0),
{
    match first_deleted {
        Some(n) => n > 0,
        None => false,
    }
}

/// The condition under which a conditional write goes through.
#[derive(Clone, Copy, Debug, PartialEq, Eq)]
pub enum WriteGuard {
    /// The key must not exist yet (its version is 0).
    Absent,
    /// The key's last modification must be at this revision.
    AtRevision(i64),
}

/// The guard of a conditional write expecting revision `expected_revision`:
/// revision 0 means that the key must not exist yet.
pub fn write_guard(expected_revision: i64) -> (g: WriteGuard)
    ensures
        expected_revision == 0 ==> g == WriteGuard::Absent,
        expected_revision != 0 ==> g == WriteGuard::AtRevision(expected_revision),
{
    if expected_revision == 0 {
        WriteGuard::Absent
    } else {
        WriteGuard::AtRevision(expected_revision)
    }
}


/// `pat` occurs in `s` at position `j`.
spec fn occurs_at(s: Seq<char>, pat: Seq<char>, j: int) -> bool {
    s.subrange(j, j + pat.len()) == pat
}

/// A search that meets no match before position `d` and a match at `d`
/// finds `d`.
proof fn lemma_find_first_match(s: Seq<char>, pat: Seq<char>, i: int, d: int)
    requires
        0 <= i <= d,
        d + pat.len() <= s.len(),
        s.subrange(d, d + pat.len()) == pat,
        forall|j: int| i <= j < d ==> !#[trigger] occurs_at(s, pat, j),
    ensures
        find_from(s, pat, i) == Some(d),
    decreases d - i,
{
    if i < d {
        assert(!occurs_at(s, pat, i));
        lemma_find_first_match(s, pat, i + 1, d);
    }
}

/// A search that meets no match from position `i` on finds nothing.
proof fn lemma_find_no_match(s: Seq<char>, pat: Seq<char>, i: int)
    requires
        0 <= i,
        forall|j: int| i <= j && j + pat.len() <= s.len() ==> !#[trigger] occurs_at(s, pat, j),
    ensures
        find_from(s, pat, i) is None,
    decreases s.len() + 1 - i,
{
    if i + pat.len() <= s.len() {
        assert(!occurs_at(s, pat, i));
        lemma_find_no_match(s, pat, i + 1);
    }
}

/// The text between two `/` at positions `j` and `j + 1 + seg.len()` of
/// `key` is `seg`; the marker `/subdomains/` starts at `j` only if `seg` is
/// `subdomains`.
proof fn lemma_marker_needs_segment(key: Seq<char>, j: int, seg: Seq<char>)
    requires
        0 <= j,
        j + 1 + seg.len() < key.len(),
        j + 12 <= key.len(),
        key.subrange(j + 1, j + 1 + seg.len()) == seg,
        key[j + 1 + seg.len()] == '/',
        !seg.contains('/'),
        seg != "subdomains"@,
    ensures
        key.subrange(j, j + 12) != "/subdomains/"@,
{
    reveal_strlit("/subdomains/");
    reveal_strlit("subdomains");
    let pat = "/subdomains/"@;
    let name = "subdomains"@;
    assert(name =~= pat.subrange(1, 11));
    if key.subrange(j, j + 12) == pat {
        let l = seg.len() as int;
        if l < 10 {
            assert(key.subrange(j, j + 12)[1 + l] == key[j + 1 + l]);
            assert(pat[1 + l] != '/');
        } else if l > 10 {
            assert(key.subrange(j + 1, j + 1 + l)[10] == seg[10]);
            assert(key.subrange(j, j + 12)[11] == key[j + 11]);
            assert(seg[10] != '/') by {
                if seg[10] == '/' {
                    assert(seg.contains('/'));
                }
            }
        } else {
            assert forall|k: int| 0 <= k < 10 implies seg[k] == name[k] by {
                assert(key.subrange(j + 1, j + 11)[k] == key[j + 1 + k]);
                assert(key.subrange(j, j + 12)[1 + k] == key[j + 1 + k]);
            }
            assert(seg =~= name);
        }
    }
}

/// Every subdomain stored in a realm is found in its own zone when the
/// realm's subdomains are collected, provided the realm, zone and
/// subdomain names hold no `/` and neither the realm nor the zone is named
/// `subdomains` (a key naming such a realm or zone holds the marker
/// `/subdomains/` earlier, and its entry is passed over).
pub proof fn lemma_subdomain_key_placed_in_its_zone(r: Seq<char>, z: Seq<char>, s: Seq<char>)
    requires
        !r.contains('/'),
        !z.contains('/'),
        !s.contains('/'),
        r != "subdomains"@,
        z != "subdomains"@,
    ensures
        subdomain_place(subdomain_key_of(r, z, s)) == Some(Some(z)),
{
    reveal_strlit("realms/");
    reveal_strlit("/");
    reveal_strlit("zones/");
    reveal_strlit("subdomains/");
    reveal_strlit("/subdomains/");
    let ra = "realms/"@;
    let zo = "zones/"@;
    let su = "subdomains/"@;
    let pat = "/subdomains/"@;
    assert(ra =~= seq!['r', 'e', 'a', 'l', 'm', 's', '/']);
    assert(zo =~= seq!['z', 'o', 'n', 'e', 's', '/']);
    assert(su =~= seq!['s', 'u', 'b', 'd', 'o', 'm', 'a', 'i', 'n', 's', '/']);
    assert(pat =~= seq!['/'] + su);
    let key = subdomain_key_of(r, z, s);
    let lr = r.len() as int;
    let lz = z.len() as int;
    let b = 7 + lr;
    let c = b + 6;
    let d = c + 1 + lz;
    assert(key =~= ra + r + seq!['/'] + zo + z + seq!['/'] + su + s);
    assert(key.len() == d + 12 + s.len());
    // where the slashes are
    assert forall|j: int| 0 <= j < d && key[j] == '/' implies j == 6 || j == b || j == c by {
        if 7 <= j < b {
            assert(key[j] == r[j - 7]);
            assert(r.contains(r[j - 7]));
        } else if c < j < d {
            assert(key[j] == z[j - c - 1]);
            assert(z.contains(z[j - c - 1]));
        }
    }
    // the marker is first met at d
    assert(key.subrange(d, d + 12) =~= pat);
    assert forall|j: int| 0 <= j < d implies !#[trigger] occurs_at(key, pat, j) by {
        if key[j] != '/' {
            assert(key.subrange(j, j + 12)[0] == key[j]);
        } else if j == 6 {
            assert(key.subrange(7, 7 + lr) =~= r);
            lemma_marker_needs_segment(key, 6, r);
        } else if j == b {
            assert(key.subrange(j, j + 12)[1] == key[b + 1]);
            assert(key[b + 1] == 'z');
        } else {
            assert(key.subrange(c + 1, c + 1 + lz) =~= z);
            lemma_marker_needs_segment(key, c, z);
        }
    }
    lemma_find_first_match(key, pat, 0, d);
    assert(key.skip(d + 12) =~= s);
    // the pieces of the key
    let realms = ra.drop_last();
    let zones = zo.drop_last();
    let subs = su.drop_last();
    assert(!realms.contains('/')) by {
        assert(realms =~= seq!['r', 'e', 'a', 'l', 'm', 's']);
    }
    assert(!zones.contains('/')) by {
        assert(zones =~= seq!['z', 'o', 'n', 'e', 's']);
    }
    assert(!subs.contains('/')) by {
        assert(subs =~= seq!['s', 'u', 'b', 'd', 'o', 'm', 'a', 'i', 'n', 's']);
    }
    lemma_split_free(realms, '/');
    lemma_split_free(r, '/');
    lemma_split_free(zones, '/');
    lemma_split_free(z, '/');
    lemma_split_free(subs, '/');
    lemma_split_free(s, '/');
    let k1 = realms.push('/') + r;
    let k2 = k1.push('/') + zones;
    let k3 = k2.push('/') + z;
    let k4 = k3.push('/') + subs;
    let k5 = k4.push('/') + s;
    lemma_split_concat(realms, r, '/');
    lemma_split_concat(k1, zones, '/');
    lemma_split_concat(k2, z, '/');
    lemma_split_concat(k3, subs, '/');
    lemma_split_concat(k4, s, '/');
    assert(k5 =~= key);
    assert(split_on(key, '/') =~= seq![realms, r, zones, z, subs, s]);
}


/// A zone's own record is never taken for a subdomain when a realm's
/// subdomains are collected (realm and zone names without `/`).
pub proof fn lemma_zone_key_not_placed(r: Seq<char>, z: Seq<char>)
    requires
        !r.contains('/'),
        !z.contains('/'),
    ensures
        subdomain_place(zone_key_of(r, z)) is None,
{
    reveal_strlit("realms/");
    reveal_strlit("/");
    reveal_strlit("zones/");
    reveal_strlit("/subdomains/");
    reveal_strlit("subdomains");
    let ra = "realms/"@;
    let zo = "zones/"@;
    let pat = "/subdomains/"@;
    assert(ra =~= seq!['r', 'e', 'a', 'l', 'm', 's', '/']);
    assert(zo =~= seq!['z', 'o', 'n', 'e', 's', '/']);
    assert(pat =~= seq!['/', 's', 'u', 'b', 'd', 'o', 'm', 'a', 'i', 'n', 's', '/']);
    let key = zone_key_of(r, z);
    let lr = r.len() as int;
    let lz = z.len() as int;
    let b = 7 + lr;
    let c = b + 6;
    assert(key =~= ra + r + seq!['/'] + zo + z);
    assert(key.len() == c + 1 + lz);
    if r == "subdomains"@ {
        // the marker stands right after `realms`, and a `/` follows it
        assert(key.subrange(6, 18) =~= pat);
        assert forall|j: int| 0 <= j < 6 implies !#[trigger] occurs_at(key, pat, j) by {
            assert(key.subrange(j, j + 12)[0] == key[j]);
        }
        lemma_find_first_match(key, pat, 0, 6);
        assert(key.skip(18)[5] == '/');
    } else {
        assert forall|j: int| 0 <= j && j + 12 <= key.len() implies !#[trigger] occurs_at(
            key,
            pat,
            j,
        ) by {
            if key[j] != '/' {
                assert(key.subrange(j, j + 12)[0] == key[j]);
            } else if j == 6 {
                assert(key.subrange(7, 7 + lr) =~= r);
                lemma_marker_needs_segment(key, 6, r);
            } else if j == b {
                assert(key.subrange(j, j + 12)[1] == key[b + 1]);
                assert(key[b + 1] == 'z');
            } else if j == c {
                assert(key.subrange(j, j + 12)[11] == key[c + 11]);
                assert(key[c + 11] == z[10]);
                if z[10] == '/' {
                    assert(z.contains('/'));
                }
            } else {
                if 7 <= j < b {
                    assert(key[j] == r[j - 7]);
                    assert(r.contains(r[j - 7]));
                } else if c < j {
                    assert(key[j] == z[j - c - 1]);
                    assert(z.contains(z[j - c - 1]));
                }
            }
        }
        lemma_find_no_match(key, pat, 0);
    }
}

} // verus!
