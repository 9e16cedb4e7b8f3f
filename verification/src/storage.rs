//! Storage-state values: cookies' same-site policy, per-origin storage
//! entries, and the scripts and conversions the storage reader and writer
//! lean on.

use vstd::prelude::*;

use crate::json::json_quoted;
use crate::json::json_string_literal;

verus! {

/// The same-site policy of a cookie.
#[derive(Debug, Clone, Copy, PartialEq, Eq, Structural)]
pub enum SameSite {
    /// Sent in first-party contexts only.
    Strict,
    /// Sent with top-level navigation.
    Lax,
    /// Sent in all contexts (requires a secure cookie); the wire value
    /// "None".
    Unrestricted,
}

impl Default for SameSite {
    /// Lax, the browsers' own default.
    fn default() -> (r: SameSite)
        ensures
            r == SameSite::Lax,
    {
        SameSite::Lax
    }
}

/// The wire name of a same-site policy.
pub fn same_site_name(s: SameSite) -> (r: &'static str)
    ensures
        s == SameSite::Strict ==> r@ == "Strict"@,
        s == SameSite::Lax ==> r@ == "Lax"@,
        s == SameSite::Unrestricted ==> r@ == "None"@,
{
    match s {
        SameSite::Strict => "Strict",
        SameSite::Lax => "Lax",
        SameSite::Unrestricted => "None",
    }
}

/// The same-site policy a wire name denotes; anything unknown reads as Lax,
/// as the protocol treats it.
pub fn same_site_of_name(name: &str) -> (r: SameSite)
    ensures
        name@ == "Strict"@ ==> r == SameSite::Strict,
        name@ == "None"@ ==> r == SameSite::Unrestricted,
        name@ != "Strict"@ && name@ != "None"@ ==> r == SameSite::Lax,
{
    proof {
        reveal_strlit("Strict");
        reveal_strlit("None");
        assert("Strict"@.len() == 6);
        assert("None"@.len() == 4);
    }
    if crate::text::str_eq(name, "Strict") {
        SameSite::Strict
    } else if crate::text::str_eq(name, "None") {
        SameSite::Unrestricted
    } else {
        SameSite::Lax
    }
}

/// One storage entry: a name and a value.
#[derive(Debug, Clone, PartialEq, Eq)]
pub struct NameValue {
    /// Entry name.
    pub name: String,
    /// Entry value.
    pub value: String,
}

/// The local-storage and session-storage entries of one origin.
#[derive(Debug, Clone, PartialEq, Eq)]
pub struct OriginState {
    /// The origin these entries belong to.
    pub origin: String,
    /// Its local-storage entries.
    pub local_storage: Vec<NameValue>,
    /// Its session-storage entries; typically ephemeral.
    pub session_storage: Vec<NameValue>,
}

/// The storage entries a list of protocol item pairs denotes, in order:
/// every two-element pair becomes an entry, everything else is dropped.
pub open spec fn spec_entries_of_pairs(pairs: Seq<Seq<String>>) -> Seq<(Seq<char>, Seq<char>)>
    decreases pairs.len(),
{
    if pairs.len() == 0 {
        Seq::empty()
    } else {
        let rest = spec_entries_of_pairs(pairs.drop_first());
        if pairs[0].len() == 2 {
            seq![(pairs[0][0]@, pairs[0][1]@)] + rest
        } else {
            rest
        }
    }
}

/// Convert the item pairs a storage query returns into storage entries:
/// each well-formed `[name, value]` pair becomes one entry, in order, and
/// malformed pairs are dropped, as [`spec_entries_of_pairs`] says.
pub fn entries_from_pairs(pairs: &Vec<Vec<String>>) -> (r: Vec<NameValue>)
    ensures
        r@.len() == spec_entries_of_pairs(pairs@.map_values(|p: Vec<String>| p@)).len(),
        forall|j: int|
            0 <= j < r@.len() ==> (#[trigger] r@[j].name@, r@[j].value@) == spec_entries_of_pairs(
                pairs@.map_values(|p: Vec<String>| p@),
            )[j],
{
    let ghost all = pairs@.map_values(|p: Vec<String>| p@);
    let mut r: Vec<NameValue> = Vec::new();
    let mut i: usize = 0;
    proof {
        assert(all.skip(0) =~= all);
    }
    while i < pairs.len()
        invariant
            i <= pairs@.len(),
            all == pairs@.map_values(|p: Vec<String>| p@),
            spec_entries_of_pairs(all) == r@.map_values(
                |e: NameValue| (e.name@, e.value@),
            ) + spec_entries_of_pairs(all.skip(i as int)),
        decreases pairs@.len() - i,
    {
        let ghost seen = r@.map_values(|e: NameValue| (e.name@, e.value@));
        proof {
            assert(all.skip(i as int).drop_first() =~= all.skip(i + 1));
            assert(all.skip(i as int)[0] == pairs@[i as int]@);
        }
        if pairs[i].len() == 2 {
            let name = pairs[i][0].clone();
            let value = pairs[i][1].clone();
            r.push(NameValue { name, value });
            proof {
                assert(r@.map_values(|e: NameValue| (e.name@, e.value@)) =~= seen + seq![
                    (pairs@[i as int]@[0]@, pairs@[i as int]@[1]@),
                ]);
                assert(spec_entries_of_pairs(all.skip(i as int)) =~= seq![
                    (pairs@[i as int]@[0]@, pairs@[i as int]@[1]@),
                ] + spec_entries_of_pairs(all.skip(i + 1)));
                assert(spec_entries_of_pairs(all) =~= r@.map_values(
                    |e: NameValue| (e.name@, e.value@),
                ) + spec_entries_of_pairs(all.skip(i + 1)));
            }
        }
        i = i + 1;
    }
    proof {
        assert(all.skip(pairs@.len() as int) =~= Seq::<Seq<String>>::empty());
        assert(spec_entries_of_pairs(all) =~= r@.map_values(|e: NameValue| (e.name@, e.value@)));
        assert(forall|j: int|
            0 <= j < r@.len() ==> (#[trigger] r@[j].name@, r@[j].value@) == r@.map_values(
                |e: NameValue| (e.name@, e.value@),
            )[j]);
    }
    r
}

/// The per-origin states that remain after dropping repeats: the first
/// state for each origin survives, in order, with `seen` the origins
/// already taken.
pub open spec fn spec_dedup_origins(entries: Seq<OriginState>, seen: Set<Seq<char>>) -> Seq<
    OriginState,
>
    decreases entries.len(),
{
    if entries.len() == 0 {
        Seq::empty()
    } else if seen.contains(entries[0].origin@) {
        spec_dedup_origins(entries.drop_first(), seen)
    } else {
        seq![entries[0]] + spec_dedup_origins(
            entries.drop_first(),
            seen.insert(entries[0].origin@),
        )
    }
}

/// Whether one of the collected states already belongs to `origin`.
fn origin_listed(kept: &Vec<OriginState>, origin: &str) -> (r: bool)
    ensures
        r == (exists|j: int| 0 <= j < kept@.len() && kept@[j].origin@ == origin@),
{
    let mut j: usize = 0;
    while j < kept.len()
        invariant
            j <= kept@.len(),
            forall|k: int| 0 <= k < j ==> kept@[k].origin@ != origin@,
        decreases kept@.len() - j,
    {
        if crate::text::str_eq(kept[j].origin.as_str(), origin) {
            return true;
        }
        j = j + 1;
    }
    false
}

/// Keep one storage state per origin: the first state gathered for each
/// origin wins, later repeats are dropped, and the order of first
/// appearances is kept, as [`spec_dedup_origins`] says.
pub fn dedup_origin_states(entries: Vec<OriginState>) -> (r: Vec<OriginState>)
    ensures
        r@ == spec_dedup_origins(entries@, Set::empty()),
{
    let ghost all = entries@;
    let mut rest = entries;
    let mut kept: Vec<OriginState> = Vec::new();
    let ghost mut seen = Set::<Seq<char>>::empty();
    while rest.len() > 0
        invariant
            spec_dedup_origins(all, Set::empty()) == kept@ + spec_dedup_origins(rest@, seen),
            forall|x: Seq<char>|
                #[trigger] seen.contains(x) <==> exists|j: int|
                    0 <= j < kept@.len() && kept@[j].origin@ == x,
        decreases rest@.len(),
    {
        let ghost rest_before = rest@;
        let ghost kept_before = kept@;
        let e = rest.remove(0);
        proof {
            assert(rest@ =~= rest_before.drop_first());
            assert(rest_before[0] == e);
        }
        if !origin_listed(&kept, e.origin.as_str()) {
            proof {
                assert(!seen.contains(e.origin@));
                assert(spec_dedup_origins(rest_before, seen) =~= seq![e] + spec_dedup_origins(
                    rest@,
                    seen.insert(e.origin@),
                ));
                seen = seen.insert(e.origin@);
            }
            kept.push(e);
            proof {
                assert(kept@ =~= kept_before.push(kept@[kept@.len() - 1]));
                assert(spec_dedup_origins(all, Set::empty()) =~= kept@ + spec_dedup_origins(
                    rest@,
                    seen,
                ));
                assert forall|x: Seq<char>|
                    #[trigger] seen.contains(x) <==> exists|j: int|
                        0 <= j < kept@.len() && kept@[j].origin@ == x by {
                    if seen.contains(x) {
                        if x == kept@[kept@.len() - 1].origin@ {
                            assert(kept@[kept@.len() - 1].origin@ == x);
                        } else {
                            let j = choose|j: int|
                                0 <= j < kept_before.len() && kept_before[j].origin@ == x;
                            assert(kept@[j].origin@ == x);
                        }
                    }
                    if exists|j: int| 0 <= j < kept@.len() && kept@[j].origin@ == x {
                        let j = choose|j: int| 0 <= j < kept@.len() && kept@[j].origin@ == x;
                        if j < kept_before.len() {
                            assert(kept_before[j].origin@ == x);
                        }
                    }
                }
            }
        } else {
            proof {
                assert(seen.contains(e.origin@));
                assert(spec_dedup_origins(rest_before, seen) =~= spec_dedup_origins(rest@, seen));
            }
        }
    }
    proof {
        assert(spec_dedup_origins(rest@, seen) =~= Seq::<OriginState>::empty());
        assert(spec_dedup_origins(all, Set::empty()) =~= kept@);
    }
    kept
}

/// The script that writes one storage entry in the page: the storage area's
/// setter applied to the JSON-quoted name and value.
pub fn storage_item_script(local: bool, name: &str, value: &str) -> (r: String)
    ensures
        local ==> r@ == "localStorage.setItem("@ + json_quoted(name@) + ", "@ + json_quoted(
            value@,
        ) + ");"@,
        !local ==> r@ == "sessionStorage.setItem("@ + json_quoted(name@) + ", "@ + json_quoted(
            value@,
        ) + ");"@,
{
    let mut r: String = if local {
        "localStorage.setItem(".to_owned()
    } else {
        "sessionStorage.setItem(".to_owned()
    };
    r.append(json_string_literal(name).as_str());
    r.append(", ");
    r.append(json_string_literal(value).as_str());
    r.append(");");
    r
}

} // verus!
