//! Extends a structure's derive group with the serialization derives.
use crate::paths::strs_view;
use vstd::prelude::*;

verus! {

/// The derive groups of a structure as texts.
pub open spec fn derives_view(d: Seq<Vec<String>>) -> Seq<Seq<Seq<char>>> {
    d.map_values(|g: Vec<String>| strs_view(g@))
}

/// A derive entry that names the serialize capability.
pub open spec fn is_serialize_ref(e: Seq<char>) -> bool {
    e == "Serialize"@ || e == "serde::Serialize"@ || e == "::serde::Serialize"@
}

/// A derive entry that names the deserialize capability.
pub open spec fn is_deserialize_ref(e: Seq<char>) -> bool {
    e == "Deserialize"@ || e == "serde::Deserialize"@ || e == "::serde::Deserialize"@
}

/// Some group holds an entry that `is_serialize_ref` (or, with `ser` false, `is_deserialize_ref`).
pub open spec fn has_ref(groups: Seq<Seq<Seq<char>>>, ser: bool) -> bool {
    exists|i: int, j: int|
        0 <= i < groups.len() && 0 <= j < groups[i].len() && (if ser {
            is_serialize_ref(#[trigger] groups[i][j])
        } else {
            is_deserialize_ref(groups[i][j])
        })
}

/// The entries that augmentation appends: each of the two capabilities that
/// no group names yet.
pub open spec fn missing_refs(groups: Seq<Seq<Seq<char>>>) -> Seq<Seq<char>> {
    (if has_ref(groups, true) { Seq::empty() } else { seq!["serde::Serialize"@] }) + (if has_ref(
        groups,
        false,
    ) { Seq::empty() } else { seq!["serde::Deserialize"@] })
}

/// The groups after augmentation: with no derive group nothing changes;
/// otherwise the first group gets the missing capabilities at its end.
pub open spec fn augment_spec(groups: Seq<Seq<Seq<char>>>) -> Seq<Seq<Seq<char>>> {
    if groups.len() == 0 {
        groups
    } else {
        groups.update(0, groups[0] + missing_refs(groups))
    }
}

fn text_is_serialize_ref(e: &String) -> (r: bool)
    ensures
        r == is_serialize_ref(e@),
{
    *e == String::from_str("Serialize") || *e == String::from_str("serde::Serialize") || *e
        == String::from_str("::serde::Serialize")
}

fn text_is_deserialize_ref(e: &String) -> (r: bool)
    ensures
        r == is_deserialize_ref(e@),
{
    *e == String::from_str("Deserialize") || *e == String::from_str("serde::Deserialize") || *e
        == String::from_str("::serde::Deserialize")
}

/// Whether some group names the serialize (`ser`) or deserialize capability.
pub fn derives_name(groups: &Vec<Vec<String>>, ser: bool) -> (r: bool)
    ensures
        r == has_ref(derives_view(groups@), ser),
{
    let ghost gv = derives_view(groups@);
    let mut i: usize = 0;
    while i < groups.len()
        invariant
            i <= groups.len(),
            gv == derives_view(groups@),
            forall|a: int, b: int|
                0 <= a < i && 0 <= b < gv[a].len() ==> !(if ser {
                    is_serialize_ref(#[trigger] gv[a][b])
                } else {
                    is_deserialize_ref(gv[a][b])
                }),
        decreases groups.len() - i,
    {
        let g = &groups[i];
        let mut j: usize = 0;
        while j < g.len()
            invariant
                i < groups.len(),
                g == groups@[i as int],
                j <= g.len(),
                gv == derives_view(groups@),
                forall|b: int|
                    0 <= b < j ==> !(if ser {
                        is_serialize_ref(#[trigger] gv[i as int][b])
                    } else {
                        is_deserialize_ref(gv[i as int][b])
                    }),
            decreases g.len() - j,
        {
            let hit = if ser {
                text_is_serialize_ref(&g[j])
            } else {
                text_is_deserialize_ref(&g[j])
            };
            if hit {
                assert(gv[i as int][j as int] == g@[j as int]@);
                return true;
            }
            j = j + 1;
        }
        i = i + 1;
    }
    false
}

/// Appends to the first derive group each serialization capability that no
/// group names yet; a structure with no derive group is left as it is.
pub fn augment_derives(groups: Vec<Vec<String>>) -> (r: Vec<Vec<String>>)
    ensures
        derives_view(r@) == augment_spec(derives_view(groups@)),
{
    let ghost gv = derives_view(groups@);
    if groups.len() == 0 {
        return groups;
    }
    let has_ser = derives_name(&groups, true);
    let has_de = derives_name(&groups, false);
    let mut groups = groups;
    let mut first = groups.remove(0);
    let ghost first0 = first@;
    if !has_ser {
        first.push(String::from_str("serde::Serialize"));
    }
    let ghost mid = first@;
    if !has_de {
        first.push(String::from_str("serde::Deserialize"));
    }
    assert(strs_view(first@) =~= gv[0] + missing_refs(gv)) by {
        assert(strs_view(first0) == gv[0]);
        if !has_ser {
            assert(strs_view(mid) =~= gv[0] + seq!["serde::Serialize"@]);
        } else {
            assert(strs_view(mid) =~= gv[0]);
        }
    }
    groups.insert(0, first);
    assert(derives_view(groups@) =~= augment_spec(gv));
    groups
}

/// After augmentation every structure with a derive group names both
/// serialization capabilities.
pub proof fn lemma_augment_names_both(groups: Seq<Seq<Seq<char>>>)
    requires
        groups.len() > 0,
    ensures
        has_ref(augment_spec(groups), true),
        has_ref(augment_spec(groups), false),
{
    let a = augment_spec(groups);
    let m = missing_refs(groups);
    assert(a[0] == groups[0] + m);
    reveal_strlit("serde::Serialize");
    reveal_strlit("serde::Deserialize");
    if has_ref(groups, true) {
        let (i, j) = choose|i: int, j: int|
            0 <= i < groups.len() && 0 <= j < groups[i].len() && is_serialize_ref(#[trigger] groups[i][j]);
        assert(a[i][j] == groups[i][j]);
    } else {
        assert(a[0][groups[0].len() as int] == "serde::Serialize"@);
    }
    if has_ref(groups, false) {
        let (i, j) = choose|i: int, j: int|
            0 <= i < groups.len() && 0 <= j < groups[i].len() && is_deserialize_ref(#[trigger] groups[i][j]);
        assert(a[i][j] == groups[i][j]);
    } else {
        assert(a[0][groups[0].len() + m.len() - 1] == "serde::Deserialize"@);
    }
}

/// Augmenting a structure a second time changes nothing: its derive groups
/// never get a second serialize or deserialize reference.
pub proof fn lemma_augment_idempotent(groups: Seq<Seq<Seq<char>>>)
    ensures
        augment_spec(augment_spec(groups)) == augment_spec(groups),
{
    if groups.len() > 0 {
        lemma_augment_names_both(groups);
        let a = augment_spec(groups);
        assert(missing_refs(a) =~= Seq::empty());
        assert(a[0] + missing_refs(a) =~= a[0]);
        assert(a.update(0, a[0]) =~= a);
    }
}

} // verus!
