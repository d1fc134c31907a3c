//! The structure path table: bare structure name to fully-qualified path.
use vstd::prelude::*;

verus! {

/// A structure's bare name and its fully-qualified path (modules, then the name).
#[derive(Debug, PartialEq, Eq)]
pub struct PathEntry {
    pub name: String,
    pub path: Vec<String>,
}

/// The texts of a sequence of strings.
pub open spec fn strs_view(v: Seq<String>) -> Seq<Seq<char>> {
    v.map_values(|s: String| s@)
}

/// The table as (name, path) pairs.
pub open spec fn table_view(t: Seq<PathEntry>) -> Seq<(Seq<char>, Seq<Seq<char>>)> {
    t.map_values(|e: PathEntry| (e.name@, strs_view(e.path@)))
}

/// No name appears twice.
pub open spec fn keys_unique<V>(t: Seq<(Seq<char>, V)>) -> bool {
    forall|i: int, j: int| 0 <= i < t.len() && 0 <= j < t.len() && t[i].0 == t[j].0 ==> i == j
}

pub open spec fn has_name<V>(t: Seq<(Seq<char>, V)>, k: Seq<char>) -> bool {
    exists|i: int| 0 <= i < t.len() && t[i].0 == k
}

/// The index of the entry for `k`, where there is one.
pub open spec fn index_of<V>(t: Seq<(Seq<char>, V)>, k: Seq<char>) -> int {
    choose|i: int| 0 <= i < t.len() && t[i].0 == k
}

/// The path recorded for `k`, if any.
pub open spec fn lookup<V>(t: Seq<(Seq<char>, V)>, k: Seq<char>) -> Option<V> {
    if has_name(t, k) {
        Some(t[index_of(t, k)].1)
    } else {
        None
    }
}

/// Records `p` for `k`: a later path for the same name replaces the earlier
/// one in place; a new name goes at the end.
pub open spec fn put<V>(t: Seq<(Seq<char>, V)>, k: Seq<char>, p: V) -> Seq<(Seq<char>, V)> {
    if has_name(t, k) {
        t.update(index_of(t, k), (k, p))
    } else {
        t.push((k, p))
    }
}

/// A copy of a vector of strings.
pub fn copy_strings(v: &Vec<String>) -> (r: Vec<String>)
    ensures
        r@ == v@,
{
    let mut r: Vec<String> = Vec::new();
    let mut i: usize = 0;
    while i < v.len()
        invariant
            i <= v.len(),
            r@ == v@.subrange(0, i as int),
        decreases v.len() - i,
    {
        r.push(v[i].clone());
        i = i + 1;
        assert(r@ =~= v@.subrange(0, i as int));
    }
    assert(r@ =~= v@);
    r
}

/// The position of `name` in the table, if it is there.
pub fn find_entry(table: &Vec<PathEntry>, name: &String) -> (r: Option<usize>)
    requires
        keys_unique(table_view(table@)),
    ensures
        r.is_none() <==> !has_name(table_view(table@), name@),
        r.is_some() ==> r.unwrap() < table@.len() && r.unwrap() as int == index_of(table_view(table@), name@),
{
    let ghost tv = table_view(table@);
    let mut i: usize = 0;
    while i < table.len()
        invariant
            i <= table.len(),
            tv == table_view(table@),
            keys_unique(tv),
            forall|j: int| 0 <= j < i ==> tv[j].0 != name@,
        decreases table.len() - i,
    {
        if table[i].name == *name {
            assert(tv[i as int].0 == name@);
            assert(has_name(tv, name@));
            let ghost k = index_of(tv, name@);
            assert(tv[k].0 == name@);
            return Some(i);
        }
        i = i + 1;
    }
    None
}

/// The recorded path for `name`, copied, if there is one.
pub fn lookup_path(table: &Vec<PathEntry>, name: &String) -> (r: Option<Vec<String>>)
    requires
        keys_unique(table_view(table@)),
    ensures
        r.is_none() ==> lookup(table_view(table@), name@).is_none(),
        r.is_some() ==> lookup(table_view(table@), name@) == Some(strs_view(r.unwrap()@)),
{
    match find_entry(table, name) {
        Some(i) => Some(copy_strings(&table[i].path)),
        None => None,
    }
}

/// Records `path` as the qualified path of structure `name`.
pub fn insert_path(table: &mut Vec<PathEntry>, name: String, path: Vec<String>)
    requires
        keys_unique(table_view(old(table)@)),
    ensures
        keys_unique(table_view(final(table)@)),
        table_view(final(table)@) == put(table_view(old(table)@), name@, strs_view(path@)),
{
    let ghost tv = table_view(table@);
    let ghost k = name@;
    let ghost p = strs_view(path@);
    match find_entry(table, &name) {
        Some(i) => {
            table.set(i, PathEntry { name, path });
            assert(table_view(table@) =~= tv.update(i as int, (k, p)));
        },
        None => {
            table.push(PathEntry { name, path });
            assert(table_view(table@) =~= tv.push((k, p)));
        },
    }
}

} // verus!
