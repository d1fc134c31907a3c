//! Walks the binding tree once: classifies modules by position, collects the
//! import functions and the structure paths, and augments every structure
//! with the serialization derives.
use crate::augment::{augment_derives, augment_spec, derives_view};
use crate::debug::{DebugLog, debug_print};
use crate::paths::{
    PathEntry, copy_strings, has_name, index_of, insert_path, keys_unique, put, strs_view,
    table_view,
};
use crate::tokens::{TokV, copy_toks, copy_toks_list, toks_list_view, toks_view};
use crate::tree::{FnDecl, Item, Module, StructDecl};
use vstd::prelude::*;

verus! {

/// A function as plain values.
pub struct FnV {
    pub name: Seq<char>,
    pub params: Seq<Seq<TokV>>,
    pub output: Seq<TokV>,
}

pub open spec fn fn_view(f: FnDecl) -> FnV {
    FnV { name: f.name@, params: toks_list_view(f.params@), output: toks_view(f.output@) }
}

/// The functions collected from one interface module, in declaration order.
#[derive(Debug, PartialEq, Eq)]
pub struct ImportGroup {
    pub iface: String,
    pub fns: Vec<FnDecl>,
}

pub open spec fn fns_view(fs: Seq<FnDecl>) -> Seq<FnV> {
    fs.map_values(|f: FnDecl| fn_view(f))
}

pub open spec fn imports_view(t: Seq<ImportGroup>) -> Seq<(Seq<char>, Seq<FnV>)> {
    t.map_values(|g: ImportGroup| (g.iface@, fns_view(g.fns@)))
}

/// Appends `f` to the functions of interface `k`; a new interface goes at the end.
pub open spec fn append_fn(t: Seq<(Seq<char>, Seq<FnV>)>, k: Seq<char>, f: FnV) -> Seq<(Seq<char>, Seq<FnV>)> {
    if has_name(t, k) {
        t.update(index_of(t, k), (k, t[index_of(t, k)].1.push(f)))
    } else {
        t.push((k, seq![f]))
    }
}

pub open spec fn opt_view(o: Option<String>) -> Option<Seq<char>> {
    match o {
        Some(s) => Some(s@),
        None => None,
    }
}

/// What the walk has found so far, as plain values.
pub struct CollectorState {
    pub namespace: Option<Seq<char>>,
    pub package: Option<Seq<char>>,
    pub exports_root: Option<Seq<char>>,
    pub parents: Seq<Seq<char>>,
    pub paths: Seq<(Seq<char>, Seq<Seq<char>>)>,
    pub imports: Seq<(Seq<char>, Seq<FnV>)>,
}

/// Some ancestor is the reserved `exports` module.
pub open spec fn is_exported(parents: Seq<Seq<char>>) -> bool {
    parents.contains("exports"@)
}

/// The roles a module named `name` takes where the walk stands in `s`: the
/// first non-`exports` module at depth 0 is the namespace; the first module
/// at depth 1 directly under the namespace and outside `exports` is the
/// package; the first module at depth 1 directly under `exports` is the root
/// of the exported interfaces.
pub open spec fn enter_module(s: CollectorState, name: Seq<char>) -> CollectorState {
    let d = s.parents.len();
    CollectorState {
        namespace: if d == 0 && name != "exports"@ && s.namespace is None {
            Some(name)
        } else {
            s.namespace
        },
        package: if d == 1 && s.namespace == Some(s.parents.last()) && !is_exported(s.parents)
            && s.package is None {
            Some(name)
        } else {
            s.package
        },
        exports_root: if d == 1 && s.parents.last() == "exports"@ && s.exports_root is None {
            Some(name)
        } else {
            s.exports_root
        },
        ..s
    }
}

/// Functions found here are import candidates: the enclosing module is an
/// interface module directly under the package, outside `exports`.
pub open spec fn is_import_context(s: CollectorState) -> bool {
    &&& s.package is Some
    &&& s.parents.len() >= 2
    &&& !is_exported(s.parents)
    &&& s.parents[s.parents.len() - 2] == s.package->Some_0
}

pub open spec fn collect_fn(s: CollectorState, f: FnV) -> CollectorState {
    if is_import_context(s) {
        CollectorState { imports: append_fn(s.imports, s.parents.last(), f), ..s }
    } else {
        s
    }
}

pub open spec fn collect_struct(s: CollectorState, name: Seq<char>) -> CollectorState {
    CollectorState { paths: put(s.paths, name, s.parents.push(name)), ..s }
}

/// The walk over one item.
pub open spec fn walk_item(s: CollectorState, item: Item) -> CollectorState
    decreases item,
{
    match item {
        Item::Module(m) => {
            let s1 = enter_module(s, m.name@);
            match m.content {
                Some(v) => {
                    let s2 = walk_items(CollectorState { parents: s1.parents.push(m.name@), ..s1 }, v@);
                    CollectorState { parents: s.parents, ..s2 }
                },
                None => s1,
            }
        },
        Item::Function(f) => collect_fn(s, fn_view(f)),
        Item::Struct(d) => collect_struct(s, d.name@),
        Item::Other => s,
    }
}

/// The walk over a sequence of items, in order.
pub open spec fn walk_items(s: CollectorState, items: Seq<Item>) -> CollectorState
    decreases items,
{
    if items.len() == 0 {
        s
    } else {
        walk_item(walk_items(s, items.subrange(0, items.len() - 1)), items[items.len() - 1])
    }
}

/// `after` is `before` with every structure's derive groups augmented.
pub open spec fn augmented(before: Item, after: Item) -> bool
    decreases before,
{
    match before {
        Item::Module(m) => {
            &&& after is Module
            &&& after->Module_0.name == m.name
            &&& match m.content {
                None => after->Module_0.content is None,
                Some(v) => {
                    &&& after->Module_0.content is Some
                    &&& augmented_all(v@, after->Module_0.content->Some_0@)
                },
            }
        },
        Item::Function(_) => after == before,
        Item::Struct(d) => {
            &&& after is Struct
            &&& after->Struct_0.name == d.name
            &&& derives_view(after->Struct_0.derives@) == augment_spec(derives_view(d.derives@))
        },
        Item::Other => after is Other,
    }
}

/// Each item of `after` is the augmented item of `before` at its position.
pub open spec fn augmented_all(before: Seq<Item>, after: Seq<Item>) -> bool
    decreases before,
{
    &&& after.len() == before.len()
    &&& forall|i: int| 0 <= i < before.len() ==> augmented(#[trigger] before[i], after[i])
}

/// The walk's state: the roles found, the ancestor stack, and the two tables.
pub struct Collector {
    pub namespace: Option<String>,
    pub package: Option<String>,
    pub exports_root: Option<String>,
    pub parents: Vec<String>,
    pub struct_paths: Vec<PathEntry>,
    pub import_fns: Vec<ImportGroup>,
    pub log: DebugLog,
}

/// A copy of a function declaration.
pub fn copy_fn(f: &FnDecl) -> (r: FnDecl)
    ensures
        fn_view(r) == fn_view(*f),
{
    FnDecl { name: f.name.clone(), params: copy_toks_list(&f.params), output: copy_toks(&f.output) }
}

/// Whether some string of `v` is `exports`.
fn has_exports(v: &Vec<String>) -> (r: bool)
    ensures
        r == is_exported(strs_view(v@)),
{
    let exports = String::from_str("exports");
    let ghost sv = strs_view(v@);
    let mut i: usize = 0;
    while i < v.len()
        invariant
            i <= v.len(),
            sv == strs_view(v@),
            exports@ == "exports"@,
            forall|j: int| 0 <= j < i ==> sv[j] != "exports"@,
        decreases v.len() - i,
    {
        if v[i] == exports {
            assert(sv[i as int] == "exports"@);
            return true;
        }
        i = i + 1;
    }
    false
}

impl Collector {
    pub open spec fn state(&self) -> CollectorState {
        CollectorState {
            namespace: opt_view(self.namespace),
            package: opt_view(self.package),
            exports_root: opt_view(self.exports_root),
            parents: strs_view(self.parents@),
            paths: table_view(self.struct_paths@),
            imports: imports_view(self.import_fns@),
        }
    }

    /// Both tables have each name at most once.
    pub open spec fn wf(&self) -> bool {
        &&& keys_unique(self.state().paths)
        &&& keys_unique(self.state().imports)
    }

    /// An empty walk at the top of the tree.
    pub fn new(log: DebugLog) -> (r: Collector)
        ensures
            r.wf(),
            r.log == log,
            r.state() == (CollectorState {
                namespace: None,
                package: None,
                exports_root: None,
                parents: Seq::empty(),
                paths: Seq::empty(),
                imports: Seq::empty(),
            }),
    {
        let r = Collector {
            namespace: None,
            package: None,
            exports_root: None,
            parents: Vec::new(),
            struct_paths: Vec::new(),
            import_fns: Vec::new(),
            log,
        };
        assert(r.state().parents =~= Seq::empty());
        assert(r.state().paths =~= Seq::empty());
        assert(r.state().imports =~= Seq::empty());
        r
    }

    /// Takes on the roles of module `name` at the current position.
    fn enter_module(&mut self, name: &String)
        ensures
            final(self).state() == enter_module(old(self).state(), name@),
            final(self).parents == old(self).parents,
            final(self).struct_paths == old(self).struct_paths,
            final(self).import_fns == old(self).import_fns,
            final(self).log == old(self).log,
            old(self).namespace is Some ==> final(self).namespace == old(self).namespace,
            old(self).package is Some ==> final(self).package == old(self).package,
    {
        let d = self.parents.len();
        let exports = String::from_str("exports");
        let exported = has_exports(&self.parents);
        let at_ns_child = match &self.namespace {
            Some(ns) => d == 1 && self.parents[0] == *ns,
            None => false,
        };
        let under_exports = d == 1 && self.parents[0] == exports;
        if d == 0 && *name != exports && self.namespace.is_none() {
            self.namespace = Some(name.clone());
        }
        if d == 1 && at_ns_child && !exported && self.package.is_none() {
            self.package = Some(name.clone());
        }
        if under_exports && self.exports_root.is_none() {
            self.exports_root = Some(name.clone());
        }
    }

    /// Whether functions met now are import candidates.
    fn in_import_context(&self) -> (r: bool)
        ensures
            r == is_import_context(self.state()),
    {
        let d = self.parents.len();
        match &self.package {
            Some(pkg) => d >= 2 && !has_exports(&self.parents) && self.parents[d - 2] == *pkg,
            None => false,
        }
    }

    /// Appends `f` to the functions of interface `iface`.
    fn append_import(&mut self, iface: String, f: FnDecl)
        requires
            keys_unique(old(self).state().imports),
        ensures
            keys_unique(final(self).state().imports),
            final(self).state() == (CollectorState {
                imports: append_fn(old(self).state().imports, iface@, fn_view(f)),
                ..old(self).state()
            }),
            final(self).parents == old(self).parents,
            final(self).log == old(self).log,
            final(self).namespace == old(self).namespace,
            final(self).package == old(self).package,
    {
        let ghost t = imports_view(self.import_fns@);
        let ghost fv = fn_view(f);
        let mut i: usize = 0;
        while i < self.import_fns.len()
            invariant
                i <= self.import_fns.len(),
                t == imports_view(self.import_fns@),
                *self == *old(self),
                fv == fn_view(f),
                keys_unique(t),
                forall|j: int| 0 <= j < i ==> t[j].0 != iface@,
            decreases self.import_fns.len() - i,
        {
            if self.import_fns[i].iface == iface {
                assert(t[i as int].0 == iface@);
                assert(has_name(t, iface@));
                assert(t[index_of(t, iface@)].0 == iface@);
                let mut g = self.import_fns.remove(i);
                let ghost g0 = g;
                g.fns.push(f);
                assert(g.fns@ == g0.fns@.push(f));
                assert(fns_view(g.fns@).len() == fns_view(g0.fns@).push(fv).len());
                assert forall|k: int| 0 <= k < g.fns@.len() implies fns_view(g.fns@)[k] == fns_view(
                    g0.fns@,
                ).push(fv)[k] by {
                    if k < g0.fns@.len() {
                        assert(g.fns@[k] == g0.fns@[k]);
                    } else {
                        assert(g.fns@[k] == f);
                        assert(fns_view(g.fns@)[k] == fn_view(f));
                        assert(fn_view(f) == fv);
                        assert(fns_view(g0.fns@).push(fv)[k] == fv);
                    }
                }
                assert(fns_view(g.fns@) =~= fns_view(g0.fns@).push(fv));
                self.import_fns.insert(i, g);
                assert(imports_view(self.import_fns@) =~= append_fn(t, iface@, fv));
                return;
            }
            i = i + 1;
        }
        assert(!has_name(t, iface@));
        let g = ImportGroup { iface, fns: vec![f] };
        assert(fns_view(g.fns@) =~= seq![fv]);
        self.import_fns.push(g);
        assert(imports_view(self.import_fns@) =~= append_fn(t, g.iface@, fv));
    }

    /// Visits one item: a module takes its roles and is walked with itself
    /// on the ancestor stack; a function in an interface module is collected
    /// under that module's name; a structure gets the serialization derives
    /// and its qualified path is recorded. The item comes back augmented.
    pub fn visit_item(&mut self, item: Item) -> (r: Item)
        requires
            old(self).wf(),
        ensures
            final(self).wf(),
            final(self).state() == walk_item(old(self).state(), item),
            final(self).parents@ == old(self).parents@,
            final(self).log.enabled == old(self).log.enabled,
            old(self).namespace is Some ==> final(self).namespace == old(self).namespace,
            old(self).package is Some ==> final(self).package == old(self).package,
            augmented(item, r),
        decreases item,
    {
        let ghost item0 = item;
        let ghost s0 = self.state();
        match item {
            Item::Module(m) => {
                debug_print(&mut self.log, String::from_str("module ").concat(m.name.as_str()));
                self.enter_module(&m.name);
                let Module { name, content } = m;
                match content {
                    None => Item::Module(Module { name, content: None }),
                    Some(v) => {
                        let ghost s1 = self.state();
                        let ghost parents0 = self.parents;
                        self.parents.push(name.clone());
                        assert(self.state() == (CollectorState { parents: s1.parents.push(name@), ..s1 })) by {
                            assert(strs_view(self.parents@) =~= s1.parents.push(name@));
                        }
                        proof {
                            assert(decreases_to!(item0 => item0->Module_0));
                            assert(decreases_to!(item0->Module_0 => item0->Module_0.content));
                            assert(decreases_to!(item0->Module_0.content => item0->Module_0.content->Some_0));
                        }
                        let out = self.visit_items(v);
                        self.parents.pop();
                        assert(self.parents@ =~= parents0@);
                        Item::Module(Module { name, content: Some(out) })
                    },
                }
            },
            Item::Function(f) => {
                debug_print(&mut self.log, String::from_str("fn ").concat(f.name.as_str()));
                if self.in_import_context() {
                    let iface = self.parents[self.parents.len() - 1].clone();
                    self.append_import(iface, copy_fn(&f));
                }
                Item::Function(f)
            },
            Item::Struct(d) => {
                debug_print(&mut self.log, String::from_str("struct ").concat(d.name.as_str()));
                let StructDecl { name, derives } = d;
                let derives = augment_derives(derives);
                let mut path = copy_strings(&self.parents);
                path.push(name.clone());
                assert(strs_view(path@) =~= s0.parents.push(name@));
                insert_path(&mut self.struct_paths, name.clone(), path);
                Item::Struct(StructDecl { name, derives })
            },
            Item::Other => Item::Other,
        }
    }

    /// Visits the items of one module (or of the whole tree) in order.
    pub fn visit_items(&mut self, items: Vec<Item>) -> (r: Vec<Item>)
        requires
            old(self).wf(),
        ensures
            final(self).wf(),
            final(self).state() == walk_items(old(self).state(), items@),
            final(self).parents@ == old(self).parents@,
            final(self).log.enabled == old(self).log.enabled,
            old(self).namespace is Some ==> final(self).namespace == old(self).namespace,
            old(self).package is Some ==> final(self).package == old(self).package,
            augmented_all(items@, r@),
        decreases items,
    {
        let ghost items0 = items;
        let ghost s0 = self.state();
        let n = items.len();
        let mut rest = items;
        let mut out: Vec<Item> = Vec::new();
        let mut i: usize = 0;
        while i < n
            invariant
                i <= n,
                n == items0@.len(),
                items == items0,
                rest@ == items0@.subrange(i as int, n as int),
                out@.len() == i,
                forall|j: int| 0 <= j < i ==> augmented(#[trigger] items0@[j], out@[j]),
                self.wf(),
                self.state() == walk_items(s0, items0@.subrange(0, i as int)),
                self.parents@ == old(self).parents@,
                self.log.enabled == old(self).log.enabled,
                old(self).namespace is Some ==> self.namespace == old(self).namespace,
                old(self).package is Some ==> self.package == old(self).package,
            decreases n - i,
        {
            let x = rest.remove(0);
            assert(x == items0@[i as int]);
            proof {
                assert(decreases_to!(items0 => items0[i as int]));
            }
            let y = self.visit_item(x);
            out.push(y);
            proof {
                let pre = items0@.subrange(0, i as int + 1);
                assert(pre.subrange(0, pre.len() - 1) =~= items0@.subrange(0, i as int));
                assert(pre[pre.len() - 1] == x);
            }
            i = i + 1;
        }
        assert(items0@.subrange(0, n as int) =~= items0@);
        assert(augmented_all(items0@, out@));
        out
    }
}

} // verus!
