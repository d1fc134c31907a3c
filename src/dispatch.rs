//! Plans the generated declarations: one invocation record, wire name and
//! forwarding call per collected function, one trait per interface, and a
//! single dispatch routine whose arms cover every function.
use crate::collector::{FnV, ImportGroup, fn_view, fns_view, imports_view};
use crate::naming::{record_name, record_name_spec, upper_camel_case, upper_camel_of, wire_method_name, wire_method_name_spec};
use crate::paths::{PathEntry, keys_unique, strs_view, table_view, copy_strings};
use crate::tokens::{Tok, TokV, copy_toks, toks_list_view, toks_view};
use crate::transform::{arg_names, invocation_fields, rewrite_fields};
use vstd::prelude::*;

verus! {

/// Everything generated for one collected function.
#[derive(Debug, PartialEq, Eq)]
pub struct LatticeMethod {
    /// Key of the function in the dispatch routine.
    pub wire_name: String,
    /// Name of the record the payload is read into.
    pub record_name: String,
    /// The record's fields, one per parameter, in order.
    pub fields: Vec<Vec<Tok>>,
    /// The function's own name, called on the target type.
    pub func_name: String,
    /// The record fields passed on, in parameter order.
    pub args: Vec<String>,
    /// The function's return type tokens.
    pub output: Vec<Tok>,
}

pub struct MethodV {
    pub wire_name: Seq<char>,
    pub record_name: Seq<char>,
    pub fields: Seq<Seq<TokV>>,
    pub func_name: Seq<char>,
    pub args: Seq<Seq<char>>,
    pub output: Seq<TokV>,
}

pub open spec fn method_view(m: LatticeMethod) -> MethodV {
    MethodV {
        wire_name: m.wire_name@,
        record_name: m.record_name@,
        fields: toks_list_view(m.fields@),
        func_name: m.func_name@,
        args: strs_view(m.args@),
        output: toks_view(m.output@),
    }
}

/// What is generated for function `f` of interface `iface` of package `pkg`.
pub open spec fn method_spec(
    pkg: Seq<char>,
    iface: Seq<char>,
    f: FnV,
    table: Seq<(Seq<char>, Seq<Seq<char>>)>,
) -> MethodV {
    MethodV {
        wire_name: wire_method_name_spec(f.name),
        record_name: record_name_spec(pkg, iface, f.name),
        fields: rewrite_fields(f.params, table),
        func_name: f.name,
        args: arg_names(f.params),
        output: f.output,
    }
}

/// The methods of one interface, and the name of the trait that declares them.
#[derive(Debug, PartialEq, Eq)]
pub struct InterfaceMethods {
    pub iface: String,
    pub trait_name: String,
    pub methods: Vec<LatticeMethod>,
}

pub struct InterfaceV {
    pub iface: Seq<char>,
    pub trait_name: Seq<char>,
    pub methods: Seq<MethodV>,
}

pub open spec fn methods_view(ms: Seq<LatticeMethod>) -> Seq<MethodV> {
    ms.map_values(|m: LatticeMethod| method_view(m))
}

pub open spec fn interfaces_view(is: Seq<InterfaceMethods>) -> Seq<InterfaceV> {
    is.map_values(
        |i: InterfaceMethods| InterfaceV { iface: i.iface@, trait_name: i.trait_name@, methods: methods_view(i.methods@) },
    )
}

/// One interface's methods, in the order its functions were declared.
pub open spec fn interface_spec(
    pkg: Seq<char>,
    entry: (Seq<char>, Seq<FnV>),
    table: Seq<(Seq<char>, Seq<Seq<char>>)>,
) -> InterfaceV {
    InterfaceV {
        iface: entry.0,
        trait_name: upper_camel_of(entry.0),
        methods: entry.1.map_values(|f: FnV| method_spec(pkg, entry.0, f, table)),
    }
}

/// The interfaces in the order they were found.
pub open spec fn interfaces_spec(
    pkg: Seq<char>,
    imports: Seq<(Seq<char>, Seq<FnV>)>,
    table: Seq<(Seq<char>, Seq<Seq<char>>)>,
) -> Seq<InterfaceV> {
    imports.map_values(|e: (Seq<char>, Seq<FnV>)| interface_spec(pkg, e, table))
}

/// The methods of all interfaces, interface after interface.
pub open spec fn all_methods(ifaces: Seq<InterfaceV>) -> Seq<MethodV>
    decreases ifaces.len(),
{
    if ifaces.len() == 0 {
        Seq::empty()
    } else {
        all_methods(ifaces.drop_last()) + ifaces.last().methods
    }
}

/// Some interface has method `m`.
pub open spec fn in_some_interface(ifaces: Seq<InterfaceV>, m: MethodV) -> bool {
    exists|k: int, j: int| 0 <= k < ifaces.len() && 0 <= j < ifaces[k].methods.len() && ifaces[k].methods[j] == m
}

/// `m` is among the methods of all interfaces together.
pub open spec fn in_all_methods(ifaces: Seq<InterfaceV>, m: MethodV) -> bool {
    exists|x: int| 0 <= x < all_methods(ifaces).len() && all_methods(ifaces)[x] == m
}

/// A method is in `all_methods(ifaces)` exactly when some interface has it.
pub proof fn lemma_all_methods_members(ifaces: Seq<InterfaceV>)
    ensures
        forall|x: int|
            0 <= x < all_methods(ifaces).len() ==> in_some_interface(ifaces, #[trigger] all_methods(ifaces)[x]),
        forall|k: int, j: int|
            0 <= k < ifaces.len() && 0 <= j < ifaces[k].methods.len() ==> in_all_methods(
                ifaces,
                #[trigger] ifaces[k].methods[j],
            ),
    decreases ifaces.len(),
{
    if ifaces.len() > 0 {
        let prev = ifaces.drop_last();
        lemma_all_methods_members(prev);
        let all = all_methods(ifaces);
        let n = all_methods(prev).len();
        let last = ifaces.len() - 1;
        assert(all == all_methods(prev) + ifaces[last].methods);
        assert forall|x: int| 0 <= x < all.len() implies in_some_interface(ifaces, #[trigger] all[x]) by {
            if x < n {
                assert(in_some_interface(prev, all_methods(prev)[x]));
                let (k, j) = choose|k: int, j: int|
                    0 <= k < prev.len() && 0 <= j < prev[k].methods.len() && prev[k].methods[j] == all_methods(prev)[x];
                assert(prev[k] == ifaces[k]);
                assert(all[x] == ifaces[k].methods[j]);
            } else {
                assert(all[x] == ifaces[last].methods[x - n]);
            }
        }
        assert forall|k: int, j: int| 0 <= k < ifaces.len() && 0 <= j < ifaces[k].methods.len() implies in_all_methods(
            ifaces,
            #[trigger] ifaces[k].methods[j],
        ) by {
            if k < last {
                assert(prev[k] == ifaces[k]);
                assert(in_all_methods(prev, prev[k].methods[j]));
                let x = choose|x: int| 0 <= x < all_methods(prev).len() && all_methods(prev)[x] == prev[k].methods[j];
                assert(all[x] == ifaces[k].methods[j]);
            } else {
                assert(all[n + j] == ifaces[k].methods[j]);
            }
        }
    }
}

/// The generated methods of one interface.
pub fn build_interface(pkg: &String, table: &Vec<PathEntry>, group: &ImportGroup) -> (r: InterfaceMethods)
    requires
        keys_unique(table_view(table@)),
    ensures
        (InterfaceV { iface: r.iface@, trait_name: r.trait_name@, methods: methods_view(r.methods@) })
            == interface_spec(pkg@, (group.iface@, fns_view(group.fns@)), table_view(table@)),
{
    let ghost entry = (group.iface@, fns_view(group.fns@));
    let ghost tv = table_view(table@);
    let mut methods: Vec<LatticeMethod> = Vec::new();
    let mut i: usize = 0;
    while i < group.fns.len()
        invariant
            i <= group.fns.len(),
            keys_unique(tv),
            tv == table_view(table@),
            entry == (group.iface@, fns_view(group.fns@)),
            methods@.len() == i,
            forall|j: int| 0 <= j < i ==> method_view(#[trigger] methods@[j]) == method_spec(pkg@, entry.0, entry.1[j], tv),
        decreases group.fns.len() - i,
    {
        let f = &group.fns[i];
        let (fields, args) = invocation_fields(f, table);
        let m = LatticeMethod {
            wire_name: wire_method_name(f.name.as_str()),
            record_name: record_name(pkg.as_str(), group.iface.as_str(), f.name.as_str()),
            fields,
            func_name: f.name.clone(),
            args,
            output: copy_toks(&f.output),
        };
        assert(entry.1[i as int] == fn_view(*f));
        methods.push(m);
        i = i + 1;
    }
    let r = InterfaceMethods {
        iface: group.iface.clone(),
        trait_name: upper_camel_case(group.iface.as_str()),
        methods,
    };
    assert(methods_view(r.methods@) =~= entry.1.map_values(|f: FnV| method_spec(pkg@, entry.0, f, tv)));
    r
}

/// The generated methods of every collected interface, in discovery order.
pub fn build_lattice_methods(pkg: &String, table: &Vec<PathEntry>, imports: &Vec<ImportGroup>) -> (r: Vec<InterfaceMethods>)
    requires
        keys_unique(table_view(table@)),
    ensures
        interfaces_view(r@) == interfaces_spec(pkg@, imports_view(imports@), table_view(table@)),
{
    let ghost iv = imports_view(imports@);
    let ghost tv = table_view(table@);
    let mut r: Vec<InterfaceMethods> = Vec::new();
    let mut i: usize = 0;
    while i < imports.len()
        invariant
            i <= imports.len(),
            keys_unique(tv),
            tv == table_view(table@),
            iv == imports_view(imports@),
            r@.len() == i,
            forall|j: int| 0 <= j < i ==> interfaces_view(r@)[j] == interface_spec(pkg@, iv[j], tv),
        decreases imports.len() - i,
    {
        let g = build_interface(pkg, table, &imports[i]);
        let ghost before = r@;
        r.push(g);
        proof {
            assert forall|j: int| 0 <= j < i + 1 implies interfaces_view(r@)[j] == interface_spec(pkg@, iv[j], tv) by {
                if j < i {
                    assert(r@[j] == before[j]);
                    assert(interfaces_view(before)[j] == interface_spec(pkg@, iv[j], tv));
                }
            }
        }
        i = i + 1;
    }
    assert(interfaces_view(r@) =~= interfaces_spec(pkg@, iv, tv));
    r
}

/// One arm of the dispatch routine's match on the method name.
#[derive(Debug, PartialEq, Eq)]
pub enum DispatchArm {
    /// Reads the payload into `record_name`, calls `func_name` on the target
    /// with the record's `args` in order, and returns the serialized result.
    Method { wire_name: String, record_name: String, func_name: String, args: Vec<String> },
    /// Any other name: a malformed-request error that carries it.
    Fallback,
}

pub enum ArmV {
    Method { wire_name: Seq<char>, record_name: Seq<char>, func_name: Seq<char>, args: Seq<Seq<char>> },
    Fallback,
}

pub open spec fn arm_view(a: DispatchArm) -> ArmV {
    match a {
        DispatchArm::Method { wire_name, record_name, func_name, args } => ArmV::Method {
            wire_name: wire_name@,
            record_name: record_name@,
            func_name: func_name@,
            args: strs_view(args@),
        },
        DispatchArm::Fallback => ArmV::Fallback,
    }
}

pub open spec fn arms_view(s: Seq<DispatchArm>) -> Seq<ArmV> {
    s.map_values(|a: DispatchArm| arm_view(a))
}

pub open spec fn arm_of(m: MethodV) -> ArmV {
    ArmV::Method { wire_name: m.wire_name, record_name: m.record_name, func_name: m.func_name, args: m.args }
}

/// One arm per method of every interface, in order, then the fallback.
pub open spec fn arms_spec(ifaces: Seq<InterfaceV>) -> Seq<ArmV> {
    all_methods(ifaces).map_values(|m: MethodV| arm_of(m)).push(ArmV::Fallback)
}

fn arm_for(m: &LatticeMethod) -> (r: DispatchArm)
    ensures
        arm_view(r) == arm_of(method_view(*m)),
{
    DispatchArm::Method {
        wire_name: m.wire_name.clone(),
        record_name: m.record_name.clone(),
        func_name: m.func_name.clone(),
        args: copy_strings(&m.args),
    }
}

/// The arms of the single dispatch routine for all interfaces together.
pub fn dispatch_arms(ifaces: &Vec<InterfaceMethods>) -> (r: Vec<DispatchArm>)
    ensures
        arms_view(r@) == arms_spec(interfaces_view(ifaces@)),
{
    let ghost iv = interfaces_view(ifaces@);
    let mut r: Vec<DispatchArm> = Vec::new();
    let mut i: usize = 0;
    while i < ifaces.len()
        invariant
            i <= ifaces.len(),
            iv == interfaces_view(ifaces@),
            arms_view(r@) == all_methods(iv.subrange(0, i as int)).map_values(|m: MethodV| arm_of(m)),
        decreases ifaces.len() - i,
    {
        let ms = &ifaces[i].methods;
        let ghost base = r@;
        let ghost done = all_methods(iv.subrange(0, i as int));
        assert(iv[i as int].methods == methods_view(ms@));
        let mut j: usize = 0;
        while j < ms.len()
            invariant
                i < ifaces.len(),
                ms == ifaces@[i as int].methods,
                j <= ms.len(),
                r@.len() == base.len() + j,
                r@.subrange(0, base.len() as int) == base,
                forall|k: int| 0 <= k < j ==> arm_view(#[trigger] r@[base.len() + k]) == arm_of(method_view(ms@[k])),
            decreases ms.len() - j,
        {
            let a = arm_for(&ms[j]);
            r.push(a);
            assert(r@.subrange(0, base.len() as int) =~= base);
            j = j + 1;
        }
        proof {
            let sub = iv.subrange(0, i as int + 1);
            assert(sub.drop_last() =~= iv.subrange(0, i as int));
            assert(sub.last() == iv[i as int]);
            let want = all_methods(sub).map_values(|m: MethodV| arm_of(m));
            assert(all_methods(sub) == done + iv[i as int].methods);
            assert(arms_view(base).len() == done.len());
            assert(want.len() == r@.len());
            assert forall|k: int| 0 <= k < r@.len() implies arms_view(r@)[k] == want[k] by {
                if k < base.len() {
                    assert(r@[k] == r@.subrange(0, base.len() as int)[k]);
                    assert(arms_view(base)[k] == arm_view(base[k]));
                    assert(arms_view(base)[k] == arm_of(done[k]));
                    assert(all_methods(sub)[k] == done[k]);
                } else {
                    let kk = k - base.len();
                    assert(arm_view(r@[base.len() + kk]) == arm_of(method_view(ms@[kk])));
                    assert(all_methods(sub)[k] == iv[i as int].methods[kk]);
                    assert(methods_view(ms@)[kk] == method_view(ms@[kk]));
                }
            }
            assert(arms_view(r@) =~= want);
        }
        i = i + 1;
    }
    let ghost before = r@;
    r.push(DispatchArm::Fallback);
    assert(iv.subrange(0, i as int) =~= iv);
    assert(arms_view(r@) =~= arms_view(before).push(ArmV::Fallback));
    r
}

} // verus!
