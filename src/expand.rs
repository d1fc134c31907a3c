//! One whole generation: the input split, the walk, and the plan.
use crate::collector::{Collector, CollectorState, FnV, augmented_all, walk_items};
use crate::debug::DebugLog;
use crate::dispatch::{
    ArmV, DispatchArm, InterfaceMethods, InterfaceV, all_methods, arm_of, arms_spec, arms_view,
    build_lattice_methods, dispatch_arms, in_all_methods, in_some_interface, interface_spec,
    interfaces_spec, interfaces_view, lemma_all_methods_members, method_spec, MethodV,
};
use crate::naming::wire_method_name_spec;
use crate::tokens::{Tok, is_punct};
use crate::tree::Item;
use vstd::prelude::*;

verus! {

/// Why the invocation arguments were refused.
#[derive(Debug, PartialEq, Eq)]
pub enum InputError {
    /// Fewer than three tokens.
    TooFewTokens,
    /// The first two tokens are not `<identifier> ,`.
    MissingTarget,
}

impl InputError {
    /// The diagnostic, naming the expected shape of the arguments.
    pub fn describe(&self) -> (r: String)
        ensures
            *self is TooFewTokens ==> r@ == "invalid token length, expected: <target type name>, <binding generator arguments...>"@,
            *self is MissingTarget ==> r@ == "missing/invalid arguments, expected: <target type name>, <binding generator arguments...>"@,
    {
        match self {
            InputError::TooFewTokens => String::from_str(
                "invalid token length, expected: <target type name>, <binding generator arguments...>",
            ),
            InputError::MissingTarget => String::from_str(
                "missing/invalid arguments, expected: <target type name>, <binding generator arguments...>",
            ),
        }
    }
}

/// The first two tokens are an identifier and a comma.
pub open spec fn names_target(t: Seq<crate::tokens::TokV>) -> bool {
    t.len() >= 2 && t[0] is Ident && is_punct(t[1], ',')
}

/// Splits the invocation arguments: the target type's name comes first,
/// then a comma, then the binding generator's arguments (from the third
/// token on, at least one of them).
pub fn parse_invocation(tokens: &Vec<Tok>) -> (r: Result<String, InputError>)
    ensures
        tokens@.len() < 3 <==> (r is Err && r->Err_0 is TooFewTokens),
        (tokens@.len() >= 3 && !names_target(crate::tokens::toks_view(tokens@))) <==> (r is Err
            && r->Err_0 is MissingTarget),
        r is Ok ==> tokens@.len() >= 3 && names_target(crate::tokens::toks_view(tokens@)) && r->Ok_0@
            == tokens@[0]@->Ident_0,
{
    if tokens.len() < 3 {
        return Err(InputError::TooFewTokens);
    }
    let comma = crate::tokens::punct_is(&tokens[1], ',');
    match &tokens[0] {
        Tok::Ident(name) => {
            if comma {
                Ok(name.clone())
            } else {
                Err(InputError::MissingTarget)
            }
        },
        _ => Err(InputError::MissingTarget),
    }
}

/// Why a binding tree cannot be generated from.
#[derive(Debug, PartialEq, Eq)]
pub enum GenerateError {
    /// No namespace module at the top of the tree.
    MissingNamespace,
    /// No package module directly under the namespace.
    MissingPackage,
}

/// Everything the generated declarations are made from.
#[derive(Debug, PartialEq, Eq)]
pub struct Generation {
    pub target: String,
    pub namespace: String,
    pub package: String,
    pub interfaces: Vec<InterfaceMethods>,
    pub arms: Vec<DispatchArm>,
}

pub struct GenerationV {
    pub target: Seq<char>,
    pub namespace: Seq<char>,
    pub package: Seq<char>,
    pub interfaces: Seq<InterfaceV>,
    pub arms: Seq<ArmV>,
}

pub open spec fn generation_view(g: Generation) -> GenerationV {
    GenerationV {
        target: g.target@,
        namespace: g.namespace@,
        package: g.package@,
        interfaces: interfaces_view(g.interfaces@),
        arms: arms_view(g.arms@),
    }
}

/// The augmented tree, the plan, and the trace of one generation.
#[derive(Debug, PartialEq, Eq)]
pub struct Expansion {
    pub items: Vec<Item>,
    pub generation: Generation,
    pub log: DebugLog,
}

pub open spec fn initial_state() -> CollectorState {
    CollectorState {
        namespace: None,
        package: None,
        exports_root: None,
        parents: Seq::empty(),
        paths: Seq::empty(),
        imports: Seq::empty(),
    }
}

/// What the walk finds in the whole tree.
pub open spec fn classified(items: Seq<Item>) -> CollectorState {
    walk_items(initial_state(), items)
}

/// The plan for target `target` over a tree whose walk ended in `s`.
pub open spec fn plan_spec(target: Seq<char>, s: CollectorState) -> GenerationV {
    let ifaces = interfaces_spec(s.package->Some_0, s.imports, s.paths);
    GenerationV {
        target,
        namespace: s.namespace->Some_0,
        package: s.package->Some_0,
        interfaces: ifaces,
        arms: arms_spec(ifaces),
    }
}

/// The plan of a generation, or `None` where it fails.
pub open spec fn expansion_spec(target: Seq<char>, items: Seq<Item>) -> Option<GenerationV> {
    let s = classified(items);
    if s.namespace is Some && s.package is Some {
        Some(plan_spec(target, s))
    } else {
        None
    }
}

/// Walks the binding tree once and plans the declarations for `target`.
/// Fails when the walk found no namespace, or no package under it.
pub fn expand(target: String, items: Vec<Item>, log: DebugLog) -> (r: Result<Expansion, GenerateError>)
    ensures
        match r {
            Ok(e) => {
                &&& expansion_spec(target@, items@) == Some(generation_view(e.generation))
                &&& augmented_all(items@, e.items@)
                &&& e.log.enabled == log.enabled
            },
            Err(GenerateError::MissingNamespace) => classified(items@).namespace is None,
            Err(GenerateError::MissingPackage) => {
                &&& classified(items@).namespace is Some
                &&& classified(items@).package is None
            },
        },
{
    let ghost items0 = items;
    let mut c = Collector::new(log);
    let out = c.visit_items(items);
    let Collector { namespace, package, struct_paths, import_fns, log, .. } = c;
    let namespace = match namespace {
        Some(n) => n,
        None => return Err(GenerateError::MissingNamespace),
    };
    let package = match package {
        Some(p) => p,
        None => return Err(GenerateError::MissingPackage),
    };
    let interfaces = build_lattice_methods(&package, &struct_paths, &import_fns);
    let arms = dispatch_arms(&interfaces);
    let generation = Generation { target, namespace, package, interfaces, arms };
    assert(generation_view(generation) == plan_spec(target@, classified(items0@)));
    Ok(Expansion { items: out, generation, log })
}

/// The dispatch routine has an arm named `w`.
pub open spec fn has_method_arm(arms: Seq<ArmV>, w: Seq<char>) -> bool {
    exists|x: int| 0 <= x < arms.len() && arms[x] is Method && arms[x]->wire_name == w
}

/// `w` is the wire method name of some collected function.
pub open spec fn is_collected_wire_name(imports: Seq<(Seq<char>, Seq<FnV>)>, w: Seq<char>) -> bool {
    exists|k: int, j: int|
        0 <= k < imports.len() && 0 <= j < imports[k].1.len() && wire_method_name_spec(imports[k].1[j].name) == w
}

/// Generating twice from the same target and tree gives the same plan:
/// names, records, traits and arms, all in the same order.
pub proof fn lemma_deterministic(target: Seq<char>, items: Seq<Item>, first: GenerationV, second: GenerationV)
    requires
        expansion_spec(target, items) == Some(first),
        expansion_spec(target, items) == Some(second),
    ensures
        first == second,
{
}

/// Every generated method of function `f` of interface `i` of package `p`
/// has wire name `Message.` + upper-camel(`f`) and record name
/// upper-camel(`p`) + upper-camel(`i`) + upper-camel(`f`) + `Invocation`.
pub proof fn lemma_generated_names(target: Seq<char>, items: Seq<Item>, k: int, j: int)
    requires
        expansion_spec(target, items) is Some,
        0 <= k < classified(items).imports.len(),
        0 <= j < classified(items).imports[k].1.len(),
    ensures
        ({
            let g = expansion_spec(target, items)->Some_0;
            let s = classified(items);
            let f = s.imports[k].1[j].name;
            &&& g.interfaces[k].iface == s.imports[k].0
            &&& g.interfaces[k].methods[j].func_name == f
            &&& g.interfaces[k].methods[j].wire_name == "Message."@ + crate::naming::upper_camel_of(f)
            &&& g.interfaces[k].methods[j].record_name == crate::naming::upper_camel_of(g.package)
                + crate::naming::upper_camel_of(s.imports[k].0) + crate::naming::upper_camel_of(f)
                + "Invocation"@
        }),
{
}

/// The dispatch routine's arms cover exactly the wire method names of the
/// collected functions, and there is exactly one fallback arm, the last.
pub proof fn lemma_dispatch_exhaustive(target: Seq<char>, items: Seq<Item>)
    requires
        expansion_spec(target, items) is Some,
    ensures
        ({
            let g = expansion_spec(target, items)->Some_0;
            &&& g.arms.len() > 0
            &&& g.arms.last() is Fallback
            &&& forall|x: int| 0 <= x < g.arms.len() - 1 ==> #[trigger] g.arms[x] is Method
            &&& forall|w: Seq<char>|
                has_method_arm(g.arms, w) <==> is_collected_wire_name(classified(items).imports, w)
        }),
{
    let g = expansion_spec(target, items)->Some_0;
    let s = classified(items);
    let ifaces = g.interfaces;
    let all = all_methods(ifaces);
    lemma_all_methods_members(ifaces);
    assert(g.arms == all.map_values(|m: MethodV| arm_of(m)).push(ArmV::Fallback));
    assert forall|x: int| 0 <= x < g.arms.len() - 1 implies #[trigger] g.arms[x] is Method by {
        assert(g.arms[x] == arm_of(all[x]));
    }
    assert forall|w: Seq<char>| has_method_arm(g.arms, w) implies is_collected_wire_name(s.imports, w) by {
        let x = choose|x: int| 0 <= x < g.arms.len() && g.arms[x] is Method && g.arms[x]->wire_name == w;
        assert(x < g.arms.len() - 1);
        assert(g.arms[x] == arm_of(all[x]));
        assert(in_some_interface(ifaces, all[x]));
        let (k, j) = choose|k: int, j: int|
            0 <= k < ifaces.len() && 0 <= j < ifaces[k].methods.len() && ifaces[k].methods[j] == all[x];
        assert(ifaces[k] == interface_spec(g.package, s.imports[k], s.paths));
        assert(ifaces[k].methods[j] == method_spec(g.package, s.imports[k].0, s.imports[k].1[j], s.paths));
    }
    assert forall|w: Seq<char>| is_collected_wire_name(s.imports, w) implies has_method_arm(g.arms, w) by {
        let (k, j) = choose|k: int, j: int|
            0 <= k < s.imports.len() && 0 <= j < s.imports[k].1.len() && wire_method_name_spec(s.imports[k].1[j].name) == w;
        assert(ifaces[k] == interface_spec(g.package, s.imports[k], s.paths));
        assert(ifaces[k].methods[j] == method_spec(g.package, s.imports[k].0, s.imports[k].1[j], s.paths));
        assert(in_all_methods(ifaces, ifaces[k].methods[j]));
        let x = choose|x: int| 0 <= x < all.len() && all[x] == ifaces[k].methods[j];
        assert(g.arms[x] == arm_of(all[x]));
    }
}

} // verus!
