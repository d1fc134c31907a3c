use wasmcloud_provider_macros::debug::{debug_print, DebugLog};
use wasmcloud_provider_macros::dispatch::DispatchArm;
use wasmcloud_provider_macros::expand::{expand, parse_invocation, GenerateError, InputError};
use wasmcloud_provider_macros::tokens::Tok;
use wasmcloud_provider_macros::tree::{FnDecl, Item, Module, StructDecl};

fn id(s: &str) -> Tok {
    Tok::Ident(s.to_string())
}

fn p(c: char) -> Tok {
    Tok::Punct(c, false)
}

fn module(name: &str, items: Vec<Item>) -> Item {
    Item::Module(Module { name: name.to_string(), content: Some(items) })
}

fn greet() -> Item {
    Item::Function(FnDecl {
        name: "greet".to_string(),
        params: vec![vec![id("name"), p(':'), p('&'), id("str")]],
        output: vec![p('-'), p('>'), id("Result"), p('<'), id("String"), p(','), id("String"), p('>')],
    })
}

fn message_struct() -> Item {
    Item::Struct(StructDecl { name: "Message".to_string(), derives: vec![vec!["Debug".to_string()]] })
}

fn greeter_tree() -> Vec<Item> {
    vec![
        module(
            "wasmcloud",
            vec![module("example", vec![module("greeter", vec![message_struct(), greet()])])],
        ),
        module(
            "exports",
            vec![module(
                "wasmcloud",
                vec![module("example", vec![module("greeter", vec![greet(), Item::Other])])],
            )],
        ),
    ]
}

#[test]
fn greeter_scenario() {
    let e = match expand("Provider".to_string(), greeter_tree(), DebugLog::new(false)) {
        Ok(e) => e,
        Err(_) => panic!("generation failed"),
    };
    let g = &e.generation;
    assert_eq!(g.target, "Provider");
    assert_eq!(g.namespace, "wasmcloud");
    assert_eq!(g.package, "example");
    assert_eq!(g.interfaces.len(), 1);
    let iface = &g.interfaces[0];
    assert_eq!(iface.iface, "greeter");
    assert_eq!(iface.trait_name, "Greeter");
    assert_eq!(iface.methods.len(), 1);
    let m = &iface.methods[0];
    assert_eq!(m.record_name, "ExampleGreeterGreetInvocation");
    assert_eq!(m.wire_name, "Message.Greet");
    assert_eq!(m.func_name, "greet");
    assert_eq!(m.fields, vec![vec![id("name"), p(':'), id("String")]]);
    assert_eq!(m.args, vec!["name"]);
    assert_eq!(m.output[2], id("Result"));
    assert_eq!(
        g.arms,
        vec![
            DispatchArm::Method {
                wire_name: "Message.Greet".to_string(),
                record_name: "ExampleGreeterGreetInvocation".to_string(),
                func_name: "greet".to_string(),
                args: vec!["name".to_string()],
            },
            DispatchArm::Fallback,
        ]
    );
}

#[test]
fn structures_come_back_augmented() {
    let e = match expand("Provider".to_string(), greeter_tree(), DebugLog::new(false)) {
        Ok(e) => e,
        Err(_) => panic!("generation failed"),
    };
    let ns = match &e.items[0] {
        Item::Module(m) => m,
        _ => panic!("not a module"),
    };
    let pkg = match &ns.content.as_ref().unwrap()[0] {
        Item::Module(m) => m,
        _ => panic!("not a module"),
    };
    let iface = match &pkg.content.as_ref().unwrap()[0] {
        Item::Module(m) => m,
        _ => panic!("not a module"),
    };
    match &iface.content.as_ref().unwrap()[0] {
        Item::Struct(s) => assert_eq!(
            s.derives,
            vec![vec![
                "Debug".to_string(),
                "serde::Serialize".to_string(),
                "serde::Deserialize".to_string()
            ]]
        ),
        _ => panic!("not a structure"),
    }
    assert_eq!(iface.content.as_ref().unwrap()[1], greet());
}

#[test]
fn generating_twice_gives_the_same_plan() {
    let a = expand("Provider".to_string(), greeter_tree(), DebugLog::new(false));
    let b = expand("Provider".to_string(), greeter_tree(), DebugLog::new(false));
    assert_eq!(format!("{:?}", a), format!("{:?}", b));
}

#[test]
fn dispatch_arms_cover_every_interface() {
    let tree = vec![module(
        "wasmcloud",
        vec![module(
            "messaging",
            vec![
                module("consumer", vec![greet(), Item::Function(FnDecl {
                    name: "request_multi".to_string(),
                    params: vec![],
                    output: vec![],
                })]),
                module("handler", vec![Item::Function(FnDecl {
                    name: "handle_message".to_string(),
                    params: vec![vec![id("msg"), p(':'), p('&'), id("Message")]],
                    output: vec![],
                })]),
            ],
        )],
    )];
    let e = match expand("P".to_string(), tree, DebugLog::new(false)) {
        Ok(e) => e,
        Err(_) => panic!("generation failed"),
    };
    let names: Vec<String> = e
        .generation
        .arms
        .iter()
        .map(|a| match a {
            DispatchArm::Method { wire_name, .. } => wire_name.clone(),
            DispatchArm::Fallback => "_".to_string(),
        })
        .collect();
    assert_eq!(names, vec!["Message.Greet", "Message.RequestMulti", "Message.HandleMessage", "_"]);
    assert_eq!(e.generation.interfaces[1].trait_name, "Handler");
    assert_eq!(
        e.generation.interfaces[1].methods[0].record_name,
        "MessagingHandlerHandleMessageInvocation"
    );
}

#[test]
fn functions_outside_interface_modules_are_not_collected() {
    let tree = vec![module(
        "wasmcloud",
        vec![greet(), module("example", vec![greet(), module("greeter", vec![module("deeper", vec![greet()])])])],
    )];
    let e = match expand("P".to_string(), tree, DebugLog::new(false)) {
        Ok(e) => e,
        Err(_) => panic!("generation failed"),
    };
    assert_eq!(e.generation.interfaces.len(), 0);
    assert_eq!(e.generation.arms, vec![DispatchArm::Fallback]);
}

#[test]
fn first_namespace_and_package_win() {
    let tree = vec![
        module("first", vec![module("pkg", vec![]), module("other", vec![])]),
        module("second", vec![]),
    ];
    let e = match expand("P".to_string(), tree, DebugLog::new(false)) {
        Ok(e) => e,
        Err(_) => panic!("generation failed"),
    };
    assert_eq!(e.generation.namespace, "first");
    assert_eq!(e.generation.package, "pkg");
}

#[test]
fn empty_tree_has_no_namespace() {
    let r = expand("P".to_string(), vec![], DebugLog::new(false));
    assert!(matches!(r, Err(GenerateError::MissingNamespace)));
}

#[test]
fn exports_alone_has_no_namespace() {
    let r = expand("P".to_string(), vec![module("exports", vec![module("wasmcloud", vec![])])], DebugLog::new(false));
    assert!(matches!(r, Err(GenerateError::MissingNamespace)));
}

#[test]
fn namespace_without_package() {
    let r = expand("P".to_string(), vec![module("wasmcloud", vec![])], DebugLog::new(false));
    assert!(matches!(r, Err(GenerateError::MissingPackage)));
}

#[test]
fn too_few_tokens_are_refused() {
    let r = parse_invocation(&vec![id("Provider"), p(',')]);
    assert_eq!(r, Err(InputError::TooFewTokens));
    assert!(InputError::TooFewTokens.describe().contains("expected"));
}

#[test]
fn missing_comma_is_refused() {
    let r = parse_invocation(&vec![id("Provider"), p(';'), id("x")]);
    assert_eq!(r, Err(InputError::MissingTarget));
    let r = parse_invocation(&vec![p(','), p(','), id("x")]);
    assert_eq!(r, Err(InputError::MissingTarget));
}

#[test]
fn target_name_is_read() {
    let r = parse_invocation(&vec![id("Provider"), p(','), Tok::Group("{ world: \"x\" }".to_string())]);
    assert_eq!(r, Ok("Provider".to_string()));
}

#[test]
fn trace_is_recorded_only_when_enabled() {
    let mut on = DebugLog::new(true);
    debug_print(&mut on, "a".to_string());
    assert_eq!(on.lines, vec!["a"]);
    let mut off = DebugLog::new(false);
    debug_print(&mut off, "a".to_string());
    assert!(off.lines.is_empty());
    let e = match expand("P".to_string(), greeter_tree(), DebugLog::new(true)) {
        Ok(e) => e,
        Err(_) => panic!("generation failed"),
    };
    assert_eq!(e.log.lines[0], "module wasmcloud");
}
