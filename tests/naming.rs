use wasmcloud_provider_macros::naming::{
    record_name, record_name_from_camel, upper_camel_case, wire_method_name,
    wire_method_name_from_camel,
};

#[test]
fn wire_name_of_greet() {
    assert_eq!(wire_method_name("greet"), "Message.Greet");
}

#[test]
fn wire_name_of_snake_case_function() {
    assert_eq!(wire_method_name("request_multi"), "Message.RequestMulti");
}

#[test]
fn record_name_of_greet() {
    assert_eq!(record_name("example", "greeter", "greet"), "ExampleGreeterGreetInvocation");
}

#[test]
fn record_name_of_kebab_and_snake_parts() {
    assert_eq!(
        record_name("messaging", "consumer", "request_multi"),
        "MessagingConsumerRequestMultiInvocation"
    );
}

#[test]
fn upper_camel_of_empty_is_empty() {
    assert_eq!(upper_camel_case(""), "");
}

#[test]
fn upper_camel_changes_its_input() {
    assert_eq!(upper_camel_case("key_value"), "KeyValue");
}

#[test]
fn wire_name_from_camel_form() {
    assert_eq!(wire_method_name_from_camel("HandleMessage"), "Message.HandleMessage");
}

#[test]
fn record_name_from_camel_forms() {
    assert_eq!(record_name_from_camel("Example", "Greeter", "Greet"), "ExampleGreeterGreetInvocation");
}
