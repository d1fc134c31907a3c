//! Deterministic names for the generated wire methods and invocation records.
use heck::ToUpperCamelCase;
use vstd::prelude::*;

verus! {

/// What heck's upper-camel-case conversion makes of a text.
pub uninterp spec fn upper_camel_of(s: Seq<char>) -> Seq<char>;

/// Relies on heck's `ToUpperCamelCase::to_upper_camel_case` for `str`: the
/// result depends on the characters of `s` alone, and an empty text has no
/// words, so it gives an empty result.
#[verifier::external_body]
fn upper_camel(s: &str) -> (r: String)
    ensures
        r@ == upper_camel_of(s@),
        s@.len() == 0 ==> r@.len() == 0,
{
    s.to_upper_camel_case()
}

/// The wire method name of a function named `func`.
pub open spec fn wire_method_name_spec(func: Seq<char>) -> Seq<char> {
    "Message."@ + upper_camel_of(func)
}

/// The invocation record name of function `func` of interface `iface` of package `pkg`.
pub open spec fn record_name_spec(pkg: Seq<char>, iface: Seq<char>, func: Seq<char>) -> Seq<char> {
    upper_camel_of(pkg) + upper_camel_of(iface) + upper_camel_of(func) + "Invocation"@
}

/// Upper camel case of `s`, as used for generated type and trait names.
pub fn upper_camel_case(s: &str) -> (r: String)
    ensures
        r@ == upper_camel_of(s@),
{
    upper_camel(s)
}

/// The wire method name, given the upper-camel form of the function name.
pub fn wire_method_name_from_camel(func_camel: &str) -> (r: String)
    ensures
        r@ == "Message."@ + func_camel@,
{
    String::from_str("Message.").concat(func_camel)
}

/// The record name, given the upper-camel forms of package, interface and function.
pub fn record_name_from_camel(pkg_camel: &str, iface_camel: &str, func_camel: &str) -> (r: String)
    ensures
        r@ == pkg_camel@ + iface_camel@ + func_camel@ + "Invocation"@,
{
    String::from_str(pkg_camel).concat(iface_camel).concat(func_camel).concat("Invocation")
}

/// `Message.` followed by the upper camel case of the function name.
pub fn wire_method_name(func: &str) -> (r: String)
    ensures
        r@ == wire_method_name_spec(func@),
{
    let camel = upper_camel(func);
    wire_method_name_from_camel(camel.as_str())
}

/// Upper camel case of package, interface and function, then `Invocation`.
pub fn record_name(pkg: &str, iface: &str, func: &str) -> (r: String)
    ensures
        r@ == record_name_spec(pkg@, iface@, func@),
{
    let p = upper_camel(pkg);
    let i = upper_camel(iface);
    let f = upper_camel(func);
    record_name_from_camel(p.as_str(), i.as_str(), f.as_str())
}

} // verus!
