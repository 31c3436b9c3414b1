use vstd::prelude::*;
use vstd::string::StringExecFns;
use vstd::utf8::{decode_utf8, valid_utf8};

verus! {

/// Text that stands in for a caller-supplied name that could not be decoded.
pub const PLACEHOLDER: &'static str = "\u{FFFD}";

/// The greeting for `name`: `Hello, <name> from Rust!`.
pub open spec fn greeting_text(name: Seq<char>) -> Seq<char> {
    "Hello, "@ + name + " from Rust!"@
}

/// `needle` occurs in `hay` as a contiguous run.
pub open spec fn contains_run(hay: Seq<char>, needle: Seq<char>) -> bool {
    exists|i: int|
        0 <= i && i + needle.len() <= hay.len() && #[trigger] hay.subrange(i, i + needle.len())
            == needle
}

/// Builds the greeting for a name that was read successfully.
pub fn greet(name: &str) -> (r: String)
    ensures
        r@ == greeting_text(name@),
{
    let mut r = String::from_str("Hello, ");
    r.append(name);
    r.append(" from Rust!");
    r
}

/// Every greeting holds the name it was built for, verbatim.
pub proof fn greeting_contains_name(name: Seq<char>)
    ensures
        contains_run(greeting_text(name), name),
{
    reveal_strlit("Hello, ");
    let g = greeting_text(name);
    assert(g.subrange(7, 7 + name.len() as int) =~= name);
}

/// The greeting for raw input bytes: the decoded name when the bytes are
/// valid UTF-8, else the placeholder.
pub open spec fn greeting_of_bytes(bytes: Seq<u8>) -> Seq<char> {
    if valid_utf8(bytes) {
        greeting_text(decode_utf8(bytes))
    } else {
        greeting_text(PLACEHOLDER@)
    }
}

/// Relies on std::str::from_utf8: it succeeds exactly on valid UTF-8, and the
/// text it gives back is the decoding of the bytes.
#[verifier::external_body]
fn decode_text(bytes: &[u8]) -> (r: Option<&str>)
    ensures
        r is Some <==> valid_utf8(bytes@),
        r matches Some(t) ==> t@ == decode_utf8(bytes@),
{
    std::str::from_utf8(bytes).ok()
}

/// Builds the greeting for a name that may have failed to decode (`None`);
/// such a name is replaced by the placeholder.
pub fn greeting_for(name: Option<&str>) -> (r: String)
    ensures
        r@ == greeting_text(
            match name {
                Some(t) => t@,
                None => PLACEHOLDER@,
            },
        ),
{
    match name {
        Some(t) => greet(t),
        None => greet(PLACEHOLDER),
    }
}

/// Builds the greeting for a name given as raw bytes; bytes that are not
/// valid UTF-8 give the greeting of the placeholder.
pub fn greet_utf8(bytes: &[u8]) -> (r: String)
    ensures
        r@ == greeting_of_bytes(bytes@),
{
    greeting_for(decode_text(bytes))
}

/// Input that cannot be decoded still yields a greeting, and that greeting
/// holds the placeholder.
pub proof fn undecodable_input_greets_placeholder(bytes: Seq<u8>)
    requires
        !valid_utf8(bytes),
    ensures
        greeting_of_bytes(bytes) == greeting_text(PLACEHOLDER@),
        contains_run(greeting_of_bytes(bytes), PLACEHOLDER@),
{
    greeting_contains_name(PLACEHOLDER@);
}

/// Valid input is decoded, and its decoding stands verbatim in the greeting.
pub proof fn decodable_input_greets_name(bytes: Seq<u8>)
    requires
        valid_utf8(bytes),
    ensures
        contains_run(greeting_of_bytes(bytes), decode_utf8(bytes)),
{
    greeting_contains_name(decode_utf8(bytes));
}

} // verus!
