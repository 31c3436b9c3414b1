use vstd::prelude::*;
use vstd::string::{StrSliceExecFns, StringExecFns};

use crate::models::User;

verus! {

/// The character of the decimal digit `d`.
pub open spec fn digit_char(d: nat) -> char
    recommends
        d < 10,
{
    seq!['0', '1', '2', '3', '4', '5', '6', '7', '8', '9'][d as int]
}

/// Decimal digits of `n`, most significant first, without leading zeros.
pub open spec fn decimal_text(n: nat) -> Seq<char>
    decreases n,
{
    if n < 10 {
        seq![digit_char(n)]
    } else {
        decimal_text(n / 10) + seq![digit_char(n % 10)]
    }
}

/// Decimal text of an integer, with a leading `-` when it is negative.
pub open spec fn signed_decimal_text(n: int) -> Seq<char> {
    if n < 0 {
        seq!['-'] + decimal_text((-n) as nat)
    } else {
        decimal_text(n as nat)
    }
}

fn digit_text(d: u32) -> (r: &'static str)
    requires
        d < 10,
    ensures
        r@ == seq![digit_char(d as nat)],
{
    let digits = "0123456789";
    proof {
        reveal_strlit("0123456789");
        assert(vstd::utf8::is_ascii_chars(digits@));
    }
    let r = digits.substring_ascii(d as usize, d as usize + 1);
    assert(r@ =~= seq![digit_char(d as nat)]);
    r
}

fn unsigned_text(n: u32) -> (r: String)
    ensures
        r@ == decimal_text(n as nat),
    decreases n,
{
    if n < 10 {
        String::from_str(digit_text(n))
    } else {
        let mut r = unsigned_text(n / 10);
        r.append(digit_text(n % 10));
        r
    }
}

/// Writes `n` in decimal, as JSON writes an integer.
pub fn integer_text(n: i32) -> (r: String)
    ensures
        r@ == signed_decimal_text(n as int),
{
    if n < 0 {
        let mut r = String::from_str("-");
        let magnitude = (-(n as i64)) as u32;
        let digits = unsigned_text(magnitude);
        r.append(digits.as_str());
        proof {
            reveal_strlit("-");
        }
        r
    } else {
        unsigned_text(n as u32)
    }
}

/// What serde_json writes for a string value: the text in double quotes,
/// with quotes, backslashes and control characters escaped.
pub uninterp spec fn json_string_of(s: Seq<char>) -> Seq<char>;

/// Text that JSON writes unchanged between its quotes: no double quote, no
/// backslash and no control character below U+0020.
pub open spec fn needs_no_escape(s: Seq<char>) -> bool {
    forall|i: int|
        0 <= i < s.len() ==> #[trigger] s[i] != '"' && s[i] != '\\' && (s[i] as u32) >= 0x20
}

/// The JSON string literal of `s`: plain text between double quotes, or what
/// serde_json writes when something has to be escaped.
pub open spec fn json_text(s: Seq<char>) -> Seq<char> {
    if needs_no_escape(s) {
        seq!['"'] + s + seq!['"']
    } else {
        json_string_of(s)
    }
}

/// Relies on serde_json::to_string on a string slice: it writes the JSON
/// string literal of the text, escaping only `"`, `\\` and characters below
/// U+0020. Serializing a `str` into memory cannot fail.
#[verifier::external_body]
fn json_quote(s: &str) -> (r: String)
    ensures
        r@ == json_string_of(s@),
        needs_no_escape(s@) ==> r@ == seq!['"'] + s@ + seq!['"'],
{
    serde_json::to_string(s).unwrap()
}

/// The JSON object of a user: its fields in declaration order, compact.
pub open spec fn user_json_text(id: int, name: Seq<char>, email: Seq<char>) -> Seq<char> {
    "{\"id\":"@ + signed_decimal_text(id) + ",\"name\":"@ + json_text(name)
        + ",\"email\":"@ + json_text(email) + "}"@
}

/// Encodes a user as a compact JSON object with the keys `id`, `name` and
/// `email`, in that order.
pub fn user_json(user: &User) -> (r: String)
    ensures
        r@ == user_json_text(user.id as int, user.name@, user.email@),
{
    let mut r = String::from_str("{\"id\":");
    let id = integer_text(user.id);
    r.append(id.as_str());
    r.append(",\"name\":");
    let name = json_quote(user.name.as_str());
    r.append(name.as_str());
    r.append(",\"email\":");
    let email = json_quote(user.email.as_str());
    r.append(email.as_str());
    r.append("}");
    r
}

} // verus!
