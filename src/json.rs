//! JSON payloads are held as text; what the adapter reads of them comes from serde_json.
use vstd::prelude::*;
use vstd::string::StringExecFns;

verus! {

/// The compact serialization of the JSON object that `text` denotes, or `None` when
/// `text` is not a JSON object.
pub uninterp spec fn compact_object_of(text: Seq<char>) -> Option<Seq<char>>;

/// The compact text of the member `key` of the JSON object that `json` denotes, or
/// `None` when `json` is not JSON, not an object, or has no such member.
pub uninterp spec fn member_of(json: Seq<char>, key: Seq<char>) -> Option<Seq<char>>;

/// The value of `json` when it is a JSON number that fits a `u64`.
pub uninterp spec fn u64_of(json: Seq<char>) -> Option<u64>;

/// Relies on `serde_json::from_str` into a `serde_json::Map` (which succeeds only on a
/// JSON object) and on `Value`'s `Display`, which writes the compact form.
#[verifier::external_body]
pub(crate) fn compact_object(text: &str) -> (r: Option<String>)
    ensures
        match r {
            Some(c) => compact_object_of(text@) == Some(c@),
            None => compact_object_of(text@) is None,
        },
{
    let map = serde_json::from_str::<serde_json::Map<String, serde_json::Value>>(text).ok()?;
    Some(serde_json::Value::Object(map).to_string())
}

/// Relies on `serde_json::from_str` and `Value::get`: the member named `key`, written
/// back in compact form.
#[verifier::external_body]
pub(crate) fn json_member(json: &str, key: &str) -> (r: Option<String>)
    ensures
        match r {
            Some(m) => member_of(json@, key@) == Some(m@),
            None => member_of(json@, key@) is None,
        },
{
    let value = serde_json::from_str::<serde_json::Value>(json).ok()?;
    value.get(key).map(|member| member.to_string())
}

/// Relies on `serde_json::from_str` and `Value::as_u64`.
#[verifier::external_body]
pub(crate) fn json_u64(json: &str) -> (r: Option<u64>)
    ensures
        r == u64_of(json@),
{
    serde_json::from_str::<serde_json::Value>(json).ok()?.as_u64()
}

/// The decimal digits of `n`, most significant first.
pub open spec fn decimal(n: nat) -> Seq<char>
    decreases n,
{
    if n < 10 {
        seq![digit_char(n)]
    } else {
        decimal(n / 10).push(digit_char(n % 10))
    }
}

pub open spec fn digit_char(d: nat) -> char {
    if d == 0 { '0' }
    else if d == 1 { '1' }
    else if d == 2 { '2' }
    else if d == 3 { '3' }
    else if d == 4 { '4' }
    else if d == 5 { '5' }
    else if d == 6 { '6' }
    else if d == 7 { '7' }
    else if d == 8 { '8' }
    else { '9' }
}

fn digit_text(d: u32) -> (r: &'static str)
    requires
        d < 10,
    ensures
        r@ == seq![digit_char(d as nat)],
{
    proof {
        reveal_strlit("0");
        reveal_strlit("1");
        reveal_strlit("2");
        reveal_strlit("3");
        reveal_strlit("4");
        reveal_strlit("5");
        reveal_strlit("6");
        reveal_strlit("7");
        reveal_strlit("8");
        reveal_strlit("9");
    }
    if d == 0 { "0" }
    else if d == 1 { "1" }
    else if d == 2 { "2" }
    else if d == 3 { "3" }
    else if d == 4 { "4" }
    else if d == 5 { "5" }
    else if d == 6 { "6" }
    else if d == 7 { "7" }
    else if d == 8 { "8" }
    else { "9" }
}

/// The decimal digits of `n`, most significant first.
pub(crate) fn decimal_text(n: u32) -> (r: String)
    ensures
        r@ == decimal(n as nat),
    decreases n,
{
    if n < 10 {
        String::from_str(digit_text(n))
    } else {
        let mut r = decimal_text(n / 10);
        r.append(digit_text(n % 10));
        r
    }
}

} // verus!
