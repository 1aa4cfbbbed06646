use vstd::prelude::*;

use crate::error::RunError;

verus! {

/// The string that JSON text `text` holds at the path `outer.inner`:
/// `Some` exactly when `text` parses as a JSON document whose top level is
/// an object with a member `outer`, itself an object with a member `inner`
/// whose value is a string, and then that string. The result is a function
/// of the three texts alone.
pub uninterp spec fn json_nested_string(
    text: Seq<char>,
    outer: Seq<char>,
    inner: Seq<char>,
) -> Option<Seq<char>>;

/// Relies on serde_json: `from_str` to a JSON value, `Value::get` on each
/// of the two keys in turn, and `Value::as_str` on what the second key
/// holds. Each step is deterministic in its text arguments, so the chain
/// is the function `json_nested_string` of the three texts.
#[verifier::external_body]
fn json_string_at(text: &str, outer: &str, inner: &str) -> (r: Option<String>)
    ensures
        r is Some <==> json_nested_string(text@, outer@, inner@) is Some,
        r is Some ==> r->0@ == json_nested_string(text@, outer@, inner@)->0,
{
    let value: serde_json::Value = match serde_json::from_str(text) {
        Ok(value) => value,
        Err(_) => return None,
    };
    let outer_value = match value.get(outer) {
        Some(v) => v,
        None => return None,
    };
    let inner_value = match outer_value.get(inner) {
        Some(v) => v,
        None => return None,
    };
    inner_value.as_str().map(str::to_owned)
}

/// The new survey's id in a copy-response body: the platform answers a
/// successful copy with `{"result":{"id":"<new survey id>"}}`, and only
/// `result.id` is consumed.
pub open spec fn copy_id_of(body: Seq<char>) -> Option<Seq<char>> {
    json_nested_string(body, "result"@, "id"@)
}

/// Reads one copy-response body. Succeeds exactly when the body has the
/// `{"result":{"id":...}}` shape, and then returns the new survey's id;
/// otherwise the run fails with a `Decode` error naming `position`, the
/// request's place in the batch.
pub fn parse_copy_response(body: &str, position: usize) -> (r: Result<String, RunError>)
    ensures
        r is Ok <==> copy_id_of(body@) is Some,
        r is Ok ==> r->Ok_0@ == copy_id_of(body@)->0,
        r is Err ==> r->Err_0 == RunError::Decode(position),
{
    match json_string_at(body, "result", "id") {
        Some(id) => Ok(id),
        None => Err(RunError::Decode(position)),
    }
}

} // verus!
