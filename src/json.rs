//! JSON text for the client configuration document.
//!
//! The object and array framing is written here; each string is encoded by
//! serde_json.

use vstd::prelude::*;
use vstd::string::StringExecFns;

verus! {

/// `serde_json::Error`, carried through opaquely: only its message is read.
#[verifier::external_type_specification]
#[verifier::external_body]
pub struct ExJsonError(serde_json::Error);

/// The JSON string literal (quotes and escapes included) that serde_json
/// writes for the characters `s`.
pub uninterp spec fn json_string_of(s: Seq<char>) -> Seq<char>;

/// `s` holds no character that JSON must escape: no quote, no backslash and
/// no control character below U+0020.
pub open spec fn needs_no_escape(s: Seq<char>) -> bool {
    forall|i: int| 0 <= i < s.len() ==> s[i] != '"' && s[i] != '\\' && (s[i] as u32) >= 0x20
}

/// `s` between double quotes.
pub open spec fn quoted(s: Seq<char>) -> Seq<char> {
    seq!['"'] + s + seq!['"']
}

/// The JSON literal of `s`: plainly quoted where nothing needs escaping.
pub open spec fn json_text(s: Seq<char>) -> Seq<char> {
    if needs_no_escape(s) {
        quoted(s)
    } else {
        json_string_of(s)
    }
}

/// Relies on `serde_json::to_string` applied to a `str`: it writes the
/// string's JSON literal, a quote, each character as it is unless it is a
/// quote, a backslash or a control character (those are escaped), and a
/// closing quote. A `str` is serialized through `serialize_str` into a
/// `Vec<u8>`, whose writes do not fail, so the result is `Ok`.
#[verifier::external_body]
fn json_string(s: &str) -> (r: Result<String, serde_json::Error>)
    ensures
        r is Ok,
        r matches Ok(j) ==> j@ == json_string_of(s@),
        r matches Ok(j) ==> j@ == json_text(s@),
{
    serde_json::to_string(s)
}

/// The elements of a JSON array of strings, separated by commas.
pub open spec fn json_array_items(items: Seq<Seq<char>>) -> Seq<char>
    decreases items.len(),
{
    if items.len() == 0 {
        Seq::empty()
    } else if items.len() == 1 {
        json_text(items[0])
    } else {
        json_array_items(items.drop_last()) + seq![','] + json_text(items.last())
    }
}

/// A compact JSON array of strings.
pub open spec fn json_array(items: Seq<Seq<char>>) -> Seq<char> {
    seq!['['] + json_array_items(items) + seq![']']
}

/// The reason a JSON document could not be produced.
#[derive(Debug)]
pub struct EncodeError {
    pub message: String,
}

/// Turns serde_json's error into the library's own, keeping its message.
fn encode_error(e: &serde_json::Error) -> (r: EncodeError) {
    EncodeError { message: e.to_string() }
}

/// Appends the compact JSON array of `items` to `out`.
pub fn push_json_array(out: &mut String, items: &Vec<String>) -> (r: Result<(), EncodeError>)
    ensures
        r is Ok,
        final(out)@ == old(out)@ + json_array(items.deep_view()),
{
    let ghost start = out@;
    out.append("[");
    proof {
        reveal_strlit("[");
    }
    let mut i: usize = 0;
    while i < items.len()
        invariant
            0 <= i <= items@.len(),
            out@ == start + seq!['['] + json_array_items(items.deep_view().take(i as int)),
        decreases items@.len() - i,
    {
        let encoded = match json_string(items[i].as_str()) {
            Ok(j) => j,
            Err(e) => {
                return Err(encode_error(&e));
            },
        };
        if i > 0 {
            out.append(",");
            proof {
                reveal_strlit(",");
            }
        }
        out.append(encoded.as_str());
        proof {
            let done = items.deep_view().take(i as int);
            let next = items.deep_view().take(i + 1);
            assert(next.drop_last() =~= done);
            assert(next.last() == items[i as int]@);
        }
        i = i + 1;
    }
    out.append("]");
    proof {
        reveal_strlit("]");
        assert(items.deep_view().take(items@.len() as int) =~= items.deep_view());
    }
    Ok(())
}

} // verus!
