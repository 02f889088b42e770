//! Text frames: `ACTION|JSON`.

use vstd::prelude::*;
use vstd::string::*;
use super::actions::{action_name, parse_action_name, Action};
use crate::json::{json_parsed, json_string, parse_json, string_value};
use crate::text::{chars_to_string, str_chars};

verus! {

/// Separator between the action name and the payload of a text frame.
pub const SEPARATOR: &'static str = "|";

/// Position of the first occurrence of `c` at or after `from`, if any.
pub open spec fn index_of_from(s: Seq<char>, c: char, from: int) -> Option<int>
    decreases s.len() - from,
{
    if from < 0 || from >= s.len() {
        None
    } else if s[from] == c {
        Some(from)
    } else {
        index_of_from(s, c, from + 1)
    }
}

/// Position of the first occurrence of `c`, if any.
pub open spec fn index_of(s: Seq<char>, c: char) -> Option<int> {
    index_of_from(s, c, 0)
}

/// The action text and the payload text of a frame: split at the first `|`,
/// or the whole text and `{}` when there is none.
pub open spec fn split_frame_text(text: Seq<char>) -> (Seq<char>, Seq<char>) {
    match index_of(text, '|') {
        Some(i) => (text.take(i), text.skip(i + 1)),
        None => (text, "{}"@),
    }
}

/// The text of a simple message: the action's name, `|`, then the payload.
pub open spec fn spec_simple_message(a: Action, payload: Seq<char>) -> Seq<char> {
    action_name(a) + "|"@ + payload
}

/// Encodes a message whose payload is plain text (such as the authorization token).
pub fn encode_simple_message(action: &Action, payload: &str) -> (s: String)
    ensures
        s@ == spec_simple_message(*action, payload@),
{
    let mut s = action.to_string();
    s.append(SEPARATOR);
    s.append(payload);
    s
}

proof fn lemma_index_of_from_absent(s: Seq<char>, c: char, from: int)
    requires
        0 <= from <= s.len(),
        forall|k: int| from <= k < s.len() ==> s[k] != c,
    ensures
        index_of_from(s, c, from) is None,
    decreases s.len() - from,
{
    if from < s.len() {
        lemma_index_of_from_absent(s, c, from + 1);
    }
}

proof fn lemma_index_of_from_found(s: Seq<char>, c: char, from: int, i: int)
    requires
        0 <= from <= i < s.len(),
        s[i] == c,
        forall|k: int| from <= k < i ==> s[k] != c,
    ensures
        index_of_from(s, c, from) == Some(i),
    decreases i - from,
{
    if from < i {
        lemma_index_of_from_found(s, c, from + 1, i);
    }
}

/// Splits a text frame into its action name and payload text, parsing the
/// action. Fails with `Unknown action: <name>` exactly when the name before the
/// first `|` (or the whole text) is not an action.
pub fn split_message(text: &str) -> (r: Result<(Action, String), String>)
    ensures
        ({
            let (name, payload) = split_frame_text(text@);
            match r {
                Ok((a, p)) => parse_action_name(name) == Some(a) && p@ == payload,
                Err(msg) => parse_action_name(name) is None && msg@ == "Unknown action: "@ + name,
            }
        }),
{
    broadcast use vstd::string::group_string_axioms;

    let chars = str_chars(text);
    let mut i: usize = 0;
    while i < chars.len() && chars[i] != '|'
        invariant
            i <= chars.len(),
            chars@ == text@,
            forall|k: int| 0 <= k < i ==> chars@[k] != '|',
        decreases chars.len() - i,
    {
        i = i + 1;
    }
    let mut name_chars: Vec<char> = Vec::new();
    let mut j: usize = 0;
    while j < i
        invariant
            i <= chars.len(),
            j <= i,
            name_chars@ == chars@.take(j as int),
        decreases i - j,
    {
        name_chars.push(chars[j]);
        j = j + 1;
        assert(name_chars@ =~= chars@.take(j as int));
    }
    let name = chars_to_string(&name_chars);
    let payload: String;
    if i < chars.len() {
        proof {
            lemma_index_of_from_found(chars@, '|', 0, i as int);
        }
        let mut rest: Vec<char> = Vec::new();
        let mut k: usize = i + 1;
        while k < chars.len()
            invariant
                i < chars.len(),
                i + 1 <= k <= chars.len(),
                rest@ == chars@.subrange(i + 1, k as int),
            decreases chars.len() - k,
        {
            rest.push(chars[k]);
            k = k + 1;
            assert(rest@ =~= chars@.subrange(i + 1, k as int));
        }
        assert(rest@ =~= chars@.skip(i + 1));
        payload = chars_to_string(&rest);
    } else {
        proof {
            lemma_index_of_from_absent(chars@, '|', 0);
            assert(name_chars@ =~= text@);
        }
        payload = String::from_str("{}");
    }
    match Action::from_str(name.as_str()) {
        Ok(a) => {
            proof {
                super::actions::lemma_action_name_roundtrip(a);
            }
            Ok((a, payload))
        },
        Err(e) => {
            proof {
                if parse_action_name(name@) is Some {
                    let a = parse_action_name(name@).unwrap();
                    lemma_parse_action_name_sound(name@);
                }
            }
            Err(e)
        },
    }
}

/// A name that parses to an action is that action's name.
pub proof fn lemma_parse_action_name_sound(s: Seq<char>)
    ensures
        parse_action_name(s) matches Some(a) ==> action_name(a) == s,
{
}

/// The payload value of a text frame: the JSON it holds, or, when it is not
/// valid JSON (a bare token), a JSON string holding the text.
pub open spec fn spec_payload_value(payload: Seq<char>) -> serde_json::Value {
    match json_parsed(payload) {
        Some(v) => v,
        None => json_string(payload),
    }
}

/// The payload value given what the payload text parsed to: the parsed JSON,
/// or, when the text was no JSON, a JSON string holding the text.
pub fn payload_value(parsed: Option<serde_json::Value>, payload: &str) -> (r: serde_json::Value)
    ensures
        r == match parsed {
            Some(v) => v,
            None => json_string(payload@),
        },
{
    match parsed {
        Some(v) => v,
        None => string_value(payload),
    }
}

/// Decodes a text frame into its action and JSON payload (`{}` when the frame
/// has no `|`; the raw text as a JSON string when the payload is not JSON).
/// Fails exactly when the action name is unknown.
pub fn decode_message(text: &str) -> (r: Result<(Action, serde_json::Value), String>)
    ensures
        ({
            let (name, payload) = split_frame_text(text@);
            match r {
                Ok((a, v)) => parse_action_name(name) == Some(a) && v == spec_payload_value(payload),
                Err(msg) => parse_action_name(name) is None && msg@ == "Unknown action: "@ + name,
            }
        }),
{
    match split_message(text) {
        Ok((action, payload)) => {
            let value = payload_value(parse_json(payload.as_str()), payload.as_str());
            Ok((action, value))
        },
        Err(e) => Err(e),
    }
}

/// A simple message splits back into the encoded action and payload: the
/// first `|` is the one after the action name, since no name contains `|`.
pub proof fn lemma_simple_message_roundtrip(a: Action, payload: Seq<char>)
    ensures
        split_frame_text(spec_simple_message(a, payload)) == (action_name(a), payload),
        parse_action_name(split_frame_text(spec_simple_message(a, payload)).0) == Some(a),
{
    broadcast use vstd::string::group_string_axioms;

    super::actions::lemma_action_name_has_no_separator(a);
    reveal_strlit("|");
    let t = spec_simple_message(a, payload);
    let n = action_name(a).len();
    assert(t[n as int] == '|');
    assert forall|k: int| 0 <= k < n implies t[k] != '|' by {
        assert(t[k] == action_name(a)[k]);
    }
    lemma_index_of_from_found(t, '|', 0, n as int);
    assert(t.take(n as int) =~= action_name(a));
    assert(t.skip(n as int + 1) =~= payload);
    super::actions::lemma_action_name_roundtrip(a);
}

} // verus!
