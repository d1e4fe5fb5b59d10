//! Turning the body of a failed response into a message for the user.

use vstd::prelude::*;
use vstd::string::*;

verus! {

/// The structured error that the remote services send on failure.
#[derive(Clone, Debug, PartialEq, Eq)]
pub struct RemoteErrorPayload {
    pub error_message: String,
    pub error_type: String,
}

/// One member of a JSON object: its key, and its value where that value is a
/// JSON string.
#[derive(Clone, Debug, PartialEq, Eq)]
pub struct JsonMember {
    pub key: String,
    pub text: Option<String>,
}

/// Mathematical value of a list of object members.
pub type Members = Seq<(Seq<char>, Option<Seq<char>>)>;

impl View for JsonMember {
    type V = (Seq<char>, Option<Seq<char>>);

    open spec fn view(&self) -> (Seq<char>, Option<Seq<char>>) {
        (
            self.key@,
            match self.text {
                Some(t) => Some(t@),
                None => None,
            },
        )
    }
}

/// The members of a list, each by its view.
pub open spec fn members_of(list: Seq<JsonMember>) -> Members {
    Seq::new(list.len(), |i: int| list[i]@)
}

/// The members of an optional list.
pub open spec fn parsed_members(parsed: Option<Vec<JsonMember>>) -> Option<Members> {
    match parsed {
        Some(list) => Some(members_of(list@)),
        None => None,
    }
}

/// What `serde_json` makes of `body` when asked for a JSON object: `None` where
/// `body` is not one JSON object, else its members in the order in which
/// `serde_json::Map` hands them out.
pub uninterp spec fn json_object_members(body: Seq<char>) -> Option<Members>;

/// `i` is the first position in `members` that carries `key`.
pub open spec fn first_with_key(members: Members, key: Seq<char>, i: int) -> bool {
    &&& 0 <= i < members.len()
    &&& members[i].0 == key
    &&& forall|j: int| 0 <= j < i ==> (#[trigger] members[j]).0 != key
}

/// The string stored under `key`: the value of the first member with that key,
/// where there is one and it is a string.
pub open spec fn text_under(members: Members, key: Seq<char>) -> Option<Seq<char>> {
    if exists|i: int| first_with_key(members, key, i) {
        members[choose|i: int| first_with_key(members, key, i)].1
    } else {
        None
    }
}

/// The error message of a structured payload: present where the members hold
/// a string under `errorMessage` and a string under `errorType`.
pub open spec fn payload_message(parsed: Option<Members>) -> Option<Seq<char>> {
    match parsed {
        Some(members) => if text_under(members, "errorType"@) is Some {
            text_under(members, "errorMessage"@)
        } else {
            None
        },
        None => None,
    }
}

/// The message shown for a failed response: the payload's message where there
/// is a payload, else the raw body behind a fixed prefix.
pub open spec fn decoded_message(body: Seq<char>, message: Option<Seq<char>>) -> Seq<char> {
    match message {
        Some(m) => m,
        None => "Error: "@ + body,
    }
}

/// The message of an optional payload.
pub open spec fn message_of(payload: Option<RemoteErrorPayload>) -> Option<Seq<char>> {
    match payload {
        Some(p) => Some(p.error_message@),
        None => None,
    }
}

/// Calls `serde_json::from_str` for a `serde_json::Map<String, Value>` and
/// hands out each entry as a key with its string value, if the value is a
/// string. The contract only names the outcome: it is a function of `body`.
#[verifier::external_body]
fn parse_object(body: &str) -> (parsed: Option<Vec<JsonMember>>)
    ensures
        parsed_members(parsed) == json_object_members(body@),
{
    match serde_json::from_str::<serde_json::Map<String, serde_json::Value>>(body) {
        Ok(map) => Some(
            map.into_iter().map(
                |(key, value)| match value {
                    serde_json::Value::String(text) => JsonMember { key, text: Some(text) },
                    _ => JsonMember { key, text: None },
                },
            ).collect(),
        ),
        Err(_) => None,
    }
}

/// Looks up the string stored under `key`.
pub fn find_text(members: &Vec<JsonMember>, key: &str) -> (found: Option<String>)
    ensures
        match found {
            Some(t) => text_under(members_of(members@), key@) == Some(t@),
            None => text_under(members_of(members@), key@) is None,
        },
{
    let ghost all = members_of(members@);
    let wanted = String::from_str(key);
    let mut i: usize = 0;
    while i < members.len()
        invariant
            i <= members.len(),
            all == members_of(members@),
            wanted@ == key@,
            forall|j: int| 0 <= j < i ==> (#[trigger] all[j]).0 != key@,
        decreases members.len() - i,
    {
        if members[i].key == wanted {
            assert(first_with_key(all, key@, i as int));
            let ghost c = choose|c: int| first_with_key(all, key@, c);
            assert(c == i) by {
                if c < i {
                    assert(all[c].0 != key@);
                } else if c > i {
                    assert(all[i as int].0 != key@);
                }
            }
            return match &members[i].text {
                Some(t) => Some(t.clone()),
                None => None,
            };
        }
        i += 1;
    }
    assert forall|c: int| !first_with_key(all, key@, c) by {
        if 0 <= c < all.len() {
            assert(all[c].0 != key@);
        }
    }
    None
}

/// Reads a structured payload out of parsed object members.
pub fn payload_from_members(parsed: Option<Vec<JsonMember>>) -> (payload: Option<
    RemoteErrorPayload,
>)
    ensures
        message_of(payload) == payload_message(parsed_members(parsed)),
{
    match parsed {
        Some(members) => {
            let error_type = find_text(&members, "errorType");
            let error_message = find_text(&members, "errorMessage");
            match (error_message, error_type) {
                (Some(m), Some(t)) => Some(RemoteErrorPayload { error_message: m, error_type: t }),
                _ => None,
            }
        },
        None => None,
    }
}

/// Parses `body` as a structured payload.
pub fn parse_payload(body: &str) -> (payload: Option<RemoteErrorPayload>)
    ensures
        message_of(payload) == payload_message(json_object_members(body@)),
{
    payload_from_members(parse_object(body))
}

/// The message for a failed response whose body parsed to `payload`.
pub fn decode_parsed(body: &str, payload: Option<RemoteErrorPayload>) -> (message: String)
    ensures
        message@ == decoded_message(body@, message_of(payload)),
{
    match payload {
        Some(p) => p.error_message,
        None => {
            let mut message = String::from_str("Error: ");
            message.append(body);
            message
        },
    }
}

/// The message for a failed response with the given body. Total: every body
/// yields a message.
pub fn decode(body: &str) -> (message: String)
    ensures
        message@ == decoded_message(body@, payload_message(json_object_members(body@))),
{
    let payload = parse_payload(body);
    decode_parsed(body, payload)
}

/// A body that is no structured payload is shown verbatim behind the prefix,
/// so its message is never empty.
pub proof fn lemma_fallback_message(body: Seq<char>)
    ensures
        decoded_message(body, None) == "Error: "@ + body,
        decoded_message(body, None).len() == 7 + body.len(),
{
    reveal_strlit("Error: ");
}

/// A structured payload is shown by its message alone, whatever the body.
pub proof fn lemma_payload_message(body: Seq<char>, message: Seq<char>)
    ensures
        decoded_message(body, Some(message)) == message,
{
}

/// The decoded message is non-empty unless the payload itself carries an
/// empty message.
pub proof fn lemma_message_nonempty(body: Seq<char>, message: Option<Seq<char>>)
    requires
        message matches Some(m) ==> m.len() > 0,
    ensures
        decoded_message(body, message).len() > 0,
{
    reveal_strlit("Error: ");
}

} // verus!
