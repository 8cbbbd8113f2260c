//! The JSON payload of a peer message: its members, and what they ask for.

use serde_json::Value;
use vstd::prelude::*;

use super::messages::IceCandidate;

verus! {

use super::messages::RemoteCandidate;

/// `serde_json::Error`, of which nothing is known.
#[verifier::external_type_specification]
#[verifier::external_body]
pub struct ExJsonError(serde_json::Error);

/// A JSON value that is looked at, but not into.
#[derive(Debug)]
pub enum JsonScalar {
    Null,
    Bool(bool),
    /// A number, where it fits into 64 bits without a sign.
    Number(Option<u64>),
    Text(String),
    Array,
    Object,
}

/// A JSON value, with the members that it has as an object.
#[derive(Debug)]
pub enum JsonValue {
    Object(Vec<(String, JsonScalar)>),
    Scalar(JsonScalar),
}

/// What a `JsonScalar` says.
pub enum Scalar {
    Null,
    Bool(bool),
    Number(Option<u64>),
    Text(Seq<char>),
    Array,
    Object,
}

/// What a `JsonValue` says.
pub enum Json {
    Object(Seq<(Seq<char>, Scalar)>),
    Scalar(Scalar),
}

impl View for JsonScalar {
    type V = Scalar;

    open spec fn view(&self) -> Scalar {
        match self {
            JsonScalar::Null => Scalar::Null,
            JsonScalar::Bool(b) => Scalar::Bool(*b),
            JsonScalar::Number(n) => Scalar::Number(*n),
            JsonScalar::Text(s) => Scalar::Text(s@),
            JsonScalar::Array => Scalar::Array,
            JsonScalar::Object => Scalar::Object,
        }
    }
}

impl View for JsonValue {
    type V = Json;

    open spec fn view(&self) -> Json {
        match self {
            JsonValue::Object(members) => Json::Object(members_of(members@)),
            JsonValue::Scalar(scalar) => Json::Scalar(scalar@),
        }
    }
}

/// What a list of members says.
pub open spec fn members_of(members: Seq<(String, JsonScalar)>) -> Seq<(Seq<char>, Scalar)> {
    members.map_values(|member: (String, JsonScalar)| (member.0@, member.1@))
}

/// The JSON value that a text denotes. `None` stands for a text that `serde_json`
/// refuses: one that is not JSON, or one with a number or a nesting beyond its limits.
pub uninterp spec fn json_value(text: Seq<char>) -> Option<Json>;

/// `serde_json::from_str` into a `serde_json::Value`. The value is a function of the
/// text alone; of an error nothing is said but that it comes where `json_value` has
/// none.
#[verifier::external_body]
pub(crate) fn parse_json(text: &str) -> (value: Result<JsonValue, serde_json::Error>)
    ensures
        match value {
            Ok(value) => json_value(text@) == Some(value@),
            Err(_) => json_value(text@) is None,
        },
{
    let scalar = |value: Value| match value {
        Value::Null => JsonScalar::Null,
        Value::Bool(b) => JsonScalar::Bool(b),
        Value::Number(n) => JsonScalar::Number(n.as_u64()),
        Value::String(s) => JsonScalar::Text(s),
        Value::Array(_) => JsonScalar::Array,
        Value::Object(_) => JsonScalar::Object,
    };
    Ok(match serde_json::from_str(text)? {
        Value::Object(map) => JsonValue::Object(
            map.into_iter().map(|(key, v)| (key, scalar(v))).collect(),
        ),
        other => JsonValue::Scalar(scalar(other)),
    })
}

/// The members of a JSON value. One that is no object has none.
pub open spec fn members_in(value: Json) -> Seq<(Seq<char>, Scalar)> {
    match value {
        Json::Object(members) => members,
        Json::Scalar(_) => Seq::empty(),
    }
}

/// The members of a JSON value. One that is no object has none.
pub fn into_members(value: JsonValue) -> (members: Vec<(String, JsonScalar)>)
    ensures
        members_of(members@) == members_in(value@),
{
    match value {
        JsonValue::Object(members) => members,
        JsonValue::Scalar(_) => {
            let members: Vec<(String, JsonScalar)> = Vec::new();
            assert(members_of(members@) =~= Seq::empty());
            members
        },
    }
}

/// The member with a key.
pub open spec fn member(members: Seq<(Seq<char>, Scalar)>, key: Seq<char>) -> Option<Scalar>
    decreases members.len(),
{
    if members.len() == 0 {
        None
    } else if members[0].0 == key {
        Some(members[0].1)
    } else {
        member(members.skip(1), key)
    }
}

/// The member with a key, where it is a string.
pub open spec fn text_member(members: Seq<(Seq<char>, Scalar)>, key: Seq<char>) -> Option<
    Seq<char>,
> {
    match member(members, key) {
        Some(Scalar::Text(s)) => Some(s),
        _ => None,
    }
}

/// The member with a key, where it is an unsigned number.
pub open spec fn number_member(members: Seq<(Seq<char>, Scalar)>, key: Seq<char>) -> Option<u64> {
    match member(members, key) {
        Some(Scalar::Number(n)) => n,
        _ => None,
    }
}

/// Whether a payload is an offer.
pub open spec fn is_offer(members: Seq<(Seq<char>, Scalar)>) -> bool {
    text_member(members, "type"@) == Some("offer"@)
}

/// The candidate that a payload brings, if it brings one that is not empty. The
/// first media line is meant where none is named, and the low 16 bits of a line's
/// number count.
pub open spec fn trickled(members: Seq<(Seq<char>, Scalar)>) -> Option<RemoteCandidate> {
    match text_member(members, "candidate"@) {
        Some(candidate) if candidate.len() > 0 => Some(
            RemoteCandidate {
                candidate,
                sdp_mid: match text_member(members, "sdpMid"@) {
                    Some(mid) => mid,
                    None => "0"@,
                },
                sdp_mline_index: match number_member(members, "sdpMLineIndex"@) {
                    Some(index) => (index % 65536) as u16,
                    None => 0,
                },
                username_fragment: None,
            },
        ),
        _ => None,
    }
}

fn find_member(members: &Vec<(String, JsonScalar)>, key: &str) -> (at: Option<usize>)
    ensures
        match at {
            Some(i) => i < members.len() && member(members_of(members@), key@) == Some(
                members@[i as int].1@,
            ),
            None => member(members_of(members@), key@) is None,
        },
{
    let wanted: String = key.to_string();
    assert(members_of(members@).skip(0) =~= members_of(members@));
    for i in 0..members.len()
        invariant
            wanted@ == key@,
            member(members_of(members@), key@) == member(
                members_of(members@).skip(i as int),
                key@,
            ),
    {
        let ghost rest = members_of(members@).skip(i as int);
        assert(rest[0] == (members@[i as int].0@, members@[i as int].1@));
        if members[i].0 == wanted {
            return Some(i);
        }
        assert(rest.skip(1) =~= members_of(members@).skip(i as int + 1));
    }
    None
}

/// The member with a key, where it is a string.
pub fn find_text(members: &Vec<(String, JsonScalar)>, key: &str) -> (found: Option<String>)
    ensures
        match found {
            Some(s) => text_member(members_of(members@), key@) == Some(s@),
            None => text_member(members_of(members@), key@) is None,
        },
{
    match find_member(members, key) {
        Some(i) => match &members[i].1 {
            JsonScalar::Text(s) => Some(s.clone()),
            _ => None,
        },
        None => None,
    }
}

/// The member with a key, where it is an unsigned number.
pub fn find_number(members: &Vec<(String, JsonScalar)>, key: &str) -> (found: Option<u64>)
    ensures
        found == number_member(members_of(members@), key@),
{
    match find_member(members, key) {
        Some(i) => match &members[i].1 {
            JsonScalar::Number(n) => *n,
            _ => None,
        },
        None => None,
    }
}

fn low_word(n: u64) -> (word: u16)
    ensures
        word == n % 65536,
{
    assert(n as u16 == n % 65536) by (bit_vector);
    n as u16
}

/// Whether a payload is an offer.
pub fn brings_offer(members: &Vec<(String, JsonScalar)>) -> (does: bool)
    ensures
        does == is_offer(members_of(members@)),
{
    match find_text(members, "type") {
        Some(kind) => {
            let wanted: String = "offer".to_string();
            kind == wanted
        },
        None => false,
    }
}

/// The candidate that a payload brings, if it brings one that is not empty.
pub fn trickled_candidate(members: &Vec<(String, JsonScalar)>) -> (found: Option<IceCandidate>)
    ensures
        match found {
            Some(candidate) => trickled(members_of(members@)) == Some(candidate@),
            None => trickled(members_of(members@)) is None,
        },
{
    match find_text(members, "candidate") {
        Some(candidate) => {
            if is_empty(&candidate) {
                return None;
            }
            let sdp_mid = match find_text(members, "sdpMid") {
                Some(mid) => mid,
                None => "0".to_string(),
            };
            let sdp_mline_index: u16 = match find_number(members, "sdpMLineIndex") {
                Some(index) => low_word(index),
                None => 0,
            };
            Some(IceCandidate { candidate, sdp_mid, sdp_mline_index, username_fragment: None })
        },
        None => None,
    }
}

fn is_empty(s: &String) -> (empty: bool)
    ensures
        empty == (s@.len() == 0),
{
    let nothing = String::new();
    assert(s@.len() == 0 ==> s@ =~= nothing@);
    *s == nothing
}

/// The member with a key is the first one that has it, and a key that no member has
/// gives none.
pub proof fn first_member_with_the_key_counts(
    members: Seq<(Seq<char>, Scalar)>,
    key: Seq<char>,
    at: int,
)
    requires
        0 <= at <= members.len(),
        forall|i: int| 0 <= i < at ==> (#[trigger] members[i]).0 != key,
    ensures
        at < members.len() && members[at].0 == key ==> member(members, key) == Some(members[at].1),
        at == members.len() ==> member(members, key) is None,
    decreases at,
{
    if at > 0 {
        let rest = members.skip(1);
        assert forall|i: int| 0 <= i < at - 1 implies (#[trigger] rest[i]).0 != key by {
            assert(rest[i] == members[i + 1]);
        }
        assert(members[0].0 != key);
        first_member_with_the_key_counts(rest, key, at - 1);
        if at < members.len() {
            assert(rest[at - 1] == members[at]);
        }
    }
}

/// A text is found where a text is, a number where a number is, and neither anywhere
/// else.
pub proof fn members_are_of_their_kind(
    members: Seq<(Seq<char>, Scalar)>,
    key: Seq<char>,
    text: Seq<char>,
    n: u64,
)
    ensures
        text_member(members, key) == Some(text) <==> member(members, key) == Some(
            Scalar::Text(text),
        ),
        number_member(members, key) == Some(n) <==> member(members, key) == Some(
            Scalar::Number(Some(n)),
        ),
        text_member(members, key) is None || number_member(members, key) is None,
{
}

/// A payload is an offer exactly if its type says so, as a text.
pub proof fn offers_say_that_they_are(members: Seq<(Seq<char>, Scalar)>)
    ensures
        is_offer(members) <==> member(members, "type"@) == Some(Scalar::Text("offer"@)),
{
}

/// A payload brings a candidate exactly if it has one as a text that is not empty. The
/// first media line is meant where none is named, and a line's number counts modulo
/// 65536.
pub proof fn candidates_are_read(members: Seq<(Seq<char>, Scalar)>, text: Seq<char>)
    requires
        text.len() > 0,
    ensures
        member(members, "candidate"@) == Some(Scalar::Text(text)) <==> (trickled(
            members,
        ) matches Some(c) && c.candidate == text),
        !(member(members, "candidate"@) matches Some(Scalar::Text(found)) && found.len() > 0)
            ==> trickled(members) is None,
        trickled(members) matches Some(c) ==> {
            &&& c.username_fragment is None
            &&& member(members, "sdpMid"@) matches Some(Scalar::Text(mid)) ==> c.sdp_mid == mid
            &&& !(member(members, "sdpMid"@) matches Some(Scalar::Text(_))) ==> c.sdp_mid == "0"@
            &&& member(members, "sdpMLineIndex"@) matches Some(Scalar::Number(Some(n))) ==> (n
                - c.sdp_mline_index) % 65536 == 0
            &&& !(member(members, "sdpMLineIndex"@) matches Some(Scalar::Number(Some(_))))
                ==> c.sdp_mline_index == 0
        },
{
}

/// An object has its members, in order, and nothing else has any.
pub proof fn only_objects_have_members(value: Json, held: Seq<(String, JsonScalar)>, i: int)
    requires
        0 <= i < held.len(),
    ensures
        value matches Json::Object(members) ==> members_in(value) == members,
        value is Scalar ==> members_in(value).len() == 0,
        members_of(held).len() == held.len(),
        members_of(held)[i] == (held[i].0@, held[i].1@),
{
}

} // verus!
