//! JSON documents as `serde_json` reads them, and the little of their
//! structure that the library looks at: objects and strings.

use crate::text::same_text;
use vstd::prelude::*;

verus! {

/// A JSON document as a mathematical value. The members of an object are
/// listed in the order of the document. Null, booleans, numbers and arrays
/// are not told apart: the library reads none of them.
pub enum Json {
    Object(Seq<(Seq<char>, Json)>),
    Text(Seq<char>),
    Other,
}

/// A JSON document as a value of the library's own.
#[derive(Debug)]
pub enum JsonValue {
    /// An object: its members, each under its name, in the order of the
    /// document.
    Object(Vec<(String, JsonValue)>),
    /// A string.
    Text(String),
    /// A value of another kind: null, a boolean, a number or an array.
    Other,
}

/// The document that a value of the library's own stands for.
pub open spec fn json_model(value: JsonValue) -> Json
    decreases value,
{
    match value {
        JsonValue::Object(members) => Json::Object(
            Seq::new(
                members@.len(),
                |i: int|
                    if 0 <= i < members@.len() {
                        (members@[i].0@, json_model(members@[i].1))
                    } else {
                        (Seq::empty(), Json::Other)
                    },
            ),
        ),
        JsonValue::Text(text) => Json::Text(text@),
        JsonValue::Other => Json::Other,
    }
}

impl View for JsonValue {
    type V = Json;

    open spec fn view(&self) -> Json {
        json_model(*self)
    }
}

/// The members that a list of names and values stands for.
pub open spec fn members_model(members: Seq<(String, JsonValue)>) -> Seq<(Seq<char>, Json)> {
    Seq::new(members.len(), |i: int| (members[i].0@, members[i].1@))
}

/// An object stands for the members that its list stands for.
pub proof fn lemma_object_view(members: Vec<(String, JsonValue)>)
    ensures
        JsonValue::Object(members)@ == Json::Object(members_model(members@)),
{
    assert(JsonValue::Object(members)@->Object_0 =~= members_model(members@));
}

/// No two members share a name.
pub open spec fn distinct_names(members: Seq<(Seq<char>, Json)>) -> bool {
    forall|i: int, j: int| 0 <= i < j < members.len() ==> members[i].0 != members[j].0
}

/// In every object of the document, no two members share a name.
pub open spec fn names_distinct_throughout(document: Json) -> bool
    decreases document,
{
    match document {
        Json::Object(members) => {
            &&& distinct_names(members)
            &&& forall|i: int|
                0 <= i < members.len() ==> names_distinct_throughout((#[trigger] members[i]).1)
        },
        _ => true,
    }
}

/// The value of the first member called `name`, if there is one.
pub open spec fn member(members: Seq<(Seq<char>, Json)>, name: Seq<char>) -> Option<Json>
    decreases members.len(),
{
    if members.len() == 0 {
        None
    } else if members[0].0 == name {
        Some(members[0].1)
    } else {
        member(members.drop_first(), name)
    }
}

/// A member that is found is one of the members.
pub proof fn lemma_member_is_listed(members: Seq<(Seq<char>, Json)>, name: Seq<char>)
    requires
        member(members, name) is Some,
    ensures
        exists|i: int|
            0 <= i < members.len() && (#[trigger] members[i]).0 == name && members[i].1
                == member(members, name).unwrap(),
    decreases members.len(),
{
    if members[0].0 != name {
        let rest = members.drop_first();
        lemma_member_is_listed(rest, name);
        let i = choose|i: int|
            0 <= i < rest.len() && (#[trigger] rest[i]).0 == name && rest[i].1 == member(
                rest,
                name,
            ).unwrap();
        assert(members[i + 1] == rest[i]);
    }
}

/// `serde_json::Value`, taken as opaque: what it holds is told by
/// `json_view` alone.
#[verifier::external_type_specification]
#[verifier::external_body]
pub struct ExJsonValue(serde_json::Value);

/// `serde_json::Error`, taken as opaque: nothing is read from it.
#[verifier::external_type_specification]
#[verifier::external_body]
pub struct ExJsonError(serde_json::Error);

/// The document that a `serde_json::Value` holds.
pub uninterp spec fn json_view(value: serde_json::Value) -> Json;

/// The document that `serde_json::from_str` reads from `text`, or `None`
/// where it reports an error.
pub uninterp spec fn json_parse(text: Seq<char>) -> Option<Json>;

/// The members that a list of borrowed names and values stands for.
pub open spec fn members_view(list: Seq<(&String, &serde_json::Value)>) -> Seq<(Seq<char>, Json)> {
    Seq::new(list.len(), |i: int| (list[i].0@, json_view(*list[i].1)))
}

/// Calls `serde_json::from_str` at type `serde_json::Value`. The outcome is
/// a function of the text alone, named `json_parse`; nothing more is claimed
/// of which texts are accepted.
#[verifier::external_body]
fn parse_value(text: &str) -> (parsed: Result<serde_json::Value, serde_json::Error>)
    ensures
        match parsed {
            Ok(value) => json_parse(text@) == Some(json_view(value)),
            Err(_) => json_parse(text@) is None,
        },
{
    serde_json::from_str::<serde_json::Value>(text)
}

/// Calls `Value::as_object` and walks the map with `Map::iter`. The result is
/// `None` exactly when the value is no object; otherwise it lists every
/// member once, in the map's own order, under pairwise different names.
#[verifier::external_body]
fn object_members(value: &serde_json::Value) -> (members: Option<
    Vec<(&String, &serde_json::Value)>,
>)
    ensures
        match members {
            Some(list) => {
                &&& json_view(*value) == Json::Object(members_view(list@))
                &&& distinct_names(members_view(list@))
            },
            None => !(json_view(*value) is Object),
        },
{
    match value.as_object() {
        Some(map) => Some(map.iter().collect()),
        None => None,
    }
}

/// Calls `Value::as_str`: the characters of a JSON string, and `None` for
/// every other kind of value.
#[verifier::external_body]
fn text_content(value: &serde_json::Value) -> (content: Option<&str>)
    ensures
        match content {
            Some(text) => json_view(*value) == Json::Text(text@),
            None => !(json_view(*value) is Text),
        },
{
    value.as_str()
}

impl JsonValue {
    /// Copies what a `serde_json::Value` holds.
    pub fn from_value(value: &serde_json::Value) -> (document: JsonValue)
        ensures
            document@ == json_view(*value),
            names_distinct_throughout(document@),
        decreases json_view(*value),
    {
        match object_members(value) {
            Some(list) => {
                let mut members: Vec<(String, JsonValue)> = Vec::new();
                let mut i: usize = 0;
                while i < list.len()
                    invariant
                        i <= list.len(),
                        members@.len() == i,
                        json_view(*value) == Json::Object(members_view(list@)),
                        forall|j: int|
                            0 <= j < i ==> {
                                &&& (#[trigger] members@[j]).0@ == list@[j].0@
                                &&& members@[j].1@ == json_view(*list@[j].1)
                                &&& names_distinct_throughout(members@[j].1@)
                            },
                    decreases list.len() - i,
                {
                    let (name, child) = list[i];
                    proof {
                        let listed = members_view(list@);
                        assert(listed[i as int].1 == json_view(*child));
                        assert(json_view(*value)->Object_0 == listed);
                        assert(decreases_to!(json_view(*value) => json_view(*value)->Object_0));
                        assert(decreases_to!(listed => listed[i as int]));
                        assert(decreases_to!(listed[i as int] => listed[i as int].1));
                    }
                    members.push((name.clone(), JsonValue::from_value(child)));
                    i += 1;
                }
                let document = JsonValue::Object(members);
                assert(document@->Object_0 =~= members_view(list@));
                document
            },
            None => match text_content(value) {
                Some(text) => JsonValue::Text(String::from_str(text)),
                None => JsonValue::Other,
            },
        }
    }

    /// Reads a document from JSON text: `None` where the text is no JSON.
    pub fn parse(text: &str) -> (document: Option<JsonValue>)
        ensures
            match document {
                Some(value) => json_parse(text@) == Some(value@) && names_distinct_throughout(
                    value@,
                ),
                None => json_parse(text@) is None,
            },
    {
        match parse_value(text) {
            Ok(value) => Some(JsonValue::from_value(&value)),
            Err(_) => None,
        }
    }
}

/// Looks a member up by its name: the first that bears it.
pub fn find_member<'a>(members: &'a Vec<(String, JsonValue)>, name: &str) -> (found: Option<
    &'a JsonValue,
>)
    ensures
        match found {
            Some(value) => member(members_model(members@), name@) == Some(value@),
            None => member(members_model(members@), name@) is None,
        },
{
    let ghost all = members_model(members@);
    let mut i: usize = 0;
    assert(all.skip(0) =~= all);
    while i < members.len()
        invariant
            i <= members.len(),
            all == members_model(members@),
            member(all, name@) == member(all.skip(i as int), name@),
        decreases members.len() - i,
    {
        proof {
            assert(all.skip(i as int)[0] == all[i as int]);
            assert(all.skip(i as int).drop_first() =~= all.skip(i + 1));
        }
        if same_text(members[i].0.as_str(), name) {
            return Some(&members[i].1);
        }
        i += 1;
    }
    assert(all.skip(i as int).len() == 0);
    None
}

} // verus!
