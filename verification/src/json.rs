//! JSON values as plain data, and the two calls into `serde_json` that read
//! and write them.

use crate::text::str_eq;
use vstd::prelude::*;

verus! {

/// A JSON value. A number keeps the text that wrote it; an object keeps its
/// members as a list of name and value.
#[derive(Debug, PartialEq, Eq)]
pub enum Json {
    Null,
    Bool(bool),
    Number(String),
    Text(String),
    Array(Vec<Json>),
    Object(Vec<(String, Json)>),
}

/// The mathematical content of a [`Json`].
pub enum JsonModel {
    Null,
    Bool(bool),
    Number(Seq<char>),
    Text(Seq<char>),
    Array(Seq<JsonModel>),
    Object(Seq<MemberModel>),
}

/// One member of an object: its name and its value.
pub struct MemberModel {
    pub name: Seq<char>,
    pub value: JsonModel,
}

impl View for Json {
    type V = JsonModel;

    open spec fn view(&self) -> JsonModel
        decreases self,
    {
        match self {
            Json::Null => JsonModel::Null,
            Json::Bool(b) => JsonModel::Bool(*b),
            Json::Number(n) => JsonModel::Number(n@),
            Json::Text(s) => JsonModel::Text(s@),
            Json::Array(items) => JsonModel::Array(
                Seq::new(
                    items@.len(),
                    |i: int|
                        if 0 <= i < items@.len() {
                            items@[i].view()
                        } else {
                            JsonModel::Null
                        },
                ),
            ),
            Json::Object(members) => JsonModel::Object(
                Seq::new(
                    members@.len(),
                    |i: int|
                        if 0 <= i < members@.len() {
                            MemberModel { name: members@[i].0@, value: members@[i].1.view() }
                        } else {
                            MemberModel { name: Seq::empty(), value: JsonModel::Null }
                        },
                ),
            ),
        }
    }
}

/// The value of the first member called `name`.
pub open spec fn member_value(members: Seq<MemberModel>, name: Seq<char>) -> Option<JsonModel>
    decreases members.len(),
{
    if members.len() == 0 {
        None
    } else if members[0].name == name {
        Some(members[0].value)
    } else {
        member_value(members.skip(1), name)
    }
}

/// Where no member before position `i` is called `name`, the search goes on
/// from `i`.
pub proof fn lemma_member_value_from(members: Seq<MemberModel>, name: Seq<char>, i: int)
    requires
        0 <= i <= members.len(),
        forall|j: int| 0 <= j < i ==> (#[trigger] members[j]).name != name,
    ensures
        member_value(members, name) == member_value(members.skip(i), name),
    decreases i,
{
    if i == 0 {
        assert(members.skip(0) =~= members);
    } else {
        assert(members[0].name != name);
        let rest = members.skip(1);
        assert forall|j: int| 0 <= j < i - 1 implies (#[trigger] rest[j]).name != name by {
            assert(rest[j] == members[j + 1]);
        }
        lemma_member_value_from(rest, name, i - 1);
        assert(rest.skip(i - 1) =~= members.skip(i));
    }
}

impl JsonModel {
    /// The member called `name` of an object; `None` for any other value
    /// and where the object has no such member.
    pub open spec fn member(self, name: Seq<char>) -> Option<JsonModel> {
        match self {
            JsonModel::Object(members) => member_value(members, name),
            _ => None,
        }
    }

    /// The characters of a string value.
    pub open spec fn text(self) -> Option<Seq<char>> {
        match self {
            JsonModel::Text(s) => Some(s),
            _ => None,
        }
    }

    /// The items of an array.
    pub open spec fn items(self) -> Option<Seq<JsonModel>> {
        match self {
            JsonModel::Array(items) => Some(items),
            _ => None,
        }
    }
}

impl Json {
    /// The member called `name` of an object.
    pub fn get(&self, name: &str) -> (r: Option<&Json>)
        ensures
            match r {
                Some(v) => self@.member(name@) == Some(v@),
                None => self@.member(name@) is None,
            },
    {
        match self {
            Json::Object(members) => {
                let ghost model = self@->Object_0;
                assert(model.len() == members@.len());
                assert forall|j: int| 0 <= j < members@.len() implies #[trigger] model[j]
                    == (MemberModel { name: members@[j].0@, value: members@[j].1@ }) by {}
                let mut i: usize = 0;
                while i < members.len()
                    invariant
                        i <= members.len(),
                        self@ == JsonModel::Object(model),
                        model.len() == members@.len(),
                        forall|j: int|
                            0 <= j < members@.len() ==> #[trigger] model[j] == (MemberModel {
                                name: members@[j].0@,
                                value: members@[j].1@,
                            }),
                        forall|j: int| 0 <= j < i ==> (#[trigger] model[j]).name != name@,
                    decreases members.len() - i,
                {
                    if str_eq(members[i].0.as_str(), name) {
                        proof {
                            lemma_member_value_from(model, name@, i as int);
                            let rest = model.skip(i as int);
                            assert(rest[0] == model[i as int]);
                            assert(rest[0].name == name@);
                            assert(member_value(rest, name@) == Some(rest[0].value));
                        }
                        return Some(&members[i].1);
                    }
                    i = i + 1;
                }
                proof {
                    lemma_member_value_from(model, name@, i as int);
                    assert(model.skip(i as int).len() == 0);
                }
                None
            },
            _ => None,
        }
    }

    /// The characters of a string value.
    pub fn as_text(&self) -> (r: Option<&String>)
        ensures
            match r {
                Some(s) => self@.text() == Some(s@),
                None => self@.text() is None,
            },
    {
        match self {
            Json::Text(s) => Some(s),
            _ => None,
        }
    }

    /// The items of an array.
    pub fn as_array(&self) -> (r: Option<&Vec<Json>>)
        ensures
            match r {
                Some(v) => self@.items() matches Some(items) && items.len() == v@.len() && (
                forall|i: int| 0 <= i < v@.len() ==> #[trigger] items[i] == v@[i]@),
                None => self@.items() is None,
            },
    {
        match self {
            Json::Array(items) => Some(items),
            _ => None,
        }
    }

    /// A string value holding the characters of `text`.
    pub fn text_of(text: &str) -> (r: Json)
        ensures
            r@ == JsonModel::Text(text@),
    {
        Json::Text(String::from_str(text))
    }

    /// An array of string values.
    pub fn texts_of(texts: &Vec<String>) -> (r: Json)
        ensures
            r@ == JsonModel::Array(Seq::new(texts@.len(), |i: int| JsonModel::Text(texts@[i]@))),
    {
        let mut items: Vec<Json> = Vec::new();
        let mut i: usize = 0;
        while i < texts.len()
            invariant
                i <= texts.len(),
                items@.len() == i,
                forall|j: int| 0 <= j < i ==> (#[trigger] items@[j])@ == JsonModel::Text(texts@[j]@),
            decreases texts.len() - i,
        {
            items.push(Json::Text(texts[i].clone()));
            i = i + 1;
        }
        let r = Json::Array(items);
        assert(r@->Array_0 =~= Seq::new(texts@.len(), |i: int| JsonModel::Text(texts@[i]@)));
        r
    }

    /// An object with the given members, in their order.
    pub fn object_of(members: Vec<(String, Json)>) -> (r: Json)
        ensures
            r@ == JsonModel::Object(
                Seq::new(
                    members@.len(),
                    |i: int| (MemberModel { name: members@[i].0@, value: members@[i].1@ }),
                ),
            ),
    {
        let r = Json::Object(members);
        assert(r@->Object_0 =~= Seq::new(
            members@.len(),
            |i: int| (MemberModel { name: members@[i].0@, value: members@[i].1@ }),
        ));
        r
    }
}

#[verifier::external_type_specification]
#[verifier::external_body]
pub struct ExJsonValue(serde_json::Value);

/// The value that `serde_json` reads from `text`, or `None` where it rejects
/// the text.
pub uninterp spec fn json_of_text(text: Seq<char>) -> Option<JsonModel>;

/// The compact text that `serde_json` writes for a value.
pub uninterp spec fn text_of_json(value: JsonModel) -> Seq<char>;

/// Moves a `serde_json::Value` into a [`Json`], variant by variant. A number
/// is kept as the text `serde_json::Number` prints for it, an object's
/// members in the order `serde_json::Map` hands them out.
#[verifier::external_body]
fn json_from_value(value: serde_json::Value) -> Json {
    match value {
        serde_json::Value::Null => Json::Null,
        serde_json::Value::Bool(b) => Json::Bool(b),
        serde_json::Value::Number(n) => Json::Number(n.to_string()),
        serde_json::Value::String(s) => Json::Text(s),
        serde_json::Value::Array(a) => Json::Array(a.into_iter().map(json_from_value).collect()),
        serde_json::Value::Object(o) => Json::Object(
            o.into_iter().map(|(k, v)| (k, json_from_value(v))).collect(),
        ),
    }
}

/// Builds the `serde_json::Value` that a [`Json`] stands for, variant by
/// variant. Number text that `serde_json::Number` does not read becomes
/// `null`.
#[verifier::external_body]
fn value_from_json(value: &Json) -> serde_json::Value {
    match value {
        Json::Null => serde_json::Value::Null,
        Json::Bool(b) => serde_json::Value::Bool(*b),
        Json::Number(n) => n.parse().map_or(serde_json::Value::Null, serde_json::Value::Number),
        Json::Text(s) => serde_json::Value::String(s.clone()),
        Json::Array(a) => serde_json::Value::Array(a.iter().map(value_from_json).collect()),
        Json::Object(o) => serde_json::Value::Object(
            o.iter().map(|(k, v)| (k.clone(), value_from_json(v))).collect(),
        ),
    }
}

/// Calls `serde_json::from_str` for a `serde_json::Value`. The contract only
/// names the outcome: the same text always reads as the same value.
#[verifier::external_body]
pub(crate) fn parse_json(text: &str) -> (r: Option<Json>)
    ensures
        match r {
            Some(value) => json_of_text(text@) == Some(value@),
            None => json_of_text(text@) is None,
        },
{
    match serde_json::from_str::<serde_json::Value>(text) {
        Ok(value) => Some(json_from_value(value)),
        Err(_) => None,
    }
}

/// Calls `serde_json::Value::to_string`, which prints the value in compact
/// form. The contract only names the text.
#[verifier::external_body]
pub(crate) fn json_to_text(value: &Json) -> (r: String)
    ensures
        r@ == text_of_json(value@),
{
    value_from_json(value).to_string()
}

} // verus!
