use vstd::prelude::*;
use serde_json::Value;
use crate::text::text_eq;

verus! {

/// A JSON value, as far as the library reads one.
#[derive(Debug, PartialEq, Eq)]
pub enum Json {
    Null,
    Bool(bool),
    /// A number: its value where it is a whole number from 0 to 2^64 - 1, `None` for any
    /// other number.
    Number(Option<u64>),
    Text(String),
    Array(Vec<Json>),
    /// An object: its members. Where a name occurs twice, the first member of that name
    /// counts.
    Object(Vec<JsonMember>),
}

/// One member of a JSON object.
#[derive(Debug, PartialEq, Eq)]
pub struct JsonMember {
    pub name: String,
    pub value: Json,
}

/// The mathematical model of a [`Json`].
pub enum JsonView {
    Null,
    Bool(bool),
    Number(Option<u64>),
    Text(Seq<char>),
    Array(Seq<JsonView>),
    Object(Seq<JsonMemberView>),
}

/// The mathematical model of a [`JsonMember`].
pub struct JsonMemberView {
    pub name: Seq<char>,
    pub value: JsonView,
}

/// The models of the first `n` of a sequence of values.
pub open spec fn items_view(items: Seq<Json>, n: nat) -> Seq<JsonView>
    decreases items, n,
{
    if n == 0 || n > items.len() {
        Seq::empty()
    } else {
        items_view(items, (n - 1) as nat).push(json_view(items[n - 1]))
    }
}

/// The models of the first `n` of a sequence of members.
pub open spec fn members_view(members: Seq<JsonMember>, n: nat) -> Seq<JsonMemberView>
    decreases members, n,
{
    if n == 0 || n > members.len() {
        Seq::empty()
    } else {
        members_view(members, (n - 1) as nat).push(
            JsonMemberView { name: members[n - 1].name@, value: json_view(members[n - 1].value) },
        )
    }
}

/// The model of a value.
pub open spec fn json_view(value: Json) -> JsonView
    decreases value, 0nat,
{
    match value {
        Json::Null => JsonView::Null,
        Json::Bool(flag) => JsonView::Bool(flag),
        Json::Number(number) => JsonView::Number(number),
        Json::Text(text) => JsonView::Text(text@),
        Json::Array(items) => JsonView::Array(items_view(items@, items@.len())),
        Json::Object(members) => JsonView::Object(members_view(members@, members@.len())),
    }
}

impl View for Json {
    type V = JsonView;

    open spec fn view(&self) -> JsonView {
        json_view(*self)
    }
}

/// The models of the first `n` values are `n` models, each that of its value.
pub proof fn items_view_index(items: Seq<Json>, n: nat)
    requires
        n <= items.len(),
    ensures
        items_view(items, n).len() == n,
        forall|i: int| 0 <= i < n ==> items_view(items, n)[i] == items[i]@,
    decreases n,
{
    if n > 0 {
        items_view_index(items, (n - 1) as nat);
    }
}

/// The models of the first `n` members are `n` models, each that of its member.
pub proof fn members_view_index(members: Seq<JsonMember>, n: nat)
    requires
        n <= members.len(),
    ensures
        members_view(members, n).len() == n,
        forall|i: int|
            0 <= i < n ==> members_view(members, n)[i] == (JsonMemberView {
                name: members[i].name@,
                value: members[i].value@,
            }),
    decreases n,
{
    if n > 0 {
        members_view_index(members, (n - 1) as nat);
    }
}

#[verifier::external_type_specification]
#[verifier::external_body]
pub struct ExValue(serde_json::Value);

/// The JSON string literal for a text: the text between double quotes, with the characters
/// escaped that JSON does not take as they are.
pub uninterp spec fn json_quoted(text: Seq<char>) -> Seq<char>;

/// The value that a text denotes as a JSON document, or `None` where the text is no JSON
/// document.
pub uninterp spec fn json_document(text: Seq<char>) -> Option<JsonView>;

/// `serde_json::Value::to_string` on a string value: the JSON string literal for `text`.
/// A string value always serialises.
#[verifier::external_body]
fn quote(text: &str) -> (literal: String)
    ensures
        literal@ == json_quoted(text@),
{
    Value::String(text.to_owned()).to_string()
}

/// Hands a `serde_json::Value` over as a [`Json`], variant by variant: a number by
/// `serde_json::Number::as_u64`, the members of an object in the order in which
/// `serde_json::Map::iter` gives them.
#[verifier::external_body]
fn json_from_value(value: &Value) -> Json {
    match value {
        Value::Null => Json::Null,
        Value::Bool(flag) => Json::Bool(*flag),
        Value::Number(number) => Json::Number(number.as_u64()),
        Value::String(text) => Json::Text(text.clone()),
        Value::Array(items) => Json::Array(items.iter().map(json_from_value).collect()),
        Value::Object(members) => Json::Object(
            members
                .iter()
                .map(|(name, item)| JsonMember { name: name.clone(), value: json_from_value(item) })
                .collect(),
        ),
    }
}

/// `serde_json::from_str` for a `serde_json::Value`: the value that `text` denotes, or
/// `None` where `serde_json` refuses the text.
#[verifier::external_body]
fn parse(text: &str) -> (document: Option<Json>)
    ensures
        document.deep_view() == json_document(text@),
{
    match serde_json::from_str::<Value>(text) {
        Ok(value) => Some(json_from_value(&value)),
        Err(_) => None,
    }
}

/// Writes `text` as a JSON string literal.
pub fn json_string(text: &str) -> (literal: String)
    ensures
        literal@ == json_quoted(text@),
{
    quote(text)
}

/// Reads `text` as a JSON document.
pub fn json_parse(text: &str) -> (document: Option<Json>)
    ensures
        document.deep_view() == json_document(text@),
{
    parse(text)
}

/// The position of the first member at or after `from` whose name is `name`, or the
/// number of members where there is none.
pub open spec fn member_index(members: Seq<JsonMemberView>, name: Seq<char>, from: int) -> int
    decreases members.len() - from,
{
    if from < 0 || from >= members.len() {
        members.len() as int
    } else if members[from].name == name {
        from
    } else {
        member_index(members, name, from + 1)
    }
}

/// The member `name` of a JSON value: `None` where the value is no object or has no such
/// member.
pub open spec fn json_get(value: JsonView, name: Seq<char>) -> Option<JsonView> {
    match value {
        JsonView::Object(members) => {
            let at = member_index(members, name, 0);
            if at < members.len() {
                Some(members[at].value)
            } else {
                None
            }
        },
        _ => None,
    }
}

/// The text that a member holds, where it is there and holds a text.
pub open spec fn text_of(found: Option<JsonView>) -> Option<Seq<char>> {
    match found {
        Some(JsonView::Text(text)) => Some(text),
        _ => None,
    }
}

/// The truth value that a member holds, where it is there and holds one.
pub open spec fn bool_of(found: Option<JsonView>) -> Option<bool> {
    match found {
        Some(JsonView::Bool(flag)) => Some(flag),
        _ => None,
    }
}

/// The whole number that a member holds, where it is there and holds one from 0 to
/// 2^64 - 1.
pub open spec fn u64_of(found: Option<JsonView>) -> Option<u64> {
    match found {
        Some(JsonView::Number(Some(number))) => Some(number),
        _ => None,
    }
}

/// The whole number that a member holds, where it is there and holds one from 0 to 255.
pub open spec fn u8_of(found: Option<JsonView>) -> Option<u8> {
    match found {
        Some(JsonView::Number(Some(number))) => if number <= 255 {
            Some(number as u8)
        } else {
            None
        },
        _ => None,
    }
}

/// The items that a member holds, where it is there and holds an array.
pub open spec fn items_of(found: Option<JsonView>) -> Option<Seq<JsonView>> {
    match found {
        Some(JsonView::Array(items)) => Some(items),
        _ => None,
    }
}

/// Whether a member is left out: it is absent or holds `null`.
pub open spec fn left_out(found: Option<JsonView>) -> bool {
    found is None || found == Some(JsonView::Null)
}

/// What an optional member holds: `Some(None)` where it is left out, `Some(Some(..))`
/// where it holds a value of the expected kind, which `read` tells, and `None` where it
/// holds anything else.
pub open spec fn optional<T>(found: Option<JsonView>, read: Option<T>) -> Option<Option<T>> {
    if left_out(found) {
        Some(None)
    } else if read is Some {
        Some(read)
    } else {
        None
    }
}

/// The model of an optional reference to a value.
pub open spec fn found_view(found: Option<&Json>) -> Option<JsonView> {
    match found {
        Some(value) => Some(value@),
        None => None,
    }
}

/// The model of an array is the sequence of the models of its items.
pub proof fn array_view(items: Vec<Json>)
    ensures
        Json::Array(items)@ is Array,
        Json::Array(items)@->Array_0.len() == items.len(),
        forall|i: int| 0 <= i < items.len() ==> Json::Array(items)@->Array_0[i] == items[i]@,
{
    items_view_index(items@, items@.len());
}

/// The model of an object is the sequence of the models of its members.
pub proof fn object_view(members: Vec<JsonMember>)
    ensures
        Json::Object(members)@ is Object,
        Json::Object(members)@->Object_0.len() == members.len(),
        forall|i: int|
            0 <= i < members.len() ==> Json::Object(members)@->Object_0[i] == (JsonMemberView {
                name: members[i].name@,
                value: members[i].value@,
            }),
{
    members_view_index(members@, members@.len());
}

impl DeepView for Json {
    type V = JsonView;

    open spec fn deep_view(&self) -> JsonView {
        self@
    }
}

impl Json {
    /// The member `name` of this value.
    pub fn get<'a>(&'a self, name: &str) -> (found: Option<&'a Json>)
        ensures
            found_view(found) == json_get(self@, name@),
    {
        match self {
            Json::Object(members) => {
                proof {
                    object_view(*members);
                }
                let ghost model = self@->Object_0;
                let mut i: usize = 0;
                while i < members.len()
                    invariant
                        i <= members.len(),
                        self@ == JsonView::Object(model),
                        model.len() == members.len(),
                        forall|j: int|
                            0 <= j < members.len() ==> model[j] == (JsonMemberView {
                                name: members[j].name@,
                                value: members[j].value@,
                            }),
                        member_index(model, name@, 0) == member_index(model, name@, i as int),
                    decreases members.len() - i,
                {
                    if text_eq(members[i].name.as_str(), name) {
                        return Some(&members[i].value);
                    }
                    i = i + 1;
                }
                None
            },
            _ => None,
        }
    }

    /// The text that this value holds, where it holds one.
    pub fn as_text(&self) -> (text: Option<&String>)
        ensures
            text matches Some(t) ==> text_of(Some(self@)) == Some(t@),
            text is None ==> text_of(Some(self@)) is None,
    {
        match self {
            Json::Text(text) => Some(text),
            _ => None,
        }
    }

    /// The truth value that this value holds, where it holds one.
    pub fn as_bool(&self) -> (flag: Option<bool>)
        ensures
            flag == bool_of(Some(self@)),
    {
        match self {
            Json::Bool(flag) => Some(*flag),
            _ => None,
        }
    }

    /// The whole number that this value holds, where it holds one from 0 to 2^64 - 1.
    pub fn as_u64(&self) -> (number: Option<u64>)
        ensures
            number == u64_of(Some(self@)),
    {
        match self {
            Json::Number(number) => *number,
            _ => None,
        }
    }

    /// The whole number that this value holds, where it holds one from 0 to 255.
    pub fn as_u8(&self) -> (number: Option<u8>)
        ensures
            number == u8_of(Some(self@)),
    {
        match self {
            Json::Number(Some(number)) => if *number <= 255 {
                Some(*number as u8)
            } else {
                None
            },
            _ => None,
        }
    }

    /// The items of this value, where it is an array.
    pub fn as_array(&self) -> (items: Option<&Vec<Json>>)
        ensures
            items matches Some(v) ==> items_of(Some(self@)) == Some(v.deep_view()),
            items is None ==> items_of(Some(self@)) is None,
    {
        match self {
            Json::Array(items) => {
                proof {
                    array_view(*items);
                    assert(self@->Array_0 =~= items.deep_view());
                }
                Some(items)
            },
            _ => None,
        }
    }

    /// Whether this value is `null`.
    pub fn is_null(&self) -> (null: bool)
        ensures
            null == (self@ == JsonView::Null),
    {
        match self {
            Json::Null => true,
            _ => false,
        }
    }

    /// A copy of this value, with every value that it holds.
    pub fn duplicate(&self) -> (copy: Json)
        ensures
            copy@ == self@,
        decreases self,
    {
        match self {
            Json::Null => Json::Null,
            Json::Bool(flag) => Json::Bool(*flag),
            Json::Number(number) => Json::Number(*number),
            Json::Text(text) => Json::Text(text.clone()),
            Json::Array(items) => {
                let mut copies: Vec<Json> = Vec::new();
                let mut i: usize = 0;
                while i < items.len()
                    invariant
                        i <= items.len(),
                        copies.len() == i,
                        *self == Json::Array(*items),
                        forall|j: int| 0 <= j < i ==> copies[j]@ == items[j]@,
                    decreases items.len() - i,
                {
                    assert(decreases_to!(*self => self->Array_0));
                    copies.push(items[i].duplicate());
                    i = i + 1;
                }
                proof {
                    array_view(*items);
                    array_view(copies);
                    assert(Json::Array(copies)@->Array_0 =~= self@->Array_0);
                }
                Json::Array(copies)
            },
            Json::Object(members) => {
                let mut copies: Vec<JsonMember> = Vec::new();
                let mut i: usize = 0;
                while i < members.len()
                    invariant
                        i <= members.len(),
                        copies.len() == i,
                        *self == Json::Object(*members),
                        forall|j: int|
                            0 <= j < i ==> copies[j].name@ == members[j].name@ && copies[j].value@
                                == members[j].value@,
                    decreases members.len() - i,
                {
                    assert(decreases_to!(*self => self->Object_0));
                    copies.push(
                        JsonMember {
                            name: members[i].name.clone(),
                            value: members[i].value.duplicate(),
                        },
                    );
                    i = i + 1;
                }
                proof {
                    object_view(*members);
                    object_view(copies);
                    assert(Json::Object(copies)@->Object_0 =~= self@->Object_0);
                }
                Json::Object(copies)
            },
        }
    }
}

impl Clone for Json {
    fn clone(&self) -> (copy: Json)
        ensures
            copy@ == self@,
    {
        self.duplicate()
    }
}

impl Clone for JsonMember {
    fn clone(&self) -> (copy: JsonMember)
        ensures
            copy.name@ == self.name@,
            copy.value@ == self.value@,
    {
        JsonMember { name: self.name.clone(), value: self.value.duplicate() }
    }
}

} // verus!
