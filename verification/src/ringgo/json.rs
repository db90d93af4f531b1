//! JSON documents as the provider sends them, held as a tree of plain values.
//!
//! The text of a reply is parsed by `serde_json`; everything that reads the
//! resulting tree is verified here.

use vstd::prelude::*;

verus! {

/// `serde_json::Value`, the parser's own tree. It only passes from the parser
/// to the conversion into [`Json`]; nothing else reads it.
#[verifier::external_type_specification]
#[verifier::external_body]
pub struct ExValue(serde_json::Value);

/// A JSON document.
#[derive(Debug, PartialEq, Eq)]
pub enum Json {
    /// `null`.
    Null,
    /// `true` or `false`.
    Bool(bool),
    /// A number: `Some` with its value where the parser holds it as an
    /// integer that fits in 64 bits with a sign, `None` for every other
    /// number.
    Number(Option<i64>),
    /// A string.
    Text(String),
    /// An array, in the order of the document.
    Array(Vec<Json>),
    /// An object: its members, each a name and a value. Where a name occurs
    /// more than once, its first member is the one that counts.
    Object(Vec<(String, Json)>),
}

/// What a [`Json`] document holds, with every string as its characters.
pub enum JsonView {
    Null,
    Bool(bool),
    Number(Option<i64>),
    Text(Seq<char>),
    Array(Seq<JsonView>),
    Object(Seq<(Seq<char>, JsonView)>),
}

/// What `json` holds, with every string as its characters.
pub open spec fn json_view(json: Json) -> JsonView
    decreases json,
{
    match json {
        Json::Null => JsonView::Null,
        Json::Bool(flag) => JsonView::Bool(flag),
        Json::Number(value) => JsonView::Number(value),
        Json::Text(text) => JsonView::Text(text@),
        Json::Array(items) => JsonView::Array(
            Seq::new(
                items@.len(),
                |i: int|
                    if 0 <= i < items@.len() {
                        json_view(items@[i])
                    } else {
                        JsonView::Null
                    },
            ),
        ),
        Json::Object(members) => JsonView::Object(
            Seq::new(
                members@.len(),
                |i: int|
                    if 0 <= i < members@.len() {
                        (members@[i].0@, json_view(members@[i].1))
                    } else {
                        (Seq::empty(), JsonView::Null)
                    },
            ),
        ),
    }
}

impl View for Json {
    type V = JsonView;

    open spec fn view(&self) -> JsonView {
        json_view(*self)
    }
}

/// The value of the first of `members` that is named `name`, or `None` where
/// none of them is.
pub open spec fn spec_member(members: Seq<(Seq<char>, JsonView)>, name: Seq<char>) -> Option<
    JsonView,
>
    decreases members.len(),
{
    if members.len() == 0 {
        None
    } else if members[0].0 == name {
        Some(members[0].1)
    } else {
        spec_member(members.drop_first(), name)
    }
}

impl JsonView {
    /// The member named `name`, where this document is an object that has
    /// one.
    pub open spec fn field(self, name: Seq<char>) -> Option<JsonView> {
        match self {
            JsonView::Object(members) => spec_member(members, name),
            _ => None,
        }
    }

    /// The string that the member named `name` holds, where this document is
    /// an object and that member a string.
    pub open spec fn text_field(self, name: Seq<char>) -> Option<Seq<char>> {
        match self.field(name) {
            Some(JsonView::Text(text)) => Some(text),
            _ => None,
        }
    }

    /// The integer that the member named `name` holds, where this document is
    /// an object and that member an integer of at most 64 bits.
    pub open spec fn integer_field(self, name: Seq<char>) -> Option<i64> {
        match self.field(name) {
            Some(JsonView::Number(Some(value))) => Some(value),
            _ => None,
        }
    }

    /// The truth value that the member named `name` holds, where this
    /// document is an object and that member `true` or `false`.
    pub open spec fn bool_field(self, name: Seq<char>) -> Option<bool> {
        match self.field(name) {
            Some(JsonView::Bool(flag)) => Some(flag),
            _ => None,
        }
    }

    /// The items of the array that the member named `name` holds, where this
    /// document is an object and that member an array.
    pub open spec fn array_field(self, name: Seq<char>) -> Option<Seq<JsonView>> {
        match self.field(name) {
            Some(JsonView::Array(items)) => Some(items),
            _ => None,
        }
    }
}

/// The document that `serde_json` reads from `body`, or `None` where it reads
/// none.
pub uninterp spec fn parsed_json(body: Seq<u8>) -> Option<JsonView>;

/// Rebuilds a tree of `serde_json::Value` as a [`Json`], variant by variant
/// and child by child, for [`parse_json`]. A number is kept as what
/// `serde_json::Number::as_i64` gives for it, the members of an object in the
/// order in which `serde_json::Map` hands them out. Nothing is claimed of the
/// result.
#[verifier::external_body]
fn json_from_value(value: serde_json::Value) -> Json {
    match value {
        serde_json::Value::Null => Json::Null,
        serde_json::Value::Bool(flag) => Json::Bool(flag),
        serde_json::Value::Number(number) => Json::Number(number.as_i64()),
        serde_json::Value::String(text) => Json::Text(text),
        serde_json::Value::Array(items) => Json::Array(
            items.into_iter().map(json_from_value).collect(),
        ),
        serde_json::Value::Object(members) => Json::Object(
            members.into_iter().map(|(name, value)| (name, json_from_value(value))).collect(),
        ),
    }
}

/// Calls `serde_json::from_slice` on `body` and rebuilds what it reads as a
/// [`Json`]. The contract claims that the outcome depends on the bytes alone,
/// and gives it the name [`parsed_json`]; it claims nothing about which bytes
/// parse, or into what.
#[verifier::external_body]
pub(crate) fn parse_json(body: &[u8]) -> (document: Option<Json>)
    ensures
        match document {
            Some(json) => parsed_json(body@) == Some(json@),
            None => parsed_json(body@) is None,
        },
{
    match serde_json::from_slice::<serde_json::Value>(body) {
        Ok(value) => Some(json_from_value(value)),
        Err(_) => None,
    }
}

/// What a list of members holds, with every string as its characters.
pub open spec fn members_view(members: Seq<(String, Json)>) -> Seq<(Seq<char>, JsonView)> {
    Seq::new(members.len(), |i: int| (members[i].0@, members[i].1@))
}

/// What a list of documents holds, with every string as its characters.
pub open spec fn items_view(items: Seq<Json>) -> Seq<JsonView> {
    Seq::new(items.len(), |i: int| items[i]@)
}

/// An object is viewed member by member, an array item by item.
pub proof fn lemma_view_of_children(json: Json)
    ensures
        json matches Json::Object(members) ==> json@ == JsonView::Object(members_view(members@)),
        json matches Json::Array(items) ==> json@ == JsonView::Array(items_view(items@)),
{
    match json {
        Json::Object(members) => {
            assert(json@->Object_0 =~= members_view(members@));
        },
        Json::Array(items) => {
            assert(json@->Array_0 =~= items_view(items@));
        },
        _ => {},
    }
}

fn member<'a>(members: &'a Vec<(String, Json)>, name: &str) -> (found: Option<&'a Json>)
    ensures
        match found {
            Some(value) => spec_member(members_view(members@), name@) == Some(value@),
            None => spec_member(members_view(members@), name@) is None,
        },
{
    let wanted = String::from_str(name);
    let ghost all = members_view(members@);
    let mut index: usize = 0;
    assert(all.subrange(0, all.len() as int) =~= all);
    while index < members.len()
        invariant
            index <= members.len(),
            wanted@ == name@,
            all == members_view(members@),
            spec_member(all, name@) == spec_member(
                all.subrange(index as int, all.len() as int),
                name@,
            ),
        decreases members.len() - index,
    {
        let ghost rest = all.subrange(index as int, all.len() as int);
        assert(rest[0] == all[index as int]);
        if members[index].0 == wanted {
            return Some(&members[index].1);
        }
        assert(rest.drop_first() =~= all.subrange(index + 1, all.len() as int));
        index += 1;
    }
    None
}

impl Json {
    /// Looks up the member named `name`: the first one of that name, where
    /// this document is an object.
    pub fn field(&self, name: &str) -> (found: Option<&Json>)
        ensures
            match found {
                Some(value) => self@.field(name@) == Some(value@),
                None => self@.field(name@) is None,
            },
    {
        proof {
            lemma_view_of_children(*self);
        }
        match self {
            Json::Object(members) => member(members, name),
            _ => None,
        }
    }

    /// Looks up the member named `name` and returns the string it holds.
    pub fn text_field(&self, name: &str) -> (found: Option<&String>)
        ensures
            match found {
                Some(text) => self@.text_field(name@) == Some(text@),
                None => self@.text_field(name@) is None,
            },
    {
        match self.field(name) {
            Some(Json::Text(text)) => Some(text),
            _ => None,
        }
    }

    /// Looks up the member named `name` and returns the integer it holds.
    pub fn integer_field(&self, name: &str) -> (found: Option<i64>)
        ensures
            found == self@.integer_field(name@),
    {
        match self.field(name) {
            Some(Json::Number(Some(value))) => Some(*value),
            _ => None,
        }
    }

    /// Looks up the member named `name` and returns the truth value it holds.
    pub fn bool_field(&self, name: &str) -> (found: Option<bool>)
        ensures
            found == self@.bool_field(name@),
    {
        match self.field(name) {
            Some(Json::Bool(flag)) => Some(*flag),
            _ => None,
        }
    }

    /// Looks up the member named `name` and returns the items of the array
    /// it holds.
    pub fn array_field(&self, name: &str) -> (found: Option<&Vec<Json>>)
        ensures
            match found {
                Some(items) => self@.array_field(name@) == Some(items_view(items@)),
                None => self@.array_field(name@) is None,
            },
    {
        match self.field(name) {
            Some(Json::Array(items)) => {
                proof {
                    lemma_view_of_children(Json::Array(*items));
                }
                Some(items)
            },
            _ => None,
        }
    }
}

} // verus!
