//! JSON documents as the library sees them: a tree of plain values, read from
//! bytes by `serde_json`.

use serde_json::{Error, Number, Value};
use vstd::prelude::*;
use vstd::string::*;

verus! {

/// A JSON document.
///
/// A number that is not an integer is carried by the bit pattern of its
/// IEEE-754 encoding, single (`Single`) or double (`Double`) precision; the
/// library never does arithmetic on it.
#[derive(Debug)]
pub enum Json {
    Null,
    Bool(bool),
    /// A non-negative integer.
    Unsigned(u64),
    /// A negative integer.
    Signed(i64),
    Single(u32),
    Double(u64),
    Text(String),
    Array(Vec<Json>),
    /// The members of an object, in document order.
    Object(Vec<(String, Json)>),
}

/// The mathematical value of a [`Json`] document.
pub enum JsonView {
    Null,
    Bool(bool),
    Unsigned(u64),
    Signed(i64),
    Single(u32),
    Double(u64),
    Text(Seq<char>),
    Array(Seq<JsonView>),
    Object(Seq<(Seq<char>, JsonView)>),
}

/// The value of a document, node by node.
pub open spec fn document_value(doc: Json) -> JsonView
    decreases doc,
{
    match doc {
        Json::Null => JsonView::Null,
        Json::Bool(b) => JsonView::Bool(b),
        Json::Unsigned(n) => JsonView::Unsigned(n),
        Json::Signed(n) => JsonView::Signed(n),
        Json::Single(bits) => JsonView::Single(bits),
        Json::Double(bits) => JsonView::Double(bits),
        Json::Text(s) => JsonView::Text(s@),
        Json::Array(items) => JsonView::Array(
            Seq::new(
                items@.len(),
                |i: int|
                    if 0 <= i < items@.len() {
                        document_value(items@[i])
                    } else {
                        JsonView::Null
                    },
            ),
        ),
        Json::Object(members) => JsonView::Object(
            Seq::new(
                members@.len(),
                |i: int|
                    if 0 <= i < members@.len() {
                        (members@[i].0@, document_value(members@[i].1))
                    } else {
                        (Seq::<char>::empty(), JsonView::Null)
                    },
            ),
        ),
    }
}

impl View for Json {
    type V = JsonView;

    open spec fn view(&self) -> JsonView {
        document_value(*self)
    }
}

/// The values of a sequence of documents, item by item.
pub open spec fn views_of(items: Seq<Json>) -> Seq<JsonView> {
    Seq::new(items.len(), |i: int| items[i]@)
}

/// The names and values of a sequence of members, member by member.
pub open spec fn member_views(members: Seq<(String, Json)>) -> Seq<(Seq<char>, JsonView)> {
    Seq::new(members.len(), |i: int| (members[i].0@, members[i].1@))
}

/// The value of an optional document.
pub open spec fn optional_view(value: Option<Json>) -> Option<JsonView> {
    match value {
        Some(value) => Some(value@),
        None => None,
    }
}

/// The member that an optional field contributes to an object: one member
/// where the field is set, none where it is not.
pub open spec fn optional_entry(key: Seq<char>, value: Option<JsonView>) -> Seq<
    (Seq<char>, JsonView),
> {
    match value {
        Some(value) => seq![(key, value)],
        None => Seq::empty(),
    }
}

/// The value of the first member named `key` among `members`, if there is one.
pub open spec fn find_member(members: Seq<(Seq<char>, JsonView)>, key: Seq<char>) -> Option<
    JsonView,
>
    decreases members.len(),
{
    if members.len() == 0 {
        None
    } else if members[0].0 == key {
        Some(members[0].1)
    } else {
        find_member(members.drop_first(), key)
    }
}

/// Looking a name up in two runs of members, one after the other, finds the
/// first run's member where it has one, and the second run's otherwise.
pub proof fn lemma_find_member_concat(
    first: Seq<(Seq<char>, JsonView)>,
    second: Seq<(Seq<char>, JsonView)>,
    key: Seq<char>,
)
    ensures
        find_member(first + second, key) == match find_member(first, key) {
            Some(value) => Some(value),
            None => find_member(second, key),
        },
    decreases first.len(),
{
    if first.len() == 0 {
        assert(first + second =~= second);
    } else {
        assert((first + second).drop_first() =~= first.drop_first() + second);
        lemma_find_member_concat(first.drop_first(), second, key);
    }
}

/// What a lookup finds in the member of an optional field: the field's
/// value under the field's name, nothing under another name.
pub proof fn lemma_find_optional_entry(name: Seq<char>, value: Option<JsonView>, key: Seq<char>)
    ensures
        find_member(optional_entry(name, value), key) == if name == key {
            value
        } else {
            None
        },
{
    reveal_with_fuel(find_member, 2);
    if value is Some {
        let entry = optional_entry(name, value);
        assert(entry.len() == 1);
        assert(entry[0] == (name, value->0));
        assert(entry.drop_first() =~= Seq::<(Seq<char>, JsonView)>::empty());
    }
}

impl JsonView {
    /// The member named `key` of an object; `None` for a missing member and
    /// for a document that is not an object.
    pub open spec fn member(self, key: Seq<char>) -> Option<JsonView> {
        match self {
            JsonView::Object(members) => find_member(members, key),
            _ => None,
        }
    }

    /// The text of a JSON string.
    pub open spec fn text(self) -> Option<Seq<char>> {
        match self {
            JsonView::Text(s) => Some(s),
            _ => None,
        }
    }

    /// The value of a non-negative integer.
    pub open spec fn unsigned(self) -> Option<u64> {
        match self {
            JsonView::Unsigned(n) => Some(n),
            _ => None,
        }
    }

    /// The text of the member named `key`, where that member is a string.
    pub open spec fn text_member(self, key: Seq<char>) -> Option<Seq<char>> {
        match self.member(key) {
            Some(value) => value.text(),
            None => None,
        }
    }

    /// The value of the member named `key`, where that member is a
    /// non-negative integer of at most 32 bits.
    pub open spec fn u32_member(self, key: Seq<char>) -> Option<u32> {
        match self.member(key) {
            Some(JsonView::Unsigned(n)) => if n <= u32::MAX {
                Some(n as u32)
            } else {
                None
            },
            _ => None,
        }
    }

    /// The member named `key`, where it is present and not `null`.
    pub open spec fn optional_member(self, key: Seq<char>) -> Option<JsonView> {
        match self.member(key) {
            Some(JsonView::Null) => None,
            Some(value) => Some(value),
            None => None,
        }
    }

    /// Whether the member named `key` is absent, `null` or a string.
    pub open spec fn optional_text_ok(self, key: Seq<char>) -> bool {
        match self.optional_member(key) {
            Some(value) => value is Text,
            None => true,
        }
    }

    /// The items of an array.
    pub open spec fn items(self) -> Option<Seq<JsonView>> {
        match self {
            JsonView::Array(items) => Some(items),
            _ => None,
        }
    }
}

/// What `serde_json` reads from `bytes`: the document, or `None` where the
/// bytes are not one JSON text.
pub uninterp spec fn parsed_document(bytes: Seq<u8>) -> Option<JsonView>;

#[verifier::external_type_specification]
#[verifier::external_body]
pub struct ExValue(Value);

#[verifier::external_type_specification]
#[verifier::external_body]
pub struct ExNumber(Number);

#[verifier::external_type_specification]
#[verifier::external_body]
pub struct ExError(Error);

/// Copies a `serde_json::Number`, told apart by its `as_u64`, `as_i64` and
/// `as_f64`: a non-negative integer, a negative integer, or the bits of a
/// double. Nothing is claimed of the result.
#[verifier::external_body]
fn copy_number(number: &Number) -> Json {
    match (number.as_u64(), number.as_i64(), number.as_f64()) {
        (Some(n), _, _) => Json::Unsigned(n),
        (_, Some(n), _) => Json::Signed(n),
        (_, _, Some(x)) => Json::Double(x.to_bits()),
        _ => Json::Null,
    }
}

/// Copies a `serde_json::Value` node for node, an object's members in the
/// order in which its map hands them out. Nothing is claimed of the result.
#[verifier::external_body]
fn copy_value(value: &Value) -> Json {
    match value {
        Value::Null => Json::Null,
        Value::Bool(b) => Json::Bool(*b),
        Value::Number(n) => copy_number(n),
        Value::String(s) => Json::Text(s.clone()),
        Value::Array(items) => Json::Array(items.iter().map(copy_value).collect()),
        Value::Object(map) => Json::Object(
            map.iter().map(|(k, v)| (k.clone(), copy_value(v))).collect(),
        ),
    }
}

/// Calls `serde_json::from_slice` for a `serde_json::Value` and copies what
/// it returns. The contract claims that the outcome is a function of the
/// bytes alone, and gives it a name: the same bytes always read as the same
/// document, and the call fails exactly where they read as none. Nothing is
/// claimed about which bytes are JSON.
#[verifier::external_body]
fn read_document(bytes: &[u8]) -> (r: Result<Json, Error>)
    ensures
        r matches Ok(doc) ==> parsed_document(bytes@) == Some(doc@),
        r is Err ==> parsed_document(bytes@) is None,
{
    match serde_json::from_slice::<Value>(bytes) {
        Ok(value) => Ok(copy_value(&value)),
        Err(error) => Err(error),
    }
}

/// Calls `to_string` on a `serde_json::Error` for its message. Nothing is
/// claimed of the text.
#[verifier::external_body]
fn describe(error: &Error) -> String {
    error.to_string()
}

/// Compares two string slices with `==` of `str`: true exactly where they
/// hold the same characters.
#[verifier::external_body]
pub(crate) fn same_text(a: &str, b: &str) -> (r: bool)
    ensures
        r == (a@ == b@),
{
    a == b
}

impl Json {
    /// Reads a document from bytes; on failure the parser's message.
    pub fn parse(bytes: &[u8]) -> (r: Result<Json, String>)
        ensures
            r matches Ok(doc) ==> parsed_document(bytes@) == Some(doc@),
            r is Err ==> parsed_document(bytes@) is None,
    {
        match read_document(bytes) {
            Ok(doc) => Ok(doc),
            Err(error) => Err(describe(&error)),
        }
    }

    /// The object with these members.
    pub fn object(members: Vec<(String, Json)>) -> (doc: Json)
        ensures
            doc@ == JsonView::Object(member_views(members@)),
    {
        let doc = Json::Object(members);
        proof {
            assert(doc@->Object_0 =~= member_views(members@));
        }
        doc
    }

    /// The array with these items.
    pub fn array(items: Vec<Json>) -> (doc: Json)
        ensures
            doc@ == JsonView::Array(views_of(items@)),
    {
        let doc = Json::Array(items);
        proof {
            assert(doc@->Array_0 =~= views_of(items@));
        }
        doc
    }

    /// The JSON string with this text.
    pub fn text(text: &str) -> (doc: Json)
        ensures
            doc@ == JsonView::Text(text@),
    {
        Json::Text(String::from_str(text))
    }

    /// Appends the member `key: value` to the members of an object.
    pub fn push_member(members: &mut Vec<(String, Json)>, key: &str, value: Json)
        ensures
            member_views(final(members)@) == member_views(old(members)@).push((key@, value@)),
    {
        members.push((String::from_str(key), value));
        proof {
            assert(member_views(members@) =~= member_views(old(members)@).push((key@, value@)));
        }
    }

    /// Appends the member `key: value` where there is a value, and nothing
    /// where there is none.
    pub fn push_optional(members: &mut Vec<(String, Json)>, key: &str, value: Option<Json>)
        ensures
            member_views(final(members)@) == member_views(old(members)@) + optional_entry(
                key@,
                optional_view(value),
            ),
    {
        match value {
            Some(value) => {
                Json::push_member(members, key, value);
                proof {
                    assert(member_views(members@) =~= member_views(old(members)@) + seq![
                        (key@, value@),
                    ]);
                }
            },
            None => {
                proof {
                    assert(member_views(members@) =~= member_views(old(members)@)
                        + Seq::<(Seq<char>, JsonView)>::empty());
                }
            },
        }
    }

    /// A copy of the document.
    pub fn duplicate(&self) -> (copy: Json)
        ensures
            copy@ == self@,
        decreases self,
    {
        match self {
            Json::Null => Json::Null,
            Json::Bool(b) => Json::Bool(*b),
            Json::Unsigned(n) => Json::Unsigned(*n),
            Json::Signed(n) => Json::Signed(*n),
            Json::Single(bits) => Json::Single(*bits),
            Json::Double(bits) => Json::Double(*bits),
            Json::Text(s) => Json::Text(s.clone()),
            Json::Array(items) => {
                let mut copies: Vec<Json> = Vec::new();
                let mut i: usize = 0;
                while i < items.len()
                    invariant
                        i <= items.len(),
                        copies@.len() == i,
                        *self == Json::Array(*items),
                        forall|j: int| 0 <= j < i ==> copies@[j]@ == items@[j]@,
                    decreases items.len() - i,
                {
                    proof {
                        assert(decreases_to!(*items => items[i as int]));
                        assert(self->Array_0 == *items);
                        assert(decreases_to!(*self => self->Array_0));
                    }
                    copies.push(items[i].duplicate());
                    i = i + 1;
                }
                let copy = Json::Array(copies);
                proof {
                    assert(copy@->Array_0 =~= self@->Array_0);
                }
                copy
            },
            Json::Object(members) => {
                let mut copies: Vec<(String, Json)> = Vec::new();
                let mut i: usize = 0;
                while i < members.len()
                    invariant
                        i <= members.len(),
                        copies@.len() == i,
                        *self == Json::Object(*members),
                        forall|j: int|
                            0 <= j < i ==> copies@[j].0@ == members@[j].0@ && copies@[j].1@
                                == members@[j].1@,
                    decreases members.len() - i,
                {
                    proof {
                        assert(decreases_to!(*members => members[i as int]));
                        assert(self->Object_0 == *members);
                        assert(decreases_to!(*self => self->Object_0));
                        assert(decreases_to!(members[i as int] => members[i as int].1));
                    }
                    copies.push((members[i].0.clone(), members[i].1.duplicate()));
                    i = i + 1;
                }
                let copy = Json::Object(copies);
                proof {
                    assert(copy@->Object_0 =~= self@->Object_0);
                }
                copy
            },
        }
    }

    /// The member named `key`, if this is an object that has one.
    pub fn get(&self, key: &str) -> (r: Option<&Json>)
        ensures
            match r {
                Some(value) => self@.member(key@) == Some(value@),
                None => self@.member(key@) is None,
            },
    {
        match self {
            Json::Object(members) => {
                let ghost all = Seq::new(
                    members@.len(),
                    |j: int| (members@[j].0@, members@[j].1@),
                );
                proof {
                    assert(self@->Object_0 =~= all);
                    assert(all.skip(0) =~= all);
                }
                let mut i: usize = 0;
                while i < members.len()
                    invariant
                        i <= members.len(),
                        self@ == JsonView::Object(all),
                        all.len() == members@.len(),
                        forall|j: int|
                            0 <= j < members@.len() ==> all[j] == (
                                members@[j].0@,
                                members@[j].1@,
                            ),
                        find_member(all, key@) == find_member(all.skip(i as int), key@),
                    decreases members.len() - i,
                {
                    proof {
                        assert(all.skip(i as int).drop_first() == all.skip(i + 1));
                    }
                    if same_text(members[i].0.as_str(), key) {
                        return Some(&members[i].1);
                    }
                    i = i + 1;
                }
                None
            },
            _ => None,
        }
    }

    /// The text of the member named `key`, if that member is a string.
    pub fn text_member(&self, key: &str) -> (r: Option<String>)
        ensures
            match r {
                Some(s) => self@.text_member(key@) == Some(s@),
                None => self@.text_member(key@) is None,
            },
    {
        match self.get(key) {
            Some(Json::Text(s)) => Some(s.clone()),
            _ => None,
        }
    }

    /// The member named `key`, if that member is an integer from 0 to
    /// 4294967295.
    pub fn u32_member(&self, key: &str) -> (r: Option<u32>)
        ensures
            r == self@.u32_member(key@),
    {
        match self.get(key) {
            Some(Json::Unsigned(n)) => if *n <= u32::MAX as u64 {
                Some(*n as u32)
            } else {
                None
            },
            _ => None,
        }
    }

    /// A copy of the member named `key`, if it is present and not `null`.
    pub fn optional_member(&self, key: &str) -> (r: Option<Json>)
        ensures
            match r {
                Some(value) => self@.optional_member(key@) == Some(value@),
                None => self@.optional_member(key@) is None,
            },
    {
        match self.get(key) {
            Some(Json::Null) => None,
            Some(value) => Some(value.duplicate()),
            None => None,
        }
    }

    /// The text of an optional string member: `Some(None)` where the member is
    /// absent or `null`, `None` where it is present and no string.
    pub fn optional_text_member(&self, key: &str) -> (r: Option<Option<String>>)
        ensures
            r is Some <==> self@.optional_text_ok(key@),
            match r {
                Some(Some(s)) => self@.optional_member(key@) == Some(JsonView::Text(s@)),
                Some(None) => self@.optional_member(key@) is None,
                None => true,
            },
    {
        match self.get(key) {
            Some(Json::Null) => Some(None),
            Some(Json::Text(s)) => Some(Some(s.clone())),
            Some(_) => None,
            None => Some(None),
        }
    }

    /// The text, if this is a JSON string.
    pub fn as_str(&self) -> (r: Option<&str>)
        ensures
            match r {
                Some(s) => self@.text() == Some(s@),
                None => self@.text() is None,
            },
    {
        match self {
            Json::Text(s) => Some(s.as_str()),
            _ => None,
        }
    }

    /// The value, if this is a non-negative integer.
    pub fn as_u64(&self) -> (r: Option<u64>)
        ensures
            r == self@.unsigned(),
    {
        match self {
            Json::Unsigned(n) => Some(*n),
            _ => None,
        }
    }

    /// The items, if this is an array.
    pub fn as_array(&self) -> (r: Option<&Vec<Json>>)
        ensures
            match r {
                Some(items) => self@.items() == Some(views_of(items@)),
                None => self@.items() is None,
            },
    {
        match self {
            Json::Array(items) => {
                proof {
                    assert(self@->Array_0 =~= views_of(items@));
                }
                Some(items)
            },
            _ => None,
        }
    }
}

/// Types that are read from a JSON document.
pub trait FromJson: Sized {
    /// Whether `doc` has the shape that this type is read from.
    spec fn accepts(doc: JsonView) -> bool;

    /// Whether `self` holds, field by field, what `doc` says.
    spec fn agrees_with(&self, doc: JsonView) -> bool;

    /// Reads a value from `doc`: `Some` exactly where `doc` has the shape.
    fn from_json(doc: &Json) -> (r: Option<Self>)
        ensures
            r is Some <==> Self::accepts(doc@),
            r matches Some(value) ==> value.agrees_with(doc@),
    ;
}

/// Types that are written as a JSON document.
pub trait ToJson {
    /// The document that this value is written as.
    spec fn json(&self) -> JsonView;

    fn to_json(&self) -> (doc: Json)
        ensures
            doc@ == self.json(),
    ;
}

} // verus!
