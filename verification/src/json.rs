//! JSON values as plain data.
//!
//! Tool results, argument schemas and request bodies are JSON documents. The
//! library holds them as a tree of its own, so that every rule that reads or
//! rewrites a document is verified; text is produced by `serde_json`.

use vstd::prelude::*;
use crate::text::str_eq;
use serde_json::Value;

verus! {

/// A JSON number, in the three shapes a JSON parser tells apart.
#[derive(Debug, PartialEq, Eq)]
pub enum Number {
    /// A non-negative integer.
    PosInt(u64),
    /// A negative integer.
    NegInt(i64),
    /// Any other number, as the decimal text it is written with.
    Float(String),
}

/// A JSON value.
#[derive(Debug, PartialEq, Eq)]
pub enum Json {
    Null,
    Bool(bool),
    Number(Number),
    Text(String),
    Array(Vec<Json>),
    /// Members in the order they were added. Lookups take the first member
    /// with a given key.
    Object(Vec<(String, Json)>),
}

/// The mathematical model of a [`Number`].
pub enum NumberView {
    PosInt(u64),
    NegInt(i64),
    Float(Seq<char>),
}

/// The mathematical model of a [`Json`] value.
pub enum JsonView {
    Null,
    Bool(bool),
    Number(NumberView),
    Text(Seq<char>),
    Array(Seq<JsonView>),
    Object(Seq<(Seq<char>, JsonView)>),
}

impl View for Number {
    type V = NumberView;

    open spec fn view(&self) -> NumberView {
        match self {
            Number::PosInt(n) => NumberView::PosInt(*n),
            Number::NegInt(n) => NumberView::NegInt(*n),
            Number::Float(t) => NumberView::Float(t@),
        }
    }
}

/// The model of a value, by recursion on its structure.
pub open spec fn json_view(j: Json) -> JsonView
    decreases j,
{
    match j {
        Json::Null => JsonView::Null,
        Json::Bool(b) => JsonView::Bool(b),
        Json::Number(n) => JsonView::Number(n@),
        Json::Text(s) => JsonView::Text(s@),
        Json::Array(items) => JsonView::Array(
            Seq::new(
                items@.len(),
                |i: int|
                    if 0 <= i < items@.len() {
                        json_view(items@[i])
                    } else {
                        JsonView::Null
                    },
            ),
        ),
        Json::Object(members) => JsonView::Object(
            Seq::new(
                members@.len(),
                |i: int|
                    if 0 <= i < members@.len() {
                        (members@[i].0@, json_view(members@[i].1))
                    } else {
                        (Seq::empty(), JsonView::Null)
                    },
            ),
        ),
    }
}

impl View for Json {
    type V = JsonView;

    open spec fn view(&self) -> JsonView {
        json_view(*self)
    }
}

/// The models of a list of values.
pub open spec fn items_view(items: Seq<Json>) -> Seq<JsonView> {
    Seq::new(items.len(), |i: int| items[i]@)
}

/// The models of a list of object members.
pub open spec fn members_view(members: Seq<(String, Json)>) -> Seq<(Seq<char>, JsonView)> {
    Seq::new(members.len(), |i: int| (members[i].0@, members[i].1@))
}

/// An array's model is the list of its items' models.
pub proof fn lemma_array_view(items: Vec<Json>)
    ensures
        Json::Array(items)@ == JsonView::Array(items_view(items@)),
{
    let a = Json::Array(items)@;
    assert(a is Array);
    assert(a->Array_0.len() == items@.len());
    assert forall|i: int| 0 <= i < items@.len() implies a->Array_0[i] == items_view(items@)[i] by {}
    assert(a->Array_0 =~= items_view(items@));
}

/// An object's model is the list of its members' models.
pub proof fn lemma_object_view(members: Vec<(String, Json)>)
    ensures
        Json::Object(members)@ == JsonView::Object(members_view(members@)),
{
    let o = Json::Object(members)@;
    assert(o is Object);
    assert(o->Object_0.len() == members@.len());
    assert forall|i: int| 0 <= i < members@.len() implies o->Object_0[i] == members_view(
        members@,
    )[i] by {}
    assert(o->Object_0 =~= members_view(members@));
}

/// The index of the first member with the given key, if any.
pub open spec fn spec_position(members: Seq<(Seq<char>, JsonView)>, key: Seq<char>) -> Option<int>
    decreases members.len(),
{
    if members.len() == 0 {
        None
    } else if members[0].0 == key {
        Some(0)
    } else {
        match spec_position(members.drop_first(), key) {
            Some(i) => Some(i + 1),
            None => None,
        }
    }
}

/// What `spec_position` finds is the first member with the key; it finds
/// none exactly when no member has the key.
pub proof fn lemma_position(members: Seq<(Seq<char>, JsonView)>, key: Seq<char>)
    ensures
        match spec_position(members, key) {
            Some(i) => 0 <= i < members.len() && members[i].0 == key && forall|j: int|
                0 <= j < i ==> members[j].0 != key,
            None => forall|j: int| 0 <= j < members.len() ==> members[j].0 != key,
        },
    decreases members.len(),
{
    if members.len() > 0 && members[0].0 != key {
        let rest = members.drop_first();
        lemma_position(rest, key);
        match spec_position(rest, key) {
            Some(i) => {
                assert forall|j: int| 0 <= j < i + 1 implies members[j].0 != key by {
                    if j > 0 {
                        assert(members[j] == rest[j - 1]);
                    }
                }
            },
            None => {
                assert forall|j: int| 0 <= j < members.len() implies members[j].0 != key by {
                    if j > 0 {
                        assert(members[j] == rest[j - 1]);
                    }
                }
            },
        }
    }
}

/// The value of the first member with the given key, if any.
pub open spec fn spec_member(members: Seq<(Seq<char>, JsonView)>, key: Seq<char>) -> Option<
    JsonView,
> {
    match spec_position(members, key) {
        Some(i) => Some(members[i].1),
        None => None,
    }
}

/// The members without the first one that has the given key.
pub open spec fn spec_without(members: Seq<(Seq<char>, JsonView)>, key: Seq<char>) -> Seq<
    (Seq<char>, JsonView),
> {
    match spec_position(members, key) {
        Some(i) => members.remove(i),
        None => members,
    }
}

/// No key occurs twice among the members.
pub open spec fn distinct_keys(members: Seq<(Seq<char>, JsonView)>) -> bool {
    forall|i: int, j: int|
        0 <= i < j < members.len() ==> (#[trigger] members[i]).0 != (#[trigger] members[j]).0
}

/// The members after setting `key` to `value`: the first member with that
/// key is replaced where it stands, or a new member is added at the end.
pub open spec fn spec_with(
    members: Seq<(Seq<char>, JsonView)>,
    key: Seq<char>,
    value: JsonView,
) -> Seq<(Seq<char>, JsonView)> {
    match spec_position(members, key) {
        Some(i) => members.update(i, (key, value)),
        None => members.push((key, value)),
    }
}

impl JsonView {
    /// The member `key` of an object; `None` for a missing member and for a
    /// value that is no object.
    pub open spec fn member(self, key: Seq<char>) -> Option<JsonView> {
        match self {
            JsonView::Object(members) => spec_member(members, key),
            _ => None,
        }
    }

    /// The member `key` of an object, or `Null` where there is none: JSON
    /// indexing by a string.
    pub open spec fn at_key(self, key: Seq<char>) -> JsonView {
        match self.member(key) {
            Some(v) => v,
            None => JsonView::Null,
        }
    }

    /// The item `i` of an array, or `Null` where there is none: JSON
    /// indexing by a number.
    pub open spec fn at_index(self, i: int) -> JsonView {
        match self {
            JsonView::Array(items) => if 0 <= i < items.len() {
                items[i]
            } else {
                JsonView::Null
            },
            _ => JsonView::Null,
        }
    }

    /// The text of a string value.
    pub open spec fn as_text(self) -> Option<Seq<char>> {
        match self {
            JsonView::Text(s) => Some(s),
            _ => None,
        }
    }

    /// The value of a non-negative integer.
    pub open spec fn as_u64(self) -> Option<u64> {
        match self {
            JsonView::Number(NumberView::PosInt(n)) => Some(n),
            _ => None,
        }
    }
}

impl Clone for Number {
    fn clone(&self) -> (r: Self)
        ensures
            r@ == self@,
    {
        match self {
            Number::PosInt(n) => Number::PosInt(*n),
            Number::NegInt(n) => Number::NegInt(*n),
            Number::Float(t) => Number::Float(t.clone()),
        }
    }
}

impl Clone for Json {
    fn clone(&self) -> (r: Self)
        ensures
            r@ == self@,
    {
        deep_copy(self)
    }
}

/// A copy of a value, member by member.
fn deep_copy(value: &Json) -> (r: Json)
    ensures
        r@ == value@,
    decreases value,
{
    {
        match value {
            Json::Null => Json::Null,
            Json::Bool(b) => Json::Bool(*b),
            Json::Number(n) => Json::Number(n.clone()),
            Json::Text(s) => Json::Text(s.clone()),
            Json::Array(items) => {
                let mut out: Vec<Json> = Vec::new();
                let mut i: usize = 0;
                while i < items.len()
                    invariant
                        i <= items.len(),
                        out@.len() == i,
                        *value == Json::Array(*items),
                        forall|j: int| 0 <= j < i ==> out@[j]@ == items@[j]@,
                    decreases items.len() - i,
                {
                    proof {
                        assert(value->Array_0 == *items);
                        vstd::std_specs::vec::axiom_vec_index_decreases(*items, i as int);
                    }
                    out.push(deep_copy(&items[i]));
                    i += 1;
                }
                proof {
                    lemma_array_view(*items);
                    lemma_array_view(out);
                    assert(items_view(out@) =~= items_view(items@));
                }
                Json::Array(out)
            },
            Json::Object(members) => {
                let mut out: Vec<(String, Json)> = Vec::new();
                let mut i: usize = 0;
                while i < members.len()
                    invariant
                        i <= members.len(),
                        out@.len() == i,
                        *value == Json::Object(*members),
                        forall|j: int|
                            0 <= j < i ==> out@[j].0@ == members@[j].0@ && out@[j].1@
                                == members@[j].1@,
                    decreases members.len() - i,
                {
                    proof {
                        assert(value->Object_0 == *members);
                        vstd::std_specs::vec::axiom_vec_index_decreases(*members, i as int);
                    }
                    out.push((members[i].0.clone(), deep_copy(&members[i].1)));
                    i += 1;
                }
                proof {
                    lemma_object_view(*members);
                    lemma_object_view(out);
                    assert(members_view(out@) =~= members_view(members@));
                }
                Json::Object(out)
            },
        }
    }
}

impl Json {
    /// Whether the value is a string.
    pub fn is_string(&self) -> (r: bool)
        ensures
            r == (self@ is Text),
    {
        match self {
            Json::Text(_) => true,
            _ => false,
        }
    }

    /// Whether the value is a number.
    pub fn is_number(&self) -> (r: bool)
        ensures
            r == (self@ is Number),
    {
        match self {
            Json::Number(_) => true,
            _ => false,
        }
    }

    /// Whether the value is `null`.
    pub fn is_null(&self) -> (r: bool)
        ensures
            r == (self@ is Null),
    {
        match self {
            Json::Null => true,
            _ => false,
        }
    }

    /// The text of a string value.
    pub fn as_str(&self) -> (r: Option<&str>)
        ensures
            match r {
                Some(s) => self@.as_text() == Some(s@),
                None => self@.as_text() is None,
            },
    {
        match self {
            Json::Text(s) => Some(s.as_str()),
            _ => None,
        }
    }

    /// The value of a non-negative integer.
    pub fn as_u64(&self) -> (r: Option<u64>)
        ensures
            r == self@.as_u64(),
    {
        match self {
            Json::Number(Number::PosInt(n)) => Some(*n),
            _ => None,
        }
    }

    /// The items of an array.
    pub fn as_array(&self) -> (r: Option<&Vec<Json>>)
        ensures
            match r {
                Some(items) => self@ == JsonView::Array(items_view(items@)),
                None => !(self@ is Array),
            },
    {
        match self {
            Json::Array(items) => {
                proof {
                    lemma_array_view(*items);
                }
                Some(items)
            },
            _ => None,
        }
    }

    /// The member `key` of an object; `None` for a missing member and for a
    /// value that is no object.
    pub fn get(&self, key: &str) -> (r: Option<&Json>)
        ensures
            match r {
                Some(v) => self@.member(key@) == Some(v@),
                None => self@.member(key@) is None,
            },
    {
        match self {
            Json::Object(members) => {
                proof {
                    lemma_object_view(*members);
                }
                match position(members, key) {
                    Some(i) => Some(&members[i].1),
                    None => None,
                }
            },
            _ => None,
        }
    }
}

/// The index of the first member with the given key, if any.
pub fn position(members: &Vec<(String, Json)>, key: &str) -> (r: Option<usize>)
    ensures
        match r {
            Some(i) => spec_position(members_view(members@), key@) == Some(i as int) && i
                < members@.len(),
            None => spec_position(members_view(members@), key@) is None,
        },
{
    let ghost all = members_view(members@);
    let mut i: usize = 0;
    while i < members.len()
        invariant
            i <= members.len(),
            all == members_view(members@),
            forall|j: int| 0 <= j < i ==> all[j].0 != key@,
        decreases members.len() - i,
    {
        if str_eq(members[i].0.as_str(), key) {
            proof {
                lemma_position(all, key@);
                assert(all[i as int].0 == key@);
            }
            return Some(i);
        }
        i += 1;
    }
    proof {
        lemma_position(all, key@);
    }
    None
}


/// Takes the first member with the given key out of a list of members, and
/// returns its value.
pub fn remove_member(members: &mut Vec<(String, Json)>, key: &str) -> (r: Option<Json>)
    ensures
        members_view(final(members)@) == spec_without(members_view(old(members)@), key@),
        match r {
            Some(v) => spec_member(members_view(old(members)@), key@) == Some(v@),
            None => spec_member(members_view(old(members)@), key@) is None,
        },
{
    match position(members, key) {
        Some(i) => {
            let ghost before = members@;
            let removed = members.remove(i);
            assert(members_view(members@) =~= members_view(before).remove(i as int));
            Some(removed.1)
        },
        None => None,
    }
}

/// Sets the member `key` of a list of members to `value`: the first member
/// with that key is replaced where it stands, or a new member is added at
/// the end.
pub fn set_member(members: &mut Vec<(String, Json)>, key: &str, value: Json)
    ensures
        members_view(final(members)@) == spec_with(members_view(old(members)@), key@, value@),
{
    let ghost before = members@;
    match position(members, key) {
        Some(i) => {
            members.set(i, (String::from_str(key), value));
            assert(members_view(members@) =~= members_view(before).update(
                i as int,
                (key@, value@),
            ));
        },
        None => {
            members.push((String::from_str(key), value));
            assert(members_view(members@) =~= members_view(before).push((key@, value@)));
        },
    }
}

/// Setting a member keeps the keys distinct, and so does removing one.
pub proof fn lemma_edits_keep_keys_distinct(
    members: Seq<(Seq<char>, JsonView)>,
    key: Seq<char>,
    value: JsonView,
)
    requires
        distinct_keys(members),
    ensures
        distinct_keys(spec_with(members, key, value)),
        distinct_keys(spec_without(members, key)),
        spec_member(spec_with(members, key, value), key) == Some(value),
        spec_member(spec_without(members, key), key) is None,
{
    lemma_position(members, key);
    let with = spec_with(members, key, value);
    let without = spec_without(members, key);
    lemma_position(with, key);
    lemma_position(without, key);
    match spec_position(members, key) {
        Some(i) => {
            assert forall|a: int, b: int| 0 <= a < b < with.len() implies (#[trigger] with[a]).0
                != (#[trigger] with[b]).0 by {
                assert(with[a].0 == members[a].0 && with[b].0 == members[b].0);
            }
            assert forall|a: int, b: int| 0 <= a < b < without.len() implies (
            #[trigger] without[a]).0 != (#[trigger] without[b]).0 by {
                let a0 = if a < i {
                    a
                } else {
                    a + 1
                };
                let b0 = if b < i {
                    b
                } else {
                    b + 1
                };
                assert(without[a] == members[a0] && without[b] == members[b0]);
            }
            assert(with[i].0 == key);
            if spec_position(with, key) != Some(i) {
                let k = spec_position(with, key)->0;
                assert(with[k].0 == members[k].0);
                assert(false);
            }
            if spec_position(without, key) is Some {
                let k = spec_position(without, key)->0;
                let k0 = if k < i {
                    k
                } else {
                    k + 1
                };
                assert(without[k] == members[k0]);
                assert(false);
            }
        },
        None => {
            assert forall|a: int, b: int| 0 <= a < b < with.len() implies (#[trigger] with[a]).0
                != (#[trigger] with[b]).0 by {
                if b < members.len() {
                    assert(with[a] == members[a] && with[b] == members[b]);
                } else {
                    assert(with[a] == members[a]);
                }
            }
            let last = with.len() - 1;
            assert(with[last].0 == key);
            if spec_position(with, key) != Some(last) {
                let k = spec_position(with, key)->0;
                assert(with[k] == members[k]);
                assert(false);
            }
        },
    }
}


#[verifier::external_type_specification]
#[verifier::external_body]
pub struct ExValue(Value);

/// The compact JSON text that `serde_json` writes for a value.
pub uninterp spec fn json_text(value: JsonView) -> Seq<char>;

/// The same value as a `serde_json::Value`, variant by variant. A number
/// written as text is parsed by `serde_json::from_str`, and text that is no
/// number becomes `null`; of two members with one key the later one stays.
#[verifier::external_body]
fn to_value(value: &Json) -> Value {
    match value {
        Json::Null => Value::Null,
        Json::Bool(b) => Value::Bool(*b),
        Json::Number(Number::PosInt(n)) => Value::from(*n),
        Json::Number(Number::NegInt(n)) => Value::from(*n),
        Json::Number(Number::Float(t)) => serde_json::from_str(t).unwrap_or(Value::Null),
        Json::Text(s) => Value::String(s.clone()),
        Json::Array(items) => Value::Array(items.iter().map(to_value).collect()),
        Json::Object(members) => Value::Object(
            members.iter().map(|m| (m.0.clone(), to_value(&m.1))).collect(),
        ),
    }
}

/// The compact JSON text of a value, written by `serde_json`'s `Display`
/// for `Value`. The text depends on the value alone.
#[verifier::external_body]
fn render_value(value: &Json) -> (r: String)
    ensures
        r@ == json_text(value@),
{
    to_value(value).to_string()
}

/// What reading a JSON text gives: the value that the text stands for,
/// or, for a text that is no JSON, the parser's complaint. The members of
/// an object come by their keys, each key once.
pub uninterp spec fn json_parsed(text: Seq<char>) -> Result<JsonView, Seq<char>>;

/// The same value in the library's form, variant by variant. A number is
/// non-negative where `as_u64` reads it, negative where `as_i64` does, and
/// else kept as the text that `serde_json` writes for it.
#[verifier::external_body]
fn from_value(value: &Value) -> Json {
    match value {
        Value::Null => Json::Null,
        Value::Bool(b) => Json::Bool(*b),
        Value::Number(n) => Json::Number(match (n.as_u64(), n.as_i64()) {
            (Some(u), _) => Number::PosInt(u),
            (None, Some(i)) => Number::NegInt(i),
            (None, None) => Number::Float(n.to_string()),
        }),
        Value::String(s) => Json::Text(s.clone()),
        Value::Array(items) => Json::Array(items.iter().map(from_value).collect()),
        Value::Object(m) => Json::Object(m.iter().map(|e| (e.0.clone(), from_value(e.1))).collect()),
    }
}

/// The model of a value that was read, or of the complaint.
pub open spec fn parsed_view(value: Result<Json, String>) -> Result<JsonView, Seq<char>> {
    match value {
        Ok(v) => Ok(v@),
        Err(complaint) => Err(complaint@),
    }
}

/// Reads a JSON text with `serde_json::from_str`; an error comes back as
/// the text that its `Display` writes. Whether a text is JSON, which value
/// it stands for and what the complaint is depends on the text alone.
#[verifier::external_body]
fn parse_value(text: &str) -> (r: Result<Json, String>)
    ensures
        parsed_view(r) == json_parsed(text@),
{
    match serde_json::from_str::<Value>(text) {
        Ok(value) => Ok(from_value(&value)),
        Err(e) => Err(e.to_string()),
    }
}

/// The model of a value that may be missing: a missing value reads as
/// `null`.
pub open spec fn opt_view(value: Option<&Json>) -> JsonView {
    match value {
        Some(v) => v@,
        None => JsonView::Null,
    }
}

/// The member `key` of a value that may be missing.
pub fn child<'a>(value: Option<&'a Json>, key: &str) -> (r: Option<&'a Json>)
    ensures
        opt_view(r) == opt_view(value).at_key(key@),
{
    match value {
        Some(v) => v.get(key),
        None => None,
    }
}

/// The item `i` of a value that may be missing.
pub fn item<'a>(value: Option<&'a Json>, i: usize) -> (r: Option<&'a Json>)
    ensures
        opt_view(r) == opt_view(value).at_index(i as int),
{
    match value {
        Some(Json::Array(items)) => {
            proof {
                lemma_array_view(*items);
            }
            if i < items.len() {
                Some(&items[i])
            } else {
                None
            }
        },
        _ => None,
    }
}

impl Json {
    /// The value that a JSON text stands for, or the parser's complaint
    /// about a text that is no JSON.
    pub fn from_text(text: &str) -> (r: Result<Json, String>)
        ensures
            parsed_view(r) == json_parsed(text@),
    {
        parse_value(text)
    }

    /// The value that a JSON text stands for; `None` for a text that is no
    /// JSON.
    pub fn parse(text: &str) -> (r: Option<Json>)
        ensures
            match r {
                Some(value) => json_parsed(text@) == Ok::<JsonView, Seq<char>>(value@),
                None => json_parsed(text@) is Err,
            },
    {
        match Json::from_text(text) {
            Ok(value) => Some(value),
            Err(_) => None,
        }
    }

    /// The compact JSON text of the value. Where two members of an object
    /// have one key, the later one is written and the earlier one is not,
    /// though lookups find the earlier one; and a number kept as text that
    /// is no number is written as `null`. Values that were read from text,
    /// and objects whose members were set with [`set_member`], have neither.
    pub fn render(&self) -> (r: String)
        ensures
            r@ == json_text(self@),
    {
        render_value(self)
    }
}

/// The compact JSON text of a value that may be missing.
pub fn render_opt(value: Option<&Json>) -> (r: String)
    ensures
        r@ == json_text(opt_view(value)),
{
    match value {
        Some(v) => v.render(),
        None => Json::Null.render(),
    }
}

} // verus!
