//! JSON documents as trees of plain values.
//!
//! Documents are parsed by `serde_json`; the tree that the library works on
//! is rebuilt from the parsed value node by node, so that everything after
//! the parse is checked against the mathematical model of the document.

use vstd::prelude::*;

use crate::error::ValetError;
use crate::text::same_text;

verus! {

/// One member of a JSON object, as a mathematical value.
pub struct MemberModel {
    pub key: Seq<char>,
    pub value: JsonModel,
}

/// A JSON value as a mathematical value. A number is modelled by what it is
/// as a signed 64-bit integer, if it is one.
pub enum JsonModel {
    Null,
    Bool(bool),
    Number(Option<i64>),
    String(Seq<char>),
    Array(Seq<JsonModel>),
    Object(Seq<MemberModel>),
}

/// No two members carry the same key.
pub open spec fn distinct_keys(members: Seq<MemberModel>) -> bool {
    forall|i: int, j: int|
        0 <= i < j < members.len() ==> (#[trigger] members[i]).key != (#[trigger] members[j]).key
}

/// The members with the value of the first one named `key` replaced by
/// `value`, or, where none is named so, with such a member added at the end.
pub open spec fn members_with(members: Seq<MemberModel>, key: Seq<char>, value: JsonModel) -> Seq<
    MemberModel,
>
    decreases members.len(),
{
    if members.len() == 0 {
        seq![MemberModel { key, value }]
    } else if members[0].key == key {
        seq![MemberModel { key, value }] + members.drop_first()
    } else {
        seq![members[0]] + members_with(members.drop_first(), key, value)
    }
}

/// The value of the first member named `key`, if there is one.
pub open spec fn member_named(members: Seq<MemberModel>, key: Seq<char>) -> Option<JsonModel>
    decreases members.len(),
{
    if members.len() == 0 {
        None
    } else if members[0].key == key {
        Some(members[0].value)
    } else {
        member_named(members.drop_first(), key)
    }
}

impl JsonModel {
    /// Every object in the value, at any depth, has distinct keys.
    pub open spec fn well_formed(self) -> bool
        decreases self,
    {
        match self {
            JsonModel::Array(items) => forall|i: int|
                0 <= i < items.len() ==> (#[trigger] items[i]).well_formed(),
            JsonModel::Object(members) => distinct_keys(members) && forall|i: int|
                0 <= i < members.len() ==> (#[trigger] members[i]).value.well_formed(),
            _ => true,
        }
    }

    /// The member named `key` if the value is an object that has one.
    pub open spec fn get(self, key: Seq<char>) -> Option<JsonModel> {
        match self {
            JsonModel::Object(members) => member_named(members, key),
            _ => None,
        }
    }

    /// The member named `key`, or null where there is none.
    pub open spec fn member_or_null(self, key: Seq<char>) -> JsonModel {
        match self.get(key) {
            Some(value) => value,
            None => JsonModel::Null,
        }
    }

    /// Whether a member can be written into the value: it is an object, or
    /// null, which then counts as an object without members.
    pub open spec fn accepts_members(self) -> bool {
        self is Object || self is Null
    }

    /// The members of the value, none where it is no object.
    pub open spec fn members(self) -> Seq<MemberModel> {
        match self {
            JsonModel::Object(members) => members,
            _ => Seq::empty(),
        }
    }

    /// The object with the member `key` set to `value`.
    pub open spec fn with_member(self, key: Seq<char>, value: JsonModel) -> JsonModel {
        JsonModel::Object(members_with(self.members(), key, value))
    }

    /// Whether a member can be written into the member `outer` of the
    /// value.
    pub open spec fn accepts_nested(self, outer: Seq<char>) -> bool {
        self.accepts_members() && self.member_or_null(outer).accepts_members()
    }

    /// The value with the member `inner` of its member `outer` set to
    /// `value`.
    pub open spec fn with_nested(self, outer: Seq<char>, inner: Seq<char>, value: JsonModel)
        -> JsonModel {
        self.with_member(outer, self.member_or_null(outer).with_member(inner, value))
    }
}

/// One member of a JSON object.
#[derive(Debug)]
pub struct JsonMember {
    pub key: String,
    pub value: JsonValue,
}

/// A JSON value.
#[derive(Debug)]
pub enum JsonValue {
    Null,
    Bool(bool),
    /// A number, held as the signed 64-bit integer that it is, or `None`
    /// where it is a fraction or lies outside that range.
    Number(Option<i64>),
    String(String),
    Array(Vec<JsonValue>),
    Object(Vec<JsonMember>),
}

impl View for JsonMember {
    type V = MemberModel;

    open spec fn view(&self) -> MemberModel {
        MemberModel { key: self.key@, value: self.value@ }
    }
}

/// The mathematical value of a tree.
pub open spec fn tree_model(tree: JsonValue) -> JsonModel
    decreases tree,
{
    match tree {
        JsonValue::Null => JsonModel::Null,
        JsonValue::Bool(b) => JsonModel::Bool(b),
        JsonValue::Number(n) => JsonModel::Number(n),
        JsonValue::String(s) => JsonModel::String(s@),
        JsonValue::Array(items) => JsonModel::Array(
            Seq::new(
                items@.len(),
                |i: int|
                    if 0 <= i < items@.len() {
                        tree_model(items@[i])
                    } else {
                        JsonModel::Null
                    },
            ),
        ),
        JsonValue::Object(members) => JsonModel::Object(
            Seq::new(
                members@.len(),
                |i: int|
                    if 0 <= i < members@.len() {
                        MemberModel {
                            key: members@[i].key@,
                            value: tree_model(members@[i].value),
                        }
                    } else {
                        MemberModel { key: Seq::empty(), value: JsonModel::Null }
                    },
            ),
        ),
    }
}

impl View for JsonValue {
    type V = JsonModel;

    open spec fn view(&self) -> JsonModel {
        tree_model(*self)
    }
}

/// The parsed form of a JSON value, as `serde_json` holds it.
#[verifier::external_type_specification]
#[verifier::external_body]
pub struct ExParsedValue(serde_json::Value);

/// The reason `serde_json` gives for rejecting a document.
#[verifier::external_type_specification]
#[verifier::external_body]
pub struct ExParseError(serde_json::Error);

/// What a parsed value holds: scalars as they are, the items of an array in
/// their order, the members of an object in the order in which iterating
/// over it yields them.
pub uninterp spec fn value_model(value: serde_json::Value) -> JsonModel;

/// What `serde_json` makes of a byte string: the value of the JSON document
/// that the bytes spell, or `None` where they spell none.
pub uninterp spec fn parsed_document(bytes: Seq<u8>) -> Option<JsonModel>;

/// What `serde_json` writes for a string: the text between quotation marks,
/// with the characters escaped that JSON does not take as they are; `None`
/// where it writes nothing.
pub uninterp spec fn string_literal(text: Seq<char>) -> Option<Seq<char>>;

/// What one node of a parsed value is, without its children: a scalar with
/// its content, or a container with the number of its children.
enum JsonNode {
    Null,
    Bool(bool),
    Number(Option<i64>),
    String(String),
    Array(usize),
    Object(usize),
}

impl JsonNode {
    /// The node describes the top of `model`.
    spec fn describes(self, model: JsonModel) -> bool {
        match self {
            JsonNode::Null => model is Null,
            JsonNode::Bool(b) => model == JsonModel::Bool(b),
            JsonNode::Number(n) => model == JsonModel::Number(n),
            JsonNode::String(s) => model == JsonModel::String(s@),
            JsonNode::Array(len) => model is Array && model->Array_0.len() == len,
            JsonNode::Object(len) => {
                &&& model is Object
                &&& model->Object_0.len() == len
                &&& distinct_keys(model->Object_0)
            },
        }
    }
}

/// `serde_json::from_slice` at the type `serde_json::Value`: parses `bytes`
/// as one JSON document. The contract only names the outcome: success with
/// the value that the bytes spell, failure where they spell none.
#[verifier::external_body]
pub(crate) fn parse_document(bytes: &[u8]) -> (parsed: Result<serde_json::Value, serde_json::Error>)
    ensures
        match parsed {
            Ok(value) => parsed_document(bytes@) == Some(value_model(value)),
            Err(_) => parsed_document(bytes@) is None,
        },
{
    serde_json::from_slice::<serde_json::Value>(bytes)
}

/// Tells the variants of `serde_json::Value` apart. A number is read with
/// `serde_json::Number::as_i64`, containers with `len`. An object is a map,
/// so its keys differ from one another.
#[verifier::external_body]
fn node_of(value: &serde_json::Value) -> (node: JsonNode)
    ensures
        node.describes(value_model(*value)),
{
    match value {
        serde_json::Value::Null => JsonNode::Null,
        serde_json::Value::Bool(b) => JsonNode::Bool(*b),
        serde_json::Value::Number(n) => JsonNode::Number(n.as_i64()),
        serde_json::Value::String(s) => JsonNode::String(s.clone()),
        serde_json::Value::Array(items) => JsonNode::Array(items.len()),
        serde_json::Value::Object(members) => JsonNode::Object(members.len()),
    }
}

/// Indexing a `serde_json::Value` by position: the item of an array at
/// `index`.
#[verifier::external_body]
fn array_item(value: &serde_json::Value, index: usize) -> (item: &serde_json::Value)
    requires
        value_model(*value) is Array,
        index < value_model(*value)->Array_0.len(),
    ensures
        value_model(*item) == value_model(*value)->Array_0[index as int],
{
    &value[index]
}

/// `serde_json::Map::iter`, advanced to position `index`: the key and the
/// value of the member that iteration over an object yields there.
#[verifier::external_body]
fn object_member(value: &serde_json::Value, index: usize) -> (member: (String, &serde_json::Value))
    requires
        value_model(*value) is Object,
        index < value_model(*value)->Object_0.len(),
    ensures
        member.0@ == value_model(*value)->Object_0[index as int].key,
        value_model(*member.1) == value_model(*value)->Object_0[index as int].value,
{
    let (key, item) = value.as_object().unwrap().iter().nth(index).unwrap();
    (key.clone(), item)
}

/// `serde_json::to_string` on a string: the JSON text that stands for it. The
/// contract only names the outcome.
#[verifier::external_body]
pub(crate) fn write_string(text: &str) -> (written: Result<String, serde_json::Error>)
    ensures
        match written {
            Ok(literal) => string_literal(text@) == Some(literal@),
            Err(_) => string_literal(text@) is None,
        },
{
    serde_json::to_string(text)
}

/// Rebuilds a parsed value as a tree of the library.
pub(crate) fn tree_of(value: &serde_json::Value) -> (tree: JsonValue)
    ensures
        tree@ == value_model(*value),
        tree@.well_formed(),
    decreases value_model(*value),
{
    match node_of(value) {
        JsonNode::Null => JsonValue::Null,
        JsonNode::Bool(b) => JsonValue::Bool(b),
        JsonNode::Number(n) => JsonValue::Number(n),
        JsonNode::String(s) => JsonValue::String(s),
        JsonNode::Array(len) => {
            let mut items: Vec<JsonValue> = Vec::new();
            let mut i: usize = 0;
            while i < len
                invariant
                    value_model(*value) is Array,
                    value_model(*value)->Array_0.len() == len,
                    i <= len,
                    items@.len() == i,
                    forall|k: int| 0 <= k < i ==> (#[trigger] items@[k])@ == value_model(*value)->Array_0[k],
                    forall|k: int| 0 <= k < i ==> (#[trigger] items@[k])@.well_formed(),
                decreases len - i,
            {
                let item = tree_of(array_item(value, i));
                items.push(item);
                i += 1;
            }
            let tree = JsonValue::Array(items);
            assert(tree@->Array_0 =~= value_model(*value)->Array_0);
            tree
        },
        JsonNode::Object(len) => {
            let mut members: Vec<JsonMember> = Vec::new();
            let mut i: usize = 0;
            while i < len
                invariant
                    value_model(*value) is Object,
                    value_model(*value)->Object_0.len() == len,
                    i <= len,
                    members@.len() == i,
                    forall|k: int| 0 <= k < i ==> (#[trigger] members@[k])@ == value_model(*value)->Object_0[k],
                    forall|k: int| 0 <= k < i ==> (#[trigger] members@[k]).value@.well_formed(),
                decreases len - i,
            {
                let (key, item) = object_member(value, i);
                let member = JsonMember { key, value: tree_of(item) };
                members.push(member);
                i += 1;
            }
            let tree = JsonValue::Object(members);
            assert(tree@->Object_0 =~= value_model(*value)->Object_0);
            tree
        },
    }
}

/// Looking a key up among the members from position `from` on gives what
/// looking it up among all of them gives, as long as no member before
/// `from` carries the key.
proof fn lemma_member_named_skip(members: Seq<MemberModel>, key: Seq<char>, from: int)
    requires
        0 <= from <= members.len(),
        forall|k: int| 0 <= k < from ==> (#[trigger] members[k]).key != key,
    ensures
        member_named(members, key) == member_named(members.skip(from), key),
    decreases from,
{
    if from == 0 {
        assert(members.skip(0) =~= members);
    } else {
        lemma_member_named_skip(members, key, from - 1);
        assert(members.skip(from - 1).drop_first() =~= members.skip(from));
    }
}

/// A member that a lookup finds is one of the members.
pub proof fn lemma_member_named_found(members: Seq<MemberModel>, key: Seq<char>)
    ensures
        match member_named(members, key) {
            Some(value) => exists|i: int|
                0 <= i < members.len() && (#[trigger] members[i]).key == key && members[i].value
                    == value,
            None => forall|i: int| 0 <= i < members.len() ==> (#[trigger] members[i]).key != key,
        },
    decreases members.len(),
{
    if members.len() > 0 {
        if members[0].key != key {
            let rest = members.drop_first();
            lemma_member_named_found(rest, key);
            match member_named(rest, key) {
                Some(value) => {
                    let i = choose|i: int|
                        0 <= i < rest.len() && (#[trigger] rest[i]).key == key && rest[i].value
                            == value;
                    assert(members[i + 1] == rest[i]);
                },
                None => {
                    assert forall|i: int| 0 <= i < members.len() implies (#[trigger] members[i]).key
                        != key by {
                        if i > 0 {
                            assert(members[i] == rest[i - 1]);
                        }
                    }
                },
            }
        }
    }
}

impl JsonValue {
    /// The member named `key`, if the value is an object that has one.
    pub fn get(&self, key: &str) -> (found: Option<&JsonValue>)
        ensures
            match self@.get(key@) {
                Some(model) => found is Some && found->Some_0@ == model,
                None => found is None,
            },
    {
        match self {
            JsonValue::Object(members) => {
                let mut i: usize = 0;
                while i < members.len()
                    invariant
                        i <= members@.len(),
                        self@ is Object,
                        self@->Object_0.len() == members@.len(),
                        forall|k: int|
                            0 <= k < members@.len() ==> (#[trigger] self@->Object_0[k])
                                == members@[k]@,
                        forall|k: int| 0 <= k < i ==> (#[trigger] self@->Object_0[k]).key != key@,
                    decreases members@.len() - i,
                {
                    let member = &members[i];
                    if same_text(member.key.as_str(), key) {
                        proof {
                            lemma_member_named_skip(self@->Object_0, key@, i as int);
                            assert(self@->Object_0.skip(i as int)[0] == self@->Object_0[i as int]);
                        }
                        return Some(&member.value);
                    }
                    i += 1;
                }
                proof {
                    lemma_member_named_skip(self@->Object_0, key@, i as int);
                }
                None
            },
            _ => None,
        }
    }

    /// The text of the value, if it is a string.
    pub fn as_str(&self) -> (text: Option<&str>)
        ensures
            match self@ {
                JsonModel::String(model) => text is Some && text->Some_0@ == model,
                _ => text is None,
            },
    {
        match self {
            JsonValue::String(text) => Some(text.as_str()),
            _ => None,
        }
    }

    /// The value as a signed 64-bit integer, if it is a number and such an
    /// integer.
    pub fn as_i64(&self) -> (number: Option<i64>)
        ensures
            number == (match self@ {
                JsonModel::Number(model) => model,
                _ => None,
            }),
    {
        match self {
            JsonValue::Number(number) => *number,
            _ => None,
        }
    }

    /// The members of the value, if it is an object.
    pub fn as_object(&self) -> (members: Option<&Vec<JsonMember>>)
        ensures
            match self@ {
                JsonModel::Object(model) => members is Some && members->Some_0@.len()
                    == model.len() && forall|i: int|
                    0 <= i < model.len() ==> (#[trigger] members->Some_0@[i])@ == model[i],
                _ => members is None,
            },
    {
        match self {
            JsonValue::Object(members) => Some(members),
            _ => None,
        }
    }

    /// Parses `bytes` as one JSON document.
    pub fn parse(bytes: &[u8]) -> (result: Result<JsonValue, ValetError>)
        ensures
            match parsed_document(bytes@) {
                Some(model) => result is Ok && result->Ok_0@ == model,
                None => result == Err::<JsonValue, ValetError>(ValetError::FormatError),
            },
            result matches Ok(tree) ==> tree@.well_formed(),
    {
        match parse_document(bytes) {
            Ok(value) => Ok(tree_of(&value)),
            Err(_) => Err(ValetError::FormatError),
        }
    }
}

} // verus!
