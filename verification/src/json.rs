//! JSON documents as plain values.
use crate::text;
use vstd::prelude::*;
use vstd::string::*;

verus! {

/// A number that is not an integer in a document: either a whole count, or the
/// bit pattern of an IEEE 754 double.
#[derive(Clone, Copy, Debug, PartialEq, Eq, Structural)]
pub enum Real {
    Whole(u32),
    Bits(u64),
}

/// A JSON document. An integer below zero is apart from the others. The members of
/// an object stand in the order in which they were put, and those of a document
/// that was read in the order in which the reader hands them out.
#[derive(Debug)]
pub enum Json {
    Null,
    Bool(bool),
    Integer(u64),
    Negative(i64),
    Real(Real),
    Text(String),
    List(Vec<Json>),
    Object(Vec<(String, Json)>),
}

/// What a JSON document says, with its texts as characters.
pub enum JsonView {
    Null,
    Bool(bool),
    Integer(u64),
    Negative(i64),
    Real(Real),
    Text(Seq<char>),
    List(Seq<JsonView>),
    Object(Seq<(Seq<char>, JsonView)>),
}

impl View for Json {
    type V = JsonView;

    open spec fn view(&self) -> JsonView {
        self.meaning()
    }
}

impl Json {
    /// What a document says, part by part.
    pub open spec fn meaning(&self) -> JsonView
        decreases self,
    {
        match self {
            Json::Null => JsonView::Null,
            Json::Bool(flag) => JsonView::Bool(*flag),
            Json::Integer(number) => JsonView::Integer(*number),
            Json::Negative(number) => JsonView::Negative(*number),
            Json::Real(number) => JsonView::Real(*number),
            Json::Text(text) => JsonView::Text(text@),
            Json::List(items) => JsonView::List(
                Seq::new(
                    items@.len(),
                    |i: int|
                        if 0 <= i < items@.len() {
                            items@[i].meaning()
                        } else {
                            JsonView::Null
                        },
                ),
            ),
            Json::Object(members) => JsonView::Object(
                Seq::new(
                    members@.len(),
                    |i: int|
                        if 0 <= i < members@.len() {
                            (members@[i].0@, members@[i].1.meaning())
                        } else {
                            (Seq::empty(), JsonView::Null)
                        },
                ),
            ),
        }
    }
}


/// What a list of members says.
pub open spec fn members_view(members: Seq<(String, Json)>) -> Seq<(Seq<char>, JsonView)> {
    Seq::new(members.len(), |i: int| (members[i].0@, members[i].1@))
}

/// What a list of documents says.
pub open spec fn items_view(items: Seq<Json>) -> Seq<JsonView> {
    Seq::new(items.len(), |i: int| items[i]@)
}

/// The view of a list or an object is made of the views of its parts.
pub proof fn lemma_parts(value: Json)
    ensures
        match value {
            Json::List(items) => value@ == JsonView::List(items_view(items@)),
            Json::Object(members) => value@ == JsonView::Object(members_view(members@)),
            _ => true,
        },
{
    reveal_with_fuel(Json::meaning, 2);
    match value {
        Json::List(items) => {
            assert(value == Json::List(items));
            assert(value@->List_0 =~= items_view(items@));
        },
        Json::Object(members) => {
            assert(value == Json::Object(members));
            assert(value@->Object_0 =~= members_view(members@));
        },
        _ => {},
    }
}

/// A document that is no object does not read as one.
pub proof fn lemma_shape(value: Json)
    ensures
        value is Object <==> value@ is Object,
        value is List <==> value@ is List,
        value is Text <==> value@ is Text,
{
    reveal_with_fuel(Json::meaning, 2);
}

// ---------------------------------------------------------------------------
// Reading documents
// ---------------------------------------------------------------------------

/// `serde_json::Value`, as `serde_json` hands a parsed document out.
#[verifier::external_type_specification]
#[verifier::external_body]
pub struct ExValue(serde_json::Value);

/// The name given to the document that a `serde_json::Value` holds.
pub uninterp spec fn document_of(value: serde_json::Value) -> JsonView;

/// The name given to what `serde_json::from_slice` reads from bytes, `None`
/// where it refuses them.
pub uninterp spec fn parsed_document(content: Seq<u8>) -> Option<JsonView>;

/// One level of a `serde_json::Value`.
pub enum Shape {
    Null,
    Bool(bool),
    Integer(u64),
    Negative(i64),
    Real(Real),
    Text(String),
    List(Vec<serde_json::Value>),
    Object(Vec<(String, serde_json::Value)>),
}

/// The document whose outermost level is `shape`.
pub open spec fn shaped(shape: Shape) -> JsonView {
    match shape {
        Shape::Null => JsonView::Null,
        Shape::Bool(flag) => JsonView::Bool(flag),
        Shape::Integer(number) => JsonView::Integer(number),
        Shape::Negative(number) => JsonView::Negative(number),
        Shape::Real(number) => JsonView::Real(number),
        Shape::Text(text) => JsonView::Text(text@),
        Shape::List(items) => JsonView::List(
            Seq::new(items@.len(), |i: int| document_of(items@[i])),
        ),
        Shape::Object(members) => JsonView::Object(
            Seq::new(members@.len(), |i: int| (members@[i].0@, document_of(members@[i].1))),
        ),
    }
}

/// `serde_json::from_slice` into a `Value`: whether it reads the bytes, and the
/// document that it then gives, depend on the bytes alone.
#[verifier::external_body]
fn parse_value(content: &[u8]) -> (value: Option<serde_json::Value>)
    ensures
        match value {
            Some(found) => parsed_document(content@) == Some(document_of(found)),
            None => parsed_document(content@) is None,
        },
{
    serde_json::from_slice::<serde_json::Value>(content).ok()
}

/// Takes the outermost level of a `serde_json::Value` apart by its variant. A
/// number that `Number::as_u64` reads is an integer, one that only
/// `Number::as_i64` reads an integer below zero, and any other is kept as the
/// double that `Number::as_f64` gives.
#[verifier::external_body]
fn shape_of(value: serde_json::Value) -> (shape: Shape)
    ensures
        shaped(shape) == document_of(value),
{
    match value {
        serde_json::Value::Null => Shape::Null,
        serde_json::Value::Bool(flag) => Shape::Bool(flag),
        serde_json::Value::Number(number) => match (number.as_u64(), number.as_i64()) {
            (Some(whole), _) => Shape::Integer(whole),
            (None, Some(whole)) => Shape::Negative(whole),
            (None, None) => Shape::Real(Real::Bits(number.as_f64().map_or(0, |double| double.to_bits()))),
        },
        serde_json::Value::String(text) => Shape::Text(text),
        serde_json::Value::Array(items) => Shape::List(items),
        serde_json::Value::Object(members) => Shape::Object(members.into_iter().collect()),
    }
}

/// The document that a `serde_json::Value` holds, as a plain value.
pub fn document(value: serde_json::Value) -> (result: Json)
    ensures
        result@ == document_of(value),
    decreases document_of(value),
{
    let shape = shape_of(value);
    match shape {
        Shape::Null => Json::Null,
        Shape::Bool(flag) => Json::Bool(flag),
        Shape::Integer(number) => Json::Integer(number),
        Shape::Negative(number) => Json::Negative(number),
        Shape::Real(number) => Json::Real(number),
        Shape::Text(text) => Json::Text(text),
        Shape::List(items) => {
            let ghost all = items@;
            let mut rest = items;
            let mut reversed: Vec<Json> = Vec::new();
            while rest.len() > 0
                invariant
                    rest@.len() + reversed@.len() == all.len(),
                    rest@ == all.take(rest@.len() as int),
                    document_of(value) == JsonView::List(
                        Seq::new(all.len(), |i: int| document_of(all[i])),
                    ),
                    forall|i: int|
                        0 <= i < reversed@.len() ==> #[trigger] reversed@[i]@ == document_of(
                            all[all.len() - 1 - i],
                        ),
                decreases rest@.len(),
            {
                let ghost at = rest@.len() - 1;
                if let Some(item) = rest.pop() {
                    proof {
                        assert(item == all[at]);
                        assert(document_of(value)->List_0[at] == document_of(item));
                        assert(decreases_to!(document_of(value) => document_of(value)->List_0));
                        assert(decreases_to!(document_of(value)->List_0 => document_of(value)->List_0[at]));
                    }
                    reversed.push(document(item));
                }
            }
            let mut result: Vec<Json> = Vec::new();
            while reversed.len() > 0
                invariant
                    result@.len() + reversed@.len() == all.len(),
                    forall|i: int|
                        0 <= i < result@.len() ==> (#[trigger] result@[i])@ == document_of(all[i]),
                    forall|i: int|
                        0 <= i < reversed@.len() ==> #[trigger] reversed@[i]@ == document_of(
                            all[all.len() - 1 - i],
                        ),
                decreases reversed@.len(),
            {
                if let Some(item) = reversed.pop() {
                    result.push(item);
                }
            }
            let list = Json::List(result);
            assert(list@->List_0 =~= Seq::new(all.len(), |i: int| document_of(all[i])));
            list
        },
        Shape::Object(members) => {
            let ghost all = members@;
            let mut rest = members;
            let mut reversed: Vec<(String, Json)> = Vec::new();
            while rest.len() > 0
                invariant
                    rest@.len() + reversed@.len() == all.len(),
                    rest@ == all.take(rest@.len() as int),
                    document_of(value) == JsonView::Object(
                        Seq::new(all.len(), |i: int| (all[i].0@, document_of(all[i].1))),
                    ),
                    forall|i: int|
                        0 <= i < reversed@.len() ==> #[trigger] reversed@[i].0@ == all[all.len() - 1
                            - i].0@ && reversed@[i].1@ == document_of(all[all.len() - 1 - i].1),
                decreases rest@.len(),
            {
                let ghost at = rest@.len() - 1;
                if let Some((key, item)) = rest.pop() {
                    proof {
                        assert((key, item) == all[at]);
                        assert(document_of(value)->Object_0[at] == (key@, document_of(item)));
                        assert(decreases_to!(document_of(value) => document_of(value)->Object_0));
                        assert(decreases_to!(document_of(value)->Object_0 => document_of(value)->Object_0[at]));
                        assert(decreases_to!(document_of(value)->Object_0[at] => document_of(value)->Object_0[at].1));
                    }
                    reversed.push((key, document(item)));
                }
            }
            let mut result: Vec<(String, Json)> = Vec::new();
            while reversed.len() > 0
                invariant
                    result@.len() + reversed@.len() == all.len(),
                    forall|i: int|
                        0 <= i < result@.len() ==> #[trigger] result@[i].0@ == all[i].0@
                            && result@[i].1@ == document_of(all[i].1),
                    forall|i: int|
                        0 <= i < reversed@.len() ==> #[trigger] reversed@[i].0@ == all[all.len() - 1
                            - i].0@ && reversed@[i].1@ == document_of(all[all.len() - 1 - i].1),
                decreases reversed@.len(),
            {
                if let Some(item) = reversed.pop() {
                    result.push(item);
                }
            }
            let object = Json::Object(result);
            assert(object@->Object_0 =~= Seq::new(
                all.len(),
                |i: int| (all[i].0@, document_of(all[i].1)),
            ));
            object
        },
    }
}

/// What an optional document says.
pub open spec fn opt_view(value: Option<Json>) -> Option<JsonView> {
    match value {
        Some(found) => Some(found@),
        None => None,
    }
}

/// Reads a JSON document from bytes.
pub fn parse(content: &[u8]) -> (result: Option<Json>)
    ensures
        opt_view(result) == parsed_document(content@),
{
    match parse_value(content) {
        Some(value) => Some(document(value)),
        None => None,
    }
}

// ---------------------------------------------------------------------------
// Looking into documents
// ---------------------------------------------------------------------------

/// The value of the first member named `key`.
pub open spec fn lookup(members: Seq<(Seq<char>, JsonView)>, key: Seq<char>) -> Option<JsonView>
    decreases members.len(),
{
    if members.len() == 0 {
        None
    } else if members[0].0 == key {
        Some(members[0].1)
    } else {
        lookup(members.skip(1), key)
    }
}

impl JsonView {
    /// The member named `key` of an object.
    pub open spec fn member(self, key: Seq<char>) -> Option<JsonView> {
        match self {
            JsonView::Object(members) => lookup(members, key),
            _ => None,
        }
    }

    /// The characters of a text.
    pub open spec fn text(self) -> Option<Seq<char>> {
        match self {
            JsonView::Text(text) => Some(text),
            _ => None,
        }
    }

    /// The value of an unsigned integer.
    pub open spec fn integer(self) -> Option<u64> {
        match self {
            JsonView::Integer(number) => Some(number),
            _ => None,
        }
    }

    /// The value of a boolean.
    pub open spec fn flag(self) -> Option<bool> {
        match self {
            JsonView::Bool(flag) => Some(flag),
            _ => None,
        }
    }

    /// The items of a list.
    pub open spec fn items(self) -> Option<Seq<JsonView>> {
        match self {
            JsonView::List(items) => Some(items),
            _ => None,
        }
    }

    /// The text of the member named `key`.
    pub open spec fn text_member(self, key: Seq<char>) -> Option<Seq<char>> {
        match self.member(key) {
            Some(value) => value.text(),
            None => None,
        }
    }

    /// The member named `key`, or where there is none the member named `other`.
    pub open spec fn member_or(self, key: Seq<char>, other: Seq<char>) -> Option<JsonView> {
        match self.member(key) {
            Some(value) => Some(value),
            None => self.member(other),
        }
    }
}

/// The texts among the items of an optional JSON list, in order.
pub open spec fn texts_of(value: Option<JsonView>) -> Seq<Seq<char>> {
    match value {
        Some(JsonView::List(items)) => texts_among(items),
        _ => Seq::empty(),
    }
}

/// The texts among the items of a list, in order.
pub open spec fn texts_among(items: Seq<JsonView>) -> Seq<Seq<char>>
    decreases items.len(),
{
    if items.len() == 0 {
        Seq::empty()
    } else {
        match items.last() {
            JsonView::Text(text) => texts_among(items.drop_last()).push(text),
            _ => texts_among(items.drop_last()),
        }
    }
}

/// What a borrowed optional document says.
pub open spec fn opt_ref_view(value: Option<&Json>) -> Option<JsonView> {
    match value {
        Some(found) => Some(found@),
        None => None,
    }
}

impl Json {
    /// The member named `key` of an object.
    pub fn get(&self, key: &str) -> (value: Option<&Json>)
        ensures
            opt_ref_view(value) == self@.member(key@),
    {
        match self {
            Json::Object(members) => {
                let ghost all = members_view(members@);
                proof {
                    lemma_parts(*self);
                    assert(all.skip(0) == all);
                }
                for i in 0..members.len()
                    invariant
                        self@ == JsonView::Object(all),
                        all == members_view(members@),
                        lookup(all, key@) == lookup(all.skip(i as int), key@),
                {
                    assert(all.skip(i as int).skip(1) == all.skip(i + 1));
                    if *members[i].0.as_str() == *key {
                        return Some(&members[i].1);
                    }
                }
                assert(all.skip(all.len() as int).len() == 0);
                None
            },
            _ => None,
        }
    }

    /// The characters of a text.
    pub fn as_text(&self) -> (text: Option<&str>)
        ensures
            text::opt_str(text) == self@.text(),
    {
        match self {
            Json::Text(text) => Some(text.as_str()),
            _ => None,
        }
    }

    /// The value of an unsigned integer.
    pub fn as_integer(&self) -> (number: Option<u64>)
        ensures
            number == self@.integer(),
    {
        match self {
            Json::Integer(number) => Some(*number),
            _ => None,
        }
    }

    /// The value of a boolean.
    pub fn as_flag(&self) -> (flag: Option<bool>)
        ensures
            flag == self@.flag(),
    {
        match self {
            Json::Bool(flag) => Some(*flag),
            _ => None,
        }
    }

    /// The text of the member named `key`.
    pub fn text_member(&self, key: &str) -> (text: Option<&str>)
        ensures
            text::opt_str(text) == self@.text_member(key@),
    {
        match self.get(key) {
            Some(value) => value.as_text(),
            None => None,
        }
    }

    /// The member named `key`, or where there is none the member named `other`.
    pub fn get_or(&self, key: &str, other: &str) -> (value: Option<&Json>)
        ensures
            opt_ref_view(value) == self@.member_or(key@, other@),
    {
        match self.get(key) {
            Some(value) => Some(value),
            None => self.get(other),
        }
    }

    /// A copy of a document.
    pub fn copy(&self) -> (result: Json)
        ensures
            result@ == self@,
        decreases self,
    {
        match self {
            Json::Null => Json::Null,
            Json::Bool(flag) => Json::Bool(*flag),
            Json::Integer(number) => Json::Integer(*number),
            Json::Negative(number) => Json::Negative(*number),
            Json::Real(number) => Json::Real(*number),
            Json::Text(text) => Json::Text(text.clone()),
            Json::List(items) => {
                let mut copies: Vec<Json> = Vec::new();
                for i in 0..items.len()
                    invariant
                        *self == Json::List(*items),
                        copies@.len() == i,
                        forall|j: int| 0 <= j < i ==> (#[trigger] copies@[j])@ == items@[j]@,
                {
                    proof {
                        assert(decreases_to!(*self => self->List_0));
                        assert(decreases_to!(self->List_0 => self->List_0@));
                        assert(decreases_to!(self->List_0@ => self->List_0@[i as int]));
                    }
                    copies.push(items[i].copy());
                }
                let result = Json::List(copies);
                proof {
                    lemma_parts(*self);
                    lemma_parts(result);
                    assert(items_view(copies@) =~= items_view(items@));
                }
                result
            },
            Json::Object(members) => {
                let mut copies: Vec<(String, Json)> = Vec::new();
                for i in 0..members.len()
                    invariant
                        *self == Json::Object(*members),
                        copies@.len() == i,
                        forall|j: int|
                            0 <= j < i ==> (#[trigger] copies@[j]).0@ == members@[j].0@
                                && copies@[j].1@ == members@[j].1@,
                {
                    proof {
                        assert(decreases_to!(*self => self->Object_0));
                        assert(decreases_to!(self->Object_0 => self->Object_0@));
                        assert(decreases_to!(self->Object_0@ => self->Object_0@[i as int]));
                        assert(decreases_to!(self->Object_0@[i as int] => self->Object_0@[i as int].1));
                    }
                    copies.push((members[i].0.clone(), members[i].1.copy()));
                }
                let result = Json::Object(copies);
                proof {
                    lemma_parts(*self);
                    lemma_parts(result);
                    assert(members_view(copies@) =~= members_view(members@));
                }
                result
            },
        }
    }
}

/// The texts among the items of an optional JSON list, as owned copies.
pub fn collect_texts(value: Option<&Json>) -> (list: Vec<String>)
    ensures
        text::texts(list@) == texts_of(opt_ref_view(value)),
{
    let mut list: Vec<String> = Vec::new();
    match value {
        Some(document) => match document {
            Json::List(items) => {
                let ghost all = items_view(items@);
                proof {
                    lemma_parts(*document);
                    assert(all.take(0) == Seq::<JsonView>::empty());
                }
                for i in 0..items.len()
                    invariant
                        all == items_view(items@),
                        text::texts(list@) =~= texts_among(all.take(i as int)),
                {
                    assert(all.take(i + 1).drop_last() == all.take(i as int));
                    let ghost before = list@;
                    match items[i].as_text() {
                        Some(text) => {
                            list.push(text.to_owned());
                            assert(text::texts(list@) =~= text::texts(before).push(text@));
                        },
                        None => {},
                    }
                }
                assert(all.take(all.len() as int) == all);
            },
            _ => {},
        },
        None => {},
    }
    assert(text::texts(list@) =~= texts_of(opt_ref_view(value)));
    list
}

/// A copy of a list of documents.
pub fn copy_items(items: &Vec<Json>) -> (copy: Vec<Json>)
    ensures
        items_view(copy@) == items_view(items@),
{
    let mut copy: Vec<Json> = Vec::new();
    for i in 0..items.len()
        invariant
            items_view(copy@) =~= items_view(items@).take(i as int),
    {
        let ghost before = copy@;
        copy.push(items[i].copy());
        assert(items_view(copy@) =~= items_view(before).push(items@[i as int]@));
    }
    copy
}

/// A copy of an optional document.
pub fn copy_opt(value: &Option<Json>) -> (copy: Option<Json>)
    ensures
        opt_view(copy) == opt_view(*value),
{
    match value {
        Some(found) => Some(found.copy()),
        None => None,
    }
}

// ---------------------------------------------------------------------------
// Building documents
// ---------------------------------------------------------------------------

/// The JSON form of an optional text: the text, or null.
pub open spec fn nullable_text(text: Option<Seq<char>>) -> JsonView {
    match text {
        Some(value) => JsonView::Text(value),
        None => JsonView::Null,
    }
}

/// The JSON form of an optional count: the number, or null.
pub open spec fn nullable_count(number: Option<u32>) -> JsonView {
    match number {
        Some(value) => JsonView::Integer(value as u64),
        None => JsonView::Null,
    }
}

/// The JSON form of an optional document: the document, or null.
pub open spec fn nullable(value: Option<JsonView>) -> JsonView {
    match value {
        Some(found) => found,
        None => JsonView::Null,
    }
}

/// A JSON text.
pub fn text_json(text: &str) -> (value: Json)
    ensures
        value@ == JsonView::Text(text@),
{
    Json::Text(text.to_owned())
}

/// The JSON form of an optional text.
pub fn opt_text_json(text: Option<&str>) -> (value: Json)
    ensures
        value@ == nullable_text(text::opt_str(text)),
{
    match text {
        Some(found) => text_json(found),
        None => Json::Null,
    }
}

/// The JSON form of an optional owned text.
pub fn opt_string_json(text: &Option<String>) -> (value: Json)
    ensures
        value@ == nullable_text(text::opt(*text)),
{
    match text {
        Some(found) => text_json(found.as_str()),
        None => Json::Null,
    }
}

/// The JSON form of an optional count.
pub fn opt_count_json(number: Option<u32>) -> (value: Json)
    ensures
        value@ == nullable_count(number),
{
    match number {
        Some(found) => Json::Integer(found as u64),
        None => Json::Null,
    }
}

/// Appends a member to those of an object under construction.
pub fn put(members: &mut Vec<(String, Json)>, key: &str, value: Json)
    ensures
        members_view(final(members)@) == members_view(old(members)@).push((key@, value@)),
{
    members.push((key.to_owned(), value));
    assert(members_view(members@) =~= members_view(old(members)@).push((key@, value@)));
}

/// The list with the given items.
pub fn list(items: Vec<Json>) -> (value: Json)
    ensures
        value@ == JsonView::List(items_view(items@)),
{
    let value = Json::List(items);
    proof {
        lemma_parts(value);
    }
    value
}

/// The object with the given members.
pub fn object(members: Vec<(String, Json)>) -> (value: Json)
    ensures
        value@ == JsonView::Object(members_view(members@)),
{
    let value = Json::Object(members);
    proof {
        lemma_parts(value);
    }
    value
}

} // verus!
