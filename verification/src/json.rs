//! JSON values: reading their fields, and the way to and from their text.
use vstd::prelude::*;

verus! {

/// The value type of `serde_json`, held only between its parser, its printer
/// and [`Json`].
#[verifier::external_type_specification]
#[verifier::external_body]
pub struct ExValue(serde_json::Value);

/// The number type of `serde_json`. Numbers are carried through and never read.
#[verifier::external_type_specification]
#[verifier::external_body]
pub struct ExNumber(serde_json::Number);

/// `<serde_json::Number as Clone>::clone`: the clone is the same number.
pub assume_specification[ <serde_json::Number as Clone>::clone ](
    number: &serde_json::Number,
) -> (copy: serde_json::Number)
    ensures
        copy == *number,
;

/// A JSON value. The fields of an object stand in the order in which they were
/// written. No two fields of an object that was read have the same name.
#[derive(Debug, PartialEq)]
pub enum Json {
    Null,
    Bool(bool),
    Number(serde_json::Number),
    Text(String),
    Array(Vec<Json>),
    Object(Vec<(String, Json)>),
}

/// What a [`Json`] stands for.
#[verifier::ext_equal]
pub enum JsonView {
    Null,
    Bool(bool),
    Number(serde_json::Number),
    Text(Seq<char>),
    Array(Seq<JsonView>),
    Object(Seq<(Seq<char>, JsonView)>),
}

/// The first field named `name`, if there is one.
pub open spec fn first_field(fields: Seq<(Seq<char>, JsonView)>, name: Seq<char>) -> Option<
    JsonView,
>
    decreases fields.len(),
{
    if fields.len() == 0 {
        None
    } else if fields[0].0 == name {
        Some(fields[0].1)
    } else {
        first_field(fields.drop_first(), name)
    }
}

/// Whether no two fields have the same name.
pub open spec fn distinct_names(fields: Seq<(Seq<char>, JsonView)>) -> bool {
    forall|i: int, j: int|
        0 <= i < j < fields.len() ==> (#[trigger] fields[i]).0 != (#[trigger] fields[j]).0
}

impl JsonView {
    /// The field `name` of an object.
    pub open spec fn get(self, name: Seq<char>) -> Option<JsonView> {
        match self {
            JsonView::Object(fields) => first_field(fields, name),
            _ => None,
        }
    }

    /// The characters of a string.
    pub open spec fn text(self) -> Option<Seq<char>> {
        match self {
            JsonView::Text(text) => Some(text),
            _ => None,
        }
    }

    /// The truth value of a boolean.
    pub open spec fn boolean(self) -> Option<bool> {
        match self {
            JsonView::Bool(value) => Some(value),
            _ => None,
        }
    }

    /// The elements of an array.
    pub open spec fn items(self) -> Option<Seq<JsonView>> {
        match self {
            JsonView::Array(items) => Some(items),
            _ => None,
        }
    }

    /// The field `name`, where it is a string.
    pub open spec fn text_field(self, name: Seq<char>) -> Option<Seq<char>> {
        match self.get(name) {
            Some(value) => value.text(),
            None => None,
        }
    }

    /// The field `name`, where it is a string with at least one character.
    pub open spec fn filled_text_field(self, name: Seq<char>) -> Option<Seq<char>> {
        match self.text_field(name) {
            Some(text) => if text.len() > 0 {
                Some(text)
            } else {
                None
            },
            None => None,
        }
    }

    /// The field `name`, where it is a boolean.
    pub open spec fn bool_field(self, name: Seq<char>) -> Option<bool> {
        match self.get(name) {
            Some(value) => value.boolean(),
            None => None,
        }
    }

    /// The field `first`, or the field `second` where there is no `first`.
    pub open spec fn either_field(self, first: Seq<char>, second: Seq<char>) -> Option<JsonView> {
        match self.get(first) {
            Some(value) => Some(value),
            None => self.get(second),
        }
    }

    /// The first of the fields `first` and `second` that is there, where it is a
    /// string.
    pub open spec fn either_text_field(self, first: Seq<char>, second: Seq<char>) -> Option<
        Seq<char>,
    > {
        match self.either_field(first, second) {
            Some(value) => value.text(),
            None => None,
        }
    }

    /// Whether no object in the value has two fields of the same name.
    pub open spec fn well_formed(self) -> bool
        decreases self,
    {
        match self {
            JsonView::Array(items) => forall|i: int|
                0 <= i < items.len() ==> (#[trigger] items[i]).well_formed(),
            JsonView::Object(fields) => {
                &&& distinct_names(fields)
                &&& forall|i: int|
                    0 <= i < fields.len() ==> (#[trigger] fields[i]).1.well_formed()
            },
            _ => true,
        }
    }
}

/// The position of the first field named `name`, or the number of fields where
/// there is none.
pub open spec fn field_position(fields: Seq<(Seq<char>, JsonView)>, name: Seq<char>) -> int
    decreases fields.len(),
{
    if fields.len() == 0 || fields[0].0 == name {
        0
    } else {
        1 + field_position(fields.drop_first(), name)
    }
}

/// An object's fields after the field `name` was given `value`: it keeps its
/// place where it was there, and stands at the end where it was not.
pub open spec fn with_field(
    fields: Seq<(Seq<char>, JsonView)>,
    name: Seq<char>,
    value: JsonView,
) -> Seq<(Seq<char>, JsonView)> {
    let position = field_position(fields, name);
    if position < fields.len() {
        fields.update(position, (name, value))
    } else {
        fields.push((name, value))
    }
}

/// The position of a field is that of the first one with its name.
pub proof fn field_position_facts(fields: Seq<(Seq<char>, JsonView)>, name: Seq<char>)
    ensures
        0 <= field_position(fields, name) <= fields.len(),
        forall|i: int|
            0 <= i < field_position(fields, name) ==> (#[trigger] fields[i]).0 != name,
        field_position(fields, name) < fields.len() ==> {
            &&& fields[field_position(fields, name)].0 == name
            &&& first_field(fields, name) == Some(fields[field_position(fields, name)].1)
        },
        field_position(fields, name) == fields.len() ==> first_field(fields, name) is None,
    decreases fields.len(),
{
    if fields.len() > 0 && fields[0].0 != name {
        let rest = fields.drop_first();
        field_position_facts(rest, name);
        assert forall|i: int| 0 <= i < field_position(fields, name) implies (
        #[trigger] fields[i]).0 != name by {
            if i > 0 {
                assert(rest[i - 1] == fields[i]);
            }
        }
    }
}

/// Setting a field makes it readable, leaves every other field as it was, and
/// keeps the names apart.
pub proof fn with_field_sets_one_field(
    fields: Seq<(Seq<char>, JsonView)>,
    name: Seq<char>,
    value: JsonView,
)
    ensures
        first_field(with_field(fields, name, value), name) == Some(value),
        forall|other: Seq<char>|
            other != name ==> #[trigger] first_field(with_field(fields, name, value), other)
                == first_field(fields, other),
        distinct_names(fields) ==> distinct_names(with_field(fields, name, value)),
    decreases fields.len(),
{
    let result = with_field(fields, name, value);
    field_position_facts(fields, name);
    if fields.len() == 0 {
        assert(result =~= seq![(name, value)]);
        assert(result.drop_first() =~= Seq::empty());
        assert forall|other: Seq<char>| other != name implies #[trigger] first_field(result, other)
            == first_field(fields, other) by {
            assert(first_field(result.drop_first(), other) is None);
        }
    } else if fields[0].0 == name {
        assert(result.drop_first() =~= fields.drop_first());
        assert(result[0] == (name, value));
        assert forall|other: Seq<char>| other != name implies #[trigger] first_field(result, other)
            == first_field(fields, other) by {
            assert(first_field(result, other) == first_field(result.drop_first(), other));
        }
    } else {
        let rest = fields.drop_first();
        with_field_sets_one_field(rest, name, value);
        assert(result.drop_first() =~= with_field(rest, name, value));
        assert(result[0] == fields[0]);
        assert forall|other: Seq<char>| other != name implies #[trigger] first_field(result, other)
            == first_field(fields, other) by {
            assert(first_field(with_field(rest, name, value), other) == first_field(rest, other));
        }
    }
    if distinct_names(fields) {
        field_position_facts(fields, name);
        assert forall|i: int, j: int| 0 <= i < j < result.len() implies (#[trigger] result[i]).0 != (
        #[trigger] result[j]).0 by {
            let position = field_position(fields, name);
            if position < fields.len() {
                assert(result[i].0 == fields[i].0);
                assert(result[j].0 == fields[j].0);
            } else if j < fields.len() {
                assert(result[i] == fields[i] && result[j] == fields[j]);
            } else {
                assert(result[i] == fields[i]);
            }
        }
    }
}

impl Json {
    /// What the value stands for.
    pub open spec fn model(self) -> JsonView
        decreases self,
    {
        match self {
            Json::Null => JsonView::Null,
            Json::Bool(value) => JsonView::Bool(value),
            Json::Number(value) => JsonView::Number(value),
            Json::Text(value) => JsonView::Text(value@),
            Json::Array(items) => JsonView::Array(
                Seq::new(
                    items@.len(),
                    |i: int|
                        if 0 <= i < items@.len() {
                            items@[i].model()
                        } else {
                            JsonView::Null
                        },
                ),
            ),
            Json::Object(fields) => JsonView::Object(
                Seq::new(
                    fields@.len(),
                    |i: int|
                        if 0 <= i < fields@.len() {
                            (fields@[i].0@, fields@[i].1.model())
                        } else {
                            (Seq::empty(), JsonView::Null)
                        },
                ),
            ),
        }
    }

    /// A string.
    pub fn string(text: &str) -> (json: Json)
        ensures
            json@ == JsonView::Text(text@),
    {
        Json::Text(text.to_owned())
    }

    /// The position of the first field named `name`, or the number of fields.
    fn position(fields: &Vec<(String, Json)>, name: &str) -> (position: usize)
        ensures
            position == field_position(Json::Object(*fields)@->Object_0, name@),
    {
        let ghost all = Json::Object(*fields)@->Object_0;
        let mut i: usize = 0;
        assert(all.skip(0) =~= all);
        while i < fields.len()
            invariant
                i <= fields@.len(),
                all == Json::Object(*fields)@->Object_0,
                all.len() == fields@.len(),
                field_position(all, name@) == i + field_position(all.skip(i as int), name@),
            decreases fields@.len() - i,
        {
            assert(all.skip(i as int)[0].0 == fields@[i as int].0@);
            if fields[i].0.as_str().eq(name) {
                return i;
            }
            assert(all.skip(i as int).drop_first() =~= all.skip(i + 1));
            i = i + 1;
        }
        i
    }

    /// The field `name` of an object.
    pub fn get(&self, name: &str) -> (value: Option<&Json>)
        ensures
            value is Some == self@.get(name@) is Some,
            value is Some ==> value->0@ == self@.get(name@)->0,
    {
        match self {
            Json::Object(fields) => {
                let position = Self::position(fields, name);
                proof {
                    field_position_facts(self@->Object_0, name@);
                }
                if position < fields.len() {
                    Some(&fields[position].1)
                } else {
                    None
                }
            },
            _ => None,
        }
    }

    /// The characters of a string.
    pub fn as_text(&self) -> (text: Option<&str>)
        ensures
            text.deep_view() == self@.text(),
    {
        match self {
            Json::Text(text) => Some(text.as_str()),
            _ => None,
        }
    }

    /// The truth value of a boolean.
    pub fn as_bool(&self) -> (value: Option<bool>)
        ensures
            value == self@.boolean(),
    {
        match self {
            Json::Bool(value) => Some(*value),
            _ => None,
        }
    }

    /// The field `name`, where it is a string.
    pub fn text_field(&self, name: &str) -> (text: Option<&str>)
        ensures
            text.deep_view() == self@.text_field(name@),
    {
        match self.get(name) {
            Some(value) => value.as_text(),
            None => None,
        }
    }

    /// The field `name`, where it is a string with at least one character.
    pub fn filled_text_field(&self, name: &str) -> (text: Option<&str>)
        ensures
            text.deep_view() == self@.filled_text_field(name@),
    {
        match self.text_field(name) {
            Some(text) => if text.is_empty() {
                None
            } else {
                Some(text)
            },
            None => None,
        }
    }

    /// The field `name`, where it is a boolean.
    pub fn bool_field(&self, name: &str) -> (value: Option<bool>)
        ensures
            value == self@.bool_field(name@),
    {
        match self.get(name) {
            Some(value) => value.as_bool(),
            None => None,
        }
    }

    /// The field `first`, or the field `second` where there is no `first`.
    pub fn either_field(&self, first: &str, second: &str) -> (value: Option<&Json>)
        ensures
            value is Some == self@.either_field(first@, second@) is Some,
            value is Some ==> value->0@ == self@.either_field(first@, second@)->0,
    {
        match self.get(first) {
            Some(value) => Some(value),
            None => self.get(second),
        }
    }

    /// The first of the fields `first` and `second` that is there, where it is a
    /// string.
    pub fn either_text_field(&self, first: &str, second: &str) -> (text: Option<&str>)
        ensures
            text.deep_view() == self@.either_text_field(first@, second@),
    {
        match self.either_field(first, second) {
            Some(value) => value.as_text(),
            None => None,
        }
    }

    /// An equal value of its own.
    pub fn copy(&self) -> (json: Json)
        ensures
            json@ == self@,
        decreases self,
    {
        match self {
            Json::Null => Json::Null,
            Json::Bool(value) => Json::Bool(*value),
            Json::Number(value) => Json::Number(value.clone()),
            Json::Text(value) => Json::Text(value.clone()),
            Json::Array(items) => {
                let mut copies: Vec<Json> = Vec::new();
                let mut i: usize = 0;
                while i < items.len()
                    invariant
                        i <= items@.len(),
                        copies@.len() == i,
                        *self == Json::Array(*items),
                        forall|k: int| 0 <= k < i ==> (#[trigger] copies@[k])@ == items@[k]@,
                    decreases items@.len() - i,
                {
                    assert(decreases_to!(*self => self->Array_0));
                    assert(decreases_to!(items@ => items@[i as int]));
                    copies.push(items[i].copy());
                    i = i + 1;
                }
                let json = Json::Array(copies);
                assert(json@->Array_0 =~= self@->Array_0);
                json
            },
            Json::Object(fields) => {
                let mut copies: Vec<(String, Json)> = Vec::new();
                let mut i: usize = 0;
                while i < fields.len()
                    invariant
                        i <= fields@.len(),
                        copies@.len() == i,
                        *self == Json::Object(*fields),
                        forall|k: int|
                            0 <= k < i ==> (#[trigger] copies@[k]).0@ == fields@[k].0@
                                && copies@[k].1@ == fields@[k].1@,
                    decreases fields@.len() - i,
                {
                    assert(decreases_to!(*self => self->Object_0));
                    assert(decreases_to!(fields@ => fields@[i as int]));
                    copies.push((fields[i].0.clone(), fields[i].1.copy()));
                    i = i + 1;
                }
                let json = Json::Object(copies);
                assert(json@->Object_0 =~= self@->Object_0);
                json
            },
        }
    }

    /// Gives the field `name` of an object `value`. `null` becomes an object with
    /// that one field.
    pub fn set(&mut self, name: &str, value: Json)
        requires
            old(self)@ is Object || old(self)@ is Null,
        ensures
            final(self)@ == JsonView::Object(
                with_field(
                    if old(self)@ is Object {
                        old(self)@->Object_0
                    } else {
                        Seq::empty()
                    },
                    name@,
                    value@,
                ),
            ),
    {
        let ghost before = self@;
        let mut taken = Json::Null;
        std::mem::swap(self, &mut taken);
        let mut fields = match taken {
            Json::Object(fields) => fields,
            _ => Vec::new(),
        };
        let ghost names = Json::Object(fields)@->Object_0;
        let position = Self::position(&fields, name);
        proof {
            field_position_facts(names, name@);
            assert(before is Null ==> names =~= Seq::empty());
        }
        if position < fields.len() {
            fields.set(position, (name.to_owned(), value));
        } else {
            fields.push((name.to_owned(), value));
        }
        *self = Json::Object(fields);
        assert(self@->Object_0 =~= with_field(names, name@, value@));
    }
}

impl View for Json {
    type V = JsonView;

    open spec fn view(&self) -> JsonView {
        self.model()
    }
}

// ---------------------------------------------------------------------------
// Text
// ---------------------------------------------------------------------------

/// What a `serde_json::Value` holds.
pub uninterp spec fn value_json(value: serde_json::Value) -> JsonView;

/// What `serde_json::from_str` reads as a `serde_json::Value`, or nothing where
/// it refuses the text.
pub uninterp spec fn parsed_json(text: Seq<char>) -> Option<JsonView>;

/// What a `serde_json::Value` prints as.
pub uninterp spec fn json_text(value: JsonView) -> Seq<char>;

/// `serde_json::from_str::<serde_json::Value>`: what it reads depends on the
/// text alone.
#[verifier::external_body]
fn parse_value(text: &str) -> (value: Option<serde_json::Value>)
    ensures
        value is Some == parsed_json(text@) is Some,
        value is Some ==> value_json(value->0) == parsed_json(text@)->0,
{
    serde_json::from_str::<serde_json::Value>(text).ok()
}

/// The variants of `serde_json::Value`, with its map as a list of fields.
pub enum ValueNode {
    Null,
    Bool(bool),
    Number(serde_json::Number),
    Text(String),
    Array(Vec<serde_json::Value>),
    Object(Vec<(String, serde_json::Value)>),
}

impl ValueNode {
    /// What the variant and its parts stand for.
    pub open spec fn model(self) -> JsonView {
        match self {
            ValueNode::Null => JsonView::Null,
            ValueNode::Bool(value) => JsonView::Bool(value),
            ValueNode::Number(value) => JsonView::Number(value),
            ValueNode::Text(value) => JsonView::Text(value@),
            ValueNode::Array(items) => JsonView::Array(
                Seq::new(items@.len(), |i: int| value_json(items@[i])),
            ),
            ValueNode::Object(fields) => JsonView::Object(
                Seq::new(fields@.len(), |i: int| (fields@[i].0@, value_json(fields@[i].1))),
            ),
        }
    }
}

/// Takes a `serde_json::Value` apart: its variant and what the variant holds. A
/// map gives its entries in its own order, and holds each name once.
#[verifier::external_body]
fn open_value(value: serde_json::Value) -> (node: ValueNode)
    ensures
        node.model() == value_json(value),
        node.model() is Object ==> distinct_names(node.model()->Object_0),
{
    match value {
        serde_json::Value::Null => ValueNode::Null,
        serde_json::Value::Bool(value) => ValueNode::Bool(value),
        serde_json::Value::Number(value) => ValueNode::Number(value),
        serde_json::Value::String(value) => ValueNode::Text(value),
        serde_json::Value::Array(items) => ValueNode::Array(items),
        serde_json::Value::Object(fields) => ValueNode::Object(fields.into_iter().collect()),
    }
}

/// Puts a `serde_json::Value` together from its variant and what the variant
/// holds. A map keeps its entries in the order in which they were inserted.
#[verifier::external_body]
fn close_value(node: ValueNode) -> (value: serde_json::Value)
    requires
        node.model() is Object ==> distinct_names(node.model()->Object_0),
    ensures
        value_json(value) == node.model(),
{
    match node {
        ValueNode::Null => serde_json::Value::Null,
        ValueNode::Bool(value) => serde_json::Value::Bool(value),
        ValueNode::Number(value) => serde_json::Value::Number(value),
        ValueNode::Text(value) => serde_json::Value::String(value),
        ValueNode::Array(items) => serde_json::Value::Array(items),
        ValueNode::Object(fields) => serde_json::Value::Object(fields.into_iter().collect()),
    }
}

/// Whether a text stands in JSON as it is: it holds no control character, no
/// quotation mark and no backslash.
pub open spec fn plain_text(text: Seq<char>) -> bool {
    forall|i: int|
        0 <= i < text.len() ==> (#[trigger] text[i]) as u32 >= 0x20 && text[i] != '"' && text[i]
            != '\\'
}

/// An object with one field that holds a text, neither of which needs an escape.
pub open spec fn is_plain_entry(value: JsonView, name: Seq<char>, text: Seq<char>) -> bool {
    &&& value == JsonView::Object(seq![(name, JsonView::Text(text))])
    &&& plain_text(name)
    &&& plain_text(text)
}

/// The compact text of an object with one such field.
pub open spec fn plain_entry_text(name: Seq<char>, text: Seq<char>) -> Seq<char> {
    "{\""@ + name + "\":\""@ + text + "\"}"@
}

/// `<serde_json::Value as ToString>::to_string`: the compact text depends on the
/// value alone, and holds no line feed (the printer writes none between tokens
/// and escapes those in strings). An object with one field that holds a text is
/// printed with no white space between its tokens, and without an escape where
/// the texts need none.
#[verifier::external_body]
fn print_value(value: &serde_json::Value) -> (text: String)
    ensures
        text@ == json_text(value_json(*value)),
        !text@.contains('\n'),
        forall|name: Seq<char>, held: Seq<char>| #[trigger]
            is_plain_entry(value_json(*value), name, held) ==> text@ == plain_entry_text(name, held),
{
    value.to_string()
}

fn json_of(value: serde_json::Value) -> (json: Json)
    ensures
        json@ == value_json(value),
        json@.well_formed(),
    decreases value_json(value),
{
    match open_value(value) {
        ValueNode::Null => Json::Null,
        ValueNode::Bool(value) => Json::Bool(value),
        ValueNode::Number(value) => Json::Number(value),
        ValueNode::Text(value) => Json::Text(value),
        ValueNode::Array(items) => {
            let mut converted: Vec<Json> = Vec::new();
            let ghost whole = value_json(value);
            for item in iter: items
                invariant
                    whole == value_json(value),
                    whole == JsonView::Array(
                        Seq::new(iter.seq().len(), |i: int| value_json(iter.seq()[i])),
                    ),
                    converted@.len() == iter.index(),
                    forall|i: int|
                        0 <= i < iter.index() ==> (#[trigger] converted@[i])@ == value_json(
                            iter.seq()[i],
                        ) && converted@[i]@.well_formed(),
            {
                assert(whole->Array_0[iter.index() as int] == value_json(item));
                assert(decreases_to!(whole => whole->Array_0));
                converted.push(json_of(item));
            }
            let json = Json::Array(converted);
            assert(json@->Array_0 =~= whole->Array_0);
            json
        },
        ValueNode::Object(fields) => {
            let mut converted: Vec<(String, Json)> = Vec::new();
            let ghost whole = value_json(value);
            for field in iter: fields
                invariant
                    whole == value_json(value),
                    whole == JsonView::Object(
                        Seq::new(
                            iter.seq().len(),
                            |i: int| (iter.seq()[i].0@, value_json(iter.seq()[i].1)),
                        ),
                    ),
                    converted@.len() == iter.index(),
                    forall|i: int|
                        0 <= i < iter.index() ==> (#[trigger] converted@[i]).0@
                            == iter.seq()[i].0@ && converted@[i].1@ == value_json(iter.seq()[i].1)
                            && converted@[i].1@.well_formed(),
            {
                assert(whole->Object_0[iter.index() as int].1 == value_json(field.1));
                assert(decreases_to!(whole => whole->Object_0));
                converted.push((field.0, json_of(field.1)));
            }
            let json = Json::Object(converted);
            assert(json@->Object_0 =~= whole->Object_0);
            json
        },
    }
}

fn value_of(json: &Json) -> (value: serde_json::Value)
    requires
        json@.well_formed(),
    ensures
        value_json(value) == json@,
    decreases json,
{
    match json {
        Json::Null => close_value(ValueNode::Null),
        Json::Bool(value) => close_value(ValueNode::Bool(*value)),
        Json::Number(value) => close_value(ValueNode::Number(value.clone())),
        Json::Text(value) => close_value(ValueNode::Text(value.clone())),
        Json::Array(items) => {
            let mut values: Vec<serde_json::Value> = Vec::new();
            let mut i: usize = 0;
            while i < items.len()
                invariant
                    i <= items@.len(),
                    values@.len() == i,
                    *json == Json::Array(*items),
                    json@.well_formed(),
                    forall|k: int| 0 <= k < i ==> value_json(#[trigger] values@[k]) == items@[k]@,
                decreases items@.len() - i,
            {
                assert(json@->Array_0[i as int] == items@[i as int]@);
                assert(decreases_to!(items@ => items@[i as int]));
                values.push(value_of(&items[i]));
                i = i + 1;
            }
            let node = ValueNode::Array(values);
            assert(node.model()->Array_0 =~= json@->Array_0);
            close_value(node)
        },
        Json::Object(fields) => {
            let mut values: Vec<(String, serde_json::Value)> = Vec::new();
            let mut i: usize = 0;
            while i < fields.len()
                invariant
                    i <= fields@.len(),
                    values@.len() == i,
                    *json == Json::Object(*fields),
                    json@.well_formed(),
                    forall|k: int|
                        0 <= k < i ==> (#[trigger] values@[k]).0@ == fields@[k].0@ && value_json(
                            values@[k].1,
                        ) == fields@[k].1@,
                decreases fields@.len() - i,
            {
                assert(json@->Object_0[i as int].1 == fields@[i as int].1@);
                assert(decreases_to!(fields@ => fields@[i as int]));
                values.push((fields[i].0.clone(), value_of(&fields[i].1)));
                i = i + 1;
            }
            let node = ValueNode::Object(values);
            assert(node.model()->Object_0 =~= json@->Object_0);
            close_value(node)
        },
    }
}

/// Reads a text as JSON.
pub fn parse_json(text: &str) -> (json: Option<Json>)
    ensures
        json is Some == parsed_json(text@) is Some,
        json is Some ==> json->0@ == parsed_json(text@)->0 && json->0@.well_formed(),
{
    match parse_value(text) {
        Some(value) => Some(json_of(value)),
        None => None,
    }
}

/// The compact text of a value. It stands on one line.
pub fn print_json(json: &Json) -> (text: String)
    requires
        json@.well_formed(),
    ensures
        text@ == json_text(json@),
        !text@.contains('\n'),
        forall|name: Seq<char>, held: Seq<char>| #[trigger]
            is_plain_entry(json@, name, held) ==> text@ == plain_entry_text(name, held),
{
    print_value(&value_of(json))
}

// ---------------------------------------------------------------------------
// What is read from a value
// ---------------------------------------------------------------------------

/// A field is read by its name: the first one that has it, and none where no field
/// has it or the value is no object.
pub proof fn a_field_is_read_by_its_name(value: JsonView, name: Seq<char>, at: int)
    ensures
        !(value is Object) ==> value.get(name) is None,
        value is Object && 0 <= at < value->Object_0.len() && value->Object_0[at].0 == name && (
        forall|i: int| 0 <= i < at ==> (#[trigger] value->Object_0[i]).0 != name) ==> value.get(name)
            == Some(value->Object_0[at].1),
        value is Object && (forall|i: int|
            0 <= i < value->Object_0.len() ==> (#[trigger] value->Object_0[i]).0 != name)
            ==> value.get(name) is None,
{
    if value is Object {
        let fields = value->Object_0;
        field_position_facts(fields, name);
        let position = field_position(fields, name);
        if position < fields.len() {
            assert(fields[position].0 == name);
            if 0 <= at < fields.len() && fields[at].0 == name && position < at {
                assert(fields[position].0 == name);
            }
        }
    }
}

/// A field counts as a text, as a truth value or as a list where it is one, and as
/// a filled text where it has a character.
pub proof fn fields_count_as_what_they_are(
    value: JsonView,
    name: Seq<char>,
    text: Seq<char>,
    truth: bool,
    items: Seq<JsonView>,
)
    ensures
        value.text_field(name) == Some(text) <==> value.get(name) == Some(JsonView::Text(text)),
        value.filled_text_field(name) == Some(text) <==> text.len() > 0 && value.get(name) == Some(
            JsonView::Text(text),
        ),
        value.bool_field(name) == Some(truth) <==> value.get(name) == Some(JsonView::Bool(truth)),
        value.text() == Some(text) <==> value == JsonView::Text(text),
        value.boolean() == Some(truth) <==> value == JsonView::Bool(truth),
        value.items() == Some(items) <==> value == JsonView::Array(items),
{
}

/// Of two fields the first counts where it is there, whatever it holds, else the
/// second.
pub proof fn the_first_of_two_fields_counts(
    value: JsonView,
    first: Seq<char>,
    second: Seq<char>,
    text: Seq<char>,
)
    ensures
        value.get(first) is Some ==> value.either_field(first, second) == value.get(first),
        value.get(first) is None ==> value.either_field(first, second) == value.get(second),
        value.either_text_field(first, second) == Some(text) <==> value.get(first) == Some(
            JsonView::Text(text),
        ) || (value.get(first) is None && value.get(second) == Some(JsonView::Text(text))),
{
}

/// A value stands for what it holds.
pub proof fn a_value_stands_for_what_it_holds(value: Json)
    ensures
        match value {
            Json::Null => value@ == JsonView::Null,
            Json::Bool(truth) => value@ == JsonView::Bool(truth),
            Json::Number(number) => value@ == JsonView::Number(number),
            Json::Text(text) => value@ == JsonView::Text(text@),
            Json::Array(items) => {
                &&& value@ is Array
                &&& value@->Array_0.len() == items@.len()
                &&& forall|i: int|
                    0 <= i < items@.len() ==> #[trigger] value@->Array_0[i] == items@[i]@
            },
            Json::Object(fields) => {
                &&& value@ is Object
                &&& value@->Object_0.len() == fields@.len()
                &&& forall|i: int|
                    0 <= i < fields@.len() ==> #[trigger] value@->Object_0[i] == (
                        fields@[i].0@,
                        fields@[i].1@,
                    )
            },
        },
{
}

/// Setting a field keeps the order of the others, and adds one at the end at most.
pub proof fn setting_a_field_keeps_the_order(
    fields: Seq<(Seq<char>, JsonView)>,
    name: Seq<char>,
    value: JsonView,
)
    ensures
        ({
            let after = with_field(fields, name, value);
            &&& fields.len() <= after.len() <= fields.len() + 1
            &&& forall|i: int| 0 <= i < fields.len() ==> (#[trigger] after[i]).0 == fields[i].0
            &&& forall|i: int|
                0 <= i < fields.len() && fields[i].0 != name ==> #[trigger] after[i] == fields[i]
            &&& after.len() > fields.len() ==> after.last() == (name, value)
        }),
{
    field_position_facts(fields, name);
}

/// The text of an object with one plain field stands between braces, with its name and
/// its value between quotation marks and a colon between the two.
pub proof fn a_plain_entry_is_written_in_braces(name: Seq<char>, text: Seq<char>)
    ensures
        ({
            let written = plain_entry_text(name, text);
            let after_name = 2 + name.len() as int;
            let after_text = after_name + 3 + text.len() as int;
            &&& written.len() == name.len() + text.len() + 7
            &&& written[0] == '{' && written[1] == '"'
            &&& written.subrange(2, after_name) == name
            &&& written[after_name] == '"' && written[after_name + 1] == ':'
                && written[after_name + 2] == '"'
            &&& written.subrange(after_name + 3, after_text) == text
            &&& written[after_text] == '"' && written[after_text + 1] == '}'
        }),
{
    reveal_strlit("{\"");
    reveal_strlit("\":\"");
    reveal_strlit("\"}");
    let written = plain_entry_text(name, text);
    let after_name = 2 + name.len() as int;
    assert(written.subrange(2, after_name) =~= name);
    assert(written.subrange(after_name + 3, after_name + 3 + text.len() as int) =~= text);
}

} // verus!
