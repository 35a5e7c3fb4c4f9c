//! JSON values as trees, their lookups and their compact encoding.
use crate::text::{decimal, decimal_text, join, joined, texts};
use vstd::prelude::*;

verus! {

/// A JSON number: an integer by its value, any other number by its JSON text.
#[derive(Debug, Clone, PartialEq, Eq)]
pub enum JsonNumber {
    Unsigned(u64),
    /// An integer below zero.
    Negative(i64),
    Real(String),
}

/// A JSON value. The fields of an object are held in ascending key order.
#[derive(Debug, PartialEq, Eq)]
pub enum JsonValue {
    Null,
    Bool(bool),
    Number(JsonNumber),
    String(String),
    Array(Vec<JsonValue>),
    Object(Vec<(String, JsonValue)>),
}

/// A number with its text seen as characters.
pub enum NumberModel {
    Unsigned(u64),
    Negative(i64),
    Real(Seq<char>),
}

/// A value with its strings seen as characters and its vectors as sequences.
pub enum JsonModel {
    Null,
    Bool(bool),
    Number(NumberModel),
    String(Seq<char>),
    Array(Seq<JsonModel>),
    Object(Seq<(Seq<char>, JsonModel)>),
}

impl View for JsonNumber {
    type V = NumberModel;

    open spec fn view(&self) -> NumberModel {
        match *self {
            JsonNumber::Unsigned(n) => NumberModel::Unsigned(n),
            JsonNumber::Negative(n) => NumberModel::Negative(n),
            JsonNumber::Real(s) => NumberModel::Real(s@),
        }
    }
}

pub open spec fn json_model(v: JsonValue) -> JsonModel
    decreases v,
{
    match v {
        JsonValue::Null => JsonModel::Null,
        JsonValue::Bool(b) => JsonModel::Bool(b),
        JsonValue::Number(n) => JsonModel::Number(n@),
        JsonValue::String(s) => JsonModel::String(s@),
        JsonValue::Array(items) => JsonModel::Array(item_models(items@)),
        JsonValue::Object(fields) => JsonModel::Object(field_models(fields@)),
    }
}

pub open spec fn item_models(items: Seq<JsonValue>) -> Seq<JsonModel>
    decreases items,
{
    if items.len() == 0 {
        Seq::empty()
    } else {
        item_models(items.drop_last()).push(json_model(items[items.len() - 1]))
    }
}

pub open spec fn field_models(fields: Seq<(String, JsonValue)>) -> Seq<(Seq<char>, JsonModel)>
    decreases fields,
{
    if fields.len() == 0 {
        Seq::empty()
    } else {
        field_models(fields.drop_last()).push(
            (fields[fields.len() - 1].0@, json_model(fields[fields.len() - 1].1)),
        )
    }
}

impl View for JsonValue {
    type V = JsonModel;

    open spec fn view(&self) -> JsonModel {
        json_model(*self)
    }
}

/// How JSON writes one character inside a string.
pub open spec fn escaped(c: char) -> Seq<char> {
    let u = c as int;
    if c == '"' {
        seq!['\\', '"']
    } else if c == '\\' {
        seq!['\\', '\\']
    } else if u == 0x8 {
        seq!['\\', 'b']
    } else if u == 0x9 {
        seq!['\\', 't']
    } else if u == 0xa {
        seq!['\\', 'n']
    } else if u == 0xc {
        seq!['\\', 'f']
    } else if u == 0xd {
        seq!['\\', 'r']
    } else if u < 0x20 {
        seq!['\\', 'u', '0', '0', crate::digest::hex_digit(u / 16), crate::digest::hex_digit(u % 16)]
    } else {
        seq![c]
    }
}

/// The characters of `s` escaped one by one.
pub open spec fn escaped_all(s: Seq<char>) -> Seq<char>
    decreases s.len(),
{
    if s.len() == 0 {
        Seq::empty()
    } else {
        escaped_all(s.drop_last()) + escaped(s.last())
    }
}

/// `s` as a JSON string literal.
pub open spec fn quoted(s: Seq<char>) -> Seq<char> {
    seq!['"'] + escaped_all(s) + seq!['"']
}

/// The compact encoding of a value: no white space, the fields of an object in the order
/// in which they are held.
pub open spec fn json_text(v: JsonModel) -> Seq<char>
    decreases v,
{
    match v {
        JsonModel::Null => "null"@,
        JsonModel::Bool(b) => if b {
            "true"@
        } else {
            "false"@
        },
        JsonModel::Number(NumberModel::Unsigned(n)) => decimal(n as nat),
        JsonModel::Number(NumberModel::Negative(n)) => "-"@ + decimal(abs(n as int)),
        JsonModel::Number(NumberModel::Real(s)) => s,
        JsonModel::String(s) => quoted(s),
        JsonModel::Array(items) => "["@ + joined(item_texts(items), ","@) + "]"@,
        JsonModel::Object(fields) => "{"@ + joined(field_texts(fields), ","@) + "}"@,
    }
}

/// The magnitude of an integer.
pub open spec fn abs(n: int) -> nat {
    if n < 0 {
        (-n) as nat
    } else {
        n as nat
    }
}

pub open spec fn item_texts(items: Seq<JsonModel>) -> Seq<Seq<char>>
    decreases items,
{
    if items.len() == 0 {
        Seq::empty()
    } else {
        item_texts(items.drop_last()).push(json_text(items[items.len() - 1]))
    }
}

pub open spec fn field_texts(fields: Seq<(Seq<char>, JsonModel)>) -> Seq<Seq<char>>
    decreases fields,
{
    if fields.len() == 0 {
        Seq::empty()
    } else {
        field_texts(fields.drop_last()).push(
            quoted(fields[fields.len() - 1].0) + ":"@ + json_text(fields[fields.len() - 1].1),
        )
    }
}

/// Trusted: the `Display` text of a `serde_json::Value` that holds a string is the JSON
/// string literal: the characters between double quotes, with `"`, `\` and the control
/// characters below U+0020 escaped.
#[verifier::external_body]
fn quote(s: &str) -> (out: String)
    ensures
        out@ == quoted(s@),
{
    serde_json::Value::from(s).to_string()
}

proof fn lemma_item_models(items: Seq<JsonValue>, k: int)
    requires
        0 <= k < items.len(),
    ensures
        item_models(items.take(k + 1)) == item_models(items.take(k)).push(json_model(items[k])),
{
    assert(items.take(k + 1).drop_last() =~= items.take(k));
}

proof fn lemma_field_models(fields: Seq<(String, JsonValue)>, k: int)
    requires
        0 <= k < fields.len(),
    ensures
        field_models(fields.take(k + 1)) == field_models(fields.take(k)).push(
            (fields[k].0@, json_model(fields[k].1)),
        ),
{
    assert(fields.take(k + 1).drop_last() =~= fields.take(k));
}

/// The models of the fields, place by place.
pub proof fn lemma_field_models_at(fields: Seq<(String, JsonValue)>)
    ensures
        field_models(fields).len() == fields.len(),
        forall|i: int|
            0 <= i < fields.len() ==> #[trigger] field_models(fields)[i] == (
                fields[i].0@,
                json_model(fields[i].1),
            ),
    decreases fields.len(),
{
    if fields.len() > 0 {
        let front = fields.drop_last();
        lemma_field_models_at(front);
        assert forall|i: int| 0 <= i < fields.len() implies #[trigger] field_models(fields)[i] == (
            fields[i].0@,
            json_model(fields[i].1),
        ) by {
            if i < front.len() {
                assert(field_models(fields)[i] == field_models(front)[i]);
            }
        }
    }
}

/// The first field named `name` from place `i` on.
pub open spec fn field_from(
    fields: Seq<(Seq<char>, JsonModel)>,
    name: Seq<char>,
    i: int,
) -> Option<JsonModel>
    decreases fields.len() - i,
{
    if i >= fields.len() {
        None
    } else if fields[i].0 == name {
        Some(fields[i].1)
    } else {
        field_from(fields, name, i + 1)
    }
}

/// The field of an object with that name; a value that is no object has none.
pub open spec fn field_of(v: JsonModel, name: Seq<char>) -> Option<JsonModel> {
    match v {
        JsonModel::Object(fields) => field_from(fields, name, 0),
        _ => None,
    }
}

/// The value as an unsigned integer, if it is one.
pub open spec fn unsigned_of(v: JsonModel) -> Option<u64> {
    match v {
        JsonModel::Number(NumberModel::Unsigned(n)) => Some(n),
        _ => None,
    }
}

fn magnitude(n: i64) -> (r: u64)
    ensures
        r == abs(n as int),
{
    if n >= 0 {
        n as u64
    } else if n == i64::MIN {
        0x8000_0000_0000_0000
    } else {
        (-n) as u64
    }
}

impl JsonNumber {
    fn copy(&self) -> (r: JsonNumber)
        ensures
            r@ == self@,
    {
        match self {
            JsonNumber::Unsigned(n) => JsonNumber::Unsigned(*n),
            JsonNumber::Negative(n) => JsonNumber::Negative(*n),
            JsonNumber::Real(s) => JsonNumber::Real(s.clone()),
        }
    }
}

/// Values with the same models.
pub fn copy_all(items: &Vec<JsonValue>) -> (r: Vec<JsonValue>)
    ensures
        item_models(r@) == item_models(items@),
{
    let mut out: Vec<JsonValue> = Vec::new();
    let mut k: usize = 0;
    proof {
        assert(items@.take(0) =~= out@);
    }
    while k < items.len()
        invariant
            k <= items@.len(),
            item_models(out@) == item_models(items@.take(k as int)),
        decreases items@.len() - k,
    {
        proof {
            lemma_item_models(items@, k as int);
        }
        let ghost before = out@;
        out.push(items[k].copy());
        proof {
            assert(out@.drop_last() =~= before);
        }
        k = k + 1;
    }
    proof {
        assert(items@.take(items@.len() as int) =~= items@);
    }
    out
}

impl Clone for JsonValue {
    fn clone(&self) -> (r: Self)
        ensures
            r@ == self@,
    {
        self.copy()
    }
}

impl JsonValue {
    /// A value with the same model.
    pub fn copy(&self) -> (r: JsonValue)
        ensures
            r@ == self@,
        decreases self,
    {
        match self {
            JsonValue::Null => JsonValue::Null,
            JsonValue::Bool(b) => JsonValue::Bool(*b),
            JsonValue::Number(n) => JsonValue::Number(n.copy()),
            JsonValue::String(s) => JsonValue::String(s.clone()),
            JsonValue::Array(items) => {
                let mut out: Vec<JsonValue> = Vec::new();
                let mut k: usize = 0;
                proof {
                    assert(items@.take(0) =~= Seq::<JsonValue>::empty());
                    assert(out@ =~= Seq::<JsonValue>::empty());
                }
                while k < items.len()
                    invariant
                        k <= items@.len(),
                        *self == JsonValue::Array(*items),
                        out@.len() == k,
                        item_models(out@) == item_models(items@.take(k as int)),
                    decreases items@.len() - k,
                {
                    proof {
                        lemma_item_models(items@, k as int);
                    }
                    let ghost before = out@;
                    proof {
                        assert(decreases_to!(*self => self->Array_0));
                        assert(decreases_to!(self->Array_0 => items@));
                        assert(decreases_to!(items@ => items@[k as int]));
                    }
                    out.push(items[k].copy());
                    proof {
                        assert(out@.drop_last() =~= before);
                    }
                    k = k + 1;
                }
                proof {
                    assert(items@.take(items@.len() as int) =~= items@);
                }
                JsonValue::Array(out)
            },
            JsonValue::Object(fields) => {
                let mut out: Vec<(String, JsonValue)> = Vec::new();
                let mut k: usize = 0;
                proof {
                    assert(fields@.take(0) =~= Seq::<(String, JsonValue)>::empty());
                    assert(out@ =~= Seq::<(String, JsonValue)>::empty());
                }
                while k < fields.len()
                    invariant
                        k <= fields@.len(),
                        *self == JsonValue::Object(*fields),
                        out@.len() == k,
                        field_models(out@) == field_models(fields@.take(k as int)),
                    decreases fields@.len() - k,
                {
                    proof {
                        lemma_field_models(fields@, k as int);
                    }
                    let ghost before = out@;
                    let field: &(String, JsonValue) = &fields[k];
                    proof {
                        assert(decreases_to!(*self => self->Object_0));
                        assert(decreases_to!(self->Object_0 => fields@));
                        assert(decreases_to!(fields@ => fields@[k as int]));
                        assert(decreases_to!(fields@[k as int] => fields@[k as int].1));
                    }
                    out.push((field.0.clone(), field.1.copy()));
                    proof {
                        assert(out@.drop_last() =~= before);
                    }
                    k = k + 1;
                }
                proof {
                    assert(fields@.take(fields@.len() as int) =~= fields@);
                }
                JsonValue::Object(out)
            },
        }
    }

    /// The field of an object with that name.
    pub fn get(&self, name: &str) -> (r: Option<&JsonValue>)
        ensures
            match r {
                Some(v) => field_of(self@, name@) == Some(v@),
                None => field_of(self@, name@) is None,
            },
    {
        match self {
            JsonValue::Object(fields) => {
                let mut k: usize = 0;
                proof {
                    lemma_field_models_at(fields@);
                }
                while k < fields.len()
                    invariant
                        k <= fields@.len(),
                        *self == JsonValue::Object(*fields),
                        field_models(fields@).len() == fields@.len(),
                        forall|i: int|
                            0 <= i < fields@.len() ==> #[trigger] field_models(fields@)[i] == (
                                fields@[i].0@,
                                json_model(fields@[i].1),
                            ),
                        field_of(self@, name@) == field_from(
                            field_models(fields@),
                            name@,
                            k as int,
                        ),
                    decreases fields@.len() - k,
                {
                    if crate::text::same_text(&fields[k].0, name) {
                        return Some(&fields[k].1);
                    }
                    k = k + 1;
                }
                None
            },
            _ => None,
        }
    }

    /// The value as an unsigned integer, if it is one.
    pub fn as_u64(&self) -> (r: Option<u64>)
        ensures
            r == unsigned_of(self@),
    {
        match self {
            JsonValue::Number(JsonNumber::Unsigned(n)) => Some(*n),
            _ => None,
        }
    }

    /// The compact JSON encoding.
    pub fn to_text(&self) -> (r: String)
        ensures
            r@ == json_text(self@),
        decreases self,
    {
        match self {
            JsonValue::Null => "null".to_owned(),
            JsonValue::Bool(b) => if *b {
                "true".to_owned()
            } else {
                "false".to_owned()
            },
            JsonValue::Number(JsonNumber::Unsigned(n)) => decimal_text(*n),
            JsonValue::Number(JsonNumber::Negative(n)) => {
                let digits: String = decimal_text(magnitude(*n));
                crate::text::concat2("-", &digits)
            },
            JsonValue::Number(JsonNumber::Real(s)) => s.clone(),
            JsonValue::String(s) => quote(s),
            JsonValue::Array(items) => {
                let mut parts: Vec<String> = Vec::new();
                let mut k: usize = 0;
                proof {
                    assert(items@.take(0) =~= Seq::<JsonValue>::empty());
                    assert(texts(parts@) =~= Seq::<Seq<char>>::empty());
                }
                while k < items.len()
                    invariant
                        k <= items@.len(),
                        *self == JsonValue::Array(*items),
                        texts(parts@) == item_texts(item_models(items@.take(k as int))),
                    decreases items@.len() - k,
                {
                    let ghost before = parts@;
                    proof {
                        lemma_item_models(items@, k as int);
                        let m = item_models(items@.take(k as int));
                        assert(m.push(json_model(items@[k as int])).drop_last() =~= m);
                    }
                    proof {
                        assert(decreases_to!(*self => self->Array_0));
                        assert(decreases_to!(self->Array_0 => items@));
                        assert(decreases_to!(items@ => items@[k as int]));
                    }
                    parts.push(items[k].to_text());
                    proof {
                        assert(texts(parts@) =~= texts(before).push(
                            json_text(json_model(items@[k as int])),
                        ));
                    }
                    k = k + 1;
                }
                proof {
                    assert(items@.take(items@.len() as int) =~= items@);
                }
                let body: String = join(&parts, ",");
                crate::text::concat3("[", &body, "]")
            },
            JsonValue::Object(fields) => {
                let mut parts: Vec<String> = Vec::new();
                let mut k: usize = 0;
                proof {
                    assert(fields@.take(0) =~= Seq::<(String, JsonValue)>::empty());
                    assert(texts(parts@) =~= Seq::<Seq<char>>::empty());
                }
                while k < fields.len()
                    invariant
                        k <= fields@.len(),
                        *self == JsonValue::Object(*fields),
                        texts(parts@) == field_texts(field_models(fields@.take(k as int))),
                    decreases fields@.len() - k,
                {
                    let ghost before = parts@;
                    let field: &(String, JsonValue) = &fields[k];
                    proof {
                        lemma_field_models(fields@, k as int);
                        let m = field_models(fields@.take(k as int));
                        assert(m.push((field.0@, json_model(field.1))).drop_last() =~= m);
                    }
                    proof {
                        assert(decreases_to!(*self => self->Object_0));
                        assert(decreases_to!(self->Object_0 => fields@));
                        assert(decreases_to!(fields@ => fields@[k as int]));
                        assert(decreases_to!(fields@[k as int] => fields@[k as int].1));
                    }
                    let key: String = quote(&field.0);
                    let value: String = field.1.to_text();
                    parts.push(crate::text::concat3(&key, ":", &value));
                    proof {
                        assert(texts(parts@) =~= texts(before).push(
                            quoted(field.0@) + ":"@ + json_text(json_model(field.1)),
                        ));
                    }
                    k = k + 1;
                }
                proof {
                    assert(fields@.take(fields@.len() as int) =~= fields@);
                }
                let body: String = join(&parts, ",");
                crate::text::concat3("{", &body, "}")
            },
        }
    }
}

} // verus!
