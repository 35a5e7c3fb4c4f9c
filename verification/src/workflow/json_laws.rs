//! What is found in a stored value, and what its text holds.
use crate::text::joined;
use crate::text_laws::value;
use crate::workflow::budget::{cost_read, micros_ceiling};
use crate::workflow::json::{
    field_from, field_of, field_texts, item_texts, json_text, quoted, JsonModel, NumberModel,
};
use vstd::prelude::*;

verus! {

proof fn lemma_found(fields: Seq<(Seq<char>, JsonModel)>, name: Seq<char>, from: int, i: int)
    requires
        0 <= from <= i < fields.len(),
        fields[i].0 == name,
        forall|k: int| from <= k < i ==> (#[trigger] fields[k]).0 != name,
    ensures
        field_from(fields, name, from) == Some(fields[i].1),
    decreases i - from,
{
    if from < i {
        assert(fields[from].0 != name);
        lemma_found(fields, name, from + 1, i);
    }
}

proof fn lemma_missing(fields: Seq<(Seq<char>, JsonModel)>, name: Seq<char>, from: int)
    requires
        0 <= from <= fields.len(),
        forall|k: int| from <= k < fields.len() ==> (#[trigger] fields[k]).0 != name,
    ensures
        field_from(fields, name, from) is None,
    decreases fields.len() - from,
{
    if from < fields.len() {
        assert(fields[from].0 != name);
        lemma_missing(fields, name, from + 1);
    }
}

/// A field is found by its name, the first that has it; a name that no field has is not found, and
/// nothing is found in what is no object.
pub proof fn law_a_field_is_found_by_name(
    fields: Seq<(Seq<char>, JsonModel)>,
    name: Seq<char>,
    i: int,
)
    ensures
        0 <= i < fields.len() && fields[i].0 == name && (forall|k: int|
            0 <= k < i ==> (#[trigger] fields[k]).0 != name) ==> field_of(
            JsonModel::Object(fields),
            name,
        ) == Some(fields[i].1),
        (forall|k: int| 0 <= k < fields.len() ==> (#[trigger] fields[k]).0 != name) ==> field_of(
            JsonModel::Object(fields),
            name,
        ) is None,
{
    if 0 <= i < fields.len() && fields[i].0 == name && (forall|k: int|
        0 <= k < i ==> (#[trigger] fields[k]).0 != name) {
        lemma_found(fields, name, 0, i);
    }
    if forall|k: int| 0 <= k < fields.len() ==> (#[trigger] fields[k]).0 != name {
        lemma_missing(fields, name, 0);
    }
}

/// A stored cost is read field by field: a count that is there is that count, one that is missing
/// or is no unsigned integer is zero; a cost that is missing or is none was not measured.
pub proof fn law_a_stored_cost_is_read_by_its_fields(stored: JsonModel, n: u64)
    ensures
        ({
            let cost = cost_read(stored);
            let number = JsonModel::Number(NumberModel::Unsigned(n));
            &&& field_of(stored, "wall_time_secs"@) == Some(number) ==> cost.wall_time_secs == n
            &&& field_of(stored, "tool_calls"@) == Some(number) ==> cost.tool_calls == n
            &&& field_of(stored, "cost_micros"@) == Some(number) ==> cost.cost_micros == Some(n)
            &&& field_of(stored, "wall_time_secs"@) is None ==> cost.wall_time_secs == 0
            &&& field_of(stored, "tool_calls"@) is None ==> cost.tool_calls == 0
            &&& field_of(stored, "cost_micros"@) is None ==> cost.cost_micros is None
            &&& field_of(stored, "wall_time_secs"@) matches Some(v) ==> (!(v is Number)
                ==> cost.wall_time_secs == 0)
            &&& field_of(stored, "tool_calls"@) matches Some(v) ==> (!(v is Number)
                ==> cost.tool_calls == 0)
            &&& field_of(stored, "cost_micros"@) matches Some(v) ==> (!(v is Number)
                ==> cost.cost_micros is None)
            &&& field_of(stored, "cost_micros"@) matches Some(JsonModel::Number(v)) ==> (
            !(v is Unsigned) ==> cost.cost_micros is None)
        }),
{
}

/// What is no object, such as nothing at all, reads as no cost.
pub proof fn law_what_is_no_object_costs_nothing(stored: JsonModel)
    requires
        !(stored is Object),
    ensures
        cost_read(stored).wall_time_secs == 0,
        cost_read(stored).tool_calls == 0,
        cost_read(stored).cost_micros is None,
{
}

/// A ceiling in dollars is one in millionths of a dollar, and no ceiling is none.
pub proof fn law_a_ceiling_is_in_millionths(usd: Option<crate::number::Double>)
    ensures
        usd is None ==> micros_ceiling(usd) is None,
        usd matches Some(d) ==> micros_ceiling(usd) is Some && micros_ceiling(usd)->0
            == crate::number::millionfold(d),
{
}

proof fn lemma_items(items: Seq<JsonModel>)
    ensures
        item_texts(items) == Seq::new(items.len(), |i: int| json_text(items[i])),
    decreases items.len(),
{
    if items.len() > 0 {
        lemma_items(items.drop_last());
    }
    assert(item_texts(items) =~= Seq::new(items.len(), |i: int| json_text(items[i])));
}

proof fn lemma_fields(fields: Seq<(Seq<char>, JsonModel)>)
    ensures
        field_texts(fields) == Seq::new(
            fields.len(),
            |i: int| quoted(fields[i].0) + ":"@ + json_text(fields[i].1),
        ),
    decreases fields.len(),
{
    if fields.len() > 0 {
        lemma_fields(fields.drop_last());
    }
    assert(field_texts(fields) =~= Seq::new(
        fields.len(),
        |i: int| quoted(fields[i].0) + ":"@ + json_text(fields[i].1),
    ));
}

/// The text of an array holds the text of every item, in order, between brackets and with commas
/// between them; that of an object every field, its name quoted and a colon before its value.
pub proof fn law_every_part_is_written(
    items: Seq<JsonModel>,
    fields: Seq<(Seq<char>, JsonModel)>,
)
    ensures
        json_text(JsonModel::Array(items)) == "["@ + joined(
            Seq::new(items.len(), |i: int| json_text(items[i])),
            ","@,
        ) + "]"@,
        json_text(JsonModel::Object(fields)) == "{"@ + joined(
            Seq::new(
                fields.len(),
                |i: int| quoted(fields[i].0) + ":"@ + json_text(fields[i].1),
            ),
            ","@,
        ) + "}"@,
{
    lemma_items(items);
    lemma_fields(fields);
}

/// An integer is written with its digits, behind a minus sign where it is negative and only there;
/// a truth value and nothing have their words.
pub proof fn law_numbers_are_written_exactly(n: u64, m: i64)
    requires
        m < 0,
    ensures
        value(json_text(JsonModel::Number(NumberModel::Unsigned(n)))) == n,
        json_text(JsonModel::Number(NumberModel::Unsigned(n)))[0] != '-',
        ({
            let s = json_text(JsonModel::Number(NumberModel::Negative(m)));
            s.len() > 1 && s[0] == '-' && value(s.skip(1)) == -m
        }),
        json_text(JsonModel::Bool(true)) == "true"@,
        json_text(JsonModel::Bool(false)) == "false"@,
        json_text(JsonModel::Null) == "null"@,
{
    reveal_strlit("-");
    crate::text_laws::law_digits_stand_for_the_number(n as nat);
    crate::text_laws::law_digits_stand_for_the_number((-m) as nat);
    let s = json_text(JsonModel::Number(NumberModel::Negative(m)));
    assert(s.skip(1) =~= crate::text::decimal((-m) as nat));
}

} // verus!
