//! Tool-name normalization and the binding of a tool node's arguments.
//!
//! A definition may spell a tool id with hyphens, while the runtime's names use
//! underscores; [`normalize_tool_name`] maps the one to the other. A tool node's
//! arguments may refer to the run's typed inputs with `${{ inputs.<name> }}`: a value
//! that is exactly one placeholder takes the input's typed value, a placeholder inside
//! other text is replaced by the input as text.
use crate::text::{
    char_vec, concat3, find_from, lemma_next_occurrence, next_occurrence, push_char, string_of,
    trim, trimmed,
};
use crate::text_map::TextMap;
use crate::workflow::json::{
    field_from, field_models, field_of, json_model, json_text, JsonModel, JsonValue,
};
use vstd::prelude::*;

verus! {

/// `name` with every hyphen replaced by an underscore.
pub open spec fn normalized(name: Seq<char>) -> Seq<char> {
    name.map_values(
        |c: char|
            if c == '-' {
                '_'
            } else {
                c
            },
    )
}

/// Normalizes a tool id to the runtime namespace by rewriting `-` to `_`.
pub fn normalize_tool_name(name: &str) -> (r: String)
    ensures
        r@ == normalized(name@),
{
    let v: Vec<char> = char_vec(name);
    let mut out: String = String::new();
    let mut i: usize = 0;
    proof {
        assert(normalized(name@).take(0) =~= Seq::<char>::empty());
    }
    while i < v.len()
        invariant
            v@ == name@,
            i <= v@.len(),
            out@ == normalized(name@).take(i as int),
        decreases v@.len() - i,
    {
        let c: char = if v[i] == '-' {
            '_'
        } else {
            v[i]
        };
        push_char(&mut out, c);
        proof {
            assert(normalized(name@).take(i + 1) =~= normalized(name@).take(i as int).push(c));
        }
        i = i + 1;
    }
    proof {
        assert(normalized(name@).take(name@.len() as int) =~= normalized(name@));
    }
    out
}

/// Normalization is idempotent, and leaves a name without hyphens unchanged.
pub proof fn law_normalization_is_an_alias(name: Seq<char>)
    ensures
        normalized(normalized(name)) == normalized(name),
        !name.contains('-') ==> normalized(name) == name,
        !normalized(name).contains('-'),
{
    assert(normalized(normalized(name)) =~= normalized(name));
    if !name.contains('-') {
        assert forall|i: int| 0 <= i < name.len() implies normalized(name)[i] == name[i] by {
            assert(name.contains(name[i]));
        }
        assert(normalized(name) =~= name);
    }
}

/// What opens a placeholder.
pub open spec fn opening() -> Seq<char> {
    seq!['$', '{', '{']
}

/// What closes a placeholder.
pub open spec fn closing() -> Seq<char> {
    seq!['}', '}']
}

/// What an input reference starts with.
pub open spec fn input_prefix() -> Seq<char> {
    seq!['i', 'n', 'p', 'u', 't', 's', '.']
}

/// The placeholders of `s` from offset `cursor` on, each as its start, its end and the
/// name of the input it refers to; or what is wrong with the first malformed one.
pub open spec fn placeholders(s: Seq<char>, cursor: int) -> Result<
    Seq<(int, int, Seq<char>)>,
    Seq<char>,
>
    decreases s.len() - cursor,
    when 0 <= cursor
{
    match next_occurrence(s, opening(), cursor) {
        None => Ok(Seq::empty()),
        Some(start) => match next_occurrence(s, closing(), start + 3) {
            None => Err("unterminated `${{` placeholder in `"@ + s + "`"@),
            Some(inner_end) => {
                let end = inner_end + 2;
                let span = s.subrange(start, end);
                let inner = trimmed(s.subrange(start + 3, inner_end));
                if !(inner.len() >= 7 && inner.take(7) == input_prefix()) {
                    Err(
                        "`"@ + span
                            + "` is not a supported placeholder (only `${{ inputs.<name> }}`)"@,
                    )
                } else if inner.len() == 7 {
                    Err("empty input name in `"@ + span + "`"@)
                } else {
                    proof {
                        lemma_next_occurrence(s, opening(), cursor);
                        lemma_next_occurrence(s, closing(), start + 3);
                    }
                    match placeholders(s, end) {
                        Ok(rest) => Ok(seq![(start, end, inner.skip(7))] + rest),
                        Err(e) => Err(e),
                    }
                }
            },
        },
    }
}

/// Found placeholders with offsets as integers and names as characters.
pub open spec fn spans(v: Seq<(usize, usize, String)>) -> Seq<(int, int, Seq<char>)> {
    Seq::new(v.len(), |i: int| (v[i].0 as int, v[i].1 as int, v[i].2@))
}

/// The byte offset of the character at `at`.
pub open spec fn byte_offset(s: Seq<char>, at: int) -> int {
    vstd::utf8::encode_utf8(s.take(at)).len() as int
}

/// Found placeholders with the character offsets in `s` as byte offsets.
pub open spec fn byte_spans(s: Seq<char>, found: Seq<(int, int, Seq<char>)>) -> Seq<
    (int, int, Seq<char>),
> {
    Seq::new(
        found.len(),
        |i: int| (byte_offset(s, found[i].0), byte_offset(s, found[i].1), found[i].2),
    )
}

/// Locates every `${{ inputs.<name> }}` placeholder in `s`, as byte offsets. A malformed
/// placeholder (unterminated, or not a reference to an input) is an error that names the
/// offending span.
pub fn find_placeholders(s: &str) -> (r: Result<Vec<(usize, usize, String)>, String>)
    ensures
        match r {
            Ok(v) => placeholders(s@, 0) is Ok && spans(v@) == byte_spans(
                s@,
                placeholders(s@, 0)->Ok_0,
            ),
            Err(e) => placeholders(s@, 0) == Err::<Seq<(int, int, Seq<char>)>, _>(e@),
        },
{
    let text: Vec<char> = char_vec(s);
    let found: Vec<(usize, usize, String)> = match locate(s) {
        Ok(v) => v,
        Err(e) => {
            return Err(e);
        },
    };
    let ghost at = spans(found@);
    proof {
        assert(placeholders(s@, 0)->Ok_0 == at);
        lemma_placeholder_bounds(s@, 0);
        assert(laid_out(at, s@.len() as int));
    }
    let mut out: Vec<(usize, usize, String)> = Vec::new();
    let mut i: usize = 0;
    while i < found.len()
        invariant
            i <= found@.len(),
            text@ == s@,
            at == spans(found@),
            laid_out(at, s@.len() as int),
            out@.len() == i,
            forall|k: int| 0 <= k < i ==> #[trigger] spans(out@)[k] == byte_spans(s@, at)[k],
        decreases found@.len() - i,
    {
        proof {
            assert(at[i as int] == (
                found@[i as int].0 as int,
                found@[i as int].1 as int,
                found@[i as int].2@,
            ));
        }
        let start: usize = bytes_before(&text, found[i].0);
        let end: usize = bytes_before(&text, found[i].1);
        let ghost before = out@;
        out.push((start, end, found[i].2.clone()));
        proof {
            assert forall|k: int| 0 <= k < i + 1 implies #[trigger] spans(out@)[k] == byte_spans(
                s@,
                at,
            )[k] by {
                if k < i {
                    assert(spans(out@)[k] == spans(before)[k]);
                }
            }
        }
        i = i + 1;
    }
    proof {
        assert(spans(out@) =~= byte_spans(s@, at));
    }
    Ok(out)
}

/// How many bytes the first `at` characters take.
fn bytes_before(text: &Vec<char>, at: usize) -> (r: usize)
    requires
        at <= text@.len(),
    ensures
        r == byte_offset(text@, at as int),
{
    let head: String = string_of(text, 0, at);
    proof {
        assert(text@.subrange(0, at as int) =~= text@.take(at as int));
    }
    head.as_str().as_bytes_vec().len()
}

/// Locates every placeholder in `s`, as character offsets.
fn locate(s: &str) -> (r: Result<Vec<(usize, usize, String)>, String>)
    ensures
        match r {
            Ok(v) => placeholders(s@, 0) == Ok::<_, Seq<char>>(spans(v@)),
            Err(e) => placeholders(s@, 0) == Err::<Seq<(int, int, Seq<char>)>, _>(e@),
        },
{
    let text: Vec<char> = char_vec(s);
    let open: Vec<char> = char_vec("${{");
    let close: Vec<char> = char_vec("}}");
    let prefix: Vec<char> = char_vec("inputs.");
    proof {
        reveal_strlit("${{");
        reveal_strlit("}}");
        reveal_strlit("inputs.");
        assert(open@ =~= opening());
        assert(close@ =~= closing());
        assert(prefix@ =~= input_prefix());
    }
    let mut out: Vec<(usize, usize, String)> = Vec::new();
    let mut cursor: usize = 0;
    let total: usize = text.len();
    proof {
        if let Ok(rest) = placeholders(s@, 0) {
            assert(spans(out@) + rest =~= rest);
        }
    }
    loop
        invariant
            text@ == s@,
            total == text@.len(),
            open@ == opening(),
            close@ == closing(),
            prefix@ == input_prefix(),
            cursor <= text@.len(),
            match placeholders(s@, cursor as int) {
                Ok(rest) => placeholders(s@, 0) == Ok::<_, Seq<char>>(spans(out@) + rest),
                Err(e) => placeholders(s@, 0) == Err::<Seq<(int, int, Seq<char>)>, _>(e),
            },
        decreases text@.len() - cursor,
    {
        let start: usize = match find_from(&text, &open, cursor) {
            Some(at) => at,
            None => {
                proof {
                    assert(spans(out@) + Seq::<(int, int, Seq<char>)>::empty() =~= spans(out@));
                }
                return Ok(out);
            },
        };
        let inner_end: usize = match find_from(&text, &close, start + 3) {
            Some(at) => at,
            None => {
                return Err(concat3("unterminated `${{` placeholder in `", s, "`"));
            },
        };
        let end: usize = inner_end + 2;
        let span: String = string_of(&text, start, end);
        let body: String = string_of(&text, start + 3, inner_end);
        let inner_text: String = trim(&body);
        let inner: Vec<char> = char_vec(&inner_text);
        let referenced: bool = inner.len() >= 7 && {
            let head: String = string_of(&inner, 0, 7);
            let wanted: String = string_of(&prefix, 0, 7);
            proof {
                assert(inner@.subrange(0, 7) =~= inner@.take(7));
                assert(prefix@.subrange(0, 7) =~= prefix@);
            }
            head == wanted
        };
        if !referenced {
            return Err(
                concat3(
                    "`",
                    &span,
                    "` is not a supported placeholder (only `${{ inputs.<name> }}`)",
                ),
            );
        }
        if inner.len() == 7 {
            return Err(concat3("empty input name in `", &span, "`"));
        }
        let name: String = string_of(&inner, 7, inner.len());
        let ghost before = out@;
        proof {
            assert(inner@.subrange(7, inner@.len() as int) =~= inner@.skip(7));
        }
        out.push((start, end, name));
        proof {
            let found = (start as int, end as int, inner@.skip(7));
            assert(spans(out@) =~= spans(before).push(found));
            if let Ok(rest) = placeholders(s@, end as int) {
                assert(spans(before) + (seq![found] + rest) =~= spans(out@) + rest);
            }
        }
        cursor = end;
    }
}

/// The names in a list of placeholders.
pub open spec fn names_of(found: Seq<(int, int, Seq<char>)>) -> Seq<Seq<char>> {
    Seq::new(found.len(), |i: int| found[i].2)
}

/// The input names a string refers to through placeholders, in order, repetitions kept.
/// An error names a malformed placeholder.
pub fn scan_input_refs(s: &str) -> (r: Result<Vec<String>, String>)
    ensures
        match r {
            Ok(v) => placeholders(s@, 0) is Ok && crate::text::texts(v@) == names_of(
                placeholders(s@, 0)->Ok_0,
            ),
            Err(e) => placeholders(s@, 0) == Err::<Seq<(int, int, Seq<char>)>, _>(e@),
        },
{
    let found: Vec<(usize, usize, String)> = match find_placeholders(s) {
        Ok(v) => v,
        Err(e) => {
            return Err(e);
        },
    };
    let mut out: Vec<String> = Vec::new();
    let mut i: usize = 0;
    while i < found.len()
        invariant
            i <= found@.len(),
            out@.len() == i,
            forall|k: int| 0 <= k < i ==> (#[trigger] out@[k])@ == found@[k].2@,
        decreases found@.len() - i,
    {
        out.push(found[i].2.clone());
        i = i + 1;
    }
    proof {
        let at = placeholders(s@, 0)->Ok_0;
        assert(spans(found@).len() == byte_spans(s@, at).len());
        assert forall|k: int| 0 <= k < out@.len() implies #[trigger] crate::text::texts(out@)[k]
            == names_of(at)[k] by {
            assert(spans(found@)[k] == byte_spans(s@, at)[k]);
            assert(spans(found@)[k].2 == out@[k]@);
        }
        assert(crate::text::texts(out@) =~= names_of(placeholders(s@, 0)->Ok_0));
    }
    Ok(out)
}

/// The text an embedded placeholder is replaced by: a string as itself, any other value
/// as its JSON encoding.
pub open spec fn stringified(v: JsonModel) -> Seq<char> {
    match v {
        JsonModel::String(s) => s,
        _ => json_text(v),
    }
}

pub fn stringify(value: &JsonValue) -> (r: String)
    ensures
        r@ == stringified(value@),
{
    match value {
        JsonValue::String(s) => s.clone(),
        _ => value.to_text(),
    }
}

/// The input with that name, or a message that names the missing one.
pub open spec fn looked_up(inputs: JsonModel, name: Seq<char>) -> Result<JsonModel, Seq<char>> {
    match field_of(inputs, name) {
        Some(v) => Ok(v),
        None => Err("unknown workflow input `"@ + name + "`"@),
    }
}

pub fn lookup<'a>(inputs: &'a JsonValue, name: &str) -> (r: Result<&'a JsonValue, String>)
    ensures
        match r {
            Ok(v) => looked_up(inputs@, name@) == Ok::<_, Seq<char>>(v@),
            Err(e) => looked_up(inputs@, name@) == Err::<JsonModel, _>(e@),
        },
{
    match inputs.get(name) {
        Some(v) => Ok(v),
        None => Err(concat3("unknown workflow input `", name, "`")),
    }
}

/// The text of `s` from offset `last` on, with the placeholders from the `k`-th on
/// replaced; or the message of the first lookup that fails.
pub open spec fn spliced(
    s: Seq<char>,
    found: Seq<(int, int, Seq<char>)>,
    inputs: JsonModel,
    last: int,
    k: int,
) -> Result<Seq<char>, Seq<char>>
    decreases found.len() - k,
{
    if k >= found.len() {
        Ok(s.subrange(last, s.len() as int))
    } else {
        match looked_up(inputs, found[k].2) {
            Err(e) => Err(e),
            Ok(v) => match spliced(s, found, inputs, found[k].1, k + 1) {
                Err(e) => Err(e),
                Ok(rest) => Ok(s.subrange(last, found[k].0) + stringified(v) + rest),
            },
        }
    }
}

/// One argument value with its placeholders resolved.
pub open spec fn interpolated(value: JsonModel, inputs: JsonModel) -> Result<JsonModel, Seq<char>> {
    match value {
        JsonModel::String(s) => match placeholders(s, 0) {
            Err(e) => Err(e),
            Ok(found) => if found.len() == 0 {
                Ok(value)
            } else if found.len() == 1 && found[0].0 == 0 && found[0].1 == s.len() {
                looked_up(inputs, found[0].2)
            } else {
                match spliced(s, found, inputs, 0, 0) {
                    Err(e) => Err(e),
                    Ok(t) => Ok(JsonModel::String(t)),
                }
            },
        },
        _ => Ok(value),
    }
}

/// Placeholders lie inside the string, one behind the other.
proof fn lemma_placeholder_bounds(s: Seq<char>, cursor: int)
    requires
        0 <= cursor <= s.len(),
        placeholders(s, cursor) is Ok,
    ensures
        ({
            let found = placeholders(s, cursor)->Ok_0;
            forall|i: int|
                0 <= i < found.len() ==> {
                    &&& cursor <= (#[trigger] found[i]).0 < found[i].1 <= s.len()
                    &&& i > 0 ==> found[i - 1].1 <= found[i].0
                }
        }),
    decreases s.len() - cursor,
{
    lemma_next_occurrence(s, opening(), cursor);
    if let Some(start) = next_occurrence(s, opening(), cursor) {
        lemma_next_occurrence(s, closing(), start + 3);
        if let Some(inner_end) = next_occurrence(s, closing(), start + 3) {
            lemma_placeholder_bounds(s, inner_end + 2);
            let rest = placeholders(s, inner_end + 2)->Ok_0;
            let found = placeholders(s, cursor)->Ok_0;
            assert forall|i: int| 0 <= i < found.len() implies {
                &&& cursor <= (#[trigger] found[i]).0 < found[i].1 <= s.len()
                &&& i > 0 ==> found[i - 1].1 <= found[i].0
            } by {
                if i > 0 {
                    assert(found[i] == rest[i - 1]);
                    if i > 1 {
                        assert(found[i - 1] == rest[i - 2]);
                    }
                }
            }
        }
    }
}

/// Whether placeholders lie inside a string of that length, one behind the other.
spec fn laid_out(at: Seq<(int, int, Seq<char>)>, len: int) -> bool {
    forall|i: int|
        0 <= i < at.len() ==> {
            &&& 0 <= (#[trigger] at[i]).0 < at[i].1 <= len
            &&& i > 0 ==> at[i - 1].1 <= at[i].0
        }
}

/// Replaces every placeholder by the text of the input it names.
fn splice(s: &String, found: &Vec<(usize, usize, String)>, inputs: &JsonValue) -> (r: Result<
    String,
    String,
>)
    requires
        laid_out(spans(found@), s@.len() as int),
    ensures
        match r {
            Ok(t) => spliced(s@, spans(found@), inputs@, 0, 0) == Ok::<_, Seq<char>>(t@),
            Err(e) => spliced(s@, spans(found@), inputs@, 0, 0) == Err::<Seq<char>, _>(e@),
        },
{
    let text: Vec<char> = char_vec(s);
    let ghost at = spans(found@);
    let mut out: String = String::new();
    let mut last: usize = 0;
    let mut k: usize = 0;
    proof {
        if let Ok(t) = spliced(s@, at, inputs@, 0, 0) {
            assert(out@ + t =~= t);
        }
    }
    while k < found.len()
        invariant
            k <= found@.len(),
            text@ == s@,
            at == spans(found@),
            laid_out(at, s@.len() as int),
            last <= text@.len(),
            last == (if k == 0 {
                0
            } else {
                at[k - 1].1
            }),
            match spliced(s@, at, inputs@, last as int, k as int) {
                Ok(t) => spliced(s@, at, inputs@, 0, 0) == Ok::<_, Seq<char>>(out@ + t),
                Err(e) => spliced(s@, at, inputs@, 0, 0) == Err::<Seq<char>, _>(e),
            },
        decreases found@.len() - k,
    {
        let start: usize = found[k].0;
        let end: usize = found[k].1;
        let ghost before = out@;
        proof {
            assert(at[k as int] == (start as int, end as int, found@[k as int].2@));
        }
        let piece: String = match lookup(inputs, &found[k].2) {
            Ok(v) => stringify(v),
            Err(e) => {
                return Err(e);
            },
        };
        let gap: String = string_of(&text, last, start);
        out.append(&gap);
        out.append(&piece);
        proof {
            if let Ok(t) = spliced(s@, at, inputs@, end as int, k + 1) {
                assert(before + (gap@ + piece@ + t) =~= out@ + t);
            }
        }
        last = end;
        k = k + 1;
    }
    let tail: String = string_of(&text, last, text.len());
    out.append(&tail);
    Ok(out)
}

/// Resolves the placeholders of one argument value against `inputs`.
pub fn interpolate(value: &JsonValue, inputs: &JsonValue) -> (r: Result<JsonValue, String>)
    ensures
        match r {
            Ok(v) => interpolated(value@, inputs@) == Ok::<_, Seq<char>>(v@),
            Err(e) => interpolated(value@, inputs@) == Err::<JsonModel, _>(e@),
        },
{
    let s: &String = match value {
        JsonValue::String(s) => s,
        _ => {
            return Ok(value.copy());
        },
    };
    let found: Vec<(usize, usize, String)> = match locate(s) {
        Ok(v) => v,
        Err(e) => {
            return Err(e);
        },
    };
    if found.len() == 0 {
        return Ok(value.copy());
    }
    let ghost at = spans(found@);
    proof {
        assert(at[0] == (found@[0].0 as int, found@[0].1 as int, found@[0].2@));
        lemma_placeholder_bounds(s@, 0);
    }
    if found.len() == 1 && found[0].0 == 0 && found[0].1 == s.as_str().unicode_len() {
        return match lookup(inputs, &found[0].2) {
            Ok(v) => Ok(v.copy()),
            Err(e) => Err(e),
        };
    }
    match splice(s, &found, inputs) {
        Ok(t) => Ok(JsonValue::String(t)),
        Err(e) => Err(e),
    }
}

/// The bound fields for the entries from the `i`-th on, in key order; or the message of
/// the first that fails.
pub open spec fn bound_fields(
    with: Seq<(String, JsonValue)>,
    inputs: JsonModel,
    i: int,
) -> Result<Seq<(Seq<char>, JsonModel)>, Seq<char>>
    decreases with.len() - i,
{
    if i >= with.len() {
        Ok(Seq::empty())
    } else {
        match interpolated(json_model(with[i].1), inputs) {
            Err(e) => Err(e),
            Ok(v) => match bound_fields(with, inputs, i + 1) {
                Err(e) => Err(e),
                Ok(rest) => Ok(seq![(with[i].0@, v)] + rest),
            },
        }
    }
}

/// Whether `object` has exactly the keys of `with`, each with its argument resolved.
pub open spec fn binds(
    object: JsonModel,
    with: Map<Seq<char>, JsonValue>,
    inputs: JsonModel,
) -> bool {
    forall|key: Seq<char>|
        if with.dom().contains(key) {
            &&& interpolated(json_model(with[key]), inputs) is Ok
            &&& #[trigger] field_of(object, key) == Some(
                interpolated(json_model(with[key]), inputs)->Ok_0,
            )
        } else {
            field_of(object, key) is None
        }
}

/// Binds a tool node's arguments against the run's typed `inputs`: an object with the
/// same keys and every placeholder resolved, or the first offending detail in key order.
pub fn bind_with(with: &TextMap<JsonValue>, inputs: &JsonValue) -> (r: Result<JsonValue, String>)
    ensures
        match r {
            Ok(v) => bound_fields(with.listed(), inputs@, 0) is Ok && v@ == JsonModel::Object(
                bound_fields(with.listed(), inputs@, 0)->Ok_0,
            ) && binds(v@, with@, inputs@),
            Err(e) => bound_fields(with.listed(), inputs@, 0) == Err::<
                Seq<(Seq<char>, JsonModel)>,
                _,
            >(e@) && exists|key: Seq<char>| #[trigger]
                with@.dom().contains(key) && interpolated(json_model(with@[key]), inputs@) == Err::<
                    JsonModel,
                    _,
                >(e@),
        },
{
    let entries: &Vec<(String, JsonValue)> = with.entries();
    let mut out: Vec<(String, JsonValue)> = Vec::new();
    let mut i: usize = 0;
    proof {
        assert(field_models(out@) =~= Seq::<(Seq<char>, JsonModel)>::empty());
        if let Ok(rest) = bound_fields(entries@, inputs@, 0) {
            assert(field_models(out@) + rest =~= rest);
        }
    }
    while i < entries.len()
        invariant
            i <= entries@.len(),
            entries@ == with.listed(),
            crate::text_map::lists(entries@, with@),
            match bound_fields(entries@, inputs@, i as int) {
                Ok(rest) => bound_fields(entries@, inputs@, 0) == Ok::<_, Seq<char>>(
                    field_models(out@) + rest,
                ),
                Err(e) => bound_fields(entries@, inputs@, 0) == Err::<
                    Seq<(Seq<char>, JsonModel)>,
                    _,
                >(e),
            },
        decreases entries@.len() - i,
    {
        let ghost before = out@;
        match interpolate(&entries[i].1, inputs) {
            Ok(v) => {
                out.push((entries[i].0.clone(), v));
                proof {
                    assert(out@.drop_last() =~= before);
                    let bound = (entries@[i as int].0@, v@);
                    assert(field_models(out@) == field_models(before).push(bound));
                    if let Ok(rest) = bound_fields(entries@, inputs@, i + 1) {
                        assert(field_models(before) + (seq![bound] + rest) =~= field_models(out@)
                            + rest);
                    }
                }
            },
            Err(e) => {
                proof {
                    assert(with@[entries@[i as int].0@] == entries@[i as int].1);
                }
                return Err(e);
            },
        }
        i = i + 1;
    }
    proof {
        assert(field_models(out@) + Seq::<(Seq<char>, JsonModel)>::empty() =~= field_models(out@));
        law_binding_resolves_each_argument(entries@, with@, inputs@);
    }
    Ok(JsonValue::Object(out))
}

/// A string without an opening mark refers to nothing and is bound as it stands.
pub proof fn law_plain_text_is_unchanged(s: Seq<char>, inputs: JsonModel)
    requires
        !crate::text::occurs(s, opening()),
    ensures
        placeholders(s, 0) == Ok::<_, Seq<char>>(Seq::<(int, int, Seq<char>)>::empty()),
        interpolated(JsonModel::String(s), inputs) == Ok::<_, Seq<char>>(JsonModel::String(s)),
{
    lemma_next_occurrence(s, opening(), 0);
    if let Some(at) = next_occurrence(s, opening(), 0) {
        assert(crate::text::occurs_at(s, opening(), at));
    }
}

/// A bound argument object has exactly the keys of the arguments, in the same order.
pub proof fn law_binding_keeps_the_keys(with: Seq<(String, JsonValue)>, inputs: JsonModel, i: int)
    requires
        0 <= i <= with.len(),
        bound_fields(with, inputs, i) is Ok,
    ensures
        ({
            let bound = bound_fields(with, inputs, i)->Ok_0;
            &&& bound.len() == with.len() - i
            &&& forall|k: int| 0 <= k < bound.len() ==> (#[trigger] bound[k]).0 == with[i + k].0@
        }),
    decreases with.len() - i,
{
    if i < with.len() {
        law_binding_keeps_the_keys(with, inputs, i + 1);
        let rest = bound_fields(with, inputs, i + 1)->Ok_0;
        let bound = bound_fields(with, inputs, i)->Ok_0;
        assert forall|k: int| 0 <= k < bound.len() implies (#[trigger] bound[k]).0 == with[i + k].0@ by {
            if k > 0 {
                assert(bound[k] == rest[k - 1]);
            }
        }
    }
}

proof fn lemma_bound_value(
    with: Seq<(String, JsonValue)>,
    inputs: JsonModel,
    i: int,
    k: int,
)
    requires
        0 <= i <= k < with.len(),
        bound_fields(with, inputs, i) is Ok,
    ensures
        interpolated(json_model(with[k].1), inputs) is Ok,
        bound_fields(with, inputs, i)->Ok_0.len() == with.len() - i,
        bound_fields(with, inputs, i)->Ok_0[k - i] == (
            with[k].0@,
            interpolated(json_model(with[k].1), inputs)->Ok_0,
        ),
    decreases k - i,
{
    law_binding_keeps_the_keys(with, inputs, i);
    let rest = bound_fields(with, inputs, i + 1)->Ok_0;
    if i < k {
        lemma_bound_value(with, inputs, i + 1, k);
        assert(bound_fields(with, inputs, i)->Ok_0[k - i] == rest[k - i - 1]);
    }
}

proof fn lemma_field_found(fields: Seq<(Seq<char>, JsonModel)>, name: Seq<char>, i: int, k: int)
    requires
        0 <= i <= k < fields.len(),
        fields[k].0 == name,
        forall|j: int| i <= j < k ==> (#[trigger] fields[j]).0 != name,
    ensures
        field_from(fields, name, i) == Some(fields[k].1),
    decreases k - i,
{
    if i < k {
        lemma_field_found(fields, name, i + 1, k);
    }
}

proof fn lemma_field_missing(fields: Seq<(Seq<char>, JsonModel)>, name: Seq<char>, i: int)
    requires
        0 <= i <= fields.len(),
        forall|j: int| i <= j < fields.len() ==> (#[trigger] fields[j]).0 != name,
    ensures
        field_from(fields, name, i) is None,
    decreases fields.len() - i,
{
    if i < fields.len() {
        lemma_field_missing(fields, name, i + 1);
    }
}

/// Where binding succeeds, each argument is found under its own key with its placeholders
/// resolved, and nothing is found under any other key.
pub proof fn law_binding_resolves_each_argument(
    listed: Seq<(String, JsonValue)>,
    with: Map<Seq<char>, JsonValue>,
    inputs: JsonModel,
)
    requires
        crate::text_map::lists(listed, with),
        bound_fields(listed, inputs, 0) is Ok,
    ensures
        binds(JsonModel::Object(bound_fields(listed, inputs, 0)->Ok_0), with, inputs),
{
    let fields = bound_fields(listed, inputs, 0)->Ok_0;
    let object = JsonModel::Object(fields);
    let keys = crate::text_map::entry_keys(listed);
    law_binding_keeps_the_keys(listed, inputs, 0);
    assert forall|key: Seq<char>|
        if with.dom().contains(key) {
            &&& interpolated(json_model(with[key]), inputs) is Ok
            &&& #[trigger] field_of(object, key) == Some(
                interpolated(json_model(with[key]), inputs)->Ok_0,
            )
        } else {
            field_of(object, key) is None
        } by {
        if with.dom().contains(key) {
            assert(keys.contains(key));
            let k = keys.index_of(key);
            assert(listed[k].0@ == key);
            assert(with[listed[k].0@] == listed[k].1);
            lemma_bound_value(listed, inputs, 0, k);
            assert forall|j: int| 0 <= j < k implies (#[trigger] fields[j]).0 != key by {
                assert(crate::text::text_lt(keys[j], keys[k]));
                crate::text::lemma_text_lt_asymmetric(keys[j], keys[k]);
            }
            lemma_field_found(fields, key, 0, k);
        } else {
            assert forall|j: int| 0 <= j < fields.len() implies (#[trigger] fields[j]).0 != key by {
                assert(keys[j] == listed[j].0@);
                assert(keys.contains(keys[j]));
            }
            lemma_field_missing(fields, key, 0);
        }
    }
}

} // verus!
