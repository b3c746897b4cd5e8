//! JSON values and their text, compact or indented by two spaces a level.

use vstd::prelude::*;

verus! {

broadcast use vstd::std_specs::vec::group_vec_axioms;

/// A JSON value. A number keeps the text it was written with.
#[derive(Debug)]
pub enum JsonValue {
    Null,
    Bool(bool),
    Number(String),
    Str(String),
    Array(Vec<JsonValue>),
    Object(Vec<(String, JsonValue)>),
}

/// The mathematical form of a JSON value.
pub ghost enum Json {
    Null,
    Bool(bool),
    Number(Seq<char>),
    Str(Seq<char>),
    Array(Seq<Json>),
    Object(Seq<(Seq<char>, Json)>),
}

impl JsonValue {
    /// The mathematical form of this value.
    pub open spec fn model(&self) -> Json
        decreases self,
    {
        match self {
            JsonValue::Null => Json::Null,
            JsonValue::Bool(b) => Json::Bool(*b),
            JsonValue::Number(t) => Json::Number(t@),
            JsonValue::Str(s) => Json::Str(s@),
            JsonValue::Array(items) => Json::Array(
                Seq::new(
                    items.len() as nat,
                    |i: int|
                        if 0 <= i < items.len() {
                            items[i].model()
                        } else {
                            Json::Null
                        },
                ),
            ),
            JsonValue::Object(entries) => Json::Object(
                Seq::new(
                    entries.len() as nat,
                    |i: int|
                        if 0 <= i < entries.len() {
                            (entries[i].0@, entries[i].1.model())
                        } else {
                            (Seq::empty(), Json::Null)
                        },
                ),
            ),
        }
    }
}

/// The JSON string literal of `s`: quoted, with the characters that JSON
/// requires escaped.
pub uninterp spec fn json_string_literal(s: Seq<char>) -> Seq<char>;

/// Relies on `serde_json::to_string` on a `str`, which writes the string's JSON
/// literal. It writes into a `Vec<u8>`, whose writes do not fail, and a `str`
/// serializes without error, so the `Err` arm is not taken.
#[verifier::external_body]
fn string_literal(s: &str) -> (r: String)
    ensures
        r@ == json_string_literal(s@),
{
    match serde_json::to_string(s) {
        Ok(t) => t,
        Err(_) => String::new(),
    }
}

/// Two spaces for each of `depth` levels.
pub open spec fn indent(depth: nat) -> Seq<char>
    decreases depth,
{
    if depth == 0 {
        Seq::empty()
    } else {
        indent((depth - 1) as nat) + "  "@
    }
}

/// The compact text of `j`.
pub open spec fn compact(j: Json) -> Seq<char>
    decreases j,
{
    match j {
        Json::Null => "null"@,
        Json::Bool(b) => if b {
            "true"@
        } else {
            "false"@
        },
        Json::Number(t) => t,
        Json::Str(s) => json_string_literal(s),
        Json::Array(items) => "["@ + compact_items(items) + "]"@,
        Json::Object(entries) => "{"@ + compact_entries(entries) + "}"@,
    }
}

/// The compact texts of `items`, with a comma between each two.
pub open spec fn compact_items(items: Seq<Json>) -> Seq<char>
    decreases items,
{
    if items.len() == 0 {
        Seq::empty()
    } else if items.len() == 1 {
        compact(items[0])
    } else {
        compact_items(items.subrange(0, items.len() - 1)) + ","@ + compact(items[items.len() - 1])
    }
}

/// The compact text of one member of an object.
pub open spec fn compact_member(entry: (Seq<char>, Json)) -> Seq<char>
    decreases entry,
{
    json_string_literal(entry.0) + ":"@ + compact(entry.1)
}

/// The compact texts of the members `entries`, with a comma between each two.
pub open spec fn compact_entries(entries: Seq<(Seq<char>, Json)>) -> Seq<char>
    decreases entries,
{
    if entries.len() == 0 {
        Seq::empty()
    } else if entries.len() == 1 {
        compact_member(entries[0])
    } else {
        compact_entries(entries.subrange(0, entries.len() - 1)) + ","@ + compact_member(
            entries[entries.len() - 1],
        )
    }
}

/// The indented text of `j`, standing at nesting level `depth`: each element
/// of a non-empty array or object on a line of its own, one level deeper.
pub open spec fn pretty(j: Json, depth: nat) -> Seq<char>
    decreases j,
{
    match j {
        Json::Array(items) => if items.len() == 0 {
            "[]"@
        } else {
            "["@ + pretty_items(items, depth + 1) + "\n"@ + indent(depth) + "]"@
        },
        Json::Object(entries) => if entries.len() == 0 {
            "{}"@
        } else {
            "{"@ + pretty_entries(entries, depth + 1) + "\n"@ + indent(depth) + "}"@
        },
        _ => compact(j),
    }
}

/// The elements `items` at nesting level `depth`, each on a new line, with a
/// comma between each two.
pub open spec fn pretty_items(items: Seq<Json>, depth: nat) -> Seq<char>
    decreases items,
{
    if items.len() == 0 {
        Seq::empty()
    } else {
        let line = "\n"@ + indent(depth) + pretty(items[items.len() - 1], depth);
        if items.len() == 1 {
            line
        } else {
            pretty_items(items.subrange(0, items.len() - 1), depth) + ","@ + line
        }
    }
}

/// One member of an object at nesting level `depth`, on a new line.
pub open spec fn pretty_member(entry: (Seq<char>, Json), depth: nat) -> Seq<char>
    decreases entry,
{
    "\n"@ + indent(depth) + json_string_literal(entry.0) + ": "@ + pretty(entry.1, depth)
}

/// The members `entries` at nesting level `depth`, each on a new line, with a
/// comma between each two.
pub open spec fn pretty_entries(entries: Seq<(Seq<char>, Json)>, depth: nat) -> Seq<char>
    decreases entries,
{
    if entries.len() == 0 {
        Seq::empty()
    } else if entries.len() == 1 {
        pretty_member(entries[0], depth)
    } else {
        pretty_entries(entries.subrange(0, entries.len() - 1), depth) + ","@ + pretty_member(
            entries[entries.len() - 1],
            depth,
        )
    }
}

/// The array of the strings `s`.
pub open spec fn strings_json(s: Seq<Seq<char>>) -> Json {
    Json::Array(s.map_values(|t: Seq<char>| Json::Str(t)))
}

impl JsonValue {
    /// Returns a copy of this value.
    pub fn copy(&self) -> (r: JsonValue)
        ensures
            r.model() == self.model(),
        decreases self,
    {
        match self {
            JsonValue::Null => JsonValue::Null,
            JsonValue::Bool(b) => JsonValue::Bool(*b),
            JsonValue::Number(t) => JsonValue::Number(t.clone()),
            JsonValue::Str(s) => JsonValue::Str(s.clone()),
            JsonValue::Array(items) => {
                let mut out: Vec<JsonValue> = Vec::new();
                let mut i: usize = 0;
                while i < items.len()
                    invariant
                        i <= items@.len(),
                        self is Array && self->Array_0 == *items,
                        out@.len() == i,
                        forall|k: int| 0 <= k < i ==> #[trigger] out@[k].model() == items@[k].model(),
                    decreases items@.len() - i,
                {
                    proof {
                        assert(decreases_to!(self => self->Array_0));
                        assert(decreases_to!(self->Array_0 => self->Array_0[i as int]));
                    }
                    out.push(items[i].copy());
                    i = i + 1;
                }
                let ghost og = out;
                let r = JsonValue::Array(out);
                assert forall|k: int| 0 <= k < og@.len() implies r.model()->Array_0[k] == self.model()->Array_0[k] by {
                    assert(og[k].model() == items@[k].model());
                }
                assert(r.model()->Array_0 =~= self.model()->Array_0);
                r
            },
            JsonValue::Object(entries) => {
                let mut out: Vec<(String, JsonValue)> = Vec::new();
                let mut i: usize = 0;
                while i < entries.len()
                    invariant
                        i <= entries@.len(),
                        self is Object && self->Object_0 == *entries,
                        out@.len() == i,
                        forall|k: int|
                            0 <= k < i ==> #[trigger] out@[k].0@ == entries@[k].0@ && out@[k].1.model()
                                == entries@[k].1.model(),
                    decreases entries@.len() - i,
                {
                    proof {
                        assert(decreases_to!(self => self->Object_0));
                        assert(decreases_to!(self->Object_0 => self->Object_0[i as int]));
                        assert(decreases_to!(self->Object_0[i as int] => self->Object_0[i as int].1));
                    }
                    out.push((entries[i].0.clone(), entries[i].1.copy()));
                    i = i + 1;
                }
                let r = JsonValue::Object(out);
                assert(r.model()->Object_0 =~= self.model()->Object_0);
                r
            },
        }
    }
}

/// Returns the array of the strings `s`.
pub fn strings_to_json(s: &Vec<String>) -> (r: JsonValue)
    ensures
        r.model() == strings_json(s.deep_view()),
{
    let mut out: Vec<JsonValue> = Vec::new();
    let mut i: usize = 0;
    while i < s.len()
        invariant
            i <= s@.len(),
            out@.len() == i,
            forall|k: int| 0 <= k < i ==> #[trigger] out@[k].model() == Json::Str(s@[k]@),
        decreases s@.len() - i,
    {
        out.push(JsonValue::Str(s[i].clone()));
        i = i + 1;
    }
    let ghost og = out;
    let r = JsonValue::Array(out);
    assert forall|k: int| 0 <= k < og@.len() implies r.model()->Array_0[k] == strings_json(s.deep_view())->Array_0[k] by {
        assert(og[k].model() == Json::Str(s@[k]@));
    }
    assert(r.model()->Array_0 =~= strings_json(s.deep_view())->Array_0);
    r
}

/// Appends the compact text of `v` to `out`.
pub fn render_compact(v: &JsonValue, out: &mut String)
    ensures
        final(out)@ == old(out)@ + compact(v.model()),
    decreases v,
{
    match v {
        JsonValue::Null => out.append("null"),
        JsonValue::Bool(b) => if *b {
            out.append("true")
        } else {
            out.append("false")
        },
        JsonValue::Number(t) => out.append(t.as_str()),
        JsonValue::Str(s) => {
            let lit = string_literal(s.as_str());
            out.append(lit.as_str());
        },
        JsonValue::Array(items) => {
            let ghost ms = v.model()->Array_0;
            out.append("[");
            let ghost start = out@;
            let mut i: usize = 0;
            while i < items.len()
                invariant
                    i <= items@.len(),
                    v is Array && v->Array_0 == *items,
                    ms.len() == items@.len(),
                    forall|k: int| 0 <= k < items@.len() ==> #[trigger] ms[k] == items[k].model(),
                    out@ == start + compact_items(ms.take(i as int)),
                decreases items@.len() - i,
            {
                if i > 0 {
                    out.append(",");
                }
                proof {
                    assert(decreases_to!(v => v->Array_0));
                    assert(decreases_to!(v->Array_0 => v->Array_0[i as int]));
                }
                render_compact(&items[i], out);
                assert(ms.take(i as int + 1).subrange(0, i as int) =~= ms.take(i as int));
                assert(ms.take(i as int + 1)[i as int] == ms[i as int]);
                assert(out@ =~= start + compact_items(ms.take(i as int + 1)));
                i = i + 1;
            }
            out.append("]");
            assert(ms.take(i as int) =~= ms);
            assert(out@ =~= old(out)@ + compact(v.model()));
        },
        JsonValue::Object(entries) => {
            let ghost ms = v.model()->Object_0;
            out.append("{");
            let ghost start = out@;
            let mut i: usize = 0;
            while i < entries.len()
                invariant
                    i <= entries@.len(),
                    v is Object && v->Object_0 == *entries,
                    ms.len() == entries@.len(),
                    forall|k: int|
                        0 <= k < entries@.len() ==> #[trigger] ms[k] == (
                            entries[k].0@,
                            entries[k].1.model(),
                        ),
                    out@ == start + compact_entries(ms.take(i as int)),
                decreases entries@.len() - i,
            {
                if i > 0 {
                    out.append(",");
                }
                let lit = string_literal(entries[i].0.as_str());
                out.append(lit.as_str());
                out.append(":");
                proof {
                    assert(decreases_to!(v => v->Object_0));
                    assert(decreases_to!(v->Object_0 => v->Object_0[i as int]));
                    assert(decreases_to!(v->Object_0[i as int] => v->Object_0[i as int].1));
                }
                render_compact(&entries[i].1, out);
                assert(ms.take(i as int + 1).subrange(0, i as int) =~= ms.take(i as int));
                assert(ms.take(i as int + 1)[i as int] == ms[i as int]);
                assert(compact_member(ms[i as int]) == lit@ + ":"@ + compact(entries[i as int].1.model()));
                assert(out@ =~= start + compact_entries(ms.take(i as int + 1)));
                i = i + 1;
            }
            out.append("}");
            assert(ms.take(i as int) =~= ms);
            assert(out@ =~= old(out)@ + compact(v.model()));
        },
    }
}

/// Appends the indented text of `v`, standing at nesting level `depth`, to
/// `out`; `ind` holds the indentation of that level.
fn render_pretty(v: &JsonValue, depth: Ghost<nat>, ind: &str, out: &mut String)
    requires
        ind@ == indent(depth@),
    ensures
        final(out)@ == old(out)@ + pretty(v.model(), depth@),
    decreases v,
{
    match v {
        JsonValue::Array(items) => {
            if items.len() == 0 {
                out.append("[]");
                return;
            }
            let ghost ms = v.model()->Array_0;
            let ghost d = depth@ + 1;
            let inner = String::from_str(ind).concat("  ");
            out.append("[");
            let ghost start = out@;
            let mut i: usize = 0;
            while i < items.len()
                invariant
                    i <= items@.len(),
                    v is Array && v->Array_0 == *items,
                    ms.len() == items@.len(),
                    forall|k: int| 0 <= k < items@.len() ==> #[trigger] ms[k] == items[k].model(),
                    inner@ == indent(d),
                    out@ == start + pretty_items(ms.take(i as int), d),
                decreases items@.len() - i,
            {
                if i > 0 {
                    out.append(",");
                }
                out.append("\n");
                out.append(inner.as_str());
                proof {
                    assert(decreases_to!(v => v->Array_0));
                    assert(decreases_to!(v->Array_0 => v->Array_0[i as int]));
                }
                render_pretty(&items[i], Ghost(d), inner.as_str(), out);
                assert(ms.take(i as int + 1).subrange(0, i as int) =~= ms.take(i as int));
                assert(ms.take(i as int + 1)[i as int] == ms[i as int]);
                assert(out@ =~= start + pretty_items(ms.take(i as int + 1), d));
                i = i + 1;
            }
            out.append("\n");
            out.append(ind);
            out.append("]");
            assert(ms.take(i as int) =~= ms);
            assert(out@ =~= old(out)@ + pretty(v.model(), depth@));
        },
        JsonValue::Object(entries) => {
            if entries.len() == 0 {
                out.append("{}");
                return;
            }
            let ghost ms = v.model()->Object_0;
            let ghost d = depth@ + 1;
            let inner = String::from_str(ind).concat("  ");
            out.append("{");
            let ghost start = out@;
            let mut i: usize = 0;
            while i < entries.len()
                invariant
                    i <= entries@.len(),
                    v is Object && v->Object_0 == *entries,
                    ms.len() == entries@.len(),
                    forall|k: int|
                        0 <= k < entries@.len() ==> #[trigger] ms[k] == (
                            entries[k].0@,
                            entries[k].1.model(),
                        ),
                    inner@ == indent(d),
                    out@ == start + pretty_entries(ms.take(i as int), d),
                decreases entries@.len() - i,
            {
                if i > 0 {
                    out.append(",");
                }
                out.append("\n");
                out.append(inner.as_str());
                let lit = string_literal(entries[i].0.as_str());
                out.append(lit.as_str());
                out.append(": ");
                proof {
                    assert(decreases_to!(v => v->Object_0));
                    assert(decreases_to!(v->Object_0 => v->Object_0[i as int]));
                    assert(decreases_to!(v->Object_0[i as int] => v->Object_0[i as int].1));
                }
                render_pretty(&entries[i].1, Ghost(d), inner.as_str(), out);
                assert(ms.take(i as int + 1).subrange(0, i as int) =~= ms.take(i as int));
                assert(ms.take(i as int + 1)[i as int] == ms[i as int]);
                assert(pretty_member(ms[i as int], d) == "\n"@ + inner@ + lit@ + ": "@ + pretty(
                    entries[i as int].1.model(),
                    d,
                ));
                assert(out@ =~= start + pretty_entries(ms.take(i as int + 1), d));
                i = i + 1;
            }
            out.append("\n");
            out.append(ind);
            out.append("}");
            assert(ms.take(i as int) =~= ms);
            assert(out@ =~= old(out)@ + pretty(v.model(), depth@));
        },
        _ => render_compact(v, out),
    }
}

/// Returns the compact text of `v`.
pub fn to_compact_text(v: &JsonValue) -> (r: String)
    ensures
        r@ == compact(v.model()),
{
    let mut out = String::new();
    render_compact(v, &mut out);
    assert(out@ =~= compact(v.model()));
    out
}

/// Returns the indented text of `v`, two spaces a level.
pub fn to_pretty_text(v: &JsonValue) -> (r: String)
    ensures
        r@ == pretty(v.model(), 0),
{
    let mut out = String::new();
    proof {
        reveal_strlit("");
        assert(""@ =~= indent(0));
    }
    render_pretty(v, Ghost(0), "", &mut out);
    assert(out@ =~= pretty(v.model(), 0));
    out
}

} // verus!
