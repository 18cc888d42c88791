//! The library's own model of a JSON document.
//!
//! The wire protocol exchanges JSON text frames.  The library holds a
//! parsed frame as a [`JsonValue`]: a plain tree of nulls, booleans,
//! numbers (kept as their canonical literal text), strings, arrays and
//! objects.  Parsing and rendering of the text itself is delegated to
//! serde_json behind two trusted wrappers; everything that *reads* or
//! *builds* a document works on `JsonValue` and is verified against the
//! spec-level tree [`JsonView`].

use vstd::prelude::*;

use crate::strutil::str_eq;

verus! {

/// Spec-level JSON tree: the view of a [`JsonValue`].
#[verifier::ext_equal]
pub enum JsonView {
    Null,
    Bool(bool),
    Num(Seq<char>),
    Str(Seq<char>),
    Arr(Seq<JsonView>),
    Obj(Seq<(Seq<char>, JsonView)>),
}

/// The value of the first entry with the given key, if any.
pub open spec fn obj_lookup(entries: Seq<(Seq<char>, JsonView)>, key: Seq<char>) -> Option<
    JsonView,
>
    decreases entries.len(),
{
    if entries.len() == 0 {
        None
    } else if entries[0].0 == key {
        Some(entries[0].1)
    } else {
        obj_lookup(entries.skip(1), key)
    }
}

/// The entries with the first binding of `key` replaced by `value`, or
/// with `(key, value)` appended when the key is absent.
pub open spec fn obj_set(
    entries: Seq<(Seq<char>, JsonView)>,
    key: Seq<char>,
    value: JsonView,
) -> Seq<(Seq<char>, JsonView)>
    decreases entries.len(),
{
    if entries.len() == 0 {
        seq![(key, value)]
    } else if entries[0].0 == key {
        seq![(key, value)] + entries.skip(1)
    } else {
        seq![entries[0]] + obj_set(entries.skip(1), key, value)
    }
}

impl JsonView {
    /// Field lookup; `None` on anything that is not an object.
    pub open spec fn get(self, key: Seq<char>) -> Option<JsonView> {
        match self {
            JsonView::Obj(entries) => obj_lookup(entries, key),
            _ => None,
        }
    }
}

/// A JSON document, held as plain data.
///
/// A number is kept as the canonical literal text that serde_json gives
/// it; the core routes numbers through untouched and never computes with
/// them.
#[derive(Debug)]
pub enum JsonValue {
    Null,
    Bool(bool),
    Num(String),
    Str(String),
    Arr(Vec<JsonValue>),
    Obj(Vec<(String, JsonValue)>),
}

pub open spec fn jview(v: JsonValue) -> JsonView
    decreases v,
{
    match v {
        JsonValue::Null => JsonView::Null,
        JsonValue::Bool(b) => JsonView::Bool(b),
        JsonValue::Num(s) => JsonView::Num(s@),
        JsonValue::Str(s) => JsonView::Str(s@),
        JsonValue::Arr(items) => JsonView::Arr(arr_jview(items@)),
        JsonValue::Obj(entries) => JsonView::Obj(obj_jview(entries@)),
    }
}

pub open spec fn arr_jview(items: Seq<JsonValue>) -> Seq<JsonView>
    decreases items,
{
    if items.len() == 0 {
        Seq::empty()
    } else {
        seq![jview(items[0])] + arr_jview(items.skip(1))
    }
}

pub open spec fn obj_jview(entries: Seq<(String, JsonValue)>) -> Seq<(Seq<char>, JsonView)>
    decreases entries,
{
    if entries.len() == 0 {
        Seq::empty()
    } else {
        seq![(entries[0].0@, jview(entries[0].1))] + obj_jview(entries.skip(1))
    }
}

impl View for JsonValue {
    type V = JsonView;

    open spec fn view(&self) -> JsonView {
        jview(*self)
    }
}

/// Index-wise reading of `arr_jview`.
pub proof fn lemma_arr_jview(items: Seq<JsonValue>)
    ensures
        arr_jview(items).len() == items.len(),
        forall|i: int| 0 <= i < items.len() ==> arr_jview(items)[i] == jview(items[i]),
    decreases items.len(),
{
    if items.len() > 0 {
        lemma_arr_jview(items.skip(1));
        assert forall|i: int| 0 <= i < items.len() implies arr_jview(items)[i] == jview(
            items[i],
        ) by {
            if i > 0 {
                assert(arr_jview(items)[i] == arr_jview(items.skip(1))[i - 1]);
                assert(items.skip(1)[i - 1] == items[i]);
            }
        }
    }
}

/// Index-wise reading of `obj_jview`.
pub proof fn lemma_obj_jview(entries: Seq<(String, JsonValue)>)
    ensures
        obj_jview(entries).len() == entries.len(),
        forall|i: int|
            0 <= i < entries.len() ==> obj_jview(entries)[i] == (
            entries[i].0@,
            jview(entries[i].1),
            ),
    decreases entries.len(),
{
    if entries.len() > 0 {
        lemma_obj_jview(entries.skip(1));
        assert forall|i: int|
            0 <= i < entries.len() implies obj_jview(entries)[i] == (
            entries[i].0@,
            jview(entries[i].1),
            ) by {
            if i > 0 {
                assert(obj_jview(entries)[i] == obj_jview(entries.skip(1))[i - 1]);
                assert(entries.skip(1)[i - 1] == entries[i]);
            }
        }
    }
}

proof fn lemma_obj_lookup_found(entries: Seq<(Seq<char>, JsonView)>, key: Seq<char>, i: int)
    requires
        0 <= i < entries.len(),
        entries[i].0 == key,
        forall|j: int| 0 <= j < i ==> entries[j].0 != key,
    ensures
        obj_lookup(entries, key) == Some(entries[i].1),
    decreases i,
{
    if i > 0 {
        lemma_obj_lookup_found(entries.skip(1), key, i - 1);
    }
}

proof fn lemma_obj_lookup_absent(entries: Seq<(Seq<char>, JsonView)>, key: Seq<char>)
    requires
        forall|j: int| 0 <= j < entries.len() ==> entries[j].0 != key,
    ensures
        obj_lookup(entries, key) is None,
    decreases entries.len(),
{
    if entries.len() > 0 {
        lemma_obj_lookup_absent(entries.skip(1), key);
    }
}

impl JsonValue {
    /// Look a field up in an object; `None` for a missing field or for a
    /// value of any other shape.
    #[verifier::loop_isolation(false)]
    pub fn get_field<'a>(&'a self, key: &str) -> (r: Option<&'a JsonValue>)
        ensures
            match r {
                Some(v) => self@.get(key@) == Some(v@),
                None => self@.get(key@) is None,
            },
    {
        match self {
            JsonValue::Obj(entries) => {
                let ghost view_entries = self@->Obj_0;
                proof {
                    lemma_obj_jview(entries@);
                }
let mut i: usize = 0;
                while i < entries.len()
                    invariant
                        i <= entries.len(),
                        view_entries.len() == entries@.len(),
                        forall|j: int|
                            0 <= j < entries@.len() ==> view_entries[j] == (
                            entries@[j].0@,
                            entries@[j].1@,
                            ),
                        forall|j: int| 0 <= j < i ==> view_entries[j].0 != key@,
                    decreases entries.len() - i,
                {
                    if str_eq(entries[i].0.as_str(), key) {
                        proof {
                            lemma_obj_lookup_found(view_entries, key@, i as int);
                        }
                        return Some(&entries[i].1);
                    }
                    i += 1;
                }
                proof {
                    lemma_obj_lookup_absent(view_entries, key@);
                }
                None
            },
            _ => None,
        }
    }
}

/// Structural equality of two documents, down to the views.
#[verifier::loop_isolation(false)]
pub fn json_eq(a: &JsonValue, b: &JsonValue) -> (r: bool)
    ensures
        r == (a@ == b@),
    decreases *a,
{
    match (a, b) {
        (JsonValue::Null, JsonValue::Null) => true,
        (JsonValue::Bool(x), JsonValue::Bool(y)) => x == y,
        (JsonValue::Num(x), JsonValue::Num(y)) => str_eq(x.as_str(), y.as_str()),
        (JsonValue::Str(x), JsonValue::Str(y)) => str_eq(x.as_str(), y.as_str()),
        (JsonValue::Arr(xs), JsonValue::Arr(ys)) => {
            if xs.len() != ys.len() {
                proof {
                    lemma_arr_jview(xs@);
                    lemma_arr_jview(ys@);
                }
                return false;
            }
            let ghost va = a@->Arr_0;
            let ghost vb = b@->Arr_0;
            proof {
                lemma_arr_jview(xs@);
                lemma_arr_jview(ys@);
            }
            let mut i: usize = 0;
            while i < xs.len()
                invariant
                    i <= xs.len(),
                    xs@.len() == ys@.len(),
                    va.len() == xs@.len(),
                    vb.len() == ys@.len(),
                    forall|j: int| 0 <= j < xs@.len() ==> va[j] == xs@[j]@,
                    forall|j: int| 0 <= j < ys@.len() ==> vb[j] == ys@[j]@,
                    forall|j: int| 0 <= j < i ==> va[j] == vb[j],
                decreases xs@.len() - i,
            {
                if !json_eq(&xs[i], &ys[i]) {
                    proof {
                        assert(xs@[i as int]@ != ys@[i as int]@);
                        assert(va[i as int] != vb[i as int]);
                        assert(va != vb);
                        assert(a@ == JsonView::Arr(va));
                        assert(b@ == JsonView::Arr(vb));
                        assert(a@ != b@);
                    }
                    return false;
                }
                i += 1;
            }
            proof {
                assert(va =~= vb);
            }
            true
        },
        (JsonValue::Obj(xs), JsonValue::Obj(ys)) => {
            if xs.len() != ys.len() {
                proof {
                    lemma_obj_jview(xs@);
                    lemma_obj_jview(ys@);
                }
                return false;
            }
            let ghost va = a@->Obj_0;
            let ghost vb = b@->Obj_0;
            proof {
                lemma_obj_jview(xs@);
                lemma_obj_jview(ys@);
            }
            let mut i: usize = 0;
            while i < xs.len()
                invariant
                    i <= xs.len(),
                    xs@.len() == ys@.len(),
                    va.len() == xs@.len(),
                    vb.len() == ys@.len(),
                    forall|j: int| 0 <= j < xs@.len() ==> va[j] == (xs@[j].0@, xs@[j].1@),
                    forall|j: int| 0 <= j < ys@.len() ==> vb[j] == (ys@[j].0@, ys@[j].1@),
                    forall|j: int| 0 <= j < i ==> va[j] == vb[j],
                decreases xs@.len() - i,
            {
                if !str_eq(xs[i].0.as_str(), ys[i].0.as_str()) {
                    proof {
                        assert(va[i as int].0 != vb[i as int].0);
                        assert(va != vb);
                        assert(a@ == JsonView::Obj(va));
                        assert(b@ == JsonView::Obj(vb));
                        assert(a@ != b@);
                    }
                    return false;
                }
                if !json_eq(&xs[i].1, &ys[i].1) {
                    proof {
                        assert(va[i as int].1 != vb[i as int].1);
                        assert(va != vb);
                        assert(a@ == JsonView::Obj(va));
                        assert(b@ == JsonView::Obj(vb));
                        assert(a@ != b@);
                    }
                    return false;
                }
                i += 1;
            }
            proof {
                assert(va =~= vb);
            }
            true
        },
        _ => false,
    }
}

/// A deep copy with the same view.
#[verifier::loop_isolation(false)]
pub fn json_clone(v: &JsonValue) -> (r: JsonValue)
    ensures
        r@ == v@,
    decreases *v,
{
    match v {
        JsonValue::Null => JsonValue::Null,
        JsonValue::Bool(b) => JsonValue::Bool(*b),
        JsonValue::Num(s) => JsonValue::Num(s.clone()),
        JsonValue::Str(s) => JsonValue::Str(s.clone()),
        JsonValue::Arr(items) => {
            let mut out: Vec<JsonValue> = Vec::new();
            let ghost vv = v@->Arr_0;
            proof {
                lemma_arr_jview(items@);
            }
            let mut i: usize = 0;
            while i < items.len()
                invariant
                    i <= items.len(),
                    vv.len() == items@.len(),
                    forall|j: int| 0 <= j < items@.len() ==> vv[j] == items@[j]@,
                    out@.len() == i,
                    forall|j: int| 0 <= j < i ==> out@[j]@ == vv[j],
                decreases items@.len() - i,
            {
                out.push(json_clone(&items[i]));
                i += 1;
            }
            let r = JsonValue::Arr(out);
            proof {
                lemma_arr_jview(out@);
                assert(r@->Arr_0 =~= vv);
            }
            r
        },
        JsonValue::Obj(entries) => {
            let mut out: Vec<(String, JsonValue)> = Vec::new();
            let ghost vv = v@->Obj_0;
            proof {
                lemma_obj_jview(entries@);
            }
            let mut i: usize = 0;
            while i < entries.len()
                invariant
                    i <= entries.len(),
                    vv.len() == entries@.len(),
                    forall|j: int|
                        0 <= j < entries@.len() ==> vv[j] == (entries@[j].0@, entries@[j].1@),
                    out@.len() == i,
                    forall|j: int| 0 <= j < i ==> (out@[j].0@, out@[j].1@) == vv[j],
                decreases entries@.len() - i,
            {
                out.push((entries[i].0.clone(), json_clone(&entries[i].1)));
                i += 1;
            }
            let r = JsonValue::Obj(out);
            proof {
                lemma_obj_jview(out@);
                assert(r@->Obj_0 =~= vv);
            }
            r
        },
    }
}

/// Replace the first binding of `key`, or append the pair when absent.
#[verifier::loop_isolation(false)]
pub fn obj_entries_set(entries: &mut Vec<(String, JsonValue)>, key: String, value: JsonValue)
    ensures
        final(entries)@.len() >= old(entries)@.len(),
        obj_jview(final(entries)@) == obj_set(obj_jview(old(entries)@), key@, value@),
{
    let ghost old_entries = entries@;
    let mut i: usize = 0;
    while i < entries.len()
        invariant
            i <= entries@.len(),
            entries@ == old_entries,
            forall|j: int| 0 <= j < i ==> entries@[j].0@ != key@,
        decreases entries@.len() - i,
    {
        if str_eq(entries[i].0.as_str(), key.as_str()) {
            let ghost key_view = key@;
            let ghost value_view = value@;
            entries.remove(i);
            entries.insert(i, (key, value));
            proof {
                lemma_obj_jview(old_entries);
                lemma_obj_jview(entries@);
                lemma_obj_set_at(obj_jview(old_entries), key_view, value_view, i as int);
                assert(obj_jview(entries@) =~= obj_jview(old_entries).update(
                    i as int,
                    (key_view, value_view),
                ));
            }
            return ;
        }
        i += 1;
    }
    let ghost key_view = key@;
    let ghost value_view = value@;
    entries.push((key, value));
    proof {
        lemma_obj_jview(old_entries);
        lemma_obj_jview(entries@);
        lemma_obj_set_absent(obj_jview(old_entries), key_view, value_view);
        assert(obj_jview(entries@) =~= obj_jview(old_entries) + seq![(key_view, value_view)]);
    }
}

proof fn lemma_obj_set_at(entries: Seq<(Seq<char>, JsonView)>, key: Seq<char>, value: JsonView, i: int)
    requires
        0 <= i < entries.len(),
        entries[i].0 == key,
        forall|j: int| 0 <= j < i ==> entries[j].0 != key,
    ensures
        obj_set(entries, key, value) =~= entries.update(i, (key, value)),
    decreases i,
{
    if i == 0 {
        assert(obj_set(entries, key, value) =~= seq![(key, value)] + entries.skip(1));
    } else {
        lemma_obj_set_at(entries.skip(1), key, value, i - 1);
        assert(entries.skip(1).update(i - 1, (key, value)) =~= entries.update(i, (key, value)).skip(
            1,
        ));
    }
}

proof fn lemma_obj_set_absent(entries: Seq<(Seq<char>, JsonView)>, key: Seq<char>, value: JsonView)
    requires
        forall|j: int| 0 <= j < entries.len() ==> entries[j].0 != key,
    ensures
        obj_set(entries, key, value) =~= entries + seq![(key, value)],
    decreases entries.len(),
{
    if entries.len() > 0 {
        lemma_obj_set_absent(entries.skip(1), key, value);
        assert((entries + seq![(key, value)]).skip(1) =~= entries.skip(1) + seq![(key, value)]);
    }
}

#[verifier::external_type_specification]
#[verifier::external_body]
pub struct ExSerdeValue(serde_json::Value);

/// The document that a text parses to, or `None` where the text is not
/// well-formed JSON.  serde_json's parser decides; the outcome depends
/// on the text alone.
pub uninterp spec fn json_of(s: Seq<char>) -> Option<JsonView>;

/// The text that a document renders to.  serde_json's writer decides;
/// the outcome depends on the document alone (object keys are emitted
/// in sorted order).
pub uninterp spec fn json_text_of(v: JsonView) -> Seq<char>;

/// Relies on serde_json::Value: each variant of the parsed tree is
/// carried to the corresponding library variant, one arm each; a number
/// keeps the canonical text that serde_json prints for it.
#[verifier::external_body]
fn value_to_json(v: &serde_json::Value) -> JsonValue {
    match v {
        serde_json::Value::Null => JsonValue::Null,
        serde_json::Value::Bool(b) => JsonValue::Bool(*b),
        serde_json::Value::Number(n) => JsonValue::Num(n.to_string()),
        serde_json::Value::String(s) => JsonValue::Str(s.clone()),
        serde_json::Value::Array(items) => JsonValue::Arr(
            items.iter().map(value_to_json).collect(),
        ),
        serde_json::Value::Object(map) => JsonValue::Obj(
            map.iter().map(|p| (p.0.clone(), value_to_json(p.1))).collect(),
        ),
    }
}

/// Relies on serde_json::Value: rebuilds the serde_json tree from the
/// library's variants, one arm each; a number literal that does not
/// parse back falls to null.
#[verifier::external_body]
fn json_to_value(v: &JsonValue) -> serde_json::Value {
    match v {
        JsonValue::Null => serde_json::Value::Null,
        JsonValue::Bool(b) => serde_json::Value::Bool(*b),
        JsonValue::Num(s) => match s.parse::<serde_json::Number>() {
            Ok(n) => serde_json::Value::Number(n),
            Err(_) => serde_json::Value::Null,
        },
        JsonValue::Str(s) => serde_json::Value::String(s.clone()),
        JsonValue::Arr(items) => serde_json::Value::Array(items.iter().map(json_to_value).collect()),
        JsonValue::Obj(entries) => serde_json::Value::Object(
            entries.iter().map(|p| (p.0.clone(), json_to_value(&p.1))).collect(),
        ),
    }
}

/// Relies on serde_json::from_str: the text parses to at most one value,
/// a function of the text alone; the parser's error text comes back on
/// failure and never ends the process.
#[verifier::external_body]
pub fn parse_json(s: &str) -> (r: Result<JsonValue, String>)
    ensures
        match r {
            Ok(v) => json_of(s@) == Some(v@),
            Err(_) => json_of(s@) is None,
        },
{
    match serde_json::from_str::<serde_json::Value>(s) {
        Ok(v) => Ok(value_to_json(&v)),
        Err(e) => Err(e.to_string()),
    }
}

/// Relies on serde_json::to_string: the rendering is a function of the
/// document alone and never ends the process.
#[verifier::external_body]
pub fn render_json(v: &JsonValue) -> (r: String)
    ensures
        r@ == json_text_of(v@),
{
    match serde_json::to_string(&json_to_value(v)) {
        Ok(s) => s,
        Err(_) => String::new(),
    }
}

} // verus!
