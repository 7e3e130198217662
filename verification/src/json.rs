//! A structured value type mirroring the JSON shapes the wire protocol uses:
//! message bodies, request payloads, completion responses and tool-call
//! arguments all travel as such values. The surrounding process converts
//! between this type and raw JSON text at the boundary.

use vstd::prelude::*;

verus! {

/// The mathematical value of a [`JsonValue`].
#[verifier::ext_equal]
pub enum JsonView {
    Null,
    Bool(bool),
    Int(int),
    Str(Seq<char>),
    Arr(Seq<JsonView>),
    Obj(Seq<(Seq<char>, JsonView)>),
}

/// A structured wire value: null, a boolean, an integer, a string, an array,
/// or an object whose fields keep their order.
pub enum JsonValue {
    Null,
    Bool(bool),
    Int(i64),
    Str(String),
    Arr(Vec<JsonValue>),
    Obj(Vec<(String, JsonValue)>),
}

/// The view of a sequence of values.
pub open spec fn views_of_items(items: Seq<JsonValue>) -> Seq<JsonView>
    decreases items,
{
    if items.len() == 0 {
        Seq::empty()
    } else {
        views_of_items(items.drop_last()).push(json_view(items.last()))
    }
}

/// The view of a sequence of object fields.
pub open spec fn views_of_fields(fields: Seq<(String, JsonValue)>) -> Seq<(Seq<char>, JsonView)>
    decreases fields,
{
    if fields.len() == 0 {
        Seq::empty()
    } else {
        views_of_fields(fields.drop_last()).push(
            (fields.last().0@, json_view(fields.last().1)),
        )
    }
}

/// The view of one value.
pub open spec fn json_view(v: JsonValue) -> JsonView
    decreases v,
{
    match v {
        JsonValue::Null => JsonView::Null,
        JsonValue::Bool(b) => JsonView::Bool(b),
        JsonValue::Int(i) => JsonView::Int(i as int),
        JsonValue::Str(s) => JsonView::Str(s@),
        JsonValue::Arr(items) => JsonView::Arr(views_of_items(items@)),
        JsonValue::Obj(fields) => JsonView::Obj(views_of_fields(fields@)),
    }
}

impl View for JsonValue {
    type V = JsonView;

    open spec fn view(&self) -> JsonView {
        json_view(*self)
    }
}

/// Item views are taken pointwise.
pub proof fn lemma_views_of_items(items: Seq<JsonValue>)
    ensures
        views_of_items(items).len() == items.len(),
        forall|i: int|
            0 <= i < items.len() ==> #[trigger] views_of_items(items)[i] == json_view(items[i]),
    decreases items,
{
    if items.len() > 0 {
        lemma_views_of_items(items.drop_last());
    }
}

/// Field views are taken pointwise.
pub proof fn lemma_views_of_fields(fields: Seq<(String, JsonValue)>)
    ensures
        views_of_fields(fields).len() == fields.len(),
        forall|i: int|
            0 <= i < fields.len() ==> #[trigger] views_of_fields(fields)[i] == (
                fields[i].0@,
                json_view(fields[i].1),
            ),
    decreases fields,
{
    if fields.len() > 0 {
        lemma_views_of_fields(fields.drop_last());
    }
}

impl Clone for JsonValue {
    /// A clone carries the same view.
    fn clone(&self) -> (r: Self)
        ensures
            r@ == self@,
        decreases *self,
    {
        match self {
            JsonValue::Null => JsonValue::Null,
            JsonValue::Bool(b) => JsonValue::Bool(*b),
            JsonValue::Int(i) => JsonValue::Int(*i),
            JsonValue::Str(s) => JsonValue::Str(s.clone()),
            JsonValue::Arr(items) => {
                let mut out: Vec<JsonValue> = Vec::new();
                let mut i: usize = 0;
                #[verifier::loop_isolation(false)]
                while i < items.len()
                    invariant
                        i <= items.len(),
                        out@.len() == i as int,
                        forall|j: int| 0 <= j < i ==> json_view(#[trigger] out@[j]) == json_view(
                            items@[j],
                        ),
                    decreases items.len() - i,
                {
                    proof {
                        assert(decreases_to!(*self => self->Arr_0));
                        assert(decreases_to!(self->Arr_0 => self->Arr_0@));
                        assert(decreases_to!(self->Arr_0@ => self->Arr_0@[i as int]));
                    }
                    out.push(items[i].clone());
                    i += 1;
                }
                proof {
                    lemma_views_of_items(items@);
                    lemma_views_of_items(out@);
                    assert(views_of_items(out@) =~= views_of_items(items@));
                }
                JsonValue::Arr(out)
            },
            JsonValue::Obj(fields) => {
                let mut out: Vec<(String, JsonValue)> = Vec::new();
                let mut i: usize = 0;
                #[verifier::loop_isolation(false)]
                while i < fields.len()
                    invariant
                        i <= fields.len(),
                        out@.len() == i as int,
                        forall|j: int|
                            0 <= j < i ==> (#[trigger] out@[j]).0@ == fields@[j].0@ && json_view(
                                out@[j].1,
                            ) == json_view(fields@[j].1),
                    decreases fields.len() - i,
                {
                    proof {
                        assert(decreases_to!(*self => self->Obj_0));
                        assert(decreases_to!(self->Obj_0 => self->Obj_0@));
                        assert(decreases_to!(self->Obj_0@ => self->Obj_0@[i as int]));
                        assert(decreases_to!(self->Obj_0@[i as int] => self->Obj_0@[i as int].1));
                    }
                    let key = fields[i].0.clone();
                    let val = fields[i].1.clone();
                    out.push((key, val));
                    i += 1;
                }
                proof {
                    lemma_views_of_fields(fields@);
                    lemma_views_of_fields(out@);
                    assert(views_of_fields(out@) =~= views_of_fields(fields@));
                }
                JsonValue::Obj(out)
            },
        }
    }
}

/// The value of the first field named `key`, if any.
pub open spec fn lookup_spec(fields: Seq<(Seq<char>, JsonView)>, key: Seq<char>) -> Option<
    JsonView,
>
    decreases fields.len(),
{
    if fields.len() == 0 {
        None
    } else if fields[0].0 == key {
        Some(fields[0].1)
    } else {
        lookup_spec(fields.subrange(1, fields.len() as int), key)
    }
}

/// Lookup on an object view, `None` on every other shape.
pub open spec fn get_spec(v: JsonView, key: Seq<char>) -> Option<JsonView> {
    match v {
        JsonView::Obj(fields) => lookup_spec(fields, key),
        _ => None,
    }
}

/// Lookup finds the field at `i` when no earlier field carries the key, and
/// finds nothing when no field at all does (`i == fields.len()`).
pub proof fn lemma_lookup_at(fields: Seq<(Seq<char>, JsonView)>, key: Seq<char>, i: int)
    requires
        0 <= i <= fields.len(),
        forall|j: int| 0 <= j < i ==> (#[trigger] fields[j]).0 != key,
        i == fields.len() || fields[i].0 == key,
    ensures
        lookup_spec(fields, key) == if i == fields.len() {
            None::<JsonView>
        } else {
            Some(fields[i].1)
        },
    decreases i,
{
    if i > 0 {
        let rest = fields.subrange(1, fields.len() as int);
        lemma_lookup_at(rest, key, i - 1);
    }
}

impl JsonValue {
    /// The first field of an object named `key`; `None` on a missing field
    /// or a non-object.
    pub fn get<'a>(&'a self, key: &str) -> (r: Option<&'a JsonValue>)
        ensures
            match r {
                Some(v) => get_spec(self@, key@) == Some(v@),
                None => get_spec(self@, key@) is None,
            },
    {
        match self {
            JsonValue::Obj(fields) => {
                proof {
                    lemma_views_of_fields(fields@);
                }
                let mut i: usize = 0;
                #[verifier::loop_isolation(false)]
                while i < fields.len()
                    invariant
                        i <= fields.len(),
                        forall|j: int| 0 <= j < i ==> (#[trigger] fields@[j]).0@ != key@,
                        views_of_fields(fields@).len() == fields@.len(),
                        forall|j: int|
                            0 <= j < fields@.len() ==> #[trigger] views_of_fields(fields@)[j] == (
                                fields@[j].0@,
                                json_view(fields@[j].1),
                            ),
                    decreases fields.len() - i,
                {
                    if crate::text::str_eq(fields[i].0.as_str(), key) {
                        proof {
                            lemma_lookup_at(views_of_fields(fields@), key@, i as int);
                            assert(views_of_fields(fields@)[i as int] == (
                                fields@[i as int].0@,
                                json_view(fields@[i as int].1),
                            ));
                        }
                        return Some(&fields[i].1);
                    }
                    i += 1;
                }
                proof {
                    lemma_lookup_at(views_of_fields(fields@), key@, fields@.len() as int);
                }
                None
            },
            _ => None,
        }
    }

    /// The string payload, `None` on every other shape.
    pub fn as_str<'a>(&'a self) -> (r: Option<&'a String>)
        ensures
            match r {
                Some(s) => self@ == JsonView::Str(s@),
                None => !(self@ is Str),
            },
    {
        match self {
            JsonValue::Str(s) => Some(s),
            _ => None,
        }
    }
}

} // verus!

