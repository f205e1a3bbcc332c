//! The event data model: typed events produced by the decoding pipeline,
//! their mathematical views, and the `source_type` stamp that every
//! produced event carries.

use vstd::prelude::*;

verus! {

/// Kind tag of a decoded event.
#[derive(Clone, Copy, PartialEq, Eq, Structural, Debug)]
pub enum EventKind {
    Log,
    Metric,
    Trace,
}

/// A field value carried by an event.
#[derive(Clone, PartialEq, Eq, Debug)]
pub enum Value {
    Null,
    Bool(bool),
    /// A number, kept as its decimal rendering.
    Num(String),
    Str(String),
    /// A nested array or object, kept as its rendered text.
    Composite(String),
    /// A raw byte payload.
    Bytes(Vec<u8>),
}

/// Mathematical shape of a `Value`.
#[verifier::ext_equal]
pub enum ValueView {
    Null,
    Bool(bool),
    Num(Seq<char>),
    Str(Seq<char>),
    Composite(Seq<char>),
    Bytes(Seq<u8>),
}

impl View for Value {
    type V = ValueView;

    open spec fn view(&self) -> ValueView {
        match self {
            Value::Null => ValueView::Null,
            Value::Bool(b) => ValueView::Bool(*b),
            Value::Num(s) => ValueView::Num(s@),
            Value::Str(s) => ValueView::Str(s@),
            Value::Composite(s) => ValueView::Composite(s@),
            Value::Bytes(b) => ValueView::Bytes(b@),
        }
    }
}

impl DeepView for Value {
    type V = ValueView;

    open spec fn deep_view(&self) -> ValueView {
        self.view()
    }
}

/// One decoded event: a kind tag and an ordered mapping of field name
/// to value, always carrying a `source_type` field.
#[derive(Clone, PartialEq, Eq, Debug)]
pub struct Event {
    pub kind: EventKind,
    pub fields: Vec<(String, Value)>,
}

/// Mathematical shape of an `Event`.
#[verifier::ext_equal]
pub struct EventView {
    pub kind: EventKind,
    pub fields: Seq<(Seq<char>, ValueView)>,
}

impl View for Event {
    type V = EventView;

    open spec fn view(&self) -> EventView {
        EventView { kind: self.kind, fields: self.fields.deep_view() }
    }
}

impl DeepView for Event {
    type V = EventView;

    open spec fn deep_view(&self) -> EventView {
        self.view()
    }
}

impl EventView {
    /// Whether a field of this name stands somewhere in the event.
    pub open spec fn has_field(self, name: Seq<char>) -> bool {
        exists|i: int| 0 <= i < self.fields.len() && self.fields[i].0 == name
    }
}

/// The name of the field under which every event carries its source's
/// component type name.
pub open spec fn source_type_key() -> Seq<char> {
    "source_type"@
}

/// The field list with every field of the given name dropped, order of the
/// others kept.
pub open spec fn without_key(
    fields: Seq<(Seq<char>, ValueView)>,
    key: Seq<char>,
) -> Seq<(Seq<char>, ValueView)>
    decreases fields.len(),
{
    if fields.len() == 0 {
        Seq::empty()
    } else if fields.first().0 == key {
        without_key(fields.drop_first(), key)
    } else {
        seq![fields.first()] + without_key(fields.drop_first(), key)
    }
}

/// The fields of an event after stamping: any prior field named
/// `source_type` is dropped and the tag stands last.
pub open spec fn stamped_fields(
    fields: Seq<(Seq<char>, ValueView)>,
    source_type: Seq<char>,
) -> Seq<(Seq<char>, ValueView)> {
    without_key(fields, source_type_key()).push((source_type_key(), ValueView::Str(source_type)))
}

/// Stamp the source type onto a field list: every field already named
/// `source_type` is dropped and the tag is appended as the last field.
pub fn stamp_source_type(fields: Vec<(String, Value)>, source_type: &str) -> (r: Vec<
    (String, Value),
>)
    ensures
        r.deep_view() == stamped_fields(fields.deep_view(), source_type@),
{
    let ghost orig = fields.deep_view();
    let ghost key = source_type_key();
    let key_string: String = "source_type".to_owned();
    let mut rest = fields;
    let mut out: Vec<(String, Value)> = Vec::new();
    proof {
        assert(out.deep_view() + without_key(rest.deep_view(), key) =~= without_key(orig, key));
    }
    while rest.len() > 0
        invariant
            key == source_type_key(),
            key_string@ == key,
            out.deep_view() + without_key(rest.deep_view(), key) == without_key(orig, key),
        decreases rest.len(),
    {
        let ghost rdv = rest.deep_view();
        let ghost odv = out.deep_view();
        let pair = rest.remove(0);
        proof {
            assert(rdv.first() == pair.deep_view());
            assert(rest.deep_view() =~= rdv.drop_first());
        }
        if pair.0 == key_string {
            proof {
                assert(without_key(rdv, key) == without_key(rdv.drop_first(), key));
            }
        } else {
            out.push(pair);
            proof {
                assert(out.deep_view() =~= odv.push(rdv.first()));
                assert(without_key(rdv, key) == seq![rdv.first()] + without_key(
                    rdv.drop_first(),
                    key,
                ));
                assert(out.deep_view() + without_key(rest.deep_view(), key) =~= odv + without_key(
                    rdv,
                    key,
                ));
            }
        }
    }
    proof {
        assert(without_key(rest.deep_view(), key) =~= Seq::<(Seq<char>, ValueView)>::empty());
        assert(out.deep_view() =~= without_key(orig, key));
    }
    let tag: String = source_type.to_owned();
    out.push((key_string, Value::Str(tag)));
    proof {
        assert(out.deep_view() =~= stamped_fields(orig, source_type@));
    }
    out
}

/// Build an event of the given kind from decoded fields, stamped with the
/// source's component type name.
pub fn make_event(kind: EventKind, fields: Vec<(String, Value)>, source_type: &str) -> (r: Event)
    ensures
        r@.kind == kind,
        r@.fields == stamped_fields(fields.deep_view(), source_type@),
{
    Event { kind, fields: stamp_source_type(fields, source_type) }
}

} // verus!
