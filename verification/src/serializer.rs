//! The abstract serializer boundary.
//!
//! A payload is serialized by driving a caller-supplied [`StructSerializer`]
//! over its structure: one `begin_struct`, one `field` per record field in
//! order, one `end_struct`.  The trait is specified over the sequence of
//! [`Event`]s the serializer has accepted, so that what any serializer
//! receives is a function of the record alone.

use vstd::prelude::*;
use crate::value::{FieldV, RecordV, Scalar, ScalarV};
use crate::error::SerializeFault;

verus! {

/// One visit of the structural-serialization protocol.
pub enum Event {
    /// The record begins: its type name and its number of fields.
    Begin(Seq<char>, nat),
    /// One named scalar field.
    FieldVisit(Seq<char>, ScalarV),
    /// The record ends.
    End,
}

/// The event a field visit produces.
pub open spec fn field_event(f: FieldV) -> Event {
    Event::FieldVisit(f.name, f.value)
}

/// The exact sequence of events serializing a record produces: begin, each
/// field in order, end.
pub open spec fn trace(r: RecordV) -> Seq<Event> {
    seq![Event::Begin(r.name, r.fields.len())] + r.fields.map_values(|f: FieldV| field_event(f))
        + seq![Event::End]
}

/// A caller-supplied structural serializer.
///
/// `events` is the sequence of visits it has accepted so far, `failed` says
/// whether it has rejected one, and `wf` is the serializer's own
/// well-formedness, which every visit preserves.  A visit either accepts,
/// extending the accepted events by exactly that visit, or rejects with a
/// fault, after which the serializer is failed and is not driven further;
/// a rejected visit is recorded at most once.
pub trait StructSerializer: Sized {
    spec fn wf(&self) -> bool;

    spec fn failed(&self) -> bool;

    spec fn events(&self) -> Seq<Event>;

    fn begin_struct(&mut self, name: &str, nfields: usize) -> (r: Result<(), SerializeFault>)
        requires
            old(self).wf(),
            !old(self).failed(),
        ensures
            final(self).wf(),
            r is Ok ==> !final(self).failed() && final(self).events() == old(self).events().push(
                Event::Begin(name@, nfields as nat),
            ),
            r is Err ==> final(self).failed() && (final(self).events() == old(self).events()
                || final(self).events() == old(self).events().push(
                Event::Begin(name@, nfields as nat),
            )),
    ;

    fn field(&mut self, name: &str, value: &Scalar) -> (r: Result<(), SerializeFault>)
        requires
            old(self).wf(),
            !old(self).failed(),
        ensures
            final(self).wf(),
            r is Ok ==> !final(self).failed() && final(self).events() == old(self).events().push(
                Event::FieldVisit(name@, value@),
            ),
            r is Err ==> final(self).failed() && (final(self).events() == old(self).events()
                || final(self).events() == old(self).events().push(
                Event::FieldVisit(name@, value@),
            )),
    ;

    fn end_struct(&mut self) -> (r: Result<(), SerializeFault>)
        requires
            old(self).wf(),
            !old(self).failed(),
        ensures
            final(self).wf(),
            r is Ok ==> !final(self).failed() && final(self).events() == old(self).events().push(
                Event::End,
            ),
            r is Err ==> final(self).failed() && (final(self).events() == old(self).events()
                || final(self).events() == old(self).events().push(Event::End)),
    ;
}

} // verus!
