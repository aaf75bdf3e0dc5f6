//! The typed adapter, the shared erased container, and the upcast boundary.
//!
//! A [`DataPayload`] owns one record together with the type-identity token
//! its producer assigned to the payload's concrete type.  Upcasting places it
//! behind a thread-safe reference count inside an [`ExportBox`]; the box is
//! cheap to clone and compares, hashes and serializes by delegating to the
//! payload, which never changes after the upcast.

use vstd::prelude::*;
use std::sync::Arc;
use crate::value::Record;
use crate::value::RecordV;
use crate::value::record_eq;
use crate::error::{DataError, DataErrorKind, MismatchFault, map_serialize_fault};
use crate::serializer::{Event, StructSerializer, field_event, trace};
use crate::bake::{CrateEnv, bake_record, baked_size_of, literal_of, env_after_bake,
    record_footprint};
use crate::wire::{CountSink, WireSink, wire_bytes, lemma_wire_of_prefix_le};
use crate::hash::PayloadHasher;

verus! {

/// The opaque token that stands for a payload's concrete type.  The
/// framework that produces payloads assigns one token per concrete type;
/// two payloads share a token exactly when they were built from the same
/// type.
#[derive(PartialEq, Eq, Structural, Clone, Copy, Debug, Hash)]
pub struct TypeToken {
    pub id: u64,
}

/// The mathematical form of a [`DataPayload`] and of an [`ExportBox`]: the
/// type-identity token and the record.
pub struct PayloadV {
    pub token: TypeToken,
    pub record: RecordV,
}

/// Equality of two erased values: same type identity and equal records.
pub open spec fn box_eq(a: PayloadV, b: PayloadV) -> bool {
    a.token == b.token && a.record == b.record
}

/// A concrete payload: one record, owned in full, with the token of the
/// type it was produced from.  Immutable after construction.
pub struct DataPayload {
    token: TypeToken,
    record: Record,
}

impl View for DataPayload {
    type V = PayloadV;

    closed spec fn view(&self) -> PayloadV {
        PayloadV { token: self.token, record: self.record@ }
    }
}

impl DataPayload {
    /// Wraps fully owned data as a payload of the type the token names.
    pub fn from_owned(token: TypeToken, record: Record) -> (r: DataPayload)
        ensures
            r@.token == token,
            r@.record == record@,
    {
        DataPayload { token, record }
    }

    /// The wrapped record, valid for as long as the payload.
    pub fn get(&self) -> (r: &Record)
        ensures
            r@ == self@.record,
    {
        &self.record
    }

    /// The opaque token that tells whether two payloads were built from the
    /// same concrete type.
    pub fn type_token(&self) -> (r: TypeToken)
        ensures
            r == self@.token,
    {
        self.token
    }

    /// Equality across the erasure boundary, as production code uses it:
    /// structural equality when both payloads were built from the same
    /// concrete type, and `false` — never a crash — when they were not.
    /// Comparing across types is caller misuse; [`DataPayload::try_eq`] is
    /// the checked form that reports it.
    pub fn eq_dyn(&self, other: &DataPayload) -> (r: bool)
        ensures
            r == box_eq(self@, other@),
    {
        match self.try_eq(other) {
            Ok(b) => b,
            Err(_) => false,
        }
    }

    /// The checked comparison: structural equality of the two records when
    /// the type identities agree, and otherwise the diagnostic fault naming
    /// both identities.
    pub fn try_eq(&self, other: &DataPayload) -> (r: Result<bool, MismatchFault>)
        ensures
            match r {
                Ok(b) => self@.token == other@.token && b == (self@.record == other@.record),
                Err(f) => self@.token != other@.token && f.left == self@.token && f.right
                    == other@.token,
            },
    {
        if self.token == other.token {
            Ok(record_eq(&self.record, &other.record))
        } else {
            Err(MismatchFault { left: self.token, right: other.token })
        }
    }

    /// Drives a serializer over the wrapped record: begin, each field in
    /// order, end.  Fails only if the serializer fails, remapping the
    /// serializer's fault into this layer's error kind; the serializer then
    /// holds some prefix of the record's events.
    pub fn serialize_yoke<S: StructSerializer>(&self, serializer: &mut S) -> (r: Result<
        (),
        DataError,
    >)
        requires
            old(serializer).wf(),
            !old(serializer).failed(),
        ensures
            final(serializer).wf(),
            r is Ok ==> !final(serializer).failed() && final(serializer).events() == old(
                serializer,
            ).events() + trace(self@.record),
            r matches Err(e) ==> final(serializer).failed() && e.kind
                == DataErrorKind::Serialization && exists|k: int|
                0 <= k <= trace(self@.record).len() && final(serializer).events() == old(
                    serializer,
                ).events() + trace(self@.record).subrange(0, k),
    {
        let ghost t = trace(self@.record);
        let ghost base = serializer.events();
        let n = self.record.fields.len();
        proof {
            assert(self@.record.fields.len() == n as nat);
        }
        match serializer.begin_struct(self.record.name.as_str(), n) {
            Ok(_) => {},
            Err(f) => {
                proof {
                    assert(t.subrange(0, 0) =~= Seq::<Event>::empty());
                    assert(base + t.subrange(0, 0) =~= base);
                    assert(t.subrange(0, 1) =~= seq![t[0]]);
                    assert(base.push(t[0]) =~= base + t.subrange(0, 1));
                }
                return Err(map_serialize_fault(f));
            },
        }
        proof {
            assert(base.push(t[0]) =~= base + t.subrange(0, 1));
        }
        let mut i: usize = 0;
        while i < n
            invariant
                old(serializer).wf(),
                n == self.record.fields.len(),
                t == trace(self@.record),
                base == old(serializer).events(),
                i <= n,
                serializer.wf(),
                !serializer.failed(),
                serializer.events() == base + t.subrange(0, 1 + i),
            decreases n - i,
        {
            let f = &self.record.fields[i];
            let ghost before = serializer.events();
            proof {
                assert(self@.record.fields[i as int] == self.record.fields@[i as int]@);
                assert(t[1 + i] == field_event(self@.record.fields[i as int]));
            }
            match serializer.field(f.name.as_str(), &f.value) {
                Ok(_) => {},
                Err(fault) => {
                    proof {
                        assert(before.push(t[1 + i]) =~= base + t.subrange(0, 2 + i));
                    }
                    return Err(map_serialize_fault(fault));
                },
            }
            proof {
                assert(before.push(t[1 + i]) =~= base + t.subrange(0, 2 + i));
            }
            i += 1;
        }
        let ghost before = serializer.events();
        proof {
            assert(t[1 + n] == Event::End);
        }
        match serializer.end_struct() {
            Ok(_) => {},
            Err(fault) => {
                proof {
                    assert(before.push(t[1 + n]) =~= base + t.subrange(0, 2 + n));
                }
                return Err(map_serialize_fault(fault));
            },
        }
        proof {
            assert(before.push(t[1 + n]) =~= base + t.subrange(0, 2 + n));
            assert(t.subrange(0, 2 + n) =~= t);
        }
        Ok(())
    }

    /// Generates a source-level literal equivalent to the wrapped record,
    /// recording the external modules it requires: the type's defining
    /// module, and `alloc` when a string is embedded.  Deterministic for
    /// equal records.
    pub fn bake_yoke(&self, env: &mut CrateEnv) -> (r: String)
        ensures
            r@ == literal_of(self@.record),
            final(env)@ == env_after_bake(old(env)@, self@.record),
    {
        bake_record(&self.record, env)
    }

    /// The estimate of the wrapped record's baked footprint, saturating at
    /// the machine word.
    pub fn bake_size(&self) -> (r: usize)
        ensures
            record_footprint(self@.record.fields) <= usize::MAX ==> r == record_footprint(
                self@.record.fields,
            ),
            record_footprint(self@.record.fields) > usize::MAX ==> r == usize::MAX,
    {
        baked_size_of(&self.record)
    }
}

/// Relies on `std::sync::Arc::clone`: cloning a handle shares the same value
/// and copies nothing.
#[verifier::external_body]
fn arc_clone_payload(arc: &Arc<DataPayload>) -> (r: Arc<DataPayload>)
    ensures
        r@ == arc@,
{
    Arc::clone(arc)
}

/// The shared erased container: a thread-safe, reference-counted handle to
/// one immutable payload whose concrete type is no longer known.
pub struct ExportBox {
    payload: Arc<DataPayload>,
}

impl View for ExportBox {
    type V = PayloadV;

    closed spec fn view(&self) -> PayloadV {
        self.payload@
    }
}

impl PartialEq for ExportBox {
    /// Equality of two erased containers: defined only when both were built
    /// from the same concrete type, where it is structural equality of the
    /// records; across types it degrades to `false`.
    fn eq(&self, other: &Self) -> (r: bool) {
        (&*self.payload).eq_dyn((&*other.payload))
    }
}

impl vstd::std_specs::cmp::PartialEqSpecImpl for ExportBox {
    open spec fn obeys_eq_spec() -> bool {
        true
    }

    open spec fn eq_spec(&self, other: &Self) -> bool {
        box_eq(self@, other@)
    }
}

impl Eq for ExportBox {}

impl Clone for ExportBox {
    /// Cloning shares the payload behind the reference count; nothing is
    /// copied and the clone is equal to the original.
    fn clone(&self) -> (r: Self)
        ensures
            r@ == self@,
    {
        ExportBox { payload: arc_clone_payload(&self.payload) }
    }
}

impl ExportBox {
    /// The debug rendering: a fixed placeholder, because the wrapped type is
    /// unknown at this layer and need not support formatting.
    pub fn debug_string(&self) -> (r: String)
        ensures
            r@ == "ExportBox { payload: \"<payload>\" }"@,
    {
        String::from_str("ExportBox { payload: \"<payload>\" }")
    }

    /// The opaque token that tells whether two containers were built from
    /// the same concrete type, without revealing the type.
    pub fn type_token(&self) -> (r: TypeToken)
        ensures
            r == self@.token,
    {
        (&*self.payload).type_token()
    }

    /// The checked comparison of two containers; see
    /// [`DataPayload::try_eq`].
    pub fn try_eq(&self, other: &ExportBox) -> (r: Result<bool, MismatchFault>)
        ensures
            match r {
                Ok(b) => self@.token == other@.token && b == (self@.record == other@.record),
                Err(f) => self@.token != other@.token && f.left == self@.token && f.right
                    == other@.token,
            },
    {
        (&*self.payload).try_eq((&*other.payload))
    }

    /// Serializes the erased payload into the given serializer; see
    /// [`DataPayload::serialize_yoke`].
    pub fn serialize<S: StructSerializer>(&self, serializer: &mut S) -> (r: Result<(), DataError>)
        requires
            old(serializer).wf(),
            !old(serializer).failed(),
        ensures
            final(serializer).wf(),
            r is Ok ==> !final(serializer).failed() && final(serializer).events() == old(
                serializer,
            ).events() + trace(self@.record),
            r matches Err(e) ==> final(serializer).failed() && e.kind
                == DataErrorKind::Serialization && exists|k: int|
                0 <= k <= trace(self@.record).len() && final(serializer).events() == old(
                    serializer,
                ).events() + trace(self@.record).subrange(0, k),
    {
        let p = (&*self.payload);
        let r = p.serialize_yoke(serializer);
        proof {
            assert(p@ == self@);
            if r is Err {
                let k = choose|k: int|
                    0 <= k <= trace(p@.record).len() && serializer.events() == old(
                        serializer,
                    ).events() + trace(p@.record).subrange(0, k);
                assert(0 <= k <= trace(self@.record).len() && serializer.events() == old(
                    serializer,
                ).events() + trace(self@.record).subrange(0, k));
            }
        }
        r
    }

    /// Generates the erased payload's source-level literal; see
    /// [`DataPayload::bake_yoke`].
    pub fn tokenize(&self, env: &mut CrateEnv) -> (r: String)
        ensures
            r@ == literal_of(self@.record),
            final(env)@ == env_after_bake(old(env)@, self@.record),
    {
        (&*self.payload).bake_yoke(env)
    }

    /// The erased payload's size under the wire encoding, found by a
    /// size-only encoding pass; zero in the one case the pass can fail, a
    /// total beyond the machine word.  Advisory, never fatal.
    pub fn postcard_size(&self) -> (r: usize)
        ensures
            wire_bytes(self@.record).len() <= usize::MAX ==> r == wire_bytes(self@.record).len(),
            wire_bytes(self@.record).len() > usize::MAX ==> r == 0,
    {
        let mut sink = CountSink::new();
        let p = (&*self.payload);
        match p.serialize_yoke(&mut sink) {
            Ok(_) => {
                proof {
                    assert(sink.events() =~= trace(self@.record));
                }
                sink.finish()
            },
            Err(_) => {
                proof {
                    sink.lemma_failed_overflow();
                    let k = choose|k: int|
                        0 <= k <= trace(p@.record).len() && sink.events() == Seq::<
                            Event,
                        >::empty() + trace(p@.record).subrange(0, k);
                    assert(sink.events() =~= trace(self@.record).subrange(0, k));
                    lemma_wire_of_prefix_le(trace(self@.record), k);
                }
                0
            },
        }
    }

    /// The estimate of the erased payload's baked footprint; see
    /// [`DataPayload::bake_size`].
    pub fn baked_size(&self) -> (r: usize)
        ensures
            record_footprint(self@.record.fields) <= usize::MAX ==> r == record_footprint(
                self@.record.fields,
            ),
            record_footprint(self@.record.fields) > usize::MAX ==> r == usize::MAX,
    {
        (&*self.payload).bake_size()
    }

    /// Feeds the erased payload's wire bytes into a hash accumulator, so
    /// that equal payloads hash alike under any accumulator.  Never fails:
    /// the emitting pass accepts every record.
    pub fn hash<H: PayloadHasher>(&self, state: &mut H)
        requires
            old(state).wf(),
        ensures
            final(state).wf(),
            final(state).fed() == old(state).fed() + wire_bytes(self@.record),
    {
        let mut sink = WireSink::new();
        let p = (&*self.payload);
        let r = p.serialize_yoke(&mut sink);
        proof {
            if r is Err {
                assert(sink.failed());
                assert(false);
            }
            assert(sink.events() =~= trace(self@.record));
        }
        let bytes = sink.finish();
        let n = bytes.len();
        let mut i: usize = 0;
        while i < n
            invariant
                n == bytes.len(),
                bytes@ == wire_bytes(self@.record),
                i <= n,
                state.wf(),
                state.fed() == old(state).fed() + bytes@.subrange(0, i as int),
            decreases n - i,
        {
            let ghost before = state.fed();
            state.write_byte(bytes[i]);
            proof {
                assert(before.push(bytes@[i as int]) =~= old(state).fed() + bytes@.subrange(
                    0,
                    i + 1 as int,
                ));
            }
            i += 1;
        }
        proof {
            assert(bytes@.subrange(0, n as int) =~= bytes@);
        }
    }
}

/// Marker type for [`ExportBox`]: the erased container is itself a payload
/// to the rest of the framework, and this is the boundary where a concrete
/// payload's static type is discarded.
#[derive(Debug)]
pub struct ExportMarker {}

impl ExportMarker {
    /// The upcast: wraps a concrete payload into a fresh shared erased
    /// container.  Total — the payload's capabilities were already
    /// established when it was built.
    pub fn upcast(payload: DataPayload) -> (r: ExportBox)
        ensures
            r@ == payload@,
    {
        ExportBox { payload: Arc::new(payload) }
    }
}

} // verus!
