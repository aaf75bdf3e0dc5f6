//! The laws of the erasure boundary, stated over the same views the public
//! contracts use.

use vstd::prelude::*;
use crate::payload::{PayloadV, box_eq};
use crate::serializer::trace;
use crate::wire::wire_bytes;
use crate::hash::fnv1a;

verus! {

/// Erasure preserves and reflects equality exactly: for two payloads of the
/// same concrete type — the same token — the containers upcast yields
/// (equal, by upcast's contract, to the payloads' own views) are equal
/// under container equality exactly when the payloads' records are equal.
pub proof fn lemma_erasure_preserves_equality(a: PayloadV, b: PayloadV)
    requires
        a.token == b.token,
    ensures
        box_eq(a, b) <==> a.record == b.record,
{
}

/// Erasure is serialization-transparent: upcast leaves the view unchanged,
/// so the erased container drives any serializer with exactly the events
/// serializing the payload directly would, and every serializer's output is
/// a function of those events alone.
pub proof fn lemma_erasure_serialization_transparent(payload: PayloadV, container: PayloadV)
    requires
        container == payload,
    ensures
        trace(container.record) == trace(payload.record),
{
}

/// Equal containers hash alike: container equality makes the records equal,
/// so the byte stream hashing feeds — the wire encoding — and with it the
/// provided accumulator's hash are equal.
pub proof fn lemma_equal_containers_hash_alike(a: PayloadV, b: PayloadV)
    requires
        box_eq(a, b),
    ensures
        wire_bytes(a.record) == wire_bytes(b.record),
        fnv1a(wire_bytes(a.record)) == fnv1a(wire_bytes(b.record)),
{
}

/// Containers built from different concrete types — different tokens — are
/// never equal, whatever their records hold.
pub proof fn lemma_cross_type_never_equal(a: PayloadV, b: PayloadV)
    requires
        a.token != b.token,
    ensures
        !box_eq(a, b),
{
}

} // verus!
