//! Error values of this layer.
//!
//! A serializer rejecting a value is a legitimate, recoverable failure and is
//! returned to the caller as a [`DataError`] carrying the serializer's own
//! message as context.  Comparing containers of different concrete types is
//! caller misuse; the checked comparison reports it as a [`MismatchFault`]
//! naming both type identities, while the production comparison degrades to a
//! `false` answer instead.

use vstd::prelude::*;
use crate::payload::TypeToken;

verus! {

/// The failure a structural serializer hands back when it rejects a value.
#[derive(Debug)]
pub struct SerializeFault {
    pub message: String,
}

/// What went wrong inside this layer.
#[derive(PartialEq, Eq, Structural, Clone, Copy, Debug)]
pub enum DataErrorKind {
    /// The caller-supplied serializer rejected the value.
    Serialization,
}

/// The error this layer returns: a kind, and the underlying failure's
/// rendered message as context.
#[derive(Debug)]
pub struct DataError {
    pub kind: DataErrorKind,
    pub context: String,
}

/// Remaps a serializer's failure into this layer's error kind, keeping the
/// original message as context.
pub fn map_serialize_fault(fault: SerializeFault) -> (e: DataError)
    ensures
        e.kind == DataErrorKind::Serialization,
        e.context@ == fault.message@,
{
    DataError { kind: DataErrorKind::Serialization, context: fault.message }
}

/// The diagnostic fault raised by the checked comparison when two containers
/// built from different concrete types are compared: it names both type
/// identities.
#[derive(PartialEq, Eq, Structural, Clone, Copy, Debug)]
pub struct MismatchFault {
    pub left: TypeToken,
    pub right: TypeToken,
}

} // verus!
