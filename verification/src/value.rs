//! The structural form of a payload: a named record of scalar fields.
//!
//! A serializer visits exactly this structure, so equality of two records
//! determines equality of everything derived from them (serialized bytes,
//! literals, sizes, hashes).

use vstd::prelude::*;

verus! {

/// A scalar field value: a borrowed-into-owned string, an unsigned integer,
/// or a boolean.
pub enum Scalar {
    Str(String),
    U64(u64),
    Bool(bool),
}

/// The mathematical form of a [`Scalar`].
pub enum ScalarV {
    Str(Seq<char>),
    U64(u64),
    Bool(bool),
}

impl View for Scalar {
    type V = ScalarV;

    open spec fn view(&self) -> ScalarV {
        match self {
            Scalar::Str(s) => ScalarV::Str(s@),
            Scalar::U64(x) => ScalarV::U64(*x),
            Scalar::Bool(b) => ScalarV::Bool(*b),
        }
    }
}

/// One named field of a record.
pub struct Field {
    pub name: String,
    pub value: Scalar,
}

/// The mathematical form of a [`Field`].
pub struct FieldV {
    pub name: Seq<char>,
    pub value: ScalarV,
}

impl View for Field {
    type V = FieldV;

    open spec fn view(&self) -> FieldV {
        FieldV { name: self.name@, value: self.value@ }
    }
}

/// A named record: the structural form every payload takes once its static
/// type is gone.  The name is the payload type's path and the module is the
/// crate that defines the type; both are used when a literal is generated
/// for it.
pub struct Record {
    pub name: String,
    pub module: String,
    pub fields: Vec<Field>,
}

/// The mathematical form of a [`Record`].
pub struct RecordV {
    pub name: Seq<char>,
    pub module: Seq<char>,
    pub fields: Seq<FieldV>,
}

impl View for Record {
    type V = RecordV;

    open spec fn view(&self) -> RecordV {
        RecordV {
            name: self.name@,
            module: self.module@,
            fields: self.fields@.map_values(|f: Field| f@),
        }
    }
}

/// Structural equality of two scalars.
pub fn scalar_eq(a: &Scalar, b: &Scalar) -> (r: bool)
    ensures
        r == (a@ == b@),
{
    match (a, b) {
        (Scalar::Str(x), Scalar::Str(y)) => *x == *y,
        (Scalar::U64(x), Scalar::U64(y)) => *x == *y,
        (Scalar::Bool(x), Scalar::Bool(y)) => *x == *y,
        _ => false,
    }
}

/// Structural equality of two records: same name, same fields in the same
/// order, with equal names and values.
pub fn record_eq(a: &Record, b: &Record) -> (r: bool)
    ensures
        r == (a@ == b@),
{
    if !(a.name == b.name) {
        return false;
    }
    if !(a.module == b.module) {
        return false;
    }
    if a.fields.len() != b.fields.len() {
        proof {
            assert(a@.fields.len() != b@.fields.len());
        }
        return false;
    }
    let n = a.fields.len();
    let mut i: usize = 0;
    while i < n
        invariant
            n == a.fields.len(),
            a.fields.len() == b.fields.len(),
            i <= n,
            forall|j: int| 0 <= j < i ==> a@.fields[j] == b@.fields[j],
        decreases n - i,
    {
        let fa = &a.fields[i];
        let fb = &b.fields[i];
        proof {
            assert(a@.fields[i as int] == a.fields@[i as int]@);
            assert(b@.fields[i as int] == b.fields@[i as int]@);
        }
        if !(fa.name == fb.name) {
            proof {
                assert(a@.fields[i as int].name != b@.fields[i as int].name);
                assert(a@ != b@) by {
                    if a@ == b@ {
                        assert(a@.fields[i as int] == b@.fields[i as int]);
                    }
                }
            }
            return false;
        }
        if !scalar_eq(&fa.value, &fb.value) {
            proof {
                assert(a@.fields[i as int].value != b@.fields[i as int].value);
                assert(a@ != b@) by {
                    if a@ == b@ {
                        assert(a@.fields[i as int] == b@.fields[i as int]);
                    }
                }
            }
            return false;
        }
        i += 1;
    }
    proof {
        assert(a@.fields =~= b@.fields);
        assert(a@ == b@);
    }
    true
}

} // verus!
