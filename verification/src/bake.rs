//! Source-literal generation: a record rendered as a source-level literal
//! expression, together with the registry of external modules the literal
//! requires.

use vstd::prelude::*;
use vstd::string::StringSliceAdditionalSpecFns;
use vstd::utf8::encode_utf8;
use crate::value::{Record, RecordV, FieldV, Scalar, ScalarV};
use crate::decimal::{dec_of, u64_to_string};

verus! {

/// The registry that records which external modules a generated literal
/// requires.  Each name appears once, in first-insertion order.
pub struct CrateEnv {
    names: Vec<String>,
}

impl View for CrateEnv {
    type V = Seq<Seq<char>>;

    closed spec fn view(&self) -> Seq<Seq<char>> {
        self.names@.map_values(|s: String| s@)
    }
}

/// Whether the registry already holds a name.
pub open spec fn env_contains(v: Seq<Seq<char>>, s: Seq<char>) -> bool {
    exists|i: int| 0 <= i < v.len() && v[i] == s
}

/// What inserting a name does: nothing when it is already there, an append
/// otherwise.
pub open spec fn env_insert(v: Seq<Seq<char>>, s: Seq<char>) -> Seq<Seq<char>> {
    if env_contains(v, s) {
        v
    } else {
        v.push(s)
    }
}

impl CrateEnv {
    /// A fresh, empty registry.
    pub fn new() -> (r: CrateEnv)
        ensures
            r@ == Seq::<Seq<char>>::empty(),
    {
        CrateEnv { names: Vec::new() }
    }

    /// Whether the registry holds this name.
    pub fn contains(&self, name: &String) -> (r: bool)
        ensures
            r == env_contains(self@, name@),
    {
        let n = self.names.len();
        let mut i: usize = 0;
        while i < n
            invariant
                n == self.names.len(),
                i <= n,
                self@ == self.names@.map_values(|s: String| s@),
                forall|j: int| 0 <= j < i ==> self@[j] != name@,
            decreases n - i,
        {
            if self.names[i] == *name {
                proof {
                    assert(self@[i as int] == name@);
                }
                return true;
            }
            proof {
                assert(self@[i as int] == self.names@[i as int]@);
            }
            i += 1;
        }
        false
    }

    /// Records that a literal requires this module.
    pub fn insert(&mut self, name: String)
        ensures
            final(self)@ == env_insert(old(self)@, name@),
    {
        if !self.contains(&name) {
            let ghost before = self.names@;
            self.names.push(name);
            proof {
                assert(self@ =~= before.map_values(|s: String| s@).push(name@));
            }
        }
    }

    /// How many modules have been recorded.
    pub fn len(&self) -> (r: usize)
        ensures
            r == self@.len(),
    {
        self.names.len()
    }
}

/// What escaping a string for a source literal returns; the name stands for
/// the escaped form, which depends on the characters alone.
pub uninterp spec fn rust_escaped(s: Seq<char>) -> Seq<char>;

/// Relies on `str::escape_debug`: the source-literal escaped form of a
/// string — each quote, backslash and control character gets a backslash
/// escape, everything else stands as it is — a function of the characters
/// alone.
#[verifier::external_body]
fn escape_str(s: &str) -> (r: String)
    ensures
        r@ == rust_escaped(s@),
{
    format!("{}", s.escape_debug())
}

/// The literal for one scalar: strings are escaped and held behind a
/// copy-on-write borrow so generated code can embed them as statics,
/// numbers carry their type suffix.
pub open spec fn literal_scalar(v: ScalarV) -> Seq<char> {
    match v {
        ScalarV::Str(s) => "alloc::borrow::Cow::Borrowed(\""@ + rust_escaped(s) + "\")"@,
        ScalarV::U64(x) => dec_of(x as nat) + "u64"@,
        ScalarV::Bool(b) => if b {
            "true"@
        } else {
            "false"@
        },
    }
}

/// The literal for one field: `name: value, `.
pub open spec fn literal_field(f: FieldV) -> Seq<char> {
    f.name + ": "@ + literal_scalar(f.value) + ", "@
}

/// The literals of the fields, in order.
pub open spec fn literal_fields(fs: Seq<FieldV>) -> Seq<char>
    decreases fs.len(),
{
    if fs.len() == 0 {
        Seq::empty()
    } else {
        literal_fields(fs.drop_last()) + literal_field(fs.last())
    }
}

/// The literal of a whole record: `Name { field: value, ... }`.
pub open spec fn literal_of(r: RecordV) -> Seq<char> {
    r.name + " { "@ + literal_fields(r.fields) + "}"@
}

/// Whether the record's literal mentions the copy-on-write borrow and so
/// requires the `alloc` module.
pub open spec fn needs_alloc(fs: Seq<FieldV>) -> bool {
    exists|i: int| 0 <= i < fs.len() && fs[i].value is Str
}

/// What generating a record's literal leaves in the registry: the module
/// defining the record's type, and `alloc` exactly when a string field is
/// embedded.
pub open spec fn env_after_bake(v: Seq<Seq<char>>, r: RecordV) -> Seq<Seq<char>> {
    if needs_alloc(r.fields) {
        env_insert(env_insert(v, r.module), "alloc"@)
    } else {
        env_insert(v, r.module)
    }
}

/// An inserted name is in the registry.
pub proof fn lemma_env_insert_contains(v: Seq<Seq<char>>, s: Seq<char>)
    ensures
        env_contains(env_insert(v, s), s),
{
    if !env_contains(v, s) {
        assert(v.push(s)[v.len() as int] == s);
    }
}

/// Generates the record's literal and records the modules it requires: the
/// module defining the record's type, and `alloc` exactly when some string
/// field is embedded.  Deterministic — a function of the record alone.
pub fn bake_record(record: &Record, env: &mut CrateEnv) -> (r: String)
    ensures
        r@ == literal_of(record@),
        final(env)@ == env_after_bake(old(env)@, record@),
{
    let mut out = String::new();
    out.append(record.name.as_str());
    out.append(" { ");
    env.insert(record.module.clone());
    let ghost with_module = env_insert(old(env)@, record@.module);
    let n = record.fields.len();
    let mut i: usize = 0;
    while i < n
        invariant
            n == record.fields.len(),
            i <= n,
            with_module == env_insert(old(env)@, record@.module),
            out@ == record@.name + " { "@ + literal_fields(record@.fields.subrange(0, i as int)),
            env@ == if needs_alloc(record@.fields.subrange(0, i as int)) {
                env_insert(with_module, "alloc"@)
            } else {
                with_module
            },
        decreases n - i,
    {
        let f = &record.fields[i];
        proof {
            assert(record@.fields[i as int] == record.fields@[i as int]@);
            assert(record@.fields.subrange(0, i + 1 as int) =~= record@.fields.subrange(
                0,
                i as int,
            ).push(record@.fields[i as int]));
            assert(literal_fields(record@.fields.subrange(0, i as int).push(
                record@.fields[i as int],
            )) == literal_fields(record@.fields.subrange(0, i as int)) + literal_field(
                record@.fields[i as int],
            )) by {
                let pushed = record@.fields.subrange(0, i as int).push(
                    record@.fields[i as int],
                );
                assert(pushed.drop_last() =~= record@.fields.subrange(0, i as int));
            }
        }
        let ghost fs_next = record@.fields.subrange(0, i + 1 as int);
        out.append(f.name.as_str());
        out.append(": ");
        match &f.value {
            Scalar::Str(s) => {
                out.append("alloc::borrow::Cow::Borrowed(\"");
                let escaped = escape_str(s.as_str());
                out.append(escaped.as_str());
                out.append("\")");
                env.insert(String::from_str("alloc"));
                proof {
                    assert(needs_alloc(fs_next)) by {
                        assert(fs_next[i as int].value is Str);
                    }
                    if needs_alloc(record@.fields.subrange(0, i as int)) {
                        lemma_env_insert_contains(with_module, "alloc"@);
                        assert(env@ == env_insert(with_module, "alloc"@));
                    }
                }
            },
            Scalar::U64(x) => {
                let d = u64_to_string(*x);
                out.append(d.as_str());
                out.append("u64");
                proof {
                    assert(needs_alloc(fs_next) == needs_alloc(
                        record@.fields.subrange(0, i as int),
                    )) by {
                        if needs_alloc(record@.fields.subrange(0, i as int)) {
                            let j = choose|j: int|
                                0 <= j < i && record@.fields.subrange(0, i as int)[j].value
                                    is Str;
                            assert(fs_next[j].value is Str);
                        }
                        if needs_alloc(fs_next) {
                            let j = choose|j: int| 0 <= j < fs_next.len() && fs_next[j].value is Str;
                            assert(j < i);
                            assert(record@.fields.subrange(0, i as int)[j].value is Str);
                        }
                    }
                }
            },
            Scalar::Bool(b) => {
                if *b {
                    out.append("true");
                } else {
                    out.append("false");
                }
                proof {
                    assert(needs_alloc(fs_next) == needs_alloc(
                        record@.fields.subrange(0, i as int),
                    )) by {
                        if needs_alloc(record@.fields.subrange(0, i as int)) {
                            let j = choose|j: int|
                                0 <= j < i && record@.fields.subrange(0, i as int)[j].value
                                    is Str;
                            assert(fs_next[j].value is Str);
                        }
                        if needs_alloc(fs_next) {
                            let j = choose|j: int| 0 <= j < fs_next.len() && fs_next[j].value is Str;
                            assert(j < i);
                            assert(record@.fields.subrange(0, i as int)[j].value is Str);
                        }
                    }
                }
            },
        }
        out.append(", ");
        proof {
            assert(out@ =~= record@.name + " { "@ + literal_fields(fs_next));
        }
        i += 1;
    }
    out.append("}");
    proof {
        assert(record@.fields.subrange(0, n as int) =~= record@.fields);
        assert(out@ =~= literal_of(record@));
    }
    out
}

/// The assumed footprint of a copy-on-write string handle, before the bytes
/// it borrows.
pub const COW_FOOTPRINT: usize = 24;

/// The footprint one scalar contributes to the baked estimate: the handle
/// or value itself, plus everything a string borrows.
pub open spec fn scalar_footprint(v: ScalarV) -> nat {
    match v {
        ScalarV::Str(s) => COW_FOOTPRINT as nat + encode_utf8(s).len(),
        ScalarV::U64(_) => 8,
        ScalarV::Bool(_) => 1,
    }
}

/// The footprint of the fields, in order.
pub open spec fn record_footprint(fs: Seq<FieldV>) -> nat
    decreases fs.len(),
{
    if fs.len() == 0 {
        0
    } else {
        record_footprint(fs.drop_last()) + scalar_footprint(fs.last().value)
    }
}

/// The baked-size estimate of a record: the footprints of its fields,
/// saturating at the machine word.  Deliberately conservative — borrowed
/// statics deduplicated at link time are counted in full.
pub fn baked_size_of(record: &Record) -> (r: usize)
    ensures
        record_footprint(record@.fields) <= usize::MAX ==> r == record_footprint(record@.fields),
        record_footprint(record@.fields) > usize::MAX ==> r == usize::MAX,
{
    let n = record.fields.len();
    let mut total: usize = 0;
    let mut i: usize = 0;
    while i < n
        invariant
            n == record.fields.len(),
            i <= n,
            record_footprint(record@.fields.subrange(0, i as int)) <= usize::MAX ==> total
                == record_footprint(record@.fields.subrange(0, i as int)),
            record_footprint(record@.fields.subrange(0, i as int)) > usize::MAX ==> total
                == usize::MAX,
        decreases n - i,
    {
        let f = &record.fields[i];
        proof {
            assert(record@.fields[i as int] == record.fields@[i as int]@);
            let pushed = record@.fields.subrange(0, i as int).push(record@.fields[i as int]);
            assert(record@.fields.subrange(0, i + 1 as int) =~= pushed);
            assert(pushed.drop_last() =~= record@.fields.subrange(0, i as int));
        }
        let cost: usize = match &f.value {
            Scalar::Str(s) => {
                let bl = s.as_str().as_bytes().len();
                COW_FOOTPRINT.checked_add(bl).unwrap_or(usize::MAX)
            },
            Scalar::U64(_) => 8,
            Scalar::Bool(_) => 1,
        };
        proof {
            let sf = scalar_footprint(record@.fields[i as int].value);
            assert(sf <= usize::MAX ==> cost == sf);
            assert(sf > usize::MAX ==> cost == usize::MAX);
        }
        total = total.saturating_add(cost);
        i += 1;
    }
    proof {
        assert(record@.fields.subrange(0, n as int) =~= record@.fields);
    }
    total
}

} // verus!
