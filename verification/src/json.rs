//! A textual, JSON-like structural serializer.
//!
//! It renders a record as `{"name":value,...}` with strings emitted verbatim
//! between quotes.  It performs no escaping, so it rejects — as any
//! serializer may — a string holding a quote, a backslash, or a control
//! character.

use vstd::prelude::*;
use vstd::string::StringSliceAdditionalSpecFns;
use vstd::utf8::encode_utf8;
use crate::value::{RecordV, Scalar, ScalarV};
use crate::serializer::{Event, StructSerializer, field_event, trace};
use crate::error::SerializeFault;
use crate::decimal::{dec_of, u64_to_string};

verus! {

/// The rendering of one scalar.
pub open spec fn json_scalar(v: ScalarV) -> Seq<char> {
    match v {
        ScalarV::Str(s) => "\""@ + s + "\""@,
        ScalarV::U64(x) => dec_of(x as nat),
        ScalarV::Bool(b) => if b {
            "true"@
        } else {
            "false"@
        },
    }
}

/// Whether some field has been visited yet: the next field then needs a
/// separating comma.
pub open spec fn has_field(evs: Seq<Event>) -> bool {
    exists|i: int| 0 <= i < evs.len() && evs[i] is FieldVisit
}

/// The text one event contributes, given whether a field was already
/// rendered before it.
pub open spec fn json_piece(e: Event, comma: bool) -> Seq<char> {
    match e {
        Event::Begin(_, _) => "{"@,
        Event::FieldVisit(n, v) => (if comma {
            ","@
        } else {
            Seq::<char>::empty()
        }) + "\""@ + n + "\":"@ + json_scalar(v),
        Event::End => "}"@,
    }
}

/// The rendering of a whole event sequence.
pub open spec fn json_of(evs: Seq<Event>) -> Seq<char>
    decreases evs.len(),
{
    if evs.len() == 0 {
        Seq::empty()
    } else {
        json_of(evs.drop_last()) + json_piece(evs.last(), has_field(evs.drop_last()))
    }
}

/// Appending one event appends exactly its piece.
pub proof fn lemma_json_of_push(evs: Seq<Event>, e: Event)
    ensures
        json_of(evs.push(e)) == json_of(evs) + json_piece(e, has_field(evs)),
{
    assert(evs.push(e).drop_last() =~= evs);
    assert(evs.push(e).last() == e);
}

/// Pushing an event visits a field exactly when the event is one or one was
/// visited before.
pub proof fn lemma_has_field_push(evs: Seq<Event>, e: Event)
    ensures
        has_field(evs.push(e)) == (has_field(evs) || e is FieldVisit),
{
    if has_field(evs) {
        let i = choose|i: int| 0 <= i < evs.len() && evs[i] is FieldVisit;
        assert(evs.push(e)[i] is FieldVisit);
    }
    if e is FieldVisit {
        assert(evs.push(e)[evs.len() as int] is FieldVisit);
    }
    if has_field(evs.push(e)) && !(e is FieldVisit) {
        let i = choose|i: int| 0 <= i < evs.push(e).len() && evs.push(e)[i] is FieldVisit;
        assert(evs[i] is FieldVisit);
    }
}

/// Whether these UTF-8 bytes can stand verbatim inside a JSON string: no
/// quote, no backslash, no control character.
pub open spec fn json_safe(bytes: Seq<u8>) -> bool {
    forall|i: int| 0 <= i < bytes.len() ==> bytes[i] != 34 && bytes[i] != 92 && bytes[i] >= 32
}

/// Whether a scalar can be rendered without escaping: only a string with a
/// byte needing escaping cannot.
pub open spec fn value_json_safe(v: ScalarV) -> bool {
    match v {
        ScalarV::Str(s) => json_safe(encode_utf8(s)),
        ScalarV::U64(_) => true,
        ScalarV::Bool(_) => true,
    }
}

/// Whether one event can be rendered without escaping.
pub open spec fn event_safe(e: Event) -> bool {
    match e {
        Event::Begin(_, _) => true,
        Event::FieldVisit(n, v) => json_safe(encode_utf8(n)) && value_json_safe(v),
        Event::End => true,
    }
}

/// Whether every event can be rendered without escaping.
pub open spec fn json_all_safe(evs: Seq<Event>) -> bool {
    forall|i: int| 0 <= i < evs.len() ==> event_safe(evs[i])
}

/// Whether a whole record can be rendered without escaping.
pub open spec fn record_json_safe(r: RecordV) -> bool {
    forall|i: int| 0 <= i < r.fields.len() ==> event_safe(field_event(#[trigger] r.fields[i]))
}

/// Serializing a record that needs no escaping produces only events that
/// need no escaping.
pub proof fn lemma_trace_safe(r: RecordV)
    requires
        record_json_safe(r),
    ensures
        json_all_safe(trace(r)),
{
    let t = trace(r);
    assert forall|i: int| 0 <= i < t.len() implies event_safe(t[i]) by {
        if i == 0 {
            assert(t[i] == Event::Begin(r.name, r.fields.len()));
        } else if i <= r.fields.len() {
            assert(t[i] == field_event(r.fields[i - 1]));
        } else {
            assert(t[i] == Event::End);
        }
    }
}

/// Checks whether a string can stand verbatim inside a JSON string.
fn check_json_safe(s: &str) -> (r: bool)
    ensures
        r == json_safe(s.spec_bytes()),
{
    let bytes = s.as_bytes();
    let n = bytes.len();
    let mut i: usize = 0;
    while i < n
        invariant
            n == bytes@.len(),
            bytes@ == s.spec_bytes(),
            i <= n,
            forall|j: int| 0 <= j < i ==> bytes@[j] != 34 && bytes@[j] != 92 && bytes@[j] >= 32,
        decreases n - i,
    {
        let b = bytes[i];
        if b == 34 || b == 92 || b < 32 {
            return false;
        }
        i += 1;
    }
    true
}

/// The JSON-like serializer: collects the rendering of the events it has
/// accepted.  It fails exactly on a visit whose field name or string value
/// would need escaping, and on nothing else.
pub struct JsonSink {
    out: String,
    ok: bool,
    any_field: bool,
    ev: Ghost<Seq<Event>>,
}

impl JsonSink {
    /// A fresh rendering pass.
    pub fn new() -> (r: JsonSink)
        ensures
            r.wf(),
            !r.failed(),
            r.events() == Seq::<Event>::empty(),
    {
        JsonSink { out: String::new(), ok: true, any_field: false, ev: Ghost(Seq::empty()) }
    }

    /// A failed pass means some visited field needed escaping.
    pub proof fn lemma_failed_unsafe(&self)
        requires
            self.wf(),
            self.failed(),
        ensures
            !json_all_safe(self.events()),
    {
    }

    /// The rendering of the accepted events.
    pub fn finish(self) -> (r: String)
        requires
            self.wf(),
            !self.failed(),
        ensures
            r@ == json_of(self.events()),
    {
        self.out
    }
}

impl StructSerializer for JsonSink {
    closed spec fn wf(&self) -> bool {
        &&& self.ok ==> self.out@ == json_of(self.ev@) && self.any_field == has_field(self.ev@)
        &&& !self.ok ==> !json_all_safe(self.ev@)
    }

    closed spec fn failed(&self) -> bool {
        !self.ok
    }

    closed spec fn events(&self) -> Seq<Event> {
        self.ev@
    }

    fn begin_struct(&mut self, name: &str, nfields: usize) -> (r: Result<(), SerializeFault>) {
        let ghost e = Event::Begin(name@, nfields as nat);
        proof {
            lemma_json_of_push(self.ev@, e);
            lemma_has_field_push(self.ev@, e);
        }
        self.out.append("{");
        self.ev = Ghost(self.ev@.push(e));
        Ok(())
    }

    fn field(&mut self, name: &str, value: &Scalar) -> (r: Result<(), SerializeFault>) {
        let ghost e = Event::FieldVisit(name@, value@);
        proof {
            lemma_json_of_push(self.ev@, e);
            lemma_has_field_push(self.ev@, e);
        }
        let name_safe = check_json_safe(name);
        let value_safe = match value {
            Scalar::Str(s) => {
                let vs = check_json_safe(s.as_str());
                proof {
                    assert(vs == value_json_safe(value@));
                }
                vs
            },
            Scalar::U64(_) => true,
            Scalar::Bool(_) => true,
        };
        proof {
            assert(value_safe == value_json_safe(value@));
            assert(event_safe(e) == (name_safe && value_safe));
        }
        if !name_safe || !value_safe {
            self.ok = false;
            self.ev = Ghost(self.ev@.push(e));
            proof {
                assert(self.ev@[self.ev@.len() - 1] == e);
                assert(!json_all_safe(self.ev@));
            }
            return Err(
                SerializeFault {
                    message: String::from_str("a string needs escaping, which this encoding does not do"),
                },
            );
        }
        let ghost piece = json_piece(e, has_field(self.ev@));
        let ghost start = self.out@;
        if self.any_field {
            self.out.append(",");
        }
        self.out.append("\"");
        self.out.append(name);
        self.out.append("\":");
        match value {
            Scalar::Str(s) => {
                self.out.append("\"");
                self.out.append(s.as_str());
                self.out.append("\"");
            },
            Scalar::U64(x) => {
                let d = u64_to_string(*x);
                self.out.append(d.as_str());
            },
            Scalar::Bool(b) => {
                if *b {
                    self.out.append("true");
                } else {
                    self.out.append("false");
                }
            },
        }
        proof {
            assert(self.out@ =~= start + piece);
        }
        self.any_field = true;
        self.ev = Ghost(self.ev@.push(e));
        Ok(())
    }

    fn end_struct(&mut self) -> (r: Result<(), SerializeFault>) {
        let ghost e = Event::End;
        proof {
            lemma_json_of_push(self.ev@, e);
            lemma_has_field_push(self.ev@, e);
        }
        self.out.append("}");
        self.ev = Ghost(self.ev@.push(e));
        Ok(())
    }
}

} // verus!
