//! The wire encoding: what the payload's event stream becomes as bytes.
//!
//! The format is the one the wire codec (postcard) gives the record's
//! structure: no framing around the record, each field in order, an unsigned
//! integer as a little-endian base-128 varint, a string as the varint of its
//! byte length followed by its UTF-8 bytes, a boolean as one byte.  The
//! scalar encodings are obtained from the codec itself behind trusted
//! wrappers; [`CountSink`] reproduces only their lengths, and a test holds
//! both against the codec's own output.

use vstd::prelude::*;
use vstd::string::StringSliceAdditionalSpecFns;
use vstd::utf8::encode_utf8;
use crate::value::{RecordV, Scalar, ScalarV};
use crate::serializer::{Event, StructSerializer, trace};
use crate::error::SerializeFault;

verus! {

/// The wire bytes of a whole record: what serializing it through the wire
/// codec emits.
pub open spec fn wire_bytes(r: RecordV) -> Seq<u8> {
    wire_of(trace(r))
}

/// Little-endian base-128 varint: seven value bits per byte, the high bit
/// set on every byte but the last.
pub open spec fn varint(n: nat) -> Seq<u8>
    decreases n,
{
    if n < 128 {
        seq![n as u8]
    } else {
        seq![(128 + n % 128) as u8] + varint(n / 128)
    }
}

/// The wire bytes of one scalar.
pub open spec fn scalar_wire(v: ScalarV) -> Seq<u8> {
    match v {
        ScalarV::Str(s) => varint(encode_utf8(s).len()) + encode_utf8(s),
        ScalarV::U64(x) => varint(x as nat),
        ScalarV::Bool(b) => seq![if b { 1u8 } else { 0u8 }],
    }
}

/// The wire bytes one serialization event contributes: field names and the
/// record's frame contribute nothing.
pub open spec fn event_wire(e: Event) -> Seq<u8> {
    match e {
        Event::Begin(_, _) => Seq::empty(),
        Event::FieldVisit(_, v) => scalar_wire(v),
        Event::End => Seq::empty(),
    }
}

/// The wire bytes of a whole event sequence.
pub open spec fn wire_of(evs: Seq<Event>) -> Seq<u8>
    decreases evs.len(),
{
    if evs.len() == 0 {
        Seq::empty()
    } else {
        wire_of(evs.drop_last()) + event_wire(evs.last())
    }
}

/// Appending one event appends exactly its contribution.
pub proof fn lemma_wire_of_push(evs: Seq<Event>, e: Event)
    ensures
        wire_of(evs.push(e)) == wire_of(evs) + event_wire(e),
{
    assert(evs.push(e).drop_last() =~= evs);
    assert(evs.push(e).last() == e);
}

/// A prefix of the events never encodes to more bytes than the whole.
pub proof fn lemma_wire_of_prefix_le(evs: Seq<Event>, k: int)
    requires
        0 <= k <= evs.len(),
    ensures
        wire_of(evs.subrange(0, k)).len() <= wire_of(evs).len(),
    decreases evs.len() - k,
{
    if k == evs.len() {
        assert(evs.subrange(0, k) =~= evs);
    } else {
        assert(evs.subrange(0, k + 1) =~= evs.subrange(0, k).push(evs[k]));
        lemma_wire_of_push(evs.subrange(0, k), evs[k]);
        lemma_wire_of_prefix_le(evs, k + 1);
    }
}

/// 128 to the power k.
pub open spec fn exp128(k: nat) -> nat
    decreases k,
{
    if k == 0 {
        1
    } else {
        128 * exp128((k - 1) as nat)
    }
}

/// A number below 128^k needs at most k varint bytes.
pub proof fn lemma_varint_len_le(n: nat, k: nat)
    requires
        1 <= k,
        n < exp128(k),
    ensures
        varint(n).len() <= k,
    decreases k,
{
    if n < 128 {
    } else {
        assert(exp128(1) == 128 * exp128(0));
        assert(k != 1);
        assert(exp128(k) == 128 * exp128((k - 1) as nat));
        assert(n / 128 < exp128((k - 1) as nat)) by (nonlinear_arith)
            requires
                n < 128 * exp128((k - 1) as nat),
        ;
        lemma_varint_len_le(n / 128, (k - 1) as nat);
    }
}

/// Every u64 fits in ten varint bytes.
pub proof fn lemma_varint_len_u64(x: u64)
    ensures
        varint(x as nat).len() <= 10,
{
    assert(exp128(0) == 1);
    assert(exp128(1) == 128);
    assert(exp128(2) == 16384);
    assert(exp128(3) == 2097152);
    assert(exp128(4) == 268435456);
    assert(exp128(5) == 34359738368);
    assert(exp128(6) == 4398046511104);
    assert(exp128(7) == 562949953421312);
    assert(exp128(8) == 72057594037927936);
    assert(exp128(9) == 9223372036854775808);
    assert(exp128(10) == 1180591620717411303424);
    lemma_varint_len_le(x as nat, 10);
}

/// The number of varint bytes of a value.
pub fn varint_len(x: u64) -> (r: usize)
    ensures
        r == varint(x as nat).len(),
        r <= 10,
    decreases x,
{
    proof {
        lemma_varint_len_u64(x);
    }
    if x < 128 {
        1
    } else {
        1 + varint_len(x / 128)
    }
}

/// The number of varint bytes of a length.
pub fn varint_len_usize(l: usize) -> (r: usize)
    ensures
        r == varint(l as nat).len(),
        r <= 10,
{
    varint_len(l as u64)
}

/// Relies on `postcard::to_allocvec`: a `&str` is encoded as the varint of
/// its byte length followed by its UTF-8 bytes, and the allocating output
/// flavor never reports a failure.
#[verifier::external_body]
fn postcard_str(s: &str) -> (r: Vec<u8>)
    ensures
        r@ == varint(s.spec_bytes().len()) + s.spec_bytes(),
{
    postcard::to_allocvec(s).unwrap_or_default()
}

/// Relies on `postcard::to_allocvec`: a `u64` is encoded as a little-endian
/// base-128 varint, and the allocating output flavor never reports a
/// failure.
#[verifier::external_body]
fn postcard_u64(x: u64) -> (r: Vec<u8>)
    ensures
        r@ == varint(x as nat),
{
    postcard::to_allocvec(&x).unwrap_or_default()
}

/// Relies on `postcard::to_allocvec`: a `bool` is encoded as one byte, one
/// for true and zero for false, and the allocating output flavor never
/// reports a failure.
#[verifier::external_body]
fn postcard_bool(b: bool) -> (r: Vec<u8>)
    ensures
        r@ == seq![if b { 1u8 } else { 0u8 }],
{
    postcard::to_allocvec(&b).unwrap_or_default()
}

/// The size-only encoding pass: a serializer that counts the wire bytes
/// instead of emitting them.  It fails only when the total would not fit in
/// a machine word.
pub struct CountSink {
    count: usize,
    ok: bool,
    ev: Ghost<Seq<Event>>,
}

impl CountSink {
    /// A fresh counting pass.
    pub fn new() -> (r: CountSink)
        ensures
            r.wf(),
            !r.failed(),
            r.events() == Seq::<Event>::empty(),
    {
        CountSink { count: 0, ok: true, ev: Ghost(Seq::empty()) }
    }

    /// The count: the exact wire length of the accepted events.
    pub fn finish(self) -> (r: usize)
        requires
            self.wf(),
            !self.failed(),
        ensures
            r == wire_of(self.events()).len(),
    {
        self.count
    }

    /// A failed pass means the events' wire length does not fit in a
    /// machine word.
    pub proof fn lemma_failed_overflow(&self)
        requires
            self.wf(),
            self.failed(),
        ensures
            wire_of(self.events()).len() > usize::MAX,
    {
    }
}

impl StructSerializer for CountSink {
    closed spec fn wf(&self) -> bool {
        &&& self.ok ==> self.count == wire_of(self.ev@).len()
        &&& !self.ok ==> wire_of(self.ev@).len() > usize::MAX
    }

    closed spec fn failed(&self) -> bool {
        !self.ok
    }

    closed spec fn events(&self) -> Seq<Event> {
        self.ev@
    }

    fn begin_struct(&mut self, name: &str, nfields: usize) -> (r: Result<(), SerializeFault>) {
        let ghost e = Event::Begin(name@, nfields as nat);
        proof {
            lemma_wire_of_push(self.ev@, e);
        }
        self.ev = Ghost(self.ev@.push(e));
        Ok(())
    }

    fn field(&mut self, name: &str, value: &Scalar) -> (r: Result<(), SerializeFault>) {
        let ghost e = Event::FieldVisit(name@, value@);
        proof {
            lemma_wire_of_push(self.ev@, e);
        }
        let cost_opt: Option<usize> = match value {
            Scalar::Str(s) => {
                let sl = s.as_str();
                let bl = sl.as_bytes().len();
                let vl = varint_len_usize(bl);
                let co = vl.checked_add(bl);
                proof {
                    assert(value@ == ScalarV::Str(s@));
                    assert(sl.spec_bytes() == encode_utf8(sl@));
                    assert(bl as nat == encode_utf8(s@).len());
                    assert(event_wire(e).len() == varint(encode_utf8(s@).len()).len()
                        + encode_utf8(s@).len());
                    assert(co matches Some(c) ==> c == event_wire(e).len());
                    assert(co is None ==> event_wire(e).len() > usize::MAX);
                }
                co
            },
            Scalar::U64(x) => Some(varint_len(*x)),
            Scalar::Bool(_) => Some(1),
        };
        proof {
            assert(cost_opt matches Some(c) ==> c == event_wire(e).len());
            assert(cost_opt is None ==> event_wire(e).len() > usize::MAX);
        }
        let new_count_opt: Option<usize> = match cost_opt {
            Some(c) => self.count.checked_add(c),
            None => None,
        };
        self.ev = Ghost(self.ev@.push(e));
        match new_count_opt {
            Some(nc) => {
                self.count = nc;
                Ok(())
            },
            None => {
                self.ok = false;
                Err(SerializeFault { message: String::from_str("wire size exceeds the machine word") })
            },
        }
    }

    fn end_struct(&mut self) -> (r: Result<(), SerializeFault>) {
        let ghost e = Event::End;
        proof {
            lemma_wire_of_push(self.ev@, e);
        }
        self.ev = Ghost(self.ev@.push(e));
        Ok(())
    }
}

/// The emitting encoding pass: a serializer that collects the wire bytes
/// themselves.  It never fails.
pub struct WireSink {
    out: Vec<u8>,
    ev: Ghost<Seq<Event>>,
}

impl WireSink {
    /// A fresh emitting pass.
    pub fn new() -> (r: WireSink)
        ensures
            r.wf(),
            !r.failed(),
            r.events() == Seq::<Event>::empty(),
    {
        WireSink { out: Vec::new(), ev: Ghost(Seq::empty()) }
    }

    /// The collected bytes: the exact wire encoding of the accepted events.
    pub fn finish(self) -> (r: Vec<u8>)
        requires
            self.wf(),
        ensures
            r@ == wire_of(self.events()),
    {
        self.out
    }
}

impl StructSerializer for WireSink {
    closed spec fn wf(&self) -> bool {
        self.out@ == wire_of(self.ev@)
    }

    open spec fn failed(&self) -> bool {
        false
    }

    closed spec fn events(&self) -> Seq<Event> {
        self.ev@
    }

    fn begin_struct(&mut self, name: &str, nfields: usize) -> (r: Result<(), SerializeFault>) {
        let ghost e = Event::Begin(name@, nfields as nat);
        proof {
            lemma_wire_of_push(self.ev@, e);
            assert(self.out@ + event_wire(e) =~= self.out@);
        }
        self.ev = Ghost(self.ev@.push(e));
        Ok(())
    }

    fn field(&mut self, name: &str, value: &Scalar) -> (r: Result<(), SerializeFault>) {
        let ghost e = Event::FieldVisit(name@, value@);
        proof {
            lemma_wire_of_push(self.ev@, e);
        }
        let mut enc: Vec<u8> = match value {
            Scalar::Str(s) => postcard_str(s.as_str()),
            Scalar::U64(x) => postcard_u64(*x),
            Scalar::Bool(b) => postcard_bool(*b),
        };
        proof {
            assert(enc@ == event_wire(e));
        }
        self.out.append(&mut enc);
        self.ev = Ghost(self.ev@.push(e));
        Ok(())
    }

    fn end_struct(&mut self) -> (r: Result<(), SerializeFault>) {
        let ghost e = Event::End;
        proof {
            lemma_wire_of_push(self.ev@, e);
            assert(self.out@ + event_wire(e) =~= self.out@);
        }
        self.ev = Ghost(self.ev@.push(e));
        Ok(())
    }
}

} // verus!
