//! Writing D-Bus messages: primitive writers over a growing byte vector, and
//! `MessageEncoder`, which collects header fields and a body and writes the
//! whole message into a caller's buffer.
use crate::error::EncodeError;
use crate::wire::{
    lemma_marshal_seq_concat, lemma_marshal_seq_push, marshal, marshal_seq, pad_len, sig_bytes, zeros, Wire, MAX_MESSAGE_LEN,
};
use vstd::bytes::{spec_u32_to_le_bytes, u32_to_le_bytes};
use vstd::prelude::*;
use vstd::string::StringSliceAdditionalSpecFns;

verus! {

/// Type of a D-Bus message.
#[derive(Debug, Clone, Copy, PartialEq, Eq, Structural)]
pub enum MessageType {
    /// Method call
    MethodCall,
    /// Method return
    MethodReturn,
    /// Error reply
    Error,
    /// Signal
    Signal,
}

/// The type code that the wire format gives a message type.
pub open spec fn message_type_code(t: MessageType) -> u8 {
    match t {
        MessageType::MethodCall => 1,
        MessageType::MethodReturn => 2,
        MessageType::Error => 3,
        MessageType::Signal => 4,
    }
}

/// Header of a message, as it is written: every field that is present.
pub struct HeaderSpec {
    pub message_type: MessageType,
    pub path: Option<Seq<u8>>,
    pub interface: Option<Seq<u8>>,
    pub member: Option<Seq<u8>>,
    pub error_name: Option<Seq<u8>>,
    pub reply_serial: Option<u32>,
    pub destination: Option<Seq<u8>>,
    pub signature: Seq<u8>,
}

/// A header field: its code, and a variant of the given signature holding the value.
pub open spec fn header_field(code: u8, sig: Seq<u8>, value: Wire) -> Wire {
    Wire::Struct(seq![Wire::Byte(code), Wire::Variant(sig, Box::new(value))])
}

/// The field for a string-like header value, if it is present.
pub open spec fn opt_str_field(code: u8, sig: Seq<u8>, v: Option<Seq<u8>>) -> Seq<Wire> {
    match v {
        Some(s) => seq![header_field(code, sig, Wire::Str(s))],
        None => Seq::empty(),
    }
}

/// The header fields, in the order in which they are written.
pub open spec fn header_fields(h: HeaderSpec) -> Seq<Wire> {
    opt_str_field(1, "o".spec_bytes(), h.path) + opt_str_field(2, "s".spec_bytes(), h.interface)
        + opt_str_field(3, "s".spec_bytes(), h.member) + opt_str_field(4, "s".spec_bytes(), h.error_name)
        + reply_serial_field(h.reply_serial) + opt_str_field(6, "s".spec_bytes(), h.destination)
        + signature_field(h.signature)
}

/// The reply serial field, if present.
pub open spec fn reply_serial_field(r: Option<u32>) -> Seq<Wire> {
    match r {
        Some(s) => seq![header_field(5, "u".spec_bytes(), Wire::UInt32(s))],
        None => Seq::<Wire>::empty(),
    }
}

/// The signature field; it is left out when the body is empty.
pub open spec fn signature_field(sig: Seq<u8>) -> Seq<Wire> {
    if sig.len() > 0 {
        seq![header_field(8, "g".spec_bytes(), Wire::Signature(sig))]
    } else {
        Seq::<Wire>::empty()
    }
}

/// The fixed part of the header and the field array. The serial is left 0: the
/// connection that sends the message stamps it.
pub open spec fn header_values(h: HeaderSpec, body_len: nat) -> Seq<Wire> {
    seq![
        Wire::Byte(0x6c),
        Wire::Byte(message_type_code(h.message_type)),
        Wire::Byte(0),
        Wire::Byte(1),
        Wire::UInt32(body_len as u32),
        Wire::UInt32(0),
        Wire::Array(8, header_fields(h)),
    ]
}

/// The bytes of a whole message with header `h` and body bytes `body`.
pub open spec fn message_bytes(h: HeaderSpec, body: Seq<u8>) -> Seq<u8> {
    let head = marshal_seq(0, header_values(h, body.len()));
    head + zeros(pad_len(head.len(), 8)) + body
}

/// The bytes of a whole message with header `h` and body values `body`.
pub open spec fn message(h: HeaderSpec, body: Seq<Wire>) -> Seq<u8> {
    message_bytes(h, marshal_seq(0, body))
}

/// Header of a method call.
pub open spec fn call_header(
    destination: Seq<u8>,
    path: Seq<u8>,
    interface: Seq<u8>,
    member: Seq<u8>,
    signature: Seq<u8>,
) -> HeaderSpec {
    HeaderSpec {
        message_type: MessageType::MethodCall,
        path: Some(path),
        interface: Some(interface),
        member: Some(member),
        error_name: None,
        reply_serial: None,
        destination: Some(destination),
        signature,
    }
}

/// Header of a method return.
pub open spec fn reply_header(reply_serial: u32, destination: Seq<u8>, signature: Seq<u8>) -> HeaderSpec {
    HeaderSpec {
        message_type: MessageType::MethodReturn,
        path: None,
        interface: None,
        member: None,
        error_name: None,
        reply_serial: Some(reply_serial),
        destination: Some(destination),
        signature,
    }
}

/// Header of an error reply.
pub open spec fn error_header(
    error_name: Seq<u8>,
    reply_serial: u32,
    destination: Seq<u8>,
    signature: Seq<u8>,
) -> HeaderSpec {
    HeaderSpec {
        message_type: MessageType::Error,
        path: None,
        interface: None,
        member: None,
        error_name: Some(error_name),
        reply_serial: Some(reply_serial),
        destination: Some(destination),
        signature,
    }
}

/// Header of a signal.
pub open spec fn signal_header(path: Seq<u8>, interface: Seq<u8>, member: Seq<u8>, signature: Seq<u8>) -> HeaderSpec {
    HeaderSpec {
        message_type: MessageType::Signal,
        path: Some(path),
        interface: Some(interface),
        member: Some(member),
        error_name: None,
        reply_serial: None,
        destination: None,
        signature,
    }
}

/// Whether a message of `msg.len()` bytes can be written into a buffer of `buf_len` bytes.
pub open spec fn fits(buf_len: nat, msg: Seq<u8>) -> bool {
    msg.len() <= MAX_MESSAGE_LEN && msg.len() <= buf_len
}

/// The error for a message that cannot be written.
pub open spec fn overflow_error(msg: Seq<u8>) -> EncodeError {
    if msg.len() > MAX_MESSAGE_LEN {
        EncodeError::ValueTooLong
    } else {
        EncodeError::BufferTooSmall
    }
}

/// Outcome of writing `msg` into a buffer that held `before` and holds `after`,
/// when the length written is returned.
pub open spec fn encoded_len(
    r: Result<usize, EncodeError>,
    before: Seq<u8>,
    after: Seq<u8>,
    msg: Seq<u8>,
) -> bool {
    match r {
        Ok(n) => fits(before.len(), msg) && n == msg.len() && after == msg + before.skip(
            msg.len() as int,
        ),
        Err(e) => !fits(before.len(), msg) && e == overflow_error(msg) && after == before,
    }
}

/// Outcome of writing `msg` into a buffer that held `before` and holds `after`,
/// when the written prefix is returned.
pub open spec fn encoded(
    r: Result<&[u8], EncodeError>,
    before: Seq<u8>,
    after: Seq<u8>,
    msg: Seq<u8>,
) -> bool {
    match r {
        Ok(out) => fits(before.len(), msg) && out@ == msg && after == msg + before.skip(
            msg.len() as int,
        ),
        Err(e) => !fits(before.len(), msg) && e == overflow_error(msg) && after == before,
    }
}

/// Appends the zero padding that aligns the end of `v` to `align`.
pub fn put_pad(v: &mut Vec<u8>, align: usize)
    requires
        align == 1 || align == 2 || align == 4 || align == 8,
    ensures
        final(v)@ == old(v)@ + zeros(pad_len(old(v)@.len(), align as nat)),
{
    let r = v.len() % align;
    if r != 0 {
        let n = align - r;
        let mut i: usize = 0;
        while i < n
            invariant
                i <= n,
                v@ == old(v)@ + zeros(i as nat),
            decreases n - i,
        {
            v.push(0);
            i = i + 1;
            assert(v@ =~= old(v)@ + zeros(i as nat));
        }
    }
    assert(v@ =~= old(v)@ + zeros(pad_len(old(v)@.len(), align as nat)));
}

/// Appends the bytes of `s`.
pub fn put_bytes(v: &mut Vec<u8>, s: &[u8])
    ensures
        final(v)@ == old(v)@ + s@,
{
    let n = s.len();
    let mut i: usize = 0;
    while i < n
        invariant
            n == s@.len(),
            i <= n,
            v@ == old(v)@ + s@.subrange(0, i as int),
        decreases n - i,
    {
        v.push(s[i]);
        i = i + 1;
        assert(v@ =~= old(v)@ + s@.subrange(0, i as int));
    }
    assert(s@.subrange(0, n as int) =~= s@);
}

/// Appends the four little-endian bytes of `x`, with no padding.
fn put_u32_raw(v: &mut Vec<u8>, x: u32)
    ensures
        final(v)@ == old(v)@ + spec_u32_to_le_bytes(x),
        spec_u32_to_le_bytes(x).len() == 4,
{
    proof {
        vstd::bytes::lemma_auto_spec_u32_to_from_le_bytes();
    }
    let b = u32_to_le_bytes(x);
    put_bytes(v, b.as_slice());
}

/// Appends a byte value.
pub fn put_u8(v: &mut Vec<u8>, b: u8)
    ensures
        final(v)@ == old(v)@ + marshal(old(v)@.len(), Wire::Byte(b)),
{
    v.push(b);
    assert(v@ =~= old(v)@ + marshal(old(v)@.len(), Wire::Byte(b)));
}

/// Appends a `u32` value.
pub fn put_u32(v: &mut Vec<u8>, x: u32)
    ensures
        final(v)@ == old(v)@ + marshal(old(v)@.len(), Wire::UInt32(x)),
{
    put_pad(v, 4);
    put_u32_raw(v, x);
    assert(v@ =~= old(v)@ + marshal(old(v)@.len(), Wire::UInt32(x)));
}

/// Appends a `u16` value.
pub fn put_u16(v: &mut Vec<u8>, x: u16)
    ensures
        final(v)@ == old(v)@ + marshal(old(v)@.len(), Wire::UInt16(x)),
{
    put_pad(v, 2);
    v.push((x % 256) as u8);
    v.push((x / 256) as u8);
    assert(v@ =~= old(v)@ + marshal(old(v)@.len(), Wire::UInt16(x)));
}

/// Appends an `i32` value.
pub fn put_i32(v: &mut Vec<u8>, x: i32)
    ensures
        final(v)@ == old(v)@ + marshal(old(v)@.len(), Wire::Int32(x)),
{
    put_pad(v, 4);
    put_u32_raw(v, x as u32);
    assert(v@ =~= old(v)@ + marshal(old(v)@.len(), Wire::Int32(x)));
}

/// Appends a boolean value.
pub fn put_bool(v: &mut Vec<u8>, b: bool)
    ensures
        final(v)@ == old(v)@ + marshal(old(v)@.len(), Wire::Bool(b)),
{
    put_pad(v, 4);
    put_u32_raw(
        v,
        if b {
            1
        } else {
            0
        },
    );
    assert(v@ =~= old(v)@ + marshal(old(v)@.len(), Wire::Bool(b)));
}

/// Appends a string or object path value.
pub fn put_str(v: &mut Vec<u8>, s: &str)
    ensures
        final(v)@ == old(v)@ + marshal(old(v)@.len(), Wire::Str(s.spec_bytes())),
{
    put_str_bytes(v, s.as_bytes());
}

/// Appends a string value given by its bytes.
pub fn put_str_bytes(v: &mut Vec<u8>, b: &[u8])
    ensures
        final(v)@ == old(v)@ + marshal(old(v)@.len(), Wire::Str(b@)),
{
    put_pad(v, 4);
    put_u32_raw(v, b.len() as u32);
    put_bytes(v, b);
    v.push(0);
    assert(v@ =~= old(v)@ + marshal(old(v)@.len(), Wire::Str(b@)));
}

/// Appends a signature value.
pub fn put_sig(v: &mut Vec<u8>, s: &str)
    ensures
        final(v)@ == old(v)@ + marshal(old(v)@.len(), Wire::Signature(s.spec_bytes())),
{
    let b = s.as_bytes();
    v.push(b.len() as u8);
    put_bytes(v, b);
    v.push(0);
    assert(v@ =~= old(v)@ + marshal(old(v)@.len(), Wire::Signature(s.spec_bytes())));
}

/// Where an array that is being written starts: the offset of its length
/// field and the offset of its first element.
pub struct ArrayMark {
    pub len_pos: usize,
    pub start: usize,
}

/// The bytes that `begin_array` appends at offset `pos`.
pub open spec fn array_head(pos: nat, align: nat) -> Seq<u8> {
    let p = pad_len(pos, 4);
    zeros(p) + spec_u32_to_le_bytes(0) + zeros(pad_len(pos + p + 4, align))
}

/// Starts an array whose elements are aligned to `align`; its length is written by `end_array`.
pub fn begin_array(v: &mut Vec<u8>, align: usize) -> (m: ArrayMark)
    requires
        align == 1 || align == 2 || align == 4 || align == 8,
    ensures
        final(v)@ == old(v)@ + array_head(old(v)@.len(), align as nat),
        m.len_pos == old(v)@.len() + pad_len(old(v)@.len(), 4),
        m.start == final(v)@.len(),
        m.len_pos + 4 <= m.start,
{
    put_pad(v, 4);
    let len_pos = v.len();
    put_u32_raw(v, 0);
    put_pad(v, align);
    assert(v@ =~= old(v)@ + array_head(old(v)@.len(), align as nat));
    ArrayMark { len_pos, start: v.len() }
}

/// Ends the array started at `m`: writes its length over the placeholder.
pub fn end_array(v: &mut Vec<u8>, m: ArrayMark)
    requires
        m.len_pos + 4 <= m.start <= old(v)@.len(),
    ensures
        final(v)@ == old(v)@.subrange(0, m.len_pos as int) + spec_u32_to_le_bytes(
            (old(v)@.len() - m.start) as u32,
        ) + old(v)@.subrange(m.len_pos + 4, old(v)@.len() as int),
{
    let n = (v.len() - m.start) as u32;
    let b = u32_to_le_bytes(n);
    v.set(m.len_pos, b[0]);
    v.set(m.len_pos + 1, b[1]);
    v.set(m.len_pos + 2, b[2]);
    v.set(m.len_pos + 3, b[3]);
    assert(v@ =~= old(v)@.subrange(0, m.len_pos as int) + spec_u32_to_le_bytes(
        (old(v)@.len() - m.start) as u32,
    ) + old(v)@.subrange(m.len_pos + 4, old(v)@.len() as int));
}

/// An array written with `begin_array`, its elements, and `end_array` is the
/// marshalled array.
pub proof fn lemma_array(pre: Seq<u8>, align: nat, elems: Seq<Wire>)
    ensures
        ({
            let pos = pre.len();
            let p = pad_len(pos, 4);
            let start = pos + p + 4 + pad_len(pos + p + 4, align);
            let written = pre + array_head(pos, align) + marshal_seq(start, elems);
            let len_pos = pos + p;
            written.subrange(0, len_pos as int) + spec_u32_to_le_bytes(
                (written.len() - start) as u32,
            ) + written.subrange(len_pos + 4int, written.len() as int) == pre + marshal(
                pos,
                Wire::Array(align, elems),
            )
        }),
{
    let pos = pre.len();
    let p = pad_len(pos, 4);
    let start = pos + p + 4 + pad_len(pos + p + 4, align);
    let content = marshal_seq(start, elems);
    let written = pre + array_head(pos, align) + content;
    let len_pos = pos + p;
    vstd::bytes::lemma_auto_spec_u32_to_from_le_bytes();
    assert(spec_u32_to_le_bytes(0).len() == 4);
    assert(written.len() - start == content.len());
    assert(written.subrange(0, len_pos as int) =~= pre + zeros(p));
    assert(written.subrange(len_pos + 4int, written.len() as int) =~= zeros(
        pad_len(pos + p + 4, align),
    ) + content);
    assert(written.subrange(0, len_pos as int) + spec_u32_to_le_bytes(
        (written.len() - start) as u32,
    ) + written.subrange(len_pos + 4int, written.len() as int) =~= pre + marshal(
        pos,
        Wire::Array(align, elems),
    ));
}


/// Marshalling a single value is marshalling it in a sequence of one.
pub proof fn lemma_marshal_seq_one(pos: nat, a: Wire)
    ensures
        marshal_seq(pos, seq![a]) == marshal(pos, a),
{
    assert(seq![a].subrange(0, 0) =~= Seq::<Wire>::empty());
    assert(marshal_seq(pos, Seq::<Wire>::empty()) =~= Seq::<u8>::empty());
    assert(marshal_seq(pos, seq![a]) =~= marshal(pos, a));
}

/// Marshalling two values in a sequence.
pub proof fn lemma_marshal_seq_two(pos: nat, a: Wire, b: Wire)
    ensures
        marshal_seq(pos, seq![a, b]) == marshal(pos, a) + marshal(pos + marshal(pos, a).len(), b),
{
    lemma_marshal_seq_one(pos, a);
    assert(seq![a, b].subrange(0, 1) =~= seq![a]);
}

/// Appends a header field holding a string-like value.
fn put_str_field(v: &mut Vec<u8>, code: u8, sig: &str, s: &str)
    ensures
        final(v)@ == old(v)@ + marshal(
            old(v)@.len(),
            header_field(code, sig.spec_bytes(), Wire::Str(s.spec_bytes())),
        ),
{
    put_pad(v, 8);
    let ghost start = v@.len();
    put_u8(v, code);
    let ghost mid = v@;
    put_sig(v, sig);
    put_str(v, s);
    proof {
        let vw = Wire::Variant(sig.spec_bytes(), Box::new(Wire::Str(s.spec_bytes())));
        lemma_marshal_seq_two(start, Wire::Byte(code), vw);
        assert(marshal(start, Wire::Byte(code)) =~= seq![code]);
        let p = start + 1;
        assert(marshal(p, Wire::Signature(sig.spec_bytes())) =~= sig_bytes(sig.spec_bytes()));
        assert(marshal(p, vw) =~= sig_bytes(sig.spec_bytes()) + marshal(
            p + sig_bytes(sig.spec_bytes()).len(),
            Wire::Str(s.spec_bytes()),
        ));
        assert(v@ =~= old(v)@ + marshal(
            old(v)@.len(),
            header_field(code, sig.spec_bytes(), Wire::Str(s.spec_bytes())),
        ));
    }
}

/// Appends a header field holding a `u32`.
fn put_u32_field(v: &mut Vec<u8>, code: u8, sig: &str, x: u32)
    ensures
        final(v)@ == old(v)@ + marshal(
            old(v)@.len(),
            header_field(code, sig.spec_bytes(), Wire::UInt32(x)),
        ),
{
    put_pad(v, 8);
    let ghost start = v@.len();
    put_u8(v, code);
    put_sig(v, sig);
    put_u32(v, x);
    proof {
        let vw = Wire::Variant(sig.spec_bytes(), Box::new(Wire::UInt32(x)));
        lemma_marshal_seq_two(start, Wire::Byte(code), vw);
        assert(marshal(start, Wire::Byte(code)) =~= seq![code]);
        let p = start + 1;
        assert(marshal(p, Wire::Signature(sig.spec_bytes())) =~= sig_bytes(sig.spec_bytes()));
        assert(v@ =~= old(v)@ + marshal(
            old(v)@.len(),
            header_field(code, sig.spec_bytes(), Wire::UInt32(x)),
        ));
    }
}

/// Appends a header field holding a signature.
fn put_sig_field(v: &mut Vec<u8>, code: u8, sig: &str, s: &str)
    ensures
        final(v)@ == old(v)@ + marshal(
            old(v)@.len(),
            header_field(code, sig.spec_bytes(), Wire::Signature(s.spec_bytes())),
        ),
{
    put_pad(v, 8);
    let ghost start = v@.len();
    put_u8(v, code);
    put_sig(v, sig);
    put_sig(v, s);
    proof {
        let vw = Wire::Variant(sig.spec_bytes(), Box::new(Wire::Signature(s.spec_bytes())));
        lemma_marshal_seq_two(start, Wire::Byte(code), vw);
        assert(marshal(start, Wire::Byte(code)) =~= seq![code]);
        let p = start + 1;
        assert(marshal(p, Wire::Signature(sig.spec_bytes())) =~= sig_bytes(sig.spec_bytes()));
        assert(v@ =~= old(v)@ + marshal(
            old(v)@.len(),
            header_field(code, sig.spec_bytes(), Wire::Signature(s.spec_bytes())),
        ));
    }
}


/// Appends the field for a string-like header value, if it is present.
fn put_opt_str_field(
    v: &mut Vec<u8>,
    code: u8,
    sig: &str,
    o: Option<&str>,
    Ghost(pre): Ghost<Seq<u8>>,
    Ghost(fields): Ghost<Seq<Wire>>,
)
    requires
        old(v)@ == pre + marshal_seq(pre.len(), fields),
    ensures
        final(v)@ == pre + marshal_seq(
            pre.len(),
            fields + opt_str_field(code, sig.spec_bytes(), opt_bytes(o)),
        ),
{
    match o {
        Some(s) => {
            let ghost f = header_field(code, sig.spec_bytes(), Wire::Str(s.spec_bytes()));
            put_str_field(v, code, sig, s);
            proof {
                lemma_marshal_seq_push(pre.len(), fields, f);
                assert(fields + seq![f] =~= fields.push(f));
            }
        },
        None => {
            assert(fields + Seq::<Wire>::empty() =~= fields);
        },
    }
}

/// Appends the reply serial field, if present.
fn put_opt_u32_field(
    v: &mut Vec<u8>,
    o: Option<u32>,
    Ghost(pre): Ghost<Seq<u8>>,
    Ghost(fields): Ghost<Seq<Wire>>,
)
    requires
        old(v)@ == pre + marshal_seq(pre.len(), fields),
    ensures
        final(v)@ == pre + marshal_seq(pre.len(), fields + reply_serial_field(o)),
{
    match o {
        Some(r) => {
            let ghost f = header_field(5, "u".spec_bytes(), Wire::UInt32(r));
            put_u32_field(v, 5, "u", r);
            proof {
                lemma_marshal_seq_push(pre.len(), fields, f);
                assert(fields + seq![f] =~= fields.push(f));
            }
        },
        None => {
            assert(fields + Seq::<Wire>::empty() =~= fields);
        },
    }
}

/// Appends the signature field, unless the signature is empty.
fn put_opt_sig_field(
    v: &mut Vec<u8>,
    o: Option<&str>,
    Ghost(pre): Ghost<Seq<u8>>,
    Ghost(fields): Ghost<Seq<Wire>>,
)
    requires
        old(v)@ == pre + marshal_seq(pre.len(), fields),
    ensures
        final(v)@ == pre + marshal_seq(
            pre.len(),
            fields + signature_field(
                match o {
                    Some(s) => s.spec_bytes(),
                    None => Seq::empty(),
                },
            ),
        ),
{
    match o {
        Some(s) => {
            if s.as_bytes().len() > 0 {
                let ghost f = header_field(8, "g".spec_bytes(), Wire::Signature(s.spec_bytes()));
                put_sig_field(v, 8, "g", s);
                proof {
                    lemma_marshal_seq_push(pre.len(), fields, f);
                    assert(fields + seq![f] =~= fields.push(f));
                }
            } else {
                assert(fields + Seq::<Wire>::empty() =~= fields);
            }
        },
        None => {
            assert(fields + Seq::<Wire>::empty() =~= fields);
        },
    }
}

/// The bytes of an optional string.
pub open spec fn opt_bytes(o: Option<&str>) -> Option<Seq<u8>> {
    match o {
        Some(s) => Some(s.spec_bytes()),
        None => None,
    }
}

/// Collects the header fields and the body of one message.
pub struct MessageEncoder<'a> {
    pub message_type: MessageType,
    pub path: Option<&'a str>,
    pub interface: Option<&'a str>,
    pub member: Option<&'a str>,
    pub error_name: Option<&'a str>,
    pub reply_serial: Option<u32>,
    pub destination: Option<&'a str>,
    pub signature: Option<&'a str>,
    /// Body bytes written so far; the body starts 8-aligned, so offsets in
    /// it align as offsets in the message do.
    pub body: Vec<u8>,
}

impl<'a> MessageEncoder<'a> {
    /// The header that `finish` writes.
    pub open spec fn header(&self) -> HeaderSpec {
        HeaderSpec {
            message_type: self.message_type,
            path: opt_bytes(self.path),
            interface: opt_bytes(self.interface),
            member: opt_bytes(self.member),
            error_name: opt_bytes(self.error_name),
            reply_serial: self.reply_serial,
            destination: opt_bytes(self.destination),
            signature: match self.signature {
                Some(s) => s.spec_bytes(),
                None => Seq::empty(),
            },
        }
    }

    /// An encoder for a message of the given type, with no header field and an empty body.
    pub fn new(message_type: MessageType) -> (e: Self)
        ensures
            e.message_type == message_type,
            e.path is None,
            e.interface is None,
            e.member is None,
            e.error_name is None,
            e.reply_serial is None,
            e.destination is None,
            e.signature is None,
            e.body@ == Seq::<u8>::empty(),
    {
        MessageEncoder {
            message_type,
            path: None,
            interface: None,
            member: None,
            error_name: None,
            reply_serial: None,
            destination: None,
            signature: None,
            body: Vec::new(),
        }
    }

    /// Appends the header fields.
    fn put_header_fields(&self, head: &mut Vec<u8>)
        ensures
            final(head)@ == old(head)@ + marshal_seq(old(head)@.len(), header_fields(self.header())),
    {
        let ghost h = self.header();
        let ghost pre2 = head@;
        proof {
            assert(marshal_seq(pre2.len(), Seq::<Wire>::empty()) =~= Seq::<u8>::empty());
            assert(head@ =~= pre2 + marshal_seq(pre2.len(), Seq::<Wire>::empty()));
        }
        let ghost fields: Seq<Wire> = Seq::empty();
        put_opt_str_field(head, 1, "o", self.path, Ghost(pre2), Ghost(fields));
        proof { fields = fields + opt_str_field(1, "o".spec_bytes(), h.path); }
        put_opt_str_field(head, 2, "s", self.interface, Ghost(pre2), Ghost(fields));
        proof { fields = fields + opt_str_field(2, "s".spec_bytes(), h.interface); }
        put_opt_str_field(head, 3, "s", self.member, Ghost(pre2), Ghost(fields));
        proof { fields = fields + opt_str_field(3, "s".spec_bytes(), h.member); }
        put_opt_str_field(head, 4, "s", self.error_name, Ghost(pre2), Ghost(fields));
        proof { fields = fields + opt_str_field(4, "s".spec_bytes(), h.error_name); }
        put_opt_u32_field(head, self.reply_serial, Ghost(pre2), Ghost(fields));
        proof { fields = fields + reply_serial_field(h.reply_serial); }
        put_opt_str_field(head, 6, "s", self.destination, Ghost(pre2), Ghost(fields));
        proof { fields = fields + opt_str_field(6, "s".spec_bytes(), h.destination); }
        put_opt_sig_field(head, self.signature, Ghost(pre2), Ghost(fields));
        proof {
            fields = fields + signature_field(h.signature);
            assert(Seq::<Wire>::empty() + opt_str_field(1, "o".spec_bytes(), h.path) =~= opt_str_field(1, "o".spec_bytes(), h.path));
            assert(fields =~= header_fields(h));
        }
    }

    /// An encoder for a method call, with no body yet.
    pub fn method_call(destination: &'a str, path: &'a str, interface: &'a str, member: &'a str) -> (e: Self)
        ensures
            e.header() == call_header(
                destination.spec_bytes(),
                path.spec_bytes(),
                interface.spec_bytes(),
                member.spec_bytes(),
                Seq::empty(),
            ),
            e.body@ == Seq::<u8>::empty(),
    {
        let mut e = MessageEncoder::new(MessageType::MethodCall);
        e.path = Some(path);
        e.interface = Some(interface);
        e.member = Some(member);
        e.destination = Some(destination);
        e
    }

    /// An encoder for a method return, with no body yet.
    pub fn method_return(reply_serial: u32, destination: &'a str) -> (e: Self)
        ensures
            e.header() == reply_header(reply_serial, destination.spec_bytes(), Seq::empty()),
            e.body@ == Seq::<u8>::empty(),
    {
        let mut e = MessageEncoder::new(MessageType::MethodReturn);
        e.reply_serial = Some(reply_serial);
        e.destination = Some(destination);
        e
    }

    /// An encoder for a signal, with no body yet.
    pub fn signal(path: &'a str, interface: &'a str, member: &'a str) -> (e: Self)
        ensures
            e.header() == signal_header(
                path.spec_bytes(),
                interface.spec_bytes(),
                member.spec_bytes(),
                Seq::empty(),
            ),
            e.body@ == Seq::<u8>::empty(),
    {
        let mut e = MessageEncoder::new(MessageType::Signal);
        e.path = Some(path);
        e.interface = Some(interface);
        e.member = Some(member);
        e
    }

    /// The fixed header and the header field array.
    fn write_header(&self) -> (head: Vec<u8>)
        ensures
            head@ == marshal_seq(0, header_values(self.header(), self.body@.len())),
    {
        let ghost h = self.header();
        let mut head: Vec<u8> = Vec::new();
        let code: u8 = match self.message_type {
            MessageType::MethodCall => 1,
            MessageType::MethodReturn => 2,
            MessageType::Error => 3,
            MessageType::Signal => 4,
        };
        let ghost vals: Seq<Wire> = Seq::empty();
        proof {
            assert(marshal_seq(0, vals) =~= Seq::<u8>::empty());
        }
        put_u8(&mut head, 0x6c);
        proof {
            lemma_marshal_seq_push(0, vals, Wire::Byte(0x6c));
            vals = vals.push(Wire::Byte(0x6c));
        }
        put_u8(&mut head, code);
        proof {
            lemma_marshal_seq_push(0, vals, Wire::Byte(code));
            vals = vals.push(Wire::Byte(code));
        }
        put_u8(&mut head, 0);
        proof {
            lemma_marshal_seq_push(0, vals, Wire::Byte(0));
            vals = vals.push(Wire::Byte(0));
        }
        put_u8(&mut head, 1);
        proof {
            lemma_marshal_seq_push(0, vals, Wire::Byte(1));
            vals = vals.push(Wire::Byte(1));
        }
        put_u32(&mut head, self.body.len() as u32);
        proof {
            lemma_marshal_seq_push(0, vals, Wire::UInt32(self.body@.len() as u32));
            vals = vals.push(Wire::UInt32(self.body@.len() as u32));
        }
        put_u32(&mut head, 0);
        proof {
            lemma_marshal_seq_push(0, vals, Wire::UInt32(0));
            vals = vals.push(Wire::UInt32(0));
        }
        let ghost pre = head@;
        assert(pre == marshal_seq(0, vals));
        proof {
            vstd::bytes::lemma_auto_spec_u32_to_from_le_bytes();
        }
        let mark = begin_array(&mut head, 8);
        self.put_header_fields(&mut head);
        let ghost fields = header_fields(h);
        assert(head@ =~= pre + array_head(pre.len(), 8) + marshal_seq(mark.start as nat, fields));
        proof {
            lemma_array(pre, 8, fields);
        }
        end_array(&mut head, mark);
        proof {
            let aw = Wire::Array(8, header_fields(h));
            lemma_marshal_seq_push(0, vals, aw);
            vals = vals.push(aw);
            assert(vals =~= header_values(h, self.body@.len()));
        }
        head
    }

    /// Offset at which the body starts: the length of the header with its
    /// padding, which is the length of the whole message while the body is empty.
    pub fn head_len(&self) -> (n: usize)
        requires
            self.body@.len() == 0,
        ensures
            n == message_bytes(self.header(), Seq::empty()).len(),
    {
        let mut head = self.write_header();
        put_pad(&mut head, 8);
        assert(head@ =~= message_bytes(self.header(), Seq::empty()));
        head.len()
    }

    /// Writes the whole message into the start of `buf` and returns its length.
    pub fn finish(&self, buf: &mut [u8]) -> (r: Result<usize, EncodeError>)
        ensures
            encoded_len(r, old(buf)@, final(buf)@, message_bytes(self.header(), self.body@)),
    {
        let ghost msg = message_bytes(self.header(), self.body@);
        if self.body.len() > MAX_MESSAGE_LEN {
            return Err(EncodeError::ValueTooLong);
        }
        let mut out = self.write_header();
        if out.len() > MAX_MESSAGE_LEN {
            return Err(EncodeError::ValueTooLong);
        }
        put_pad(&mut out, 8);
        put_bytes(&mut out, self.body.as_slice());
        assert(out@ =~= msg);
        if out.len() > MAX_MESSAGE_LEN {
            return Err(EncodeError::ValueTooLong);
        }
        if out.len() > buf.len() {
            return Err(EncodeError::BufferTooSmall);
        }
        copy_into(buf, &out);
        Ok(out.len())
    }
}

/// Copies `src` over the start of `buf`.
fn copy_into(buf: &mut [u8], src: &Vec<u8>)
    requires
        src@.len() <= old(buf)@.len(),
    ensures
        final(buf)@ == src@ + old(buf)@.skip(src@.len() as int),
{
    let n = src.len();
    let mut i: usize = 0;
    while i < n
        invariant
            n == src@.len(),
            n <= buf@.len(),
            buf@.len() == old(buf)@.len(),
            i <= n,
            forall|j: int| 0 <= j < i ==> buf@[j] == src@[j],
            forall|j: int| i <= j < buf@.len() ==> buf@[j] == old(buf)@[j],
        decreases n - i,
    {
        buf[i] = src[i];
        i = i + 1;
    }
    assert(buf@ =~= src@ + old(buf)@.skip(n as int));
}

/// The first `n` bytes of a buffer that has just been written.
pub fn written_prefix<'b>(buf: &'b [u8], n: usize) -> (out: &'b [u8])
    requires
        n <= buf@.len(),
    ensures
        out@ == buf@.subrange(0, n as int),
{
    vstd::slice::slice_subrange(buf, 0, n)
}

/// Writes the message collected by `enc` into `buf` and returns the written part.
pub fn encode_into<'b>(enc: &MessageEncoder, buf: &'b mut [u8]) -> (r: Result<&'b [u8], EncodeError>)
    ensures
        encoded(r, old(buf)@, final(buf)@, message_bytes(enc.header(), enc.body@)),
{
    match enc.finish(buf) {
        Ok(n) => {
            let out: &'b [u8] = buf;
            let res = written_prefix(out, n);
            assert(res@ =~= message_bytes(enc.header(), enc.body@));
            Ok(res)
        },
        Err(e) => Err(e),
    }
}

/// Appends a dictionary entry `{sv}`: the key, then a variant of signature
/// `sig` whose value `put_value` has just been shown to append as `v`.
pub proof fn lemma_dict_entry(pos: nat, key: Seq<u8>, sig: Seq<u8>, v: Wire)
    ensures
        ({
            let p0 = pos + pad_len(pos, 8);
            let k = marshal(p0, Wire::Str(key));
            let s = marshal(p0 + k.len(), Wire::Signature(sig));
            marshal(pos, crate::wire::dict_entry(key, sig, v)) == zeros(pad_len(pos, 8)) + k + s
                + marshal(p0 + k.len() + s.len(), v)
        }),
{
    let p0 = pos + pad_len(pos, 8);
    let k = marshal(p0, Wire::Str(key));
    lemma_marshal_seq_two(p0, Wire::Str(key), Wire::Variant(sig, Box::new(v)));
    crate::wire::lemma_variant(p0 + k.len(), sig, v);
    let s = marshal(p0 + k.len(), Wire::Signature(sig));
    assert(marshal(pos, crate::wire::dict_entry(key, sig, v)) =~= zeros(pad_len(pos, 8)) + k + s
        + marshal(p0 + k.len() + s.len(), v));
}

/// Appending one more element to an array that is being written.
pub proof fn lemma_array_push(pre: Seq<u8>, align: nat, start: nat, elems: Seq<Wire>, x: Wire)
    requires
        start == pre.len() + array_head(pre.len(), align).len(),
    ensures
        ({
            let cur = pre + array_head(pre.len(), align) + marshal_seq(start, elems);
            cur + marshal(cur.len(), x) == pre + array_head(pre.len(), align) + marshal_seq(
                start,
                elems.push(x),
            )
        }),
{
    lemma_marshal_seq_push(start, elems, x);
    let cur = pre + array_head(pre.len(), align) + marshal_seq(start, elems);
    assert(cur + marshal(cur.len(), x) =~= pre + array_head(pre.len(), align) + marshal_seq(
        start,
        elems.push(x),
    ));
}

/// The state right after `begin_array`: no element yet.
pub proof fn lemma_array_empty(pre: Seq<u8>, align: nat)
    ensures
        pre + array_head(pre.len(), align) == pre + array_head(pre.len(), align) + marshal_seq(
            pre.len() + array_head(pre.len(), align).len(),
            Seq::<Wire>::empty(),
        ),
{
    assert(marshal_seq(pre.len() + array_head(pre.len(), align).len(), Seq::<Wire>::empty()) =~= Seq::<u8>::empty());
    assert(pre + array_head(pre.len(), align) =~= pre + array_head(pre.len(), align) + Seq::<u8>::empty());
}

/// Ends an array whose elements `elems` have been written after `begin_array`.
pub fn end_array_of(
    v: &mut Vec<u8>,
    m: ArrayMark,
    Ghost(pre): Ghost<Seq<u8>>,
    Ghost(align): Ghost<nat>,
    Ghost(elems): Ghost<Seq<Wire>>,
)
    requires
        m.len_pos == pre.len() + pad_len(pre.len(), 4),
        m.start == pre.len() + array_head(pre.len(), align).len(),
        old(v)@ == pre + array_head(pre.len(), align) + marshal_seq(m.start as nat, elems),
    ensures
        final(v)@ == pre + marshal(pre.len(), Wire::Array(align, elems)),
{
    proof {
        vstd::bytes::lemma_auto_spec_u32_to_from_le_bytes();
        lemma_array(pre, align, elems);
    }
    end_array(v, m);
}

/// The strings of `names` as wire values.
pub open spec fn str_wires(names: Seq<&str>) -> Seq<Wire> {
    Seq::new(names.len(), |i: int| Wire::Str(names[i].spec_bytes()))
}

/// Appends an array of strings `as` holding `names`, in order.
pub fn put_str_array(v: &mut Vec<u8>, names: &[&str])
    ensures
        final(v)@ == old(v)@ + marshal(old(v)@.len(), Wire::Array(4, str_wires(names@))),
{
    let ghost pre = v@;
    let mark = begin_array(v, 4);
    let ghost start: nat = mark.start as nat;
    proof {
        lemma_array_empty(pre, 4);
        assert(names@.subrange(0, 0) =~= Seq::<&str>::empty());
        assert(str_wires(Seq::<&str>::empty()) =~= Seq::<Wire>::empty());
    }
    let n = names.len();
    let mut i: usize = 0;
    while i < n
        invariant
            n == names@.len(),
            i <= n,
            start == mark.start,
            mark.len_pos == pre.len() + pad_len(pre.len(), 4),
            mark.start == pre.len() + array_head(pre.len(), 4).len(),
            v@ == pre + array_head(pre.len(), 4) + marshal_seq(start, str_wires(names@.subrange(0, i as int))),
        decreases n - i,
    {
        let ghost done = str_wires(names@.subrange(0, i as int));
        proof {
            lemma_array_push(pre, 4, start, done, Wire::Str(names@[i as int].spec_bytes()));
            assert(done.push(Wire::Str(names@[i as int].spec_bytes())) =~= str_wires(names@.subrange(0, i + 1)));
        }
        put_str(v, names[i]);
        i = i + 1;
    }
    proof {
        assert(names@.subrange(0, n as int) =~= names@);
    }
    end_array_of(v, mark, Ghost(pre), Ghost(4), Ghost(str_wires(names@)));
}

/// Outcome of writing `msg` into a buffer, with encoding errors carried as `DBusError`.
pub open spec fn encoded_reply(
    r: Result<&[u8], crate::error::DBusError>,
    before: Seq<u8>,
    after: Seq<u8>,
    msg: Seq<u8>,
) -> bool {
    match r {
        Ok(out) => fits(before.len(), msg) && out@ == msg && after == msg + before.skip(
            msg.len() as int,
        ),
        Err(e) => !fits(before.len(), msg) && e == crate::error::DBusError::EncodeError(
            overflow_error(msg),
        ) && after == before,
    }
}

/// Writes the message collected by `enc`, with encoding errors carried as `DBusError`.
pub fn encode_reply<'b>(enc: &MessageEncoder, buf: &'b mut [u8]) -> (r: Result<&'b [u8], crate::error::DBusError>)
    ensures
        encoded_reply(r, old(buf)@, final(buf)@, message_bytes(enc.header(), enc.body@)),
{
    match encode_into(enc, buf) {
        Ok(out) => Ok(out),
        Err(e) => Err(crate::error::DBusError::EncodeError(e)),
    }
}

/// Marshalling three values in a sequence.
pub proof fn lemma_marshal_seq_three(pos: nat, a: Wire, b: Wire, c: Wire)
    ensures
        ({
            let ma = marshal(pos, a);
            let mb = marshal(pos + ma.len(), b);
            marshal_seq(pos, seq![a, b, c]) == ma + mb + marshal(pos + ma.len() + mb.len(), c)
        }),
{
    lemma_marshal_seq_two(pos, a, b);
    lemma_marshal_seq_push(pos, seq![a, b], c);
    assert(seq![a, b].push(c) =~= seq![a, b, c]);
}

/// Every message this library writes is framed as D-Bus asks: it starts with
/// the byte order mark `l`, its type code, no flags and protocol version 1;
/// the fixed header then announces the length of the body; the body starts at
/// a multiple of 8 and runs to the end of the message.
pub proof fn lemma_message_frame(h: HeaderSpec, body: Seq<u8>)
    requires
        body.len() <= u32::MAX,
    ensures
        ({
            let m = message_bytes(h, body);
            &&& m.len() >= 8 + body.len()
            &&& m.subrange(0, 4) == seq![0x6cu8, message_type_code(h.message_type), 0u8, 1u8]
            &&& m.subrange(4, 8) == spec_u32_to_le_bytes(body.len() as u32)
            &&& (m.len() - body.len()) % 8 == 0
            &&& m.subrange(m.len() - body.len(), m.len() as int) == body
        }),
{
    let vals = header_values(h, body.len());
    let first = vals.subrange(0, 5);
    let rest = vals.subrange(5, 7);
    assert(first + rest =~= vals);
    lemma_marshal_seq_concat(0, first, rest);
    vstd::bytes::lemma_auto_spec_u32_to_from_le_bytes();
    let b0 = Wire::Byte(0x6c);
    let b1 = Wire::Byte(message_type_code(h.message_type));
    let b2 = Wire::Byte(0);
    let b3 = Wire::Byte(1);
    let n = Wire::UInt32(body.len() as u32);
    assert(first =~= seq![b0, b1, b2, b3].push(n));
    assert(seq![b0, b1, b2].push(b3) =~= seq![b0, b1, b2, b3]);
    assert(seq![b0, b1].push(b2) =~= seq![b0, b1, b2]);
    lemma_marshal_seq_two(0, b0, b1);
    lemma_marshal_seq_push(0, seq![b0, b1], b2);
    lemma_marshal_seq_push(0, seq![b0, b1, b2], b3);
    lemma_marshal_seq_push(0, seq![b0, b1, b2, b3], n);
    let head4 = marshal_seq(0, seq![b0, b1, b2, b3]);
    assert(head4 =~= seq![0x6cu8, message_type_code(h.message_type), 0u8, 1u8]);
    assert(pad_len(4, 4) == 0);
    let mf = marshal_seq(0, first);
    assert(mf =~= head4 + spec_u32_to_le_bytes(body.len() as u32));
    let head = marshal_seq(0, vals);
    assert(head.subrange(0, 8) =~= mf);
    let framed = head + zeros(pad_len(head.len(), 8));
    assert(framed.len() % 8 == 0);
    let m = message_bytes(h, body);
    assert(m =~= framed + body);
    assert(m.subrange(0, 4) =~= head4);
    assert(m.subrange(4, 8) =~= spec_u32_to_le_bytes(body.len() as u32));
    assert(m.subrange(m.len() - body.len(), m.len() as int) =~= body);
}

/// The length of a message is the length of its header, padding included,
/// plus the length of its body: the value of the body length field does not
/// change the length of the header.
pub proof fn lemma_message_len(h: HeaderSpec, body: Seq<u8>)
    ensures
        message_bytes(h, body).len() == message_bytes(h, Seq::empty()).len() + body.len(),
{
    let vn = header_values(h, body.len());
    let v0 = header_values(h, 0);
    assert(vn.subrange(0, 5) + vn.subrange(5, 7) =~= vn);
    assert(v0.subrange(0, 5) + v0.subrange(5, 7) =~= v0);
    assert(vn.subrange(5, 7) =~= v0.subrange(5, 7));
    lemma_marshal_seq_concat(0, vn.subrange(0, 5), vn.subrange(5, 7));
    lemma_marshal_seq_concat(0, v0.subrange(0, 5), v0.subrange(5, 7));
    lemma_fixed_header_len(h, body.len());
    lemma_fixed_header_len(h, 0);
}

/// The fixed part of the header is eight bytes long.
proof fn lemma_fixed_header_len(h: HeaderSpec, n: nat)
    ensures
        marshal_seq(0, header_values(h, n).subrange(0, 5)).len() == 8,
{
    vstd::bytes::lemma_auto_spec_u32_to_from_le_bytes();
    let b0 = Wire::Byte(0x6c);
    let b1 = Wire::Byte(message_type_code(h.message_type));
    let b2 = Wire::Byte(0);
    let b3 = Wire::Byte(1);
    let u = Wire::UInt32(n as u32);
    assert(header_values(h, n).subrange(0, 5) =~= seq![b0, b1, b2, b3].push(u));
    assert(seq![b0, b1, b2].push(b3) =~= seq![b0, b1, b2, b3]);
    assert(seq![b0, b1].push(b2) =~= seq![b0, b1, b2]);
    lemma_marshal_seq_two(0, b0, b1);
    lemma_marshal_seq_push(0, seq![b0, b1], b2);
    lemma_marshal_seq_push(0, seq![b0, b1, b2], b3);
    lemma_marshal_seq_push(0, seq![b0, b1, b2, b3], u);
    assert(pad_len(4, 4) == 0);
}

} // verus!
