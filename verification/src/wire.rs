//! The D-Bus wire format (little endian), as a mathematical model.
//!
//! A value is marshalled at an absolute offset `pos` of the message: it first
//! gets the zero padding that brings `pos` to the value's alignment, then its
//! bytes. A message is its fixed header, the header field array, padding to a
//! multiple of 8, and the body.
use vstd::bytes::spec_u32_to_le_bytes;
use vstd::prelude::*;

verus! {

/// Largest message this library writes (bytes): the largest that D-Bus
/// allows, 2^27. Every length field then fits a `u32`.
pub const MAX_MESSAGE_LEN: usize = 0x0800_0000;

/// Number of zero bytes that bring offset `pos` to a multiple of `align`.
pub open spec fn pad_len(pos: nat, align: nat) -> nat {
    if align == 0 || pos % align == 0 {
        0
    } else {
        (align - pos % align) as nat
    }
}

/// `n` zero bytes.
pub open spec fn zeros(n: nat) -> Seq<u8> {
    Seq::new(n, |i: int| 0u8)
}

/// A D-Bus value, as far as its wire layout goes.
pub enum Wire {
    /// `y`
    Byte(u8),
    /// `b`, written as a `u32` 0 or 1
    Bool(bool),
    /// `q`
    UInt16(u16),
    /// `i`
    Int32(i32),
    /// `u`
    UInt32(u32),
    /// `s` and `o`: length, bytes, NUL
    Str(Seq<u8>),
    /// `g`: one-byte length, bytes, NUL
    Signature(Seq<u8>),
    /// `v`: the signature of the value, then the value
    Variant(Seq<u8>, Box<Wire>),
    /// `a`: element alignment and elements
    Array(nat, Seq<Wire>),
    /// `(..)`: fields, the whole aligned to 8
    Struct(Seq<Wire>),
    /// `{..}`: key and value, laid out as a struct of the two
    DictEntry(Box<Wire>, Box<Wire>),
}

/// Alignment of a value's first byte.
pub open spec fn wire_align(w: Wire) -> nat {
    match w {
        Wire::Byte(_) => 1,
        Wire::Signature(_) => 1,
        Wire::Variant(_, _) => 1,
        Wire::UInt16(_) => 2,
        Wire::Bool(_) => 4,
        Wire::Int32(_) => 4,
        Wire::UInt32(_) => 4,
        Wire::Str(_) => 4,
        Wire::Array(_, _) => 4,
        Wire::Struct(_) => 8,
        Wire::DictEntry(_, _) => 8,
    }
}

/// Bytes of a signature value: length byte, the signature, NUL.
pub open spec fn sig_bytes(s: Seq<u8>) -> Seq<u8> {
    seq![s.len() as u8] + s + seq![0u8]
}

/// Bytes of a string value (after alignment): length, the bytes, NUL.
pub open spec fn str_bytes(s: Seq<u8>) -> Seq<u8> {
    spec_u32_to_le_bytes(s.len() as u32) + s + seq![0u8]
}

/// The bytes of `w` written at offset `pos`, leading padding included.
pub open spec fn marshal(pos: nat, w: Wire) -> Seq<u8>
    decreases w,
{
    let p = pad_len(pos, wire_align(w));
    let start = pos + p;
    zeros(p) + match w {
        Wire::Byte(b) => seq![b],
        Wire::Bool(b) => spec_u32_to_le_bytes(
            if b {
                1u32
            } else {
                0u32
            },
        ),
        Wire::UInt16(v) => seq![(v % 256) as u8, (v / 256) as u8],
        Wire::Int32(v) => spec_u32_to_le_bytes(v as u32),
        Wire::UInt32(v) => spec_u32_to_le_bytes(v),
        Wire::Str(s) => str_bytes(s),
        Wire::Signature(s) => sig_bytes(s),
        Wire::Variant(sig, v) => sig_bytes(sig) + marshal(start + sig_bytes(sig).len(), *v),
        Wire::Array(a, elems) => {
            let ep = pad_len(start + 4, a);
            let content = marshal_seq(start + 4 + ep, elems);
            spec_u32_to_le_bytes(content.len() as u32) + zeros(ep) + content
        },
        Wire::Struct(fields) => marshal_seq(start, fields),
        Wire::DictEntry(k, v) => marshal(start, *k) + marshal(start + marshal(start, *k).len(), *v),
    }
}

/// The bytes of `ws` written one after another from offset `pos`.
pub open spec fn marshal_seq(pos: nat, ws: Seq<Wire>) -> Seq<u8>
    decreases ws,
{
    if ws.len() == 0 {
        Seq::empty()
    } else {
        let prefix = marshal_seq(pos, ws.subrange(0, ws.len() - 1));
        prefix + marshal(pos + prefix.len(), ws[ws.len() - 1])
    }
}

/// Appending one value to a sequence appends its bytes.
pub proof fn lemma_marshal_seq_push(pos: nat, ws: Seq<Wire>, w: Wire)
    ensures
        marshal_seq(pos, ws.push(w)) == marshal_seq(pos, ws) + marshal(
            pos + marshal_seq(pos, ws).len(),
            w,
        ),
{
    assert(ws.push(w).subrange(0, ws.len() as int) =~= ws);
}

/// A variant is its signature followed by its value.
pub proof fn lemma_variant(pos: nat, sig: Seq<u8>, v: Wire)
    ensures
        marshal(pos, Wire::Variant(sig, Box::new(v))) == marshal(pos, Wire::Signature(sig)) + marshal(
            pos + marshal(pos, Wire::Signature(sig)).len(),
            v,
        ),
{
    assert(pad_len(pos, 1) == 0);
    assert(marshal(pos, Wire::Signature(sig)) =~= sig_bytes(sig));
    assert(marshal(pos, Wire::Variant(sig, Box::new(v))) =~= marshal(pos, Wire::Signature(sig)) + marshal(
        pos + marshal(pos, Wire::Signature(sig)).len(),
        v,
    ));
}

/// A struct is padding to 8 followed by its fields.
pub proof fn lemma_struct(pos: nat, fields: Seq<Wire>)
    ensures
        marshal(pos, Wire::Struct(fields)) == zeros(pad_len(pos, 8)) + marshal_seq(
            pos + pad_len(pos, 8),
            fields,
        ),
{
}

/// A dictionary entry `{sv}` whose value is a variant of signature `sig` holding `v`.
pub open spec fn dict_entry(key: Seq<u8>, sig: Seq<u8>, v: Wire) -> Wire {
    Wire::DictEntry(Box::new(Wire::Str(key)), Box::new(Wire::Variant(sig, Box::new(v))))
}

/// Marshalling two sequences one after the other.
pub proof fn lemma_marshal_seq_concat(pos: nat, a: Seq<Wire>, b: Seq<Wire>)
    ensures
        marshal_seq(pos, a + b) == marshal_seq(pos, a) + marshal_seq(
            pos + marshal_seq(pos, a).len(),
            b,
        ),
    decreases b.len(),
{
    let ma = marshal_seq(pos, a);
    if b.len() == 0 {
        assert(a + b =~= a);
        assert(marshal_seq(pos + ma.len(), b) =~= Seq::<u8>::empty());
        assert(ma + Seq::<u8>::empty() =~= ma);
    } else {
        let b0 = b.subrange(0, b.len() - 1);
        lemma_marshal_seq_concat(pos, a, b0);
        let ab = a + b;
        assert(ab.subrange(0, ab.len() - 1) =~= a + b0);
        assert(ab[ab.len() - 1] == b[b.len() - 1]);
        let mb0 = marshal_seq(pos + ma.len(), b0);
        assert(marshal_seq(pos, ab) =~= ma + mb0 + marshal(pos + ma.len() + mb0.len(), b[b.len() - 1]));
        assert(marshal_seq(pos + ma.len(), b) =~= mb0 + marshal(pos + ma.len() + mb0.len(), b[b.len() - 1]));
        assert(marshal_seq(pos, ab) =~= ma + marshal_seq(pos + ma.len(), b));
    }
}

} // verus!
