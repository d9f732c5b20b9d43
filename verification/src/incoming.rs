//! Incoming messages, with their header fields and decoded body values.
use crate::encoder::{HeaderSpec, MessageType};
use crate::wire::Wire;
use vstd::string::StringSliceAdditionalSpecFns;
use vstd::prelude::*;

verus! {

/// A decoded value of an incoming message.
#[derive(Debug, Clone, Copy)]
pub enum IncomingValue<'a> {
    /// `y`
    Byte(u8),
    /// `b`
    Bool(bool),
    /// `n`
    Int16(i16),
    /// `q`
    UInt16(u16),
    /// `i`
    Int32(i32),
    /// `u`
    UInt32(u32),
    /// `x`
    Int64(i64),
    /// `t`
    UInt64(u64),
    /// `s`
    String(&'a str),
    /// `o`
    ObjectPath(&'a str),
    /// `g`
    Signature(&'a str),
    /// `v`
    Variant(&'a IncomingValue<'a>),
    /// `a`
    Array(IncomingArrayValue<'a>),
    /// `(..)`
    Struct(IncomingStructValue<'a>),
    /// `{..}`
    DictEntry(IncomingDictEntryValue<'a>),
}

/// Items of an array value.
#[derive(Debug, Clone, Copy)]
pub struct IncomingArrayValue<'a> {
    pub items: &'a Vec<IncomingValue<'a>>,
}

/// Fields of a struct value.
#[derive(Debug, Clone, Copy)]
pub struct IncomingStructValue<'a> {
    pub fields: &'a Vec<IncomingValue<'a>>,
}

/// Key and value of a dictionary entry.
#[derive(Debug, Clone, Copy)]
pub struct IncomingDictEntryValue<'a> {
    pub key: &'a IncomingValue<'a>,
    pub value: &'a IncomingValue<'a>,
}

/// The values of a message body, in order.
#[derive(Debug, Clone, Copy)]
pub struct IncomingBody<'a> {
    pub values: &'a [IncomingValue<'a>],
}

/// A message received from the bus.
#[derive(Debug, Clone, Copy)]
pub struct IncomingMessage<'a> {
    pub message_type: MessageType,
    pub serial: u32,
    pub path: Option<&'a str>,
    pub interface: Option<&'a str>,
    pub member: Option<&'a str>,
    pub destination: Option<&'a str>,
    pub sender: Option<&'a str>,
    pub body: Option<IncomingBody<'a>>,
}

impl<'a> IncomingArrayValue<'a> {
    /// Whether the array has no items.
    pub fn is_empty(&self) -> (r: bool)
        ensures
            r == (self.items@.len() == 0),
    {
        self.items.len() == 0
    }
}

impl<'a> IncomingBody<'a> {
    /// The `i`-th value of the body, if there is one.
    pub fn get(&self, i: usize) -> (r: Option<IncomingValue<'a>>)
        ensures
            r == (if i < self.values@.len() {
                Some(self.values@[i as int])
            } else {
                None
            }),
    {
        if i < self.values.len() {
            Some(self.values[i])
        } else {
            None
        }
    }
}

/// The `i`-th value, if it is an `i32`.
pub open spec fn arg_i32(vals: Seq<IncomingValue>, i: int) -> Option<i32> {
    if 0 <= i < vals.len() {
        match vals[i] {
            IncomingValue::Int32(v) => Some(v),
            _ => None,
        }
    } else {
        None
    }
}

/// The `i`-th value, if it is a `u32`.
pub open spec fn arg_u32(vals: Seq<IncomingValue>, i: int) -> Option<u32> {
    if 0 <= i < vals.len() {
        match vals[i] {
            IncomingValue::UInt32(v) => Some(v),
            _ => None,
        }
    } else {
        None
    }
}

/// The `i`-th value, if it is a string.
pub open spec fn arg_str<'a>(vals: Seq<IncomingValue<'a>>, i: int) -> Option<&'a str> {
    if 0 <= i < vals.len() {
        match vals[i] {
            IncomingValue::String(v) => Some(v),
            _ => None,
        }
    } else {
        None
    }
}

/// The `i`-th value, if it is an array.
pub open spec fn arg_array<'a>(vals: Seq<IncomingValue<'a>>, i: int) -> Option<IncomingArrayValue<'a>> {
    if 0 <= i < vals.len() {
        match vals[i] {
            IncomingValue::Array(v) => Some(v),
            _ => None,
        }
    } else {
        None
    }
}

/// Whether the `i`-th value is a variant.
pub open spec fn arg_is_variant(vals: Seq<IncomingValue>, i: int) -> bool {
    0 <= i < vals.len() && vals[i] is Variant
}

/// The `i`-th value of `vals`, if it is an `i32`.
pub fn i32_at(vals: &[IncomingValue], i: usize) -> (r: Option<i32>)
    ensures
        r == arg_i32(vals@, i as int),
{
    if i < vals.len() {
        match vals[i] {
            IncomingValue::Int32(v) => Some(v),
            _ => None,
        }
    } else {
        None
    }
}

/// The `i`-th value of `vals`, if it is a `u32`.
pub fn u32_at(vals: &[IncomingValue], i: usize) -> (r: Option<u32>)
    ensures
        r == arg_u32(vals@, i as int),
{
    if i < vals.len() {
        match vals[i] {
            IncomingValue::UInt32(v) => Some(v),
            _ => None,
        }
    } else {
        None
    }
}

/// The `i`-th value of `vals`, if it is a string.
pub fn str_at<'a>(vals: &[IncomingValue<'a>], i: usize) -> (r: Option<&'a str>)
    ensures
        r == arg_str(vals@, i as int),
{
    if i < vals.len() {
        match vals[i] {
            IncomingValue::String(v) => Some(v),
            _ => None,
        }
    } else {
        None
    }
}

/// The `i`-th value of `vals`, if it is an array.
pub fn array_at<'a>(vals: &[IncomingValue<'a>], i: usize) -> (r: Option<IncomingArrayValue<'a>>)
    ensures
        r == arg_array(vals@, i as int),
{
    if i < vals.len() {
        match vals[i] {
            IncomingValue::Array(v) => Some(v),
            _ => None,
        }
    } else {
        None
    }
}

/// Whether the `i`-th value of `vals` is a variant.
pub fn variant_at(vals: &[IncomingValue], i: usize) -> (r: bool)
    ensures
        r == arg_is_variant(vals@, i as int),
{
    if i < vals.len() {
        match vals[i] {
            IncomingValue::Variant(_) => true,
            _ => false,
        }
    } else {
        false
    }
}

/// Whether `v` is the value that a reader of the bytes of `w` receives:
/// strings (`s`) by their bytes, the contents of variants, arrays, structs
/// and dictionary entries value by value.
pub open spec fn carries(v: IncomingValue, w: Wire) -> bool
    decreases v, 0nat,
{
    match v {
        IncomingValue::Byte(a) => w == Wire::Byte(a),
        IncomingValue::Bool(a) => w == Wire::Bool(a),
        IncomingValue::UInt16(a) => w == Wire::UInt16(a),
        IncomingValue::Int32(a) => w == Wire::Int32(a),
        IncomingValue::UInt32(a) => w == Wire::UInt32(a),
        IncomingValue::String(s) => w == Wire::Str(s.spec_bytes()),
        IncomingValue::Signature(s) => w == Wire::Signature(s.spec_bytes()),
        IncomingValue::Variant(inner) => w is Variant && carries(*inner, *w->Variant_1),
        IncomingValue::Array(a) => w is Array && carries_seq(a.items@, w->Array_1),
        IncomingValue::Struct(st) => w is Struct && carries_seq(st.fields@, w->Struct_0),
        IncomingValue::DictEntry(d) => w is DictEntry && carries(*d.key, *w->DictEntry_0) && carries(
            *d.value,
            *w->DictEntry_1,
        ),
        _ => false,
    }
}

/// Whether the values `vs` are what a reader of the values `ws` receives, one by one.
pub open spec fn carries_seq(vs: Seq<IncomingValue>, ws: Seq<Wire>) -> bool
    decreases vs, 1nat,
{
    vs.len() == ws.len() && (vs.len() > 0 ==> carries_seq(vs.drop_last(), ws.drop_last()) && carries(
        vs.last(),
        ws.last(),
    ))
}

/// Values carried one by one carry each value at its index.
pub proof fn lemma_carries_index(vs: Seq<IncomingValue>, ws: Seq<Wire>, i: int)
    requires
        carries_seq(vs, ws),
        0 <= i < vs.len(),
    ensures
        carries(vs[i], ws[i]),
    decreases vs.len(),
{
    if i < vs.len() - 1 {
        lemma_carries_index(vs.drop_last(), ws.drop_last(), i);
    }
}

/// Whether the optional field `v` holds the bytes `h` of a written header field.
pub open spec fn field_carries(v: Option<&str>, h: Option<Seq<u8>>) -> bool {
    match h {
        Some(b) => v matches Some(s) && s.spec_bytes() == b,
        None => v is None,
    }
}

/// Whether `m` is what a reader of a message with header `h` and body values
/// `body` receives; its serial and sender are the bus's to set.
pub open spec fn carries_message(m: IncomingMessage, h: HeaderSpec, body: Seq<Wire>) -> bool {
    &&& m.message_type == h.message_type
    &&& field_carries(m.path, h.path)
    &&& field_carries(m.interface, h.interface)
    &&& field_carries(m.member, h.member)
    &&& field_carries(m.destination, h.destination)
    &&& match m.body {
        Some(b) => carries_seq(b.values@, body),
        None => body.len() == 0,
    }
}

} // verus!
