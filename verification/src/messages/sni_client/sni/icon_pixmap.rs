//! Icon pixmaps of an SNI item.
use crate::encoder::{
    array_head, begin_array, end_array_of, lemma_array_empty, lemma_array_push,
    lemma_marshal_seq_three, put_i32, put_pad, put_u8,
};
use crate::wire::{lemma_struct, marshal, marshal_seq, Wire};
use vstd::prelude::*;

verus! {

/// SNI icon pixmap in ARGB format
#[derive(Debug, Clone, Copy)]
pub struct IconPixmap<'a> {
    /// Width in pixels
    pub width: i32,
    /// Height in pixels
    pub height: i32,
    /// ARGB bytes, must have `width * height * 4` items
    pub argb: &'a [u8],
}

/// Byte values, one per byte.
pub open spec fn byte_values(s: Seq<u8>) -> Seq<Wire> {
    Seq::new(s.len(), |i: int| Wire::Byte(s[i]))
}

/// The pixmap structs `(iiay)`: none, or the one pixmap given.
pub open spec fn pixmap_values(pixmap: Option<IconPixmap>) -> Seq<Wire> {
    match pixmap {
        Some(p) => seq![
            Wire::Struct(
                seq![Wire::Int32(p.width), Wire::Int32(p.height), Wire::Array(1, byte_values(p.argb@))],
            ),
        ],
        None => Seq::empty(),
    }
}

impl<'a> IconPixmap<'a> {
    /// Appends the pixmap array `a(iiay)` holding `pixmap`, if any.
    pub fn encode(body: &mut Vec<u8>, pixmap: Option<Self>)
        ensures
            final(body)@ == old(body)@ + marshal(old(body)@.len(), Wire::Array(8, pixmap_values(pixmap))),
    {
        let pre = Ghost(body@);
        let array = begin_array(body, 8);
        proof {
            lemma_array_empty(pre@, 8);
        }
        if let Some(p) = pixmap {
            let ghost pos = body@.len();
            let ghost at_pos = body@;
            put_pad(body, 8);
            let ghost p0 = body@.len();
            put_i32(body, p.width);
            put_i32(body, p.height);
            let pre2 = Ghost(body@);
            let bytes = begin_array(body, 1);
            let ghost bstart: nat = bytes.start as nat;
            proof {
                lemma_array_empty(pre2@, 1);
            }
            let n = p.argb.len();
            let mut i: usize = 0;
            while i < n
                invariant
                    n == p.argb@.len(),
                    i <= n,
                    bstart == pre2@.len() + array_head(pre2@.len(), 1).len(),
                    body@ == pre2@ + array_head(pre2@.len(), 1) + marshal_seq(
                        bstart,
                        byte_values(p.argb@.subrange(0, i as int)),
                    ),
                decreases n - i,
            {
                let b = p.argb[i];
                put_u8(body, b);
                proof {
                    lemma_array_push(pre2@, 1, bstart, byte_values(p.argb@.subrange(0, i as int)), Wire::Byte(b));
                    assert(byte_values(p.argb@.subrange(0, i as int)).push(Wire::Byte(b)) =~= byte_values(
                        p.argb@.subrange(0, i + 1),
                    ));
                }
                i = i + 1;
            }
            proof {
                assert(p.argb@.subrange(0, n as int) =~= p.argb@);
            }
            end_array_of(body, bytes, pre2, Ghost(1), Ghost(byte_values(p.argb@)));
            let ghost fields = seq![
                Wire::Int32(p.width),
                Wire::Int32(p.height),
                Wire::Array(1, byte_values(p.argb@)),
            ];
            proof {
                lemma_marshal_seq_three(p0, fields[0], fields[1], fields[2]);
                lemma_struct(pos, fields);
                assert(body@ =~= at_pos + marshal(pos, Wire::Struct(fields)));
                lemma_array_push(pre@, 8, array.start as nat, Seq::empty(), Wire::Struct(fields));
                assert(Seq::<Wire>::empty().push(Wire::Struct(fields)) =~= pixmap_values(pixmap));
            }
        }
        end_array_of(body, array, pre, Ghost(8), Ghost(pixmap_values(pixmap)));
    }
}

} // verus!
