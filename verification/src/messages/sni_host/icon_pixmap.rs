//! The `IconPixmap` property of an SNI item.
use crate::encoder::encoded_len;
use crate::error::{DBusError, EncodeError};
use crate::incoming::{carries, carries_seq, lemma_carries_index, IncomingValue};
use crate::messages::sni_client::sni::icon_pixmap::{byte_values, pixmap_values};
use crate::wire::Wire;
use crate::messages::org_freedesktop_dbus::get_property::get_property_message;
use crate::messages::org_freedesktop_dbus::GetProperty;
use vstd::prelude::*;
use vstd::string::StringSliceAdditionalSpecFns;

verus! {

/// A container that the caller picks to accumulate `IconPixmap` bytes.
pub trait IconPixmapBytes: Sized {
    /// The bytes pushed so far.
    spec fn pixel_bytes(&self) -> Seq<u8>;

    /// Constructor
    fn new() -> (r: Self)
        ensures
            r.pixel_bytes() == Seq::<u8>::empty(),
    ;

    /// Pushes a single byte
    fn push(&mut self, v: u8)
        ensures
            final(self).pixel_bytes() == old(self).pixel_bytes().push(v),
    ;
}

impl IconPixmapBytes for Vec<u8> {
    open spec fn pixel_bytes(&self) -> Seq<u8> {
        self@
    }

    fn new() -> (r: Self) {
        Vec::new()
    }

    fn push(&mut self, v: u8) {
        Vec::push(self, v);
    }
}

/// `IconPixmap` property of the (K)SNI item
#[derive(Clone, Copy)]
pub struct IconPixmap<'a> {
    destination: &'a str,
}

/// Error for a pixmap value that lacks the image or one of its fields.
pub open spec fn pixmap_parse_error() -> DBusError {
    DBusError::Other("failed to parse IconPixmap proeprty")
}

/// The byte that `v` holds, if it is a byte.
pub open spec fn byte_of(v: IncomingValue) -> u8 {
    match v {
        IncomingValue::Byte(b) => b,
        _ => 0,
    }
}

/// Whether every item is a byte.
pub open spec fn all_bytes(items: Seq<IncomingValue>) -> bool {
    forall|i: int| 0 <= i < items.len() ==> #[trigger] items[i] is Byte
}

/// The first `len` bytes of `items`, each group of four reordered from ARGB to RGBA.
pub open spec fn argb_to_rgba(items: Seq<IncomingValue>, len: nat) -> Seq<u8> {
    Seq::new(len, |i: int| byte_of(items[i - i % 4 + (i % 4 + 1) % 4]))
}

/// The pixels of `items` as RGBA; a trailing group of fewer than four bytes is dropped.
pub open spec fn rgba_pixels(items: Seq<IncomingValue>) -> Seq<u8> {
    argb_to_rgba(items, (items.len() - items.len() % 4) as nat)
}

/// What the `IconPixmap` value `value` reads as: width, height and RGBA bytes
/// of its first image.
pub open spec fn icon_pixmap_value(value: IncomingValue) -> Result<(i32, i32, Seq<u8>), DBusError> {
    match value {
        IncomingValue::Array(a) => if a.items@.len() == 0 {
            Err(pixmap_parse_error())
        } else {
            match a.items@[0] {
                IncomingValue::Struct(s) => {
                    let f = s.fields@;
                    if f.len() < 1 {
                        Err(pixmap_parse_error())
                    } else {
                        match f[0] {
                            IncomingValue::Int32(w) => if f.len() < 2 {
                                Err(pixmap_parse_error())
                            } else {
                                match f[1] {
                                    IncomingValue::Int32(h) => if f.len() < 3 {
                                        Err(pixmap_parse_error())
                                    } else {
                                        match f[2] {
                                            IncomingValue::Array(b) => if all_bytes(b.items@) {
                                                Ok((w, h, rgba_pixels(b.items@)))
                                            } else {
                                                Err(DBusError::WrongValue)
                                            },
                                            _ => Err(DBusError::WrongValue),
                                        }
                                    },
                                    _ => Err(DBusError::WrongValue),
                                }
                            },
                            _ => Err(DBusError::WrongValue),
                        }
                    }
                },
                _ => Err(DBusError::WrongValue),
            }
        },
        _ => Err(DBusError::WrongValue),
    }
}

/// Reads the byte at `pos`, failing if the item there is not a byte.
fn read_byte(items: &[IncomingValue], pos: usize) -> (r: Result<u8, DBusError>)
    requires
        pos < items@.len(),
    ensures
        match items@[pos as int] {
            IncomingValue::Byte(b) => r == Ok::<u8, DBusError>(b),
            _ => r == Err::<u8, DBusError>(DBusError::WrongValue),
        },
{
    match items[pos] {
        IncomingValue::Byte(b) => Ok(b),
        _ => Err(DBusError::WrongValue),
    }
}

/// Reads the group of four bytes at `pos`: `None` at the end of the items or
/// when fewer than four bytes are left, an error when one of the items read is not a byte.
fn read4(items: &[IncomingValue], pos: usize) -> (r: Result<Option<(u8, u8, u8, u8)>, DBusError>)
    requires
        pos <= items@.len(),
    ensures
        match r {
            Ok(Some((b1, b2, b3, b4))) => pos + 4 <= items@.len() && items@[pos as int] == IncomingValue::Byte(b1)
                && items@[pos + 1] == IncomingValue::Byte(b2) && items@[pos + 2] == IncomingValue::Byte(b3)
                && items@[pos + 3] == IncomingValue::Byte(b4),
            Ok(None) => items@.len() < pos + 4 && forall|j: int| pos <= j < items@.len() ==> #[trigger] items@[j] is Byte,
            Err(e) => e == DBusError::WrongValue && exists|j: int| pos <= j < items@.len() && !(#[trigger] items@[j] is Byte),
        },
{
    let n = items.len();
    if pos >= n {
        return Ok(None);
    }
    let b1 = match read_byte(items, pos) {
        Ok(b) => b,
        Err(e) => {
            assert(!(items@[pos as int] is Byte));
            return Err(e);
        },
    };
    if pos + 1 >= n {
        return Ok(None);
    }
    let b2 = match read_byte(items, pos + 1) {
        Ok(b) => b,
        Err(e) => {
            assert(!(items@[pos + 1] is Byte));
            return Err(e);
        },
    };
    if pos + 2 >= n {
        return Ok(None);
    }
    let b3 = match read_byte(items, pos + 2) {
        Ok(b) => b,
        Err(e) => {
            assert(!(items@[pos + 2] is Byte));
            return Err(e);
        },
    };
    if pos + 3 >= n {
        return Ok(None);
    }
    let b4 = match read_byte(items, pos + 3) {
        Ok(b) => b,
        Err(e) => {
            assert(!(items@[pos + 3] is Byte));
            return Err(e);
        },
    };
    Ok(Some((b1, b2, b3, b4)))
}

/// Reads all pixels of `items`, reordering each ARGB group to RGBA.
fn read_pixels<B: IconPixmapBytes>(items: &[IncomingValue]) -> (r: Result<B, DBusError>)
    ensures
        all_bytes(items@) ==> (r matches Ok(v) && v.pixel_bytes() == rgba_pixels(items@)),
        !all_bytes(items@) ==> (r matches Err(e) && e == DBusError::WrongValue),
{
    let mut out = B::new();
    let mut pos: usize = 0;
    let n = items.len();
    loop
        invariant
            n == items@.len(),
            pos <= items@.len(),
            pos % 4 == 0,
            forall|j: int| 0 <= j < pos ==> #[trigger] items@[j] is Byte,
            out.pixel_bytes() == argb_to_rgba(items@, pos as nat),
        decreases items@.len() - pos,
    {
        match read4(items, pos) {
            Ok(Some((a, r, g, b))) => {
                out.push(r);
                out.push(g);
                out.push(b);
                out.push(a);
                proof {
                    let want = argb_to_rgba(items@, (pos + 4) as nat);
                    assert(want[pos as int] == r);
                    assert(want[pos + 1] == g);
                    assert(want[pos + 2] == b);
                    assert(want[pos + 3] == a);
                    assert(out.pixel_bytes() =~= want);
                }
                pos = pos + 4;
            },
            Ok(None) => {
                assert(all_bytes(items@));
                assert(items@.len() - items@.len() % 4 == pos);
                return Ok(out);
            },
            Err(e) => {
                return Err(e);
            },
        }
    }
}

impl<'a> IconPixmap<'a> {
    /// Bus name of the item.
    pub closed spec fn spec_destination(&self) -> &'a str {
        self.destination
    }

    /// Constructor
    pub fn new(destination: &'a str) -> (r: Self)
        ensures
            r.spec_destination() == destination,
    {
        Self { destination }
    }

    /// Writes the `Get` call for the property into `buf`.
    ///
    /// # Errors
    ///
    /// Returns an error if the message doesn't fit into `buf`.
    pub fn encode(&self, buf: &mut [u8]) -> (r: Result<usize, EncodeError>)
        ensures
            encoded_len(
                r,
                old(buf)@,
                final(buf)@,
                get_property_message(
                    self.spec_destination().spec_bytes(),
                    "/StatusNotifierItem".spec_bytes(),
                    "org.kde.StatusNotifierItem".spec_bytes(),
                    "IconPixmap".spec_bytes(),
                ),
            ),
    {
        GetProperty::encode(buf, self.destination, "/StatusNotifierItem", "org.kde.StatusNotifierItem", "IconPixmap")
    }

    /// Reads the property's value: the width, height and RGBA bytes of the
    /// first image of the array of `(iiay)` images.
    ///
    /// # Errors
    ///
    /// Returns an error if the array has no image or the image lacks a field,
    /// and `WrongValue` if a value has another type.
    pub fn map<'v, B: IconPixmapBytes>(value: IncomingValue<'v>) -> (r: Result<(i32, i32, B), DBusError>)
        ensures
            match icon_pixmap_value(value) {
                Ok((w, h, bytes)) => r matches Ok((w2, h2, v)) && w2 == w && h2 == h && v.pixel_bytes() == bytes,
                Err(e) => r matches Err(e2) && e2 == e,
            },
    {
        let items = match value {
            IncomingValue::Array(a) => a.items,
            _ => return Err(DBusError::WrongValue),
        };
        if items.len() == 0 {
            return Err(DBusError::Other("failed to parse IconPixmap proeprty"));
        }
        let fields = match items[0] {
            IncomingValue::Struct(s) => s.fields,
            _ => return Err(DBusError::WrongValue),
        };
        if fields.len() < 1 {
            return Err(DBusError::Other("failed to parse IconPixmap proeprty"));
        }
        let width = match fields[0] {
            IncomingValue::Int32(w) => w,
            _ => return Err(DBusError::WrongValue),
        };
        if fields.len() < 2 {
            return Err(DBusError::Other("failed to parse IconPixmap proeprty"));
        }
        let height = match fields[1] {
            IncomingValue::Int32(h) => h,
            _ => return Err(DBusError::WrongValue),
        };
        if fields.len() < 3 {
            return Err(DBusError::Other("failed to parse IconPixmap proeprty"));
        }
        let bytes = match fields[2] {
            IncomingValue::Array(b) => b.items,
            _ => return Err(DBusError::WrongValue),
        };
        match read_pixels::<B>(bytes) {
            Ok(pixels) => Ok((width, height, pixels)),
            Err(e) => Err(e),
        }
    }
}

/// The bytes `argb`, each full group of four reordered from ARGB to RGBA.
pub open spec fn rgba_of(argb: Seq<u8>) -> Seq<u8> {
    Seq::new((argb.len() - argb.len() % 4) as nat, |i: int| argb[i - i % 4 + (i % 4 + 1) % 4])
}

/// A host reading the `IconPixmap` value that an item writes for its pixmap
/// gets the pixmap's size and its pixels as RGBA; for an item without a
/// pixmap it gets the error for a missing image.
pub proof fn lemma_host_reads_item_pixmap(
    value: IncomingValue,
    pixmap: Option<crate::messages::sni_client::sni::IconPixmap>,
)
    requires
        carries(value, Wire::Array(8, pixmap_values(pixmap))),
    ensures
        icon_pixmap_value(value) == match pixmap {
            Some(p) => Ok::<(i32, i32, Seq<u8>), DBusError>((p.width, p.height, rgba_of(p.argb@))),
            None => Err(pixmap_parse_error()),
        },
{
    let items = value->Array_0.items@;
    assert(carries_seq(items, pixmap_values(pixmap)));
    match pixmap {
        Some(p) => {
            let fields = seq![Wire::Int32(p.width), Wire::Int32(p.height), Wire::Array(1, byte_values(p.argb@))];
            lemma_carries_index(items, pixmap_values(pixmap), 0);
            assert(carries(items[0], Wire::Struct(fields)));
            let f = items[0]->Struct_0.fields@;
            assert(carries_seq(f, fields));
            lemma_carries_index(f, fields, 0);
            lemma_carries_index(f, fields, 1);
            lemma_carries_index(f, fields, 2);
            let px = f[2]->Array_0.items@;
            assert(carries_seq(px, byte_values(p.argb@)));
            assert forall|j: int| 0 <= j < px.len() implies px[j] == IncomingValue::Byte(p.argb@[j]) by {
                lemma_carries_index(px, byte_values(p.argb@), j);
            }
            assert(all_bytes(px));
            assert(rgba_pixels(px) =~= rgba_of(p.argb@));
        },
        None => {},
    }
}

} // verus!
