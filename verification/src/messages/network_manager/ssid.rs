//! The SSID of an access point.
use crate::encoder::encoded_len;
use crate::error::{DBusError, EncodeError};
use crate::incoming::IncomingValue;
use crate::messages::org_freedesktop_dbus::get_property::get_property_message;
use crate::messages::org_freedesktop_dbus::GetProperty;
use crate::wire::zeros;
use vstd::prelude::*;
use vstd::string::StringSliceAdditionalSpecFns;

verus! {

/// `Ssid` property of an access point, read into at most `N` bytes
pub struct SSID<'a, const N: usize> {
    path: &'a str,
}

/// Error for an SSID longer than the buffer.
pub open spec fn ssid_too_long() -> DBusError {
    DBusError::Other("SSID is too long")
}

/// The bytes of `items`, which must all be bytes and at most `room` of them.
pub open spec fn ssid_bytes(items: Seq<IncomingValue>, room: nat) -> Result<Seq<u8>, DBusError>
    decreases items.len(),
{
    if items.len() == 0 {
        Ok(Seq::empty())
    } else {
        match items[0] {
            IncomingValue::Byte(b) => if room == 0 {
                Err(ssid_too_long())
            } else {
                match ssid_bytes(items.subrange(1, items.len() as int), (room - 1) as nat) {
                    Ok(rest) => Ok(seq![b] + rest),
                    Err(e) => Err(e),
                }
            },
            _ => Err(DBusError::WrongValue),
        }
    }
}

/// Reading `items[..k + 1]` is reading `items[..k]` and then item `k`.
proof fn lemma_ssid_bytes_step(items: Seq<IncomingValue>, room: nat, k: int)
    requires
        0 <= k < items.len(),
        ssid_bytes(items.subrange(0, k), room) is Ok,
    ensures
        ssid_bytes(items.subrange(0, k + 1), room) == match items[k] {
            IncomingValue::Byte(b) => if k < room {
                Ok::<Seq<u8>, DBusError>(ssid_bytes(items.subrange(0, k), room)->Ok_0.push(b))
            } else {
                Err(ssid_too_long())
            },
            _ => Err(DBusError::WrongValue),
        },
        ssid_bytes(items.subrange(0, k), room)->Ok_0.len() == k,
    decreases k,
{
    let pre = items.subrange(0, k);
    let next = items.subrange(0, k + 1);
    if k == 0 {
        assert(next.subrange(1, next.len() as int) =~= Seq::<IncomingValue>::empty());
        assert(ssid_bytes(Seq::<IncomingValue>::empty(), (room - 1) as nat) == Ok::<Seq<u8>, DBusError>(Seq::empty()));
        match items[0] {
            IncomingValue::Byte(b) => {
                if room > 0 {
                    assert(seq![b] + Seq::<u8>::empty() =~= Seq::<u8>::empty().push(b));
                }
            },
            _ => {},
        }
    } else {
        let tail = items.subrange(1, items.len() as int);
        assert(pre.subrange(1, pre.len() as int) =~= tail.subrange(0, k - 1));
        assert(next.subrange(1, next.len() as int) =~= tail.subrange(0, k));
        assert(pre[0] == items[0]);
        assert(next[0] == items[0]);
        match items[0] {
            IncomingValue::Byte(b) => {
                assert(room > 0);
                lemma_ssid_bytes_step(tail, (room - 1) as nat, k - 1);
                assert(tail[k - 1] == items[k]);
                let r0 = ssid_bytes(tail.subrange(0, k - 1), (room - 1) as nat)->Ok_0;
                match items[k] {
                    IncomingValue::Byte(c) => {
                        if k < room {
                            assert(seq![b] + r0.push(c) =~= (seq![b] + r0).push(c));
                        }
                    },
                    _ => {},
                }
            },
            _ => {},
        }
    }
}

impl<'a, const N: usize> SSID<'a, N> {
    /// Path of the object that has the property.
    pub closed spec fn spec_path(&self) -> &'a str {
        self.path
    }

    /// Constructor
    pub fn new(path: &'a str) -> (r: Self)
        ensures
            r.spec_path() == path,
    {
        Self { path }
    }

    /// Writes the `Get` call for the property into `buf`.
    ///
    /// # Errors
    ///
    /// Returns an error if the message doesn't fit into `buf`.
    pub fn encode(&self, buf: &mut [u8]) -> (r: Result<usize, EncodeError>)
        ensures
            encoded_len(
                r,
                old(buf)@,
                final(buf)@,
                get_property_message(
                    "org.freedesktop.NetworkManager".spec_bytes(),
                    self.spec_path().spec_bytes(),
                    "org.freedesktop.NetworkManager.AccessPoint".spec_bytes(),
                    "Ssid".spec_bytes(),
                ),
            ),
    {
        GetProperty::encode(buf, "org.freedesktop.NetworkManager", self.path, "org.freedesktop.NetworkManager.AccessPoint", "Ssid")
    }

    /// Reads the property's value, an array of bytes, into `N` bytes and its length.
    ///
    /// # Errors
    ///
    /// Returns `WrongValue` if the value is not an array of bytes, and an
    /// error if it holds more than `N` bytes.
    pub fn map<'v>(value: IncomingValue<'v>) -> (r: Result<([u8; N], usize), DBusError>)
        ensures
            match value {
                IncomingValue::Array(a) => match ssid_bytes(a.items@, N as nat) {
                    Ok(bs) => r matches Ok((arr, len)) && len == bs.len() && arr@ == bs + zeros(
                        (N - len) as nat,
                    ),
                    Err(e) => r == Err::<([u8; N], usize), DBusError>(e),
                },
                _ => r == Err::<([u8; N], usize), DBusError>(DBusError::WrongValue),
            },
    {
        let items = match value {
            IncomingValue::Array(a) => a.items,
            _ => return Err(DBusError::WrongValue),
        };
        let mut bytes = [0u8; N];
        let mut len: usize = 0;
        let n = items.len();
        proof {
            assert(items@.subrange(0, 0) =~= Seq::<IncomingValue>::empty());
        }
        while len < n
            invariant
                value matches IncomingValue::Array(a) && a.items@ == items@,
                n == items@.len(),
                len <= n,
                len <= N,
                ssid_bytes(items@.subrange(0, len as int), N as nat) is Ok,
                bytes@ == ssid_bytes(items@.subrange(0, len as int), N as nat)->Ok_0 + zeros((N - len) as nat),
            decreases n - len,
        {
            proof {
                lemma_ssid_bytes_step(items@, N as nat, len as int);
            }
            let b = match items[len] {
                IncomingValue::Byte(b) => b,
                _ => {
                    proof {
                        assert(!(items@[len as int] is Byte));
                        assert(ssid_bytes(items@.subrange(0, len + 1), N as nat) == Err::<Seq<u8>, DBusError>(DBusError::WrongValue));
                        lemma_ssid_prefix_error(items@, N as nat, (len + 1) as int);
                    }
                    return Err(DBusError::WrongValue);
                },
            };
            if len >= N {
                proof {
                    assert(ssid_bytes(items@.subrange(0, len + 1), N as nat) == Err::<Seq<u8>, DBusError>(ssid_too_long()));
                    lemma_ssid_prefix_error(items@, N as nat, (len + 1) as int);
                }
                return Err(DBusError::Other("SSID is too long"));
            }
            bytes[len] = b;
            let ghost prev = ssid_bytes(items@.subrange(0, len as int), N as nat)->Ok_0;
            len = len + 1;
            proof {
                assert(bytes@ =~= prev.push(b) + zeros((N - len) as nat));
            }
        }
        proof {
            assert(items@.subrange(0, n as int) =~= items@);
        }
        Ok((bytes, len))
    }
}

/// An error on a prefix of the items is the error on all of them.
proof fn lemma_ssid_prefix_error(items: Seq<IncomingValue>, room: nat, k: int)
    requires
        0 <= k <= items.len(),
        ssid_bytes(items.subrange(0, k), room) is Err,
    ensures
        ssid_bytes(items, room) == ssid_bytes(items.subrange(0, k), room),
    decreases k,
{
    if items.len() > 0 && k > 0 {
        let pre = items.subrange(0, k);
        let tail = items.subrange(1, items.len() as int);
        assert(pre[0] == items[0]);
        assert(pre.subrange(1, pre.len() as int) =~= tail.subrange(0, k - 1));
        match items[0] {
            IncomingValue::Byte(b) => {
                if room > 0 {
                    lemma_ssid_prefix_error(tail, (room - 1) as nat, k - 1);
                }
            },
            _ => {},
        }
    } else if k == 0 {
        assert(items.subrange(0, 0) =~= Seq::<IncomingValue>::empty());
    }
}

} // verus!
