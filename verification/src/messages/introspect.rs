//! Introspection of the root object: the request and the reply.
use crate::encoder::{
    encode_into, encoded, lemma_marshal_seq_one, message, put_str, reply_header, MessageEncoder,
    MessageType,
};
use crate::error::{DBusError, EncodeError};
use crate::incoming::IncomingMessage;
use crate::text::{opt_is, str_eq};
use crate::wire::{marshal_seq, Wire};
use vstd::prelude::*;
use vstd::string::StringSliceAdditionalSpecFns;

verus! {

/// Low-level introspection request received from `DBus`
#[derive(Debug)]
pub struct IntrospectRequest<'a> {
    /// Serial of the request
    pub serial: u32,
    /// Destination of the request
    pub destination: &'a str,
    /// Path of the request
    pub path: &'a str,
    /// Sender of the request
    pub sender: &'a str,
}

/// Whether `m` is a call of `Introspect` on the root object, with every header field it needs.
pub open spec fn is_introspect_request(m: IncomingMessage) -> bool {
    &&& m.message_type == MessageType::MethodCall
    &&& m.path is Some
    &&& m.member is Some
    &&& m.interface is Some
    &&& m.destination is Some
    &&& m.sender is Some
    &&& m.body is None
    &&& opt_is(m.path, "/")
    &&& opt_is(m.member, "Introspect")
    &&& opt_is(m.interface, "org.freedesktop.DBus.Introspectable")
}

/// The error that `try_from` gives for a message that is no introspection request.
pub open spec fn introspect_error(m: IncomingMessage) -> DBusError {
    if m.message_type != MessageType::MethodCall {
        DBusError::WrongMessageType
    } else if m.path is None {
        DBusError::NoPath
    } else if m.member is None {
        DBusError::NoMember
    } else if m.interface is None {
        DBusError::NoInterface
    } else if m.destination is None {
        DBusError::NoDestination
    } else if m.sender is None {
        DBusError::NoSender
    } else if m.body is Some {
        DBusError::UnexpectedBody
    } else if !opt_is(m.path, "/") {
        DBusError::WrongPath
    } else if !opt_is(m.member, "Introspect") {
        DBusError::WrongMember
    } else {
        DBusError::WrongInterface
    }
}

impl<'a> IntrospectRequest<'a> {
    /// The request that an introspection call carries.
    pub open spec fn from_message(m: IncomingMessage<'a>) -> Self {
        IntrospectRequest {
            serial: m.serial,
            destination: m.destination->Some_0,
            path: m.path->Some_0,
            sender: m.sender->Some_0,
        }
    }

    /// Tries to parse given `message` as `IntrospectRequest`
    pub fn try_parse(message: IncomingMessage<'a>) -> (r: Option<Self>)
        ensures
            r == if is_introspect_request(message) {
                Some(Self::from_message(message))
            } else {
                None
            },
    {
        match Self::try_from(message) {
            Ok(r) => Some(r),
            Err(_) => None,
        }
    }

    /// Parses `message` as `IntrospectRequest`.
    ///
    /// # Errors
    ///
    /// Returns the first check that the message fails.
    pub fn try_from(message: IncomingMessage<'a>) -> (r: Result<Self, DBusError>)
        ensures
            r == if is_introspect_request(message) {
                Ok(Self::from_message(message))
            } else {
                Err(introspect_error(message))
            },
    {
        if message.message_type != MessageType::MethodCall {
            return Err(DBusError::WrongMessageType);
        }
        let serial = message.serial;
        let path = match message.path {
            Some(p) => p,
            None => return Err(DBusError::NoPath),
        };
        let member = match message.member {
            Some(m) => m,
            None => return Err(DBusError::NoMember),
        };
        let interface = match message.interface {
            Some(i) => i,
            None => return Err(DBusError::NoInterface),
        };
        let destination = match message.destination {
            Some(d) => d,
            None => return Err(DBusError::NoDestination),
        };
        let sender = match message.sender {
            Some(s) => s,
            None => return Err(DBusError::NoSender),
        };
        if message.body.is_some() {
            return Err(DBusError::UnexpectedBody);
        }
        if !str_eq(path, "/") {
            return Err(DBusError::WrongPath);
        }
        if !str_eq(member, "Introspect") {
            return Err(DBusError::WrongMember);
        }
        if !str_eq(interface, "org.freedesktop.DBus.Introspectable") {
            return Err(DBusError::WrongInterface);
        }
        Ok(Self { serial, destination, path, sender })
    }
}

/// Low-level introspection response to send to `DBus`
pub struct IntrospectResponse;

/// The reply to call `reply_serial` of `destination` carrying `xml`.
pub open spec fn introspect_response_message(reply_serial: u32, destination: Seq<u8>, xml: Seq<u8>) -> Seq<u8> {
    message(reply_header(reply_serial, destination, "s".spec_bytes()), seq![Wire::Str(xml)])
}

impl IntrospectResponse {
    /// Writes the reply `(reply_serial, destination, xml)` into `buf`.
    ///
    /// # Errors
    ///
    /// Returns an error if the message doesn't fit into `buf`.
    pub fn encode<'b>(args: (u32, &str, &str), buf: &'b mut [u8]) -> (r: Result<&'b [u8], EncodeError>)
        ensures
            encoded(
                r,
                old(buf)@,
                final(buf)@,
                introspect_response_message(args.0, args.1.spec_bytes(), args.2.spec_bytes()),
            ),
    {
        let (reply_serial, destination, xml) = args;
        let mut e = MessageEncoder::method_return(reply_serial, destination);
        e.signature = Some("s");
        put_str(&mut e.body, xml);
        proof {
            lemma_marshal_seq_one(0, Wire::Str(xml.spec_bytes()));
            assert(e.body@ =~= marshal_seq(0, seq![Wire::Str(xml.spec_bytes())]));
        }
        encode_into(&e, buf)
    }
}

} // verus!
