//! Translation of the `GattCharacteristic1` methods into GATT events.
//!
//! Each D-Bus method resolves to either a rejection the central sees as a
//! BlueZ error string, or to exactly one event sent into the capability's
//! channel.  The sending itself and the awaiting of the reply suspend, so
//! they live with the connection; the decisions are here.

use vstd::prelude::*;

use crate::gatt::characteristic::{Characteristic, Read, ServerInitiated, Write};
use crate::gatt::event::{Event, ReadRequest, Response, ResponseSender, WriteRequest};

verus! {

/// The errors a GATT method returns to the central, named as BlueZ error
/// strings.
#[derive(Debug, Clone, Copy, PartialEq, Eq, Structural)]
pub enum HandlerError {
    NotSupported,
    Failed,
}

impl HandlerError {
    /// The D-Bus error name the central receives.
    pub fn dbus_name(&self) -> (r: &'static str)
        ensures
            *self is NotSupported ==> r@ == "org.bluez.Error.NotSupported"@,
            *self is Failed ==> r@ == "org.bluez.Error.Failed"@,
    {
        match self {
            HandlerError::NotSupported => "org.bluez.Error.NotSupported",
            HandlerError::Failed => "org.bluez.Error.Failed",
        }
    }
}

/// `ReadValue` uses the read capability; a characteristic without one is
/// answered with `NotSupported` and no event is sent.
pub fn read_value_capability(c: &Characteristic) -> (r: Result<&Read, HandlerError>)
    ensures
        r is Ok <==> c.properties.read is Some,
        r matches Ok(cap) ==> c.properties.read == Some(*cap),
        r matches Err(e) ==> e == HandlerError::NotSupported,
{
    match &c.properties.read {
        Some(read) => Ok(read),
        None => Err(HandlerError::NotSupported),
    }
}

/// `WriteValue` uses the write capability; a characteristic without one is
/// answered with `NotSupported` and no event is sent.
pub fn write_value_capability(c: &Characteristic) -> (r: Result<&Write, HandlerError>)
    ensures
        r is Ok <==> c.properties.write is Some,
        r matches Ok(cap) ==> c.properties.write == Some(*cap),
        r matches Err(e) ==> e == HandlerError::NotSupported,
{
    match &c.properties.write {
        Some(write) => Ok(write),
        None => Err(HandlerError::NotSupported),
    }
}

/// `StartNotify` and `StopNotify` use the notify capability, or the
/// indicate capability when only that one is declared; a characteristic
/// with neither is answered with `NotSupported`.
pub fn notify_capability(c: &Characteristic) -> (r: Result<&ServerInitiated, HandlerError>)
    ensures
        r is Ok <==> (c.properties.notify is Some || c.properties.indicate is Some),
        c.properties.notify matches Some(cap) ==> (r matches Ok(x) && *x == cap),
        c.properties.notify is None ==> (c.properties.indicate matches Some(cap) ==> (r matches Ok(
            x,
        ) && *x == cap)),
        r matches Err(e) ==> e == HandlerError::NotSupported,
{
    match &c.properties.notify {
        Some(notify) => Ok(notify),
        None => match &c.properties.indicate {
            Some(indicate) => Ok(indicate),
            None => Err(HandlerError::NotSupported),
        },
    }
}

/// The read or write offset: `options["offset"]`, truncated to 16 bits,
/// default 0 when absent.
pub fn offset_from_options(offset: Option<u64>) -> (r: u16)
    ensures
        r == (match offset {
            Some(v) => v as u16,
            None => 0u16,
        }),
{
    match offset {
        Some(v) => v as u16,
        None => 0,
    }
}

/// The exchange MTU: `options["mtu"]`, truncated to 16 bits, default 23
/// when absent.
pub fn mtu_from_options(mtu: Option<u64>) -> (r: u16)
    ensures
        r == (match mtu {
            Some(v) => v as u16,
            None => 23u16,
        }),
{
    match mtu {
        Some(v) => v as u16,
        None => 23,
    }
}

/// The one event a `ReadValue` call delivers: a read request carrying the
/// call's offset and MTU, and the one-shot responder for the reply.
pub fn make_read_request(offset: u16, mtu: u16, response: ResponseSender) -> (e: Event)
    ensures
        e matches Event::ReadRequest(rr) && rr.offset == offset && rr.mtu == mtu && rr.response
            == response,
{
    Event::ReadRequest(ReadRequest { offset, mtu, response })
}

/// The one event a `WriteValue` call delivers: a write request carrying the
/// call's data unchanged, its offset, and the one-shot responder.  Writes
/// arriving through `WriteValue` are acknowledged.
pub fn make_write_request(data: Vec<u8>, offset: u16, response: ResponseSender) -> (e: Event)
    ensures
        e matches Event::WriteRequest(wr) && wr.data == data && wr.offset == offset
            && !wr.without_response && wr.response == response,
{
    Event::WriteRequest(WriteRequest { data, offset, without_response: false, response })
}

/// The D-Bus reply for a read or write, from what came back on the
/// one-shot: the bytes of a `Success`, and `Failed` for every other reply —
/// and for a responder dropped without replying, which arrives as `None`.
pub fn reply_from_response(response: Option<Response>) -> (r: Result<Vec<u8>, HandlerError>)
    ensures
        response matches Some(Response::Success(v)) ==> r == Ok::<Vec<u8>, HandlerError>(v),
        !(response matches Some(Response::Success(_))) ==> r == Err::<
            Vec<u8>,
            HandlerError,
        >(HandlerError::Failed),
{
    match response {
        Some(Response::Success(value)) => Ok(value),
        _ => Err(HandlerError::Failed),
    }
}

/// The `Value` property carried by the characteristic object: present only
/// for a read-only characteristic with an initial value.
pub fn value_property(c: &Characteristic) -> (r: Option<&Vec<u8>>)
    ensures
        r is Some <==> (c.properties.read is Some && c.properties.write is None
            && c.value is Some),
        r matches Some(v) ==> c.value == Some(*v),
{
    if c.properties.is_read_only() {
        c.value.as_ref()
    } else {
        None
    }
}

/// One outbound notification, as the `PropertiesChanged` signal carries it:
/// a change of the `Value` property on the characteristic interface.
pub struct ValueChangedSignal {
    pub interface_name: String,
    pub property_name: String,
    pub value: Vec<u8>,
}

/// Builds the signal for one notification.  Within a subscription the
/// signals carry the bytes in the order the application sent them.
pub fn value_changed_signal(value: Vec<u8>) -> (r: ValueChangedSignal)
    ensures
        r.interface_name@ == "org.bluez.GattCharacteristic1"@,
        r.property_name@ == "Value"@,
        r.value == value,
{
    ValueChangedSignal {
        interface_name: String::from_str("org.bluez.GattCharacteristic1"),
        property_name: String::from_str("Value"),
        value,
    }
}

} // verus!
