//! Translation of the `GattDescriptor1` methods into GATT events.
//!
//! Descriptors answer `ReadValue` and `WriteValue` like characteristics do,
//! and have no notify methods.

use vstd::prelude::*;

use crate::gatt::descriptor::{Descriptor, Read, Write};
use crate::peripheral::bluez::gatt::characteristic::HandlerError;

verus! {

/// `ReadValue` uses the read capability; a descriptor without one is
/// answered with `NotSupported` and no event is sent.
pub fn read_value_capability(d: &Descriptor) -> (r: Result<&Read, HandlerError>)
    ensures
        r is Ok <==> d.properties.read is Some,
        r matches Ok(cap) ==> d.properties.read == Some(*cap),
        r matches Err(e) ==> e == HandlerError::NotSupported,
{
    match &d.properties.read {
        Some(read) => Ok(read),
        None => Err(HandlerError::NotSupported),
    }
}

/// `WriteValue` uses the write capability; a descriptor without one is
/// answered with `NotSupported` and no event is sent.
pub fn write_value_capability(d: &Descriptor) -> (r: Result<&Write, HandlerError>)
    ensures
        r is Ok <==> d.properties.write is Some,
        r matches Ok(cap) ==> d.properties.write == Some(*cap),
        r matches Err(e) ==> e == HandlerError::NotSupported,
{
    match &d.properties.write {
        Some(write) => Ok(write),
        None => Err(HandlerError::NotSupported),
    }
}

} // verus!
