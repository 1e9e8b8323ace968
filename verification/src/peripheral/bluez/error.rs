//! Translation of D-Bus failures into the uniform error type.

use vstd::prelude::*;

use crate::error::{Error, ErrorType};

verus! {

/// Builds the BlueZ-kind error for a failed D-Bus call, from the error name
/// and message the bus reported; either may be absent.
pub fn error_from_dbus(name: Option<String>, message: Option<String>) -> (r: Error)
    ensures
        r.error_type == ErrorType::Bluez,
        r.name@ == (match name {
            Some(n) => n@,
            None => Seq::<char>::empty(),
        }),
        r.description@ == (match message {
            Some(m) => m@,
            None => Seq::<char>::empty(),
        }),
{
    let n = match name {
        Some(n) => n,
        None => String::new(),
    };
    let m = match message {
        Some(m) => m,
        None => String::new(),
    };
    Error::new(n, m, ErrorType::Bluez)
}

} // verus!
