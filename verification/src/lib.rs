//! A Bluetooth Low Energy peripheral library.
//!
//! Applications declare a GATT server — services, characteristics and
//! descriptors with typed access properties — and advertise it so that BLE
//! centrals may discover, read, write, and subscribe to notifications.
//! This crate holds the verified core: the GATT object model, the pure
//! decision logic of the BlueZ D-Bus back-end (flag mapping, object-path
//! numbering, request translation), and the peripheral's state machines.

mod error;
pub mod gatt;
pub mod peripheral;
mod uuid;

pub use crate::error::{Error, ErrorType};
pub use crate::peripheral::bluez::Peripheral;
pub use crate::uuid::{SdpShortUuid, Uuid};
