//! Peripheral back-ends.  The BlueZ (Linux D-Bus) back-end is the one
//! modelled here; its pure decision logic is verified, and the unverified
//! runtime around the library drives the bus with it.

pub mod bluez;
