//! Generic Attributes (GATT): the application-facing object model.
//!
//! Services, characteristics and descriptors are pure data; each declared
//! capability holds the application-side sender of an event channel.

pub mod characteristic;
pub mod descriptor;
pub mod event;
pub mod service;
