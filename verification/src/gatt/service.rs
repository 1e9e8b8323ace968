//! GATT services: the roots of the attribute tree.

use vstd::prelude::*;

use crate::gatt::characteristic::Characteristic;
use crate::uuid::Uuid;

verus! {

/// A GATT service, immutable after construction.
#[derive(Debug, Clone)]
pub struct Service {
    pub uuid: Uuid,
    pub primary: bool,
    pub characteristics: Vec<Characteristic>,
}

impl Service {
    pub fn new(uuid: Uuid, primary: bool, characteristics: Vec<Characteristic>) -> (r: Service)
        ensures
            r.uuid == uuid,
            r.primary == primary,
            r.characteristics == characteristics,
    {
        Service { uuid, primary, characteristics }
    }

    /// The service's UUID.
    pub fn uuid(&self) -> (r: Uuid)
        ensures
            r == self.uuid,
    {
        self.uuid
    }

    /// Whether the service is primary.
    pub fn primary(&self) -> (r: bool)
        ensures
            r == self.primary,
    {
        self.primary
    }
}

} // verus!
