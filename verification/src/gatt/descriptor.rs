//! GATT descriptors and their access properties.

use vstd::prelude::*;

use crate::gatt::event::EventSender;
use crate::uuid::Uuid;

verus! {

/// A capability slot that either requires an encrypted, authenticated link
/// (`Secure`) or does not (`Insecure`); each variant holds the event sender
/// the capability was declared with.
#[derive(Debug, Clone)]
pub enum Secure {
    Secure(EventSender),
    Insecure(EventSender),
}

impl Secure {
    /// The event sender inside, whichever the security level.
    pub open spec fn spec_sender(self) -> EventSender {
        match self {
            Secure::Secure(sender) => sender,
            Secure::Insecure(sender) => sender,
        }
    }

    /// Moves the event sender out, whichever the security level.
    pub fn sender(self) -> (r: EventSender)
        ensures
            r == self.spec_sender(),
    {
        match self {
            Secure::Secure(event_sender) => event_sender,
            Secure::Insecure(event_sender) => event_sender,
        }
    }
}

/// The read capability of a descriptor.
#[derive(Debug, Clone)]
pub struct Read(pub Secure);

impl Read {
    /// Moves the event sender out.
    pub fn sender(self) -> (r: EventSender)
        ensures
            r == self.0.spec_sender(),
    {
        self.0.sender()
    }
}

/// The write capability of a descriptor; descriptor writes are always
/// acknowledged.
#[derive(Debug, Clone)]
pub struct Write(pub Secure);

impl Write {
    /// Moves the event sender out.
    pub fn sender(self) -> (r: EventSender)
        ensures
            r == self.0.spec_sender(),
    {
        self.0.sender()
    }
}

/// The declared capabilities of a descriptor.  A present slot means the
/// capability exists; an absent one is answered with `NotSupported`.
#[derive(Debug, Clone)]
pub struct Properties {
    pub read: Option<Read>,
    pub write: Option<Write>,
}

impl Properties {
    pub fn new(read: Option<Read>, write: Option<Write>) -> (r: Properties)
        ensures
            r.read == read,
            r.write == write,
    {
        Properties { read, write }
    }

    /// The descriptor is read-only exactly when it can be read and not
    /// written.
    pub fn is_read_only(&self) -> (r: bool)
        ensures
            r == (self.read is Some && self.write is None),
    {
        self.read.is_some() && self.write.is_none()
    }
}

/// A GATT descriptor: a metadata annotation under a characteristic.
#[derive(Debug, Clone)]
pub struct Descriptor {
    pub uuid: Uuid,
    pub properties: Properties,
    pub value: Option<Vec<u8>>,
}

impl Descriptor {
    pub fn new(uuid: Uuid, properties: Properties, value: Option<Vec<u8>>) -> (r: Descriptor)
        ensures
            r.uuid == uuid,
            r.properties == properties,
            r.value == value,
    {
        Descriptor { uuid, properties, value }
    }

    /// The descriptor's UUID, its identity within a characteristic.
    pub fn uuid(&self) -> (r: Uuid)
        ensures
            r == self.uuid,
    {
        self.uuid
    }
}

/// Descriptors compare by UUID alone, their identity within a
/// characteristic.
impl PartialEq for Descriptor {
    fn eq(&self, other: &Descriptor) -> (r: bool) {
        self.uuid == other.uuid
    }
}

impl vstd::std_specs::cmp::PartialEqSpecImpl for Descriptor {
    open spec fn obeys_eq_spec() -> bool {
        true
    }

    open spec fn eq_spec(&self, other: &Descriptor) -> bool {
        self.uuid == other.uuid
    }
}

impl Eq for Descriptor {

}

} // verus!
