//! GATT characteristics and their access properties.

use vstd::prelude::*;

use crate::gatt::descriptor::Descriptor;
use crate::gatt::event::EventSender;
use crate::uuid::Uuid;

verus! {

/// A capability slot that either requires an encrypted, authenticated link
/// (`Secure`) or does not (`Insecure`); each variant holds the event sender
/// the capability was declared with.
#[derive(Debug, Clone)]
pub enum Secure {
    Secure(EventSender),
    Insecure(EventSender),
}

impl Secure {
    /// The event sender inside, whichever the security level.
    pub open spec fn spec_sender(self) -> EventSender {
        match self {
            Secure::Secure(sender) => sender,
            Secure::Insecure(sender) => sender,
        }
    }

    /// Moves the event sender out, whichever the security level.
    pub fn sender(self) -> (r: EventSender)
        ensures
            r == self.spec_sender(),
    {
        match self {
            Secure::Secure(event_sender) => event_sender,
            Secure::Insecure(event_sender) => event_sender,
        }
    }
}

/// The read capability of a characteristic.
#[derive(Debug, Clone)]
pub struct Read(pub Secure);

impl Read {
    /// Moves the event sender out.
    pub fn sender(self) -> (r: EventSender)
        ensures
            r == self.0.spec_sender(),
    {
        self.0.sender()
    }
}

/// A server-initiated capability: notify or indicate.
#[derive(Debug, Clone)]
pub struct ServerInitiated(pub Secure);

impl ServerInitiated {
    /// Moves the event sender out.
    pub fn sender(self) -> (r: EventSender)
        ensures
            r == self.0.spec_sender(),
    {
        self.0.sender()
    }
}

/// The write capability of a characteristic: acknowledged writes carry a
/// security level, unacknowledged ones a bare sender.
#[derive(Debug, Clone)]
pub enum Write {
    WithResponse(Secure),
    WithoutResponse(EventSender),
}

impl Write {
    /// The event sender inside, whichever the write mode.
    pub open spec fn spec_sender(self) -> EventSender {
        match self {
            Write::WithResponse(secure) => secure.spec_sender(),
            Write::WithoutResponse(sender) => sender,
        }
    }

    /// Moves the event sender out, whichever the write mode.
    pub fn sender(self) -> (r: EventSender)
        ensures
            r == self.spec_sender(),
    {
        match self {
            Write::WithResponse(event_sender) => event_sender.sender(),
            Write::WithoutResponse(event_sender) => event_sender,
        }
    }
}

/// The declared capabilities of a characteristic.  A present slot means the
/// capability exists; an absent one is answered with `NotSupported`.
#[derive(Debug, Clone)]
pub struct Properties {
    pub read: Option<Read>,
    pub write: Option<Write>,
    pub notify: Option<ServerInitiated>,
    pub indicate: Option<ServerInitiated>,
}

impl Properties {
    pub fn new(
        read: Option<Read>,
        write: Option<Write>,
        notify: Option<ServerInitiated>,
        indicate: Option<ServerInitiated>,
    ) -> (r: Properties)
        ensures
            r.read == read,
            r.write == write,
            r.notify == notify,
            r.indicate == indicate,
    {
        Properties { read, write, notify, indicate }
    }

    /// The characteristic is read-only exactly when it can be read and not
    /// written.
    pub fn is_read_only(&self) -> (r: bool)
        ensures
            r == (self.read is Some && self.write is None),
    {
        self.read.is_some() && self.write.is_none()
    }
}

/// A GATT characteristic: a value holder under a service.
#[derive(Debug, Clone)]
pub struct Characteristic {
    pub uuid: Uuid,
    pub properties: Properties,
    pub value: Option<Vec<u8>>,
    pub descriptors: Vec<Descriptor>,
}

impl Characteristic {
    pub fn new(
        uuid: Uuid,
        properties: Properties,
        value: Option<Vec<u8>>,
        descriptors: Vec<Descriptor>,
    ) -> (r: Characteristic)
        ensures
            r.uuid == uuid,
            r.properties == properties,
            r.value == value,
            r.descriptors == descriptors,
    {
        Characteristic { uuid, properties, value, descriptors }
    }

    /// The characteristic's UUID, its identity within a service.
    pub fn uuid(&self) -> (r: Uuid)
        ensures
            r == self.uuid,
    {
        self.uuid
    }
}

/// Characteristics compare by UUID alone, their identity within a service.
impl PartialEq for Characteristic {
    fn eq(&self, other: &Characteristic) -> (r: bool) {
        self.uuid == other.uuid
    }
}

impl vstd::std_specs::cmp::PartialEqSpecImpl for Characteristic {
    open spec fn obeys_eq_spec() -> bool {
        true
    }

    open spec fn eq_spec(&self, other: &Characteristic) -> bool {
        self.uuid == other.uuid
    }
}

impl Eq for Characteristic {

}

} // verus!
