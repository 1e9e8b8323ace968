//! The BlueZ back-end: pure decision logic of the D-Bus peripheral.

pub mod adapter;
pub mod advertisement;
pub mod common;
pub mod constants;
pub mod error;
pub mod gatt;

use vstd::prelude::*;

use crate::error::Error;
use crate::gatt::service::Service;
use crate::peripheral::bluez::advertisement::Advertisement;
use crate::peripheral::bluez::gatt::{
    add_service_ok, invalid_state_error, service_fits, Gatt, ServicePaths,
};
use crate::uuid::{uuid_str, Uuid};

verus! {

/// The hyphenated string forms of a list of UUIDs, in order.
pub open spec fn uuid_strings_spec(uuids: Seq<Uuid>) -> Seq<Seq<char>> {
    uuids.map_values(|u: Uuid| uuid_str(u))
}

/// The hyphenated string forms of a list of UUIDs, in order, as the
/// advertisement's `ServiceUUIDs` property carries them.
pub fn uuid_strings(uuids: &[Uuid]) -> (r: Vec<String>)
    ensures
        r.deep_view() == uuid_strings_spec(uuids@),
{
    let mut out: Vec<String> = Vec::new();
    let mut i: usize = 0;
    while i < uuids.len()
        invariant
            0 <= i <= uuids@.len(),
            out@.len() == i,
            forall|k: int| 0 <= k < i ==> (#[trigger] out@[k])@ == uuid_str(uuids@[k]),
        decreases uuids@.len() - i,
    {
        out.push(uuids[i].to_string());
        i = i + 1;
    }
    proof {
        assert(out.deep_view() =~= uuid_strings_spec(uuids@));
    }
    out
}

/// The peripheral's verified state: the GATT registrar and the
/// advertisement.  The lifecycle runs from construction through powering
/// and service addition to registration, and advertising may then cycle
/// while the tree stays registered; operations out of that order are
/// `InvalidState` errors with no side effect.
pub struct Peripheral {
    pub gatt: Gatt,
    pub advertisement: Advertisement,
}

impl Peripheral {
    pub open spec fn wf(self) -> bool {
        self.gatt.wf()
    }

    /// A fresh peripheral: empty tree, not registered, not advertising.
    pub fn new() -> (r: Peripheral)
        ensures
            r.wf(),
            !r.gatt.registered,
            r.gatt.service_index == 0,
            r.gatt.characteristic_index == 0,
            r.gatt.descriptor_index == 0,
            r.gatt.entries@ =~= Seq::<crate::peripheral::bluez::gatt::paths::PathCoord>::empty(),
            !r.advertisement.is_advertising,
            r.advertisement.name is None,
            r.advertisement.uuids is None,
    {
        Peripheral { gatt: Gatt::new(), advertisement: Advertisement::new() }
    }

    /// Adds a service to the tree: every attribute is numbered and its
    /// object path returned.  Rejected once the tree is registered.
    pub fn add_service(&mut self, service: &Service) -> (r: Result<ServicePaths, Error>)
        requires
            old(self).wf(),
        ensures
            final(self).wf(),
            final(self).advertisement == old(self).advertisement,
            old(self).gatt.registered ==> (r matches Err(e) && e.name@ == "InvalidState"@ && final(self).gatt == old(self).gatt),
            !old(self).gatt.registered && !service_fits(old(self).gatt, *service) ==> (
            r matches Err(e) && e.name@ == "TooManyAttributes"@ && final(self).gatt == old(self).gatt),
            !old(self).gatt.registered && service_fits(old(self).gatt, *service) ==> (r matches Ok(
                p,
            ) && add_service_ok(old(self).gatt, final(self).gatt, *service, p)),
    {
        self.gatt.add_service(service)
    }

    /// Publishes the tree and hands it to BlueZ `RegisterApplication`.
    /// Registering twice without an unregistration is an invalid state.
    pub fn register_gatt(&mut self) -> (r: Result<(), Error>)
        requires
            old(self).wf(),
        ensures
            final(self).wf(),
            final(self).advertisement == old(self).advertisement,
            old(self).gatt.registered ==> (r is Err && final(self).gatt == old(self).gatt),
            !old(self).gatt.registered ==> (r is Ok && final(self).gatt == (Gatt {
                registered: true,
                ..old(self).gatt
            })),
            r matches Err(e) ==> e.name@ == "InvalidState"@,
    {
        self.gatt.register()
    }

    /// Withdraws the tree through `UnregisterApplication`.  Unregistering
    /// while not registered is an invalid state.
    pub fn unregister_gatt(&mut self) -> (r: Result<(), Error>)
        requires
            old(self).wf(),
        ensures
            final(self).wf(),
            final(self).advertisement == old(self).advertisement,
            !old(self).gatt.registered ==> (r is Err && final(self).gatt == old(self).gatt),
            old(self).gatt.registered ==> (r is Ok && final(self).gatt == (Gatt {
                registered: false,
                ..old(self).gatt
            })),
            r matches Err(e) ==> e.name@ == "InvalidState"@,
    {
        self.gatt.unregister()
    }

    /// Stores the advertisement's name and service UUIDs, ready for
    /// `RegisterAdvertisement`.  Advertising before the GATT tree is
    /// registered is an invalid state with no side effect.
    pub fn start_advertising(&mut self, name: &str, uuids: &[Uuid]) -> (r: Result<(), Error>)
        requires
            old(self).wf(),
        ensures
            final(self).wf(),
            !old(self).gatt.registered ==> (r matches Err(e) && e.name@ == "InvalidState"@
                && *final(self) == *old(self)),
            old(self).gatt.registered ==> (r is Ok && final(self).gatt == old(self).gatt && (
            final(self).advertisement.name matches Some(n) && n@ == name@) && (final(self).advertisement.uuids matches Some(u) && u.deep_view() == uuid_strings_spec(uuids@))
                && final(self).advertisement.is_advertising == old(self).advertisement.is_advertising),
    {
        if !self.gatt.is_registered() {
            return Err(invalid_state_error());
        }
        self.advertisement.add_name(String::from_str(name));
        self.advertisement.add_uuids(uuid_strings(uuids));
        Ok(())
    }

    /// Requests `UnregisterAdvertisement`: the advertising flag turns off
    /// at once, whether or not the request races with a BlueZ `Release`.
    pub fn stop_advertising(&mut self)
        ensures
            final(self).gatt == old(self).gatt,
            !final(self).advertisement.is_advertising,
            final(self).advertisement.name == old(self).advertisement.name,
            final(self).advertisement.uuids == old(self).advertisement.uuids,
    {
        self.advertisement.unregister();
    }

    /// Whether the advertisement is currently registered with BlueZ.
    pub fn is_advertising(&self) -> (r: bool)
        ensures
            r == self.advertisement.is_advertising,
    {
        self.advertisement.is_advertising()
    }
}

} // verus!
