//! The `LEAdvertisement1` object: its properties and its advertising flag.
//!
//! The flag turns on when BlueZ accepts `RegisterAdvertisement`, and off on
//! `UnregisterAdvertisement` or on an inbound `Release()` from BlueZ —
//! whichever comes first; the transitions are idempotent in favour of off.

use vstd::prelude::*;

use crate::peripheral::bluez::gatt::paths::{advertisement_path, advertisement_path_spec};

verus! {

/// The advertisement's state: the flag a caller reads through
/// `is_advertising`, and the configured `LocalName` and `ServiceUUIDs`
/// properties.
pub struct Advertisement {
    pub is_advertising: bool,
    pub name: Option<String>,
    pub uuids: Option<Vec<String>>,
}

/// One thing that can move the advertising flag.
pub enum AdvertisingEvent {
    RegisterSucceeded,
    UnregisterRequested,
    Release,
}

/// How one event moves the flag: a successful registration turns it on;
/// an unregistration or a BlueZ `Release` turns it off.
pub open spec fn advertising_step(on: bool, event: AdvertisingEvent) -> bool {
    match event {
        AdvertisingEvent::RegisterSucceeded => true,
        AdvertisingEvent::UnregisterRequested => false,
        AdvertisingEvent::Release => false,
    }
}

/// The flag after a whole history of events, starting from off.
pub open spec fn advertising_after(events: Seq<AdvertisingEvent>) -> bool
    decreases events.len(),
{
    if events.len() == 0 {
        false
    } else {
        advertising_step(advertising_after(events.drop_last()), events.last())
    }
}

/// A registration at `i` that nothing after turns off.
pub open spec fn uninterrupted_registration(events: Seq<AdvertisingEvent>, i: int) -> bool {
    &&& 0 <= i < events.len()
    &&& events[i] is RegisterSucceeded
    &&& forall|j: int| i < j < events.len() ==> (#[trigger] events[j]) is RegisterSucceeded
}

/// The flag is on exactly between a successful registration and the earlier
/// of an unregistration or a `Release`: after any history, it is on iff
/// some registration succeeded and nothing turned it off since.
pub proof fn lemma_advertising_flag(events: Seq<AdvertisingEvent>)
    ensures
        advertising_after(events) <==> exists|i: int| uninterrupted_registration(events, i),
{
    if events.len() == 0 {
        assert(!advertising_after(events));
        assert(forall|i: int| !uninterrupted_registration(events, i));
    } else {
        let last = events.len() - 1;
        if advertising_after(events) {
            assert(events[last] is RegisterSucceeded);
            assert(uninterrupted_registration(events, last)) by {
                assert(forall|j: int|
                    last < j < events.len() ==> (#[trigger] events[j]) is RegisterSucceeded);
            }
        } else {
            assert(!(events[last] is RegisterSucceeded));
            assert forall|i: int| !uninterrupted_registration(events, i) by {
                if uninterrupted_registration(events, i) {
                    if i == last {
                        assert(events[last] is RegisterSucceeded);
                    } else {
                        assert(events[last] is RegisterSucceeded);
                    }
                }
            }
        }
    }
}

impl Advertisement {
    /// A fresh advertisement: not advertising, no name, no UUIDs.
    pub fn new() -> (r: Advertisement)
        ensures
            !r.is_advertising,
            r.name is None,
            r.uuids is None,
    {
        Advertisement { is_advertising: false, name: None, uuids: None }
    }

    /// The object path the advertisement is published at.
    pub fn object_path() -> (r: String)
        ensures
            r@ == advertisement_path_spec(0),
    {
        advertisement_path(0)
    }

    /// The constant `Type` property.
    pub fn advertisement_type() -> (r: &'static str)
        ensures
            r@ == "peripheral"@,
    {
        "peripheral"
    }

    /// Stores the `LocalName` to advertise.
    pub fn add_name(&mut self, name: String)
        ensures
            final(self).name == Some(name),
            final(self).uuids == old(self).uuids,
            final(self).is_advertising == old(self).is_advertising,
    {
        self.name = Some(name);
    }

    /// Stores the `ServiceUUIDs` to advertise.
    pub fn add_uuids(&mut self, uuids: Vec<String>)
        ensures
            final(self).uuids == Some(uuids),
            final(self).name == old(self).name,
            final(self).is_advertising == old(self).is_advertising,
    {
        self.uuids = Some(uuids);
    }

    /// The `LocalName` property: the configured name, default empty.
    pub fn local_name(&self) -> (r: String)
        ensures
            match self.name {
                Some(n) => r@ == n@,
                None => r@ == Seq::<char>::empty(),
            },
    {
        match &self.name {
            Some(n) => n.clone(),
            None => String::new(),
        }
    }

    /// The `ServiceUUIDs` property: the configured list, default empty.
    pub fn service_uuids(&self) -> (r: Vec<String>)
        ensures
            match self.uuids {
                Some(u) => r.deep_view() == u.deep_view(),
                None => r@.len() == 0,
            },
    {
        match &self.uuids {
            Some(u) => {
                let mut out: Vec<String> = Vec::new();
                let mut i: usize = 0;
                while i < u.len()
                    invariant
                        0 <= i <= u.len(),
                        out@.len() == i,
                        forall|k: int| 0 <= k < i ==> (#[trigger] out@[k])@ == u@[k]@,
                    decreases u.len() - i,
                {
                    out.push(u[i].clone());
                    i = i + 1;
                }
                proof {
                    assert(out.deep_view() =~= u.deep_view());
                }
                out
            },
            None => Vec::new(),
        }
    }

    /// BlueZ accepted `RegisterAdvertisement`: the flag turns on.
    pub fn register_succeeded(&mut self)
        ensures
            final(self).is_advertising == advertising_step(
                old(self).is_advertising,
                AdvertisingEvent::RegisterSucceeded,
            ),
            final(self).name == old(self).name,
            final(self).uuids == old(self).uuids,
    {
        self.is_advertising = true;
    }

    /// `UnregisterAdvertisement` was requested: the flag turns off, whether
    /// or not the request races with a `Release`.
    pub fn unregister(&mut self)
        ensures
            final(self).is_advertising == advertising_step(
                old(self).is_advertising,
                AdvertisingEvent::UnregisterRequested,
            ),
            final(self).name == old(self).name,
            final(self).uuids == old(self).uuids,
    {
        self.is_advertising = false;
    }

    /// BlueZ called `Release()` on the advertisement: the flag turns off
    /// without the application asking.
    pub fn release(&mut self)
        ensures
            final(self).is_advertising == advertising_step(
                old(self).is_advertising,
                AdvertisingEvent::Release,
            ),
            final(self).name == old(self).name,
            final(self).uuids == old(self).uuids,
    {
        self.is_advertising = false;
    }

    /// Whether the advertisement is currently registered with BlueZ.
    pub fn is_advertising(&self) -> (r: bool)
        ensures
            r == self.is_advertising,
    {
        self.is_advertising
    }
}

} // verus!
