//! Choice of the host's BLE-capable adapter.
//!
//! The connection enumerates BlueZ's managed objects; the adapter is the
//! first whose interface dictionary holds `LEAdvertisingManager1`.  A host
//! without one yields an `AdapterNotFound` error rather than a panic, so
//! the caller can recover.

use vstd::prelude::*;

use crate::error::{Error, ErrorType};

verus! {

/// One managed object as `GetManagedObjects` reports it: its object path
/// and the names of the interfaces it implements.
pub struct ManagedObject {
    pub path: String,
    pub interfaces: Vec<String>,
}

/// Whether a managed object implements the LE advertising manager.
pub open spec fn is_advertising_capable(o: ManagedObject) -> bool {
    exists|k: int|
        0 <= k < o.interfaces@.len() && (#[trigger] o.interfaces@[k])@
            == "org.bluez.LEAdvertisingManager1"@
}

/// Whether a managed object implements the LE advertising manager.
pub fn has_advertising_manager(o: &ManagedObject) -> (r: bool)
    ensures
        r == is_advertising_capable(*o),
{
    let target = String::from_str("org.bluez.LEAdvertisingManager1");
    let mut k: usize = 0;
    while k < o.interfaces.len()
        invariant
            0 <= k <= o.interfaces@.len(),
            target@ == "org.bluez.LEAdvertisingManager1"@,
            forall|k2: int|
                0 <= k2 < k ==> (#[trigger] o.interfaces@[k2])@
                    != "org.bluez.LEAdvertisingManager1"@,
        decreases o.interfaces@.len() - k,
    {
        if o.interfaces[k] == target {
            return true;
        }
        k = k + 1;
    }
    false
}

/// Picks the first managed object that can advertise, the host's BLE
/// adapter.  A host without one is an `AdapterNotFound` error.
pub fn find_adapter(objects: &Vec<ManagedObject>) -> (r: Result<usize, Error>)
    ensures
        r matches Ok(i) ==> 0 <= i < objects@.len() && is_advertising_capable(objects@[i as int])
            && (forall|k: int| 0 <= k < i ==> !is_advertising_capable(#[trigger] objects@[k])),
        r is Err <==> (forall|k: int|
            0 <= k < objects@.len() ==> !is_advertising_capable(#[trigger] objects@[k])),
        r matches Err(e) ==> e.name@ == "AdapterNotFound"@ && e.error_type == ErrorType::Bluez,
{
    let mut i: usize = 0;
    while i < objects.len()
        invariant
            0 <= i <= objects@.len(),
            forall|k: int| 0 <= k < i ==> !is_advertising_capable(#[trigger] objects@[k]),
        decreases objects@.len() - i,
    {
        if has_advertising_manager(&objects[i]) {
            return Ok(i);
        }
        i = i + 1;
    }
    Err(
        Error::new(
            String::from_str("AdapterNotFound"),
            String::from_str("no adapter implementing LEAdvertisingManager1 is present"),
            ErrorType::Bluez,
        ),
    )
}

} // verus!
