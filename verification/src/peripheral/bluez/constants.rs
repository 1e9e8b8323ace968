//! Names fixed by the D-Bus and BlueZ interfaces.

use vstd::prelude::*;

verus! {

pub const DBUS_PROPERTIES_IFACE: &'static str = "org.freedesktop.DBus.Properties";

pub const DBUS_OBJECTMANAGER_IFACE: &'static str = "org.freedesktop.DBus.ObjectManager";

pub const BLUEZ_SERVICE_NAME: &'static str = "org.bluez";

pub const ADAPTER_IFACE: &'static str = "org.bluez.Adapter1";

pub const LE_ADVERTISING_MANAGER_IFACE: &'static str = "org.bluez.LEAdvertisingManager1";

pub const LE_ADVERTISEMENT_IFACE: &'static str = "org.bluez.LEAdvertisement1";

pub const GATT_SERVICE_IFACE: &'static str = "org.bluez.GattService1";

pub const GATT_CHARACTERISTIC_IFACE: &'static str = "org.bluez.GattCharacteristic1";

pub const GATT_DESCRIPTOR_IFACE: &'static str = "org.bluez.GattDescriptor1";

pub const GATT_GATT_MANAGER_IFACE: &'static str = "org.bluez.GattManager1";

pub const BLUEZ_ERROR_FAILED: &'static str = "org.bluez.Error.Failed";

pub const BLUEZ_ERROR_NOTSUPPORTED: &'static str = "org.bluez.Error.NotSupported";

pub const PATH_BASE: &'static str = "/org/bluez/example";

/// Every D-Bus method call uses this fixed timeout, in seconds.
pub const BLUEZ_DBUS_TIMEOUT_SECS: u64 = 30;

} // verus!
