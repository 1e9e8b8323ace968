use bluster::gatt::characteristic;
use bluster::gatt::characteristic::Characteristic;
use bluster::gatt::descriptor;
use bluster::gatt::descriptor::Descriptor;
use bluster::gatt::service::Service;
use bluster::peripheral::bluez::adapter::{find_adapter, ManagedObject};
use bluster::peripheral::bluez::advertisement::Advertisement;
use bluster::peripheral::bluez::common::GattDataType;
use bluster::peripheral::bluez::error::error_from_dbus;
use bluster::{Error, ErrorType, Peripheral, SdpShortUuid, Uuid};
use futures::channel::mpsc;

fn sample_service(characteristic_uuids: &[u16]) -> Service {
    let (tx, _rx) = mpsc::channel(1);
    let mut characteristics = Vec::new();
    for short in characteristic_uuids {
        characteristics.push(Characteristic::new(
            Uuid::from_sdp_short_uuid(*short),
            characteristic::Properties::new(
                Some(characteristic::Read(characteristic::Secure::Insecure(tx.clone()))),
                None,
                None,
                None,
            ),
            Some(vec![0x68, 0x69]),
            vec![Descriptor::new(
                Uuid::from_sdp_short_uuid(0x2902 as u16),
                descriptor::Properties::new(
                    Some(descriptor::Read(descriptor::Secure::Insecure(tx.clone()))),
                    None,
                ),
                None,
            )],
        ));
    }
    Service::new(Uuid::from_sdp_short_uuid(0x1234 as u16), true, characteristics)
}

#[test]
fn services_get_numbered_unique_paths() {
    let mut peripheral = Peripheral::new();
    let first = peripheral.add_service(&sample_service(&[0x2A3D, 0x2A3E])).unwrap();
    assert_eq!(first.service_path, "/org/bluez/example/service0000");
    assert_eq!(first.characteristics.len(), 2);
    assert_eq!(
        first.characteristics[0].path,
        "/org/bluez/example/service0000/characteristic0000"
    );
    assert_eq!(
        first.characteristics[0].descriptors[0],
        "/org/bluez/example/service0000/characteristic0000/descriptor0000"
    );
    assert_eq!(
        first.characteristics[1].path,
        "/org/bluez/example/service0000/characteristic0001"
    );
    assert_eq!(
        first.characteristics[1].descriptors[0],
        "/org/bluez/example/service0000/characteristic0001/descriptor0001"
    );

    // Counters keep rising across services, so no path repeats.
    let second = peripheral.add_service(&sample_service(&[0x2A3D])).unwrap();
    assert_eq!(second.service_path, "/org/bluez/example/service0001");
    assert_eq!(
        second.characteristics[0].path,
        "/org/bluez/example/service0001/characteristic0002"
    );
    assert_eq!(
        second.characteristics[0].descriptors[0],
        "/org/bluez/example/service0001/characteristic0002/descriptor0002"
    );
}

#[test]
fn add_service_after_register_is_invalid_state() {
    let mut peripheral = Peripheral::new();
    peripheral.add_service(&sample_service(&[0x2A3D])).unwrap();
    peripheral.register_gatt().unwrap();
    let rejected = peripheral.add_service(&sample_service(&[0x2A3E]));
    match rejected {
        Err(e) => assert_eq!(e.name, "InvalidState"),
        Ok(_) => panic!("adding to a registered tree must be rejected"),
    }

    // After unregistering, services may be added again.
    peripheral.unregister_gatt().unwrap();
    assert!(peripheral.add_service(&sample_service(&[0x2A3E])).is_ok());
}

#[test]
fn gatt_registration_cycles() {
    let mut peripheral = Peripheral::new();
    assert!(peripheral.unregister_gatt().is_err());
    peripheral.register_gatt().unwrap();
    assert!(peripheral.register_gatt().is_err());
    peripheral.unregister_gatt().unwrap();
    assert!(peripheral.register_gatt().is_ok());
}

#[test]
fn advertising_needs_a_registered_tree() {
    let mut peripheral = Peripheral::new();
    let uuids = [Uuid::from_sdp_short_uuid(0x2A3D as u16)];
    let early = peripheral.start_advertising("hello", &uuids);
    match early {
        Err(e) => assert_eq!(e.name, "InvalidState"),
        Ok(_) => panic!("advertising before register_gatt must be rejected"),
    }
    assert!(!peripheral.is_advertising());
}

#[test]
fn advertisement_carries_name_and_uuid_strings() {
    let mut peripheral = Peripheral::new();
    peripheral.add_service(&sample_service(&[0x2A3D])).unwrap();
    peripheral.register_gatt().unwrap();
    let uuids = [Uuid::from_sdp_short_uuid(0x2A3D as u16)];
    peripheral.start_advertising("hello", &uuids).unwrap();
    assert_eq!(peripheral.advertisement.local_name(), "hello");
    assert_eq!(
        peripheral.advertisement.service_uuids(),
        vec!["00002a3d-0000-1000-8000-00805f9b34fb".to_string()]
    );
    assert_eq!(Advertisement::advertisement_type(), "peripheral");
    assert_eq!(
        Advertisement::object_path(),
        "/org/bluez/example/advertisement0000"
    );
}

#[test]
fn advertising_flag_follows_register_stop_and_release() {
    let mut peripheral = Peripheral::new();
    peripheral.register_gatt().unwrap();
    let uuids: [Uuid; 0] = [];
    peripheral.start_advertising("hello", &uuids).unwrap();
    assert!(!peripheral.is_advertising());

    // BlueZ accepted RegisterAdvertisement.
    peripheral.advertisement.register_succeeded();
    assert!(peripheral.is_advertising());

    // The application stops advertising.
    peripheral.stop_advertising();
    assert!(!peripheral.is_advertising());

    // BlueZ revokes the advertisement without the application asking.
    peripheral.advertisement.register_succeeded();
    assert!(peripheral.is_advertising());
    peripheral.advertisement.release();
    assert!(!peripheral.is_advertising());

    // Releasing twice, or stopping after a release, stays off.
    peripheral.advertisement.release();
    peripheral.stop_advertising();
    assert!(!peripheral.is_advertising());
}

#[test]
fn default_advertisement_properties_are_empty() {
    let advertisement = Advertisement::new();
    assert!(!advertisement.is_advertising());
    assert_eq!(advertisement.local_name(), "");
    assert_eq!(advertisement.service_uuids(), Vec::<String>::new());
}

#[test]
fn first_advertising_capable_object_is_the_adapter() {
    let objects = vec![
        ManagedObject {
            path: "/org/bluez".to_string(),
            interfaces: vec!["org.freedesktop.DBus.Introspectable".to_string()],
        },
        ManagedObject {
            path: "/org/bluez/hci0".to_string(),
            interfaces: vec![
                "org.bluez.Adapter1".to_string(),
                "org.bluez.LEAdvertisingManager1".to_string(),
            ],
        },
        ManagedObject {
            path: "/org/bluez/hci1".to_string(),
            interfaces: vec!["org.bluez.LEAdvertisingManager1".to_string()],
        },
    ];
    let index = find_adapter(&objects).unwrap();
    assert_eq!(index, 1);
    assert_eq!(objects[index].path, "/org/bluez/hci0");
}

#[test]
fn missing_adapter_is_an_error_not_a_panic() {
    let objects = vec![ManagedObject {
        path: "/org/bluez".to_string(),
        interfaces: vec!["org.bluez.AgentManager1".to_string()],
    }];
    match find_adapter(&objects) {
        Err(e) => {
            assert_eq!(e.name, "AdapterNotFound");
            assert_eq!(e.error_type.kind_name(), "Bluez");
        }
        Ok(_) => panic!("no advertising-capable object was listed"),
    }
}

#[test]
fn errors_combine_name_and_description() {
    let error = Error::new(
        "InvalidState".to_string(),
        "details".to_string(),
        ErrorType::Bluez,
    );
    assert_eq!(error.description().as_str(), "InvalidState: details");
    assert_eq!(error.error_type.kind_name(), "Bluez");
    assert_eq!(ErrorType::CoreBluetooth.kind_name(), "CoreBluetooth");
    assert_eq!(ErrorType::Usb.kind_name(), "USB");
}

#[test]
fn dbus_failures_map_to_bluez_errors() {
    let error = error_from_dbus(
        Some("org.freedesktop.DBus.Error.Timeout".to_string()),
        Some("the call timed out".to_string()),
    );
    assert_eq!(error.name, "org.freedesktop.DBus.Error.Timeout");
    assert_eq!(error.description, "the call timed out");
    assert_eq!(error.error_type.kind_name(), "Bluez");

    let anonymous = error_from_dbus(None, None);
    assert_eq!(anonymous.name, "");
    assert_eq!(anonymous.description, "");
}

#[test]
fn tree_nodes_hand_back_their_attribute() {
    let (tx, _rx) = mpsc::channel(1);
    let chr = Characteristic::new(
        Uuid::from_sdp_short_uuid(0x2A3D as u16),
        characteristic::Properties::new(
            Some(characteristic::Read(characteristic::Secure::Insecure(tx.clone()))),
            None,
            None,
            None,
        ),
        None,
        Vec::new(),
    );
    let node = GattDataType::Characteristic(chr.clone());
    assert_eq!(node.get_characteristic().uuid(), chr.uuid());

    let desc = Descriptor::new(
        Uuid::from_sdp_short_uuid(0x2902 as u16),
        descriptor::Properties::new(None, None),
        None,
    );
    let node = GattDataType::Descriptor(desc.clone());
    assert_eq!(node.get_descriptor().uuid(), desc.uuid());
}

#[test]
fn service_keeps_its_fields() {
    let service = sample_service(&[0x2A3D]);
    assert_eq!(service.uuid(), Uuid::from_sdp_short_uuid(0x1234 as u16));
    assert!(service.primary());
    assert_eq!(service.characteristics.len(), 1);
}

#[test]
fn display_form_shows_kind_name_and_description() {
    let error = Error::new(
        "AdapterNotFound".to_string(),
        "no adapter".to_string(),
        ErrorType::Bluez,
    );
    assert_eq!(
        error.display_string(),
        "**Bluster Bluez Error**\n\n\tAdapterNotFound:\n\t\tno adapter"
    );
}

#[test]
fn exhausted_counters_reject_the_service() {
    let mut peripheral = Peripheral::new();
    peripheral.gatt.service_index = 10000;
    match peripheral.add_service(&sample_service(&[0x2A3D])) {
        Err(e) => assert_eq!(e.name, "TooManyAttributes"),
        Ok(_) => panic!("the ten-thousandth service must be rejected"),
    }

    let mut crowded = Peripheral::new();
    crowded.gatt.characteristic_index = 9999;
    match crowded.add_service(&sample_service(&[0x2A3D, 0x2A3E])) {
        Err(e) => assert_eq!(e.name, "TooManyAttributes"),
        Ok(_) => panic!("two characteristics cannot fit one remaining slot"),
    }

    let mut full_descs = Peripheral::new();
    full_descs.gatt.descriptor_index = 10000;
    match full_descs.add_service(&sample_service(&[0x2A3D])) {
        Err(e) => assert_eq!(e.name, "TooManyAttributes"),
        Ok(_) => panic!("a descriptor cannot fit a full counter"),
    }
}
