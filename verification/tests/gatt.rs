use bluster::gatt::characteristic;
use bluster::gatt::characteristic::Characteristic;
use bluster::gatt::descriptor;
use bluster::gatt::descriptor::Descriptor;
use bluster::gatt::event::{Event, EventSender, Response};
use bluster::peripheral::bluez::gatt::characteristic::{
    make_read_request, make_write_request, mtu_from_options, notify_capability,
    offset_from_options, read_value_capability, reply_from_response, value_changed_signal,
    value_property, write_value_capability, HandlerError,
};
use bluster::peripheral::bluez::gatt::descriptor as descriptor_handler;
use bluster::peripheral::bluez::gatt::flags::Flags;
use bluster::{SdpShortUuid, Uuid};
use futures::channel::{mpsc, oneshot};

fn event_channel() -> (EventSender, mpsc::Receiver<Event>) {
    mpsc::channel(1)
}

#[test]
fn characteristic_flags_insecure() {
    let (tx, _rx) = event_channel();
    let properties = characteristic::Properties::new(
        Some(characteristic::Read(characteristic::Secure::Insecure(tx.clone()))),
        Some(characteristic::Write::WithResponse(characteristic::Secure::Insecure(tx.clone()))),
        Some(characteristic::ServerInitiated(characteristic::Secure::Insecure(tx.clone()))),
        Some(characteristic::ServerInitiated(characteristic::Secure::Insecure(tx))),
    );
    assert_eq!(properties.flags(), vec!["read", "write", "notify", "indicate"]);
}

#[test]
fn characteristic_flags_secure() {
    let (tx, _rx) = event_channel();
    let properties = characteristic::Properties::new(
        Some(characteristic::Read(characteristic::Secure::Secure(tx.clone()))),
        Some(characteristic::Write::WithResponse(characteristic::Secure::Secure(tx.clone()))),
        Some(characteristic::ServerInitiated(characteristic::Secure::Secure(tx.clone()))),
        Some(characteristic::ServerInitiated(characteristic::Secure::Secure(tx))),
    );
    assert_eq!(
        properties.flags(),
        vec![
            "secure-read",
            "encrypt-authenticated-read",
            "secure-write",
            "encrypt-authenticated-write",
            "encrypt-authenticated-notify",
            "secure-notify",
            "encrypt-authenticated-indicate",
            "secure-indicate",
        ]
    );
}

#[test]
fn characteristic_flags_write_without_response() {
    let (tx, _rx) = event_channel();
    let properties = characteristic::Properties::new(
        None,
        Some(characteristic::Write::WithoutResponse(tx)),
        None,
        None,
    );
    assert_eq!(properties.flags(), vec!["write-without-response"]);
}

#[test]
fn descriptor_flags_follow_the_table() {
    let (tx, _rx) = event_channel();
    let properties = descriptor::Properties::new(
        Some(descriptor::Read(descriptor::Secure::Insecure(tx.clone()))),
        Some(descriptor::Write(descriptor::Secure::Secure(tx))),
    );
    assert_eq!(
        properties.flags(),
        vec!["read", "secure-write", "encrypt-authenticated-write"]
    );
}

#[test]
fn is_read_only_means_read_without_write() {
    let (tx, _rx) = event_channel();
    let read_only = characteristic::Properties::new(
        Some(characteristic::Read(characteristic::Secure::Insecure(tx.clone()))),
        None,
        None,
        None,
    );
    assert!(read_only.is_read_only());

    let read_write = characteristic::Properties::new(
        Some(characteristic::Read(characteristic::Secure::Insecure(tx.clone()))),
        Some(characteristic::Write::WithResponse(characteristic::Secure::Insecure(tx.clone()))),
        None,
        None,
    );
    assert!(!read_write.is_read_only());

    let write_only = descriptor::Properties::new(
        None,
        Some(descriptor::Write(descriptor::Secure::Insecure(tx))),
    );
    assert!(!write_only.is_read_only());
}

#[test]
fn value_property_served_only_when_read_only() {
    let (tx, _rx) = event_channel();
    let read_only = Characteristic::new(
        Uuid::from_sdp_short_uuid(0x2A3D as u16),
        characteristic::Properties::new(
            Some(characteristic::Read(characteristic::Secure::Insecure(tx.clone()))),
            None,
            None,
            None,
        ),
        Some(vec![0x68, 0x69]),
        Vec::new(),
    );
    assert_eq!(value_property(&read_only), Some(&vec![0x68, 0x69]));

    let writable = Characteristic::new(
        Uuid::from_sdp_short_uuid(0x2A3D as u16),
        characteristic::Properties::new(
            Some(characteristic::Read(characteristic::Secure::Insecure(tx.clone()))),
            Some(characteristic::Write::WithResponse(characteristic::Secure::Insecure(tx))),
            None,
            None,
        ),
        Some(vec![0x68, 0x69]),
        Vec::new(),
    );
    assert_eq!(value_property(&writable), None);
}

#[test]
fn read_with_offset_reaches_the_application() {
    // A central issues ReadValue({offset: 3}); the application replies
    // Success("world") and the central sees those bytes.
    let (tx, mut rx) = event_channel();
    let chr = Characteristic::new(
        Uuid::from_sdp_short_uuid(0x2A3D as u16),
        characteristic::Properties::new(
            Some(characteristic::Read(characteristic::Secure::Insecure(tx))),
            None,
            None,
            None,
        ),
        None,
        Vec::new(),
    );

    let capability = read_value_capability(&chr).ok().unwrap().clone();
    let offset = offset_from_options(Some(3));
    let mtu = mtu_from_options(None);
    assert_eq!(offset, 3);
    assert_eq!(mtu, 23);

    let (reply_tx, mut reply_rx) = oneshot::channel();
    let mut sender = capability.sender();
    sender
        .try_send(make_read_request(offset, mtu, reply_tx))
        .unwrap();

    match rx.try_next().unwrap().unwrap() {
        Event::ReadRequest(request) => {
            assert_eq!(request.offset, 3);
            assert_eq!(request.mtu, 23);
            request
                .response
                .send(Response::Success(b"world".to_vec()))
                .unwrap();
        }
        _ => panic!("expected a read request"),
    }

    let outcome = reply_rx.try_recv().unwrap();
    assert_eq!(
        reply_from_response(outcome),
        Ok(vec![0x77, 0x6F, 0x72, 0x6C, 0x64])
    );
}

#[test]
fn write_delivers_data_unchanged() {
    // A central writes [41 42 43] at offset 0; the application sees the
    // bytes bit-identical and replies with an empty array.
    let (tx, mut rx) = event_channel();
    let chr = Characteristic::new(
        Uuid::from_sdp_short_uuid(0x2A3D as u16),
        characteristic::Properties::new(
            None,
            Some(characteristic::Write::WithResponse(characteristic::Secure::Insecure(tx))),
            None,
            None,
        ),
        None,
        Vec::new(),
    );

    let capability = write_value_capability(&chr).ok().unwrap().clone();
    let offset = offset_from_options(None);
    assert_eq!(offset, 0);

    let (reply_tx, mut reply_rx) = oneshot::channel();
    let mut sender = capability.sender();
    sender
        .try_send(make_write_request(vec![0x41, 0x42, 0x43], offset, reply_tx))
        .unwrap();

    match rx.try_next().unwrap().unwrap() {
        Event::WriteRequest(request) => {
            assert_eq!(request.data, vec![0x41, 0x42, 0x43]);
            assert_eq!(request.offset, 0);
            assert!(!request.without_response);
            request.response.send(Response::Success(vec![])).unwrap();
        }
        _ => panic!("expected a write request"),
    }

    let outcome = reply_rx.try_recv().unwrap();
    assert_eq!(reply_from_response(outcome), Ok(vec![]));
}

#[test]
fn write_on_read_only_characteristic_is_not_supported() {
    // A characteristic declared with only read answers WriteValue with
    // org.bluez.Error.NotSupported, and no event reaches the application.
    let (tx, mut rx) = event_channel();
    let chr = Characteristic::new(
        Uuid::from_sdp_short_uuid(0x2A3D as u16),
        characteristic::Properties::new(
            Some(characteristic::Read(characteristic::Secure::Insecure(tx))),
            None,
            None,
            None,
        ),
        None,
        Vec::new(),
    );

    let rejected = write_value_capability(&chr);
    match rejected {
        Err(e) => assert_eq!(e.dbus_name(), "org.bluez.Error.NotSupported"),
        Ok(_) => panic!("a write capability was found where none was declared"),
    }
    assert!(rx.try_next().is_err());
}

#[test]
fn dropped_responder_fails_the_read() {
    // The application drops the responder without replying; the pending
    // ReadValue fails with org.bluez.Error.Failed.
    let (reply_tx, mut reply_rx) = oneshot::channel::<Response>();
    drop(reply_tx);
    let outcome = match reply_rx.try_recv() {
        Ok(value) => value,
        Err(_) => None,
    };
    let reply = reply_from_response(outcome);
    match reply {
        Err(e) => assert_eq!(e.dbus_name(), "org.bluez.Error.Failed"),
        Ok(_) => panic!("a dropped responder must fail the read"),
    }
}

#[test]
fn non_success_responses_fail_the_request() {
    assert_eq!(
        reply_from_response(Some(Response::InvalidOffset)),
        Err(HandlerError::Failed)
    );
    assert_eq!(
        reply_from_response(Some(Response::InvalidAttributeLength)),
        Err(HandlerError::Failed)
    );
    assert_eq!(
        reply_from_response(Some(Response::UnlikelyError)),
        Err(HandlerError::Failed)
    );
}

#[test]
fn notify_fan_out_preserves_order() {
    // A central subscribes; the application pushes "hi 1" then "hi 2"; two
    // Value-changed signals leave in the same order.
    let (tx, mut rx) = event_channel();
    let chr = Characteristic::new(
        Uuid::from_sdp_short_uuid(0x2A3D as u16),
        characteristic::Properties::new(
            None,
            None,
            Some(characteristic::ServerInitiated(characteristic::Secure::Insecure(tx))),
            None,
        ),
        None,
        Vec::new(),
    );

    let capability = notify_capability(&chr).ok().unwrap().clone();
    let (notify_tx, mut notify_rx) = mpsc::channel::<Vec<u8>>(2);
    let mut sender = capability.sender();
    sender
        .try_send(Event::NotifySubscribe(bluster::gatt::event::NotifySubscribe {
            notification: notify_tx.clone(),
        }))
        .unwrap();

    match rx.try_next().unwrap().unwrap() {
        Event::NotifySubscribe(subscription) => {
            let mut pushed = subscription.notification;
            pushed.try_send(b"hi 1".to_vec()).unwrap();
            pushed.try_send(b"hi 2".to_vec()).unwrap();
        }
        _ => panic!("expected a notify subscription"),
    }

    let first = value_changed_signal(notify_rx.try_next().unwrap().unwrap());
    assert_eq!(first.interface_name, "org.bluez.GattCharacteristic1");
    assert_eq!(first.property_name, "Value");
    assert_eq!(first.value, b"hi 1".to_vec());

    let second = value_changed_signal(notify_rx.try_next().unwrap().unwrap());
    assert_eq!(second.value, b"hi 2".to_vec());
}

#[test]
fn notify_capability_prefers_notify_and_rejects_neither() {
    let (tx, _rx) = event_channel();
    let both = Characteristic::new(
        Uuid::from_sdp_short_uuid(0x2A3D as u16),
        characteristic::Properties::new(
            None,
            None,
            Some(characteristic::ServerInitiated(characteristic::Secure::Insecure(tx.clone()))),
            Some(characteristic::ServerInitiated(characteristic::Secure::Secure(tx.clone()))),
        ),
        None,
        Vec::new(),
    );
    match notify_capability(&both) {
        Ok(capability) => match &capability.0 {
            characteristic::Secure::Insecure(_) => {}
            characteristic::Secure::Secure(_) => panic!("notify must win over indicate"),
        },
        Err(_) => panic!("a notify capability was declared"),
    }

    let neither = Characteristic::new(
        Uuid::from_sdp_short_uuid(0x2A3D as u16),
        characteristic::Properties::new(
            Some(characteristic::Read(characteristic::Secure::Insecure(tx))),
            None,
            None,
            None,
        ),
        None,
        Vec::new(),
    );
    assert_eq!(notify_capability(&neither).err(), Some(HandlerError::NotSupported));
}

#[test]
fn descriptor_methods_follow_their_capabilities() {
    let (tx, _rx) = event_channel();
    let readable = Descriptor::new(
        Uuid::from_sdp_short_uuid(0x2902 as u16),
        descriptor::Properties::new(
            Some(descriptor::Read(descriptor::Secure::Insecure(tx))),
            None,
        ),
        Some(vec![1, 2]),
        );
    assert!(descriptor_handler::read_value_capability(&readable).is_ok());
    assert_eq!(
        descriptor_handler::write_value_capability(&readable).err(),
        Some(HandlerError::NotSupported)
    );
}

#[test]
fn attributes_compare_by_uuid() {
    let (tx, _rx) = event_channel();
    let a = Characteristic::new(
        Uuid::from_sdp_short_uuid(0x2A3D as u16),
        characteristic::Properties::new(
            Some(characteristic::Read(characteristic::Secure::Insecure(tx.clone()))),
            None,
            None,
            None,
        ),
        None,
        Vec::new(),
    );
    let b = Characteristic::new(
        Uuid::from_sdp_short_uuid(0x2A3D as u16),
        characteristic::Properties::new(None, None, None, None),
        Some(vec![9]),
        Vec::new(),
    );
    let c = Characteristic::new(
        Uuid::from_sdp_short_uuid(0x1234 as u16),
        characteristic::Properties::new(None, None, None, None),
        None,
        Vec::new(),
    );
    assert_eq!(a, b);
    assert_ne!(a, c);

    let d = Descriptor::new(
        Uuid::from_sdp_short_uuid(0x2902 as u16),
        descriptor::Properties::new(None, None),
        None,
    );
    let e = Descriptor::new(
        Uuid::from_sdp_short_uuid(0x2902 as u16),
        descriptor::Properties::new(None, None),
        Some(vec![1]),
    );
    assert_eq!(d, e);
}
