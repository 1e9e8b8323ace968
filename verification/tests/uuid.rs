use bluster::{SdpShortUuid, Uuid};

#[test]
fn test_from_sdp_short_uuid() {
    Uuid::from_sdp_short_uuid(0x0000 as u16);
    Uuid::from_sdp_short_uuid(0x0000 as u32);
}

#[test]
fn short_uuid_round_trips_time_low_and_keeps_base() {
    let uuid = Uuid::from_sdp_short_uuid(0xABCD as u16);
    assert_eq!(uuid.time_low, 0xABCD);
    assert_eq!(uuid.time_mid, 0x0000);
    assert_eq!(uuid.time_hi_and_version, 0x1000);
    assert_eq!(uuid.clock_seq_and_node, 0x8000_0080_5F9B_34FB);

    let wide = Uuid::from_sdp_short_uuid(0xDEAD_BEEF as u32);
    assert_eq!(wide.time_low, 0xDEAD_BEEF);
    assert_eq!(wide.time_mid, 0x0000);
    assert_eq!(wide.time_hi_and_version, 0x1000);
    assert_eq!(wide.clock_seq_and_node, 0x8000_0080_5F9B_34FB);
}

#[test]
fn uuid_formats_as_lowercase_hyphenated() {
    let uuid = Uuid::from_sdp_short_uuid(0x1234 as u16);
    assert_eq!(uuid.to_string(), "00001234-0000-1000-8000-00805f9b34fb");

    let other = Uuid::from_sdp_short_uuid(0x2A3D as u16);
    assert_eq!(other.to_string(), "00002a3d-0000-1000-8000-00805f9b34fb");
}

#[test]
fn uuids_compare_by_value() {
    let a = Uuid::from_sdp_short_uuid(0x1234 as u16);
    let b = Uuid::from_sdp_short_uuid(0x1234 as u32);
    let c = Uuid::from_sdp_short_uuid(0x4321 as u16);
    assert_eq!(a, b);
    assert_ne!(a, c);
}
