use nx_fs::sm::{MitmProcessInfo, ServiceName};

#[test]
fn service_name_round_trips_its_value() {
    let name = ServiceName::from(0x0000_0063_6d64_7366);
    assert_eq!(name.value, 0x0000_0063_6d64_7366);
    assert!(!name.is_empty());
}

#[test]
fn new_packs_the_first_eight_bytes_little_endian() {
    let name = ServiceName::new(b"fsp-srv\0");
    let expected = u64::from_le_bytes(*b"fsp-srv\0");
    assert_eq!(name.value, expected);
    assert!(!name.is_empty());
    // Only the first eight bytes count.
    let longer = ServiceName::new(b"fsp-srv\0XYZ");
    assert_eq!(longer.value, expected);
}

#[test]
fn empty_service_name_is_zero() {
    let name = ServiceName::empty();
    assert_eq!(name.value, 0);
    assert!(name.is_empty());
}

#[test]
fn process_info_is_plain_data() {
    let info = MitmProcessInfo {
        process_id: 10,
        program_id: 20,
        keys_held: 0,
        override_flags: 1,
    };
    assert_eq!(info.process_id, 10);
    assert_eq!(info.program_id, 20);
    assert_eq!(info.override_flags, 1);
}
