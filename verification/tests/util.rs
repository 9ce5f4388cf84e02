use skyshard::util::{format_bool, parse_version_string, FastNearestMultiple, Version};

#[test]
fn test_vk_version() {
    assert_eq!(1, 1);
}

#[test]
fn test_nearest_multiple() {
    assert_eq!(12u64.nearest_multiple(16), 16);
    assert_eq!(20u64.nearest_multiple(16), 32);
    assert_eq!(20u64.nearest_multiple(32), 32);
    assert_eq!(100u64.nearest_multiple(32), 128);
}

#[test]
fn nearest_multiple_keeps_multiples() {
    assert_eq!(64u64.nearest_multiple(64), 64);
    assert_eq!(0u64.nearest_multiple(8), 0);
    assert_eq!(7u64.nearest_multiple(1), 7);
}

#[test]
fn version_strings() {
    let version = parse_version_string("1.2.3").ok().unwrap();
    assert_eq!(version, Version::new(1, 2, 3));
    assert_eq!(parse_version_string("0.1.0").ok().unwrap(), Version::new(0, 1, 0));
    assert_eq!(parse_version_string("4").ok().unwrap(), Version::new(4, 0, 0));
    assert_eq!(parse_version_string("4.5").ok().unwrap(), Version::new(4, 5, 0));
    assert_eq!(parse_version_string("1.2.3.x").ok().unwrap(), Version::new(1, 2, 3));
    assert_eq!(parse_version_string("+7.08.4294967295").ok().unwrap(), Version::new(7, 8, 4294967295));
}

#[test]
fn invalid_version_strings() {
    let error = parse_version_string("1.a.3").err().unwrap();
    assert_eq!(error.value, "1.a.3");
    assert!(parse_version_string("").is_err());
    assert!(parse_version_string("1..3").is_err());
    assert!(parse_version_string("1.2.4294967296").is_err());
    assert!(parse_version_string("-1.2.3").is_err());
    assert!(parse_version_string("+.1.1").is_err());
}

#[test]
fn version_try_from() {
    let version: Version = "3.1.4".try_into().ok().unwrap();
    assert_eq!(version, Version::new(3, 1, 4));
    let version = Version::try_from(String::from("2.0")).ok().unwrap();
    assert_eq!(version, Version::new(2, 0, 0));
}

#[test]
fn vulkan_version_packing() {
    let version = Version::new(1, 3, 251);
    let packed: u32 = u32::from(&version);
    assert_eq!(packed, (1 << 22) | (3 << 12) | 251);
    assert_eq!(Version::from(packed), version);
    assert_eq!(Version::from(0xffff_ffffu32), Version::new(1023, 1023, 4095));
}

#[test]
fn booleans_as_text() {
    assert_eq!(format_bool(true), "true");
    assert_eq!(format_bool(false), "false");
}
