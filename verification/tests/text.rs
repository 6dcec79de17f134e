use worldping::text::{default_db_name, ipv4_string, u64_to_string};

#[test]
fn decimal_rendering() {
    assert_eq!(u64_to_string(0), "0");
    assert_eq!(u64_to_string(7), "7");
    assert_eq!(u64_to_string(10), "10");
    assert_eq!(u64_to_string(1234567890), "1234567890");
    assert_eq!(u64_to_string(u64::MAX), "18446744073709551615");
}

#[test]
fn dotted_quad_rendering() {
    assert_eq!(ipv4_string(0), "0.0.0.0");
    assert_eq!(ipv4_string(0x01020304), "1.2.3.4");
    assert_eq!(ipv4_string(u32::MAX), "255.255.255.255");
    assert_eq!(ipv4_string(0xC0A80A63), "192.168.10.99");
}

#[test]
fn default_store_name_from_local_time() {
    // The year field counts from 1900, as broken-down time reports it.
    assert_eq!(default_db_name(124, 5, 17, 9, 30), "output-2024-5-17-9-30.db");
    assert_eq!(default_db_name(100, 0, 1, 0, 0), "output-2000-0-1-0-0.db");
}
