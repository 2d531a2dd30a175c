use ws_pubsub::text::{channel_text, decimal_text, publisher_key_text};

#[test]
fn decimal_of_zero() {
    assert_eq!(decimal_text(0), "0");
}

#[test]
fn decimal_of_port() {
    assert_eq!(decimal_text(8081), "8081");
    assert_eq!(decimal_text(10), "10");
}

#[test]
fn decimal_of_largest() {
    assert_eq!(decimal_text(u64::MAX), "18446744073709551615");
}

#[test]
fn publisher_key_is_hyphenated_uuid() {
    let id: u128 = 0x67e5504410b1426f9247bb680e5fe0c8;
    assert_eq!(publisher_key_text(id), "publisher:67e55044-10b1-426f-9247-bb680e5fe0c8");
}

#[test]
fn channel_is_the_uuid() {
    assert_eq!(channel_text(0), "00000000-0000-0000-0000-000000000000");
    assert_eq!(channel_text(u128::MAX), "ffffffff-ffff-ffff-ffff-ffffffffffff");
    assert_eq!(channel_text(0xa1a2a3a4b1b2c1c2d1d2d3d4d5d6d7d8), "a1a2a3a4-b1b2-c1c2-d1d2-d3d4d5d6d7d8");
}
