use ite8291r2_ctl::kbd::{KeyboardController, PRODUCT_ID, VENDOR_ID};

fn generic() -> Vec<[u8; 8]> {
    vec![
        [0x14, 0x00, 0x01, 0xff, 0x00, 0x00, 0x00, 0x00],
        [0x14, 0x00, 0x02, 0xff, 0x5a, 0x00, 0x00, 0x00],
        [0x14, 0x00, 0x03, 0xff, 0xb4, 0x00, 0x00, 0x00],
        [0x14, 0x00, 0x04, 0x00, 0xb4, 0x00, 0x00, 0x00],
        [0x14, 0x00, 0x05, 0x00, 0x00, 0xff, 0x00, 0x00],
        [0x14, 0x00, 0x06, 0x00, 0xb4, 0xff, 0x00, 0x00],
        [0x14, 0x00, 0x07, 0xff, 0x00, 0xff, 0x00, 0x00],
    ]
}

fn generic_and(last: [u8; 8]) -> Vec<[u8; 8]> {
    let mut packets = generic();
    packets.push(last);
    packets
}

#[test]
fn controller_ids() {
    let controller = KeyboardController::new();
    assert_eq!(controller.vendor_id, 0x048d);
    assert_eq!(controller.product_id, 0xce00);
    assert_eq!(VENDOR_ID, 0x048d);
    assert_eq!(PRODUCT_ID, 0xce00);
}

#[test]
fn mono_packets() {
    let packets = KeyboardController::new().mono(0x12, 0x34, 0x56, 0x16, 0);
    assert_eq!(
        packets,
        vec![
            [0x14, 0x00, 0x01, 0x12, 0x34, 0x56, 0x00, 0x00],
            [0x14, 0x00, 0x02, 0x12, 0x34, 0x56, 0x00, 0x00],
            [0x14, 0x00, 0x03, 0x12, 0x34, 0x56, 0x00, 0x00],
            [0x14, 0x00, 0x04, 0x12, 0x34, 0x56, 0x00, 0x00],
            [0x08, 0x02, 0x01, 0x05, 0x16, 0x08, 0x00, 0x00],
        ]
    );
}

#[test]
fn mono_packets_carry_brightness_and_save() {
    let packets = KeyboardController::new().mono(0xff, 0x00, 0x80, 0x32, 1);
    assert_eq!(packets.len(), 5);
    assert_eq!(packets[0], [0x14, 0x00, 0x01, 0xff, 0x00, 0x80, 0x00, 0x00]);
    assert_eq!(packets[3], [0x14, 0x00, 0x04, 0xff, 0x00, 0x80, 0x00, 0x00]);
    assert_eq!(packets[4], [0x08, 0x02, 0x01, 0x05, 0x32, 0x08, 0x00, 0x01]);
}

#[test]
fn breath_packets() {
    let packets = KeyboardController::new().breath(0x07, 0x24, 1);
    assert_eq!(packets, generic_and([0x08, 0x02, 0x02, 0x07, 0x24, 0x08, 0x00, 0x01]));
}

#[test]
fn wave_packets() {
    let packets = KeyboardController::new().wave(0x0a, 0x02, 0x08, 0);
    assert_eq!(packets, generic_and([0x08, 0x02, 0x03, 0x0a, 0x08, 0x08, 0x02, 0x00]));
    let packets = KeyboardController::new().wave(0x01, 0x01, 0x32, 1);
    assert_eq!(packets, generic_and([0x08, 0x02, 0x03, 0x01, 0x32, 0x08, 0x01, 0x01]));
}

#[test]
fn rainbow_packets() {
    let packets = KeyboardController::new().rainbow(0x16, 1);
    assert_eq!(
        packets,
        vec![
            [0x14, 0x00, 0x01, 0xff, 0x00, 0x00, 0x00, 0x00],
            [0x14, 0x00, 0x02, 0x00, 0xb4, 0x00, 0x00, 0x00],
            [0x14, 0x00, 0x03, 0x00, 0x00, 0xff, 0x00, 0x00],
            [0x14, 0x00, 0x04, 0xff, 0x00, 0xff, 0x00, 0x00],
            [0x08, 0x02, 0x05, 0x05, 0x16, 0x08, 0x00, 0x01],
        ]
    );
}

#[test]
fn flash_packets() {
    let packets = KeyboardController::new().flash(0x05, 0x01, 0x00, 0);
    assert_eq!(packets, generic_and([0x08, 0x02, 0x12, 0x05, 0x00, 0x08, 0x01, 0x00]));
}

#[test]
fn mix_packets() {
    let packets = KeyboardController::new().mix(0x03, 0x32, 0);
    assert_eq!(packets, generic_and([0x08, 0x02, 0x13, 0x03, 0x32, 0x08, 0x00, 0x00]));
}

#[test]
fn disable_packet() {
    let packets = KeyboardController::new().disable();
    assert_eq!(packets, vec![[0x08, 0x01, 0x00, 0x00, 0x00, 0x00, 0x00, 0x00]]);
}

#[test]
fn packets_do_not_depend_on_the_ids() {
    let other = KeyboardController { vendor_id: 1, product_id: 2 };
    assert_eq!(other.disable(), KeyboardController::new().disable());
    assert_eq!(other.mix(0x03, 0x32, 0), KeyboardController::new().mix(0x03, 0x32, 0));
}
