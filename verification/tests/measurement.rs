use hmc5883l_embed::measurement::{decode_burst, sample_from_bytes};

#[test]
fn sample_of_one() {
    assert_eq!(sample_from_bytes(0x00, 0x01), 1);
}

#[test]
fn sample_of_minus_one() {
    assert_eq!(sample_from_bytes(0xff, 0xff), -1);
}

#[test]
fn sample_of_the_largest() {
    assert_eq!(sample_from_bytes(0x7f, 0xff), 32767);
}

#[test]
fn sample_of_the_smallest() {
    assert_eq!(sample_from_bytes(0x80, 0x00), -32768);
}

#[test]
fn sample_of_other_bytes() {
    assert_eq!(sample_from_bytes(0x00, 0x00), 0);
    assert_eq!(sample_from_bytes(0x01, 0x00), 256);
    assert_eq!(sample_from_bytes(0x12, 0x34), 0x1234);
    assert_eq!(sample_from_bytes(0xf0, 0x60), -4000);
    assert_eq!(sample_from_bytes(0x80, 0x01), -32767);
}

#[test]
fn sample_is_big_endian_twos_complement_for_all_bytes() {
    for hi in 0..=255u8 {
        for lo in 0..=255u8 {
            let raw = hi as i32 * 256 + lo as i32;
            let expected = if raw >= 32768 { raw - 65536 } else { raw };
            assert_eq!(sample_from_bytes(hi, lo) as i32, expected);
            assert_eq!(sample_from_bytes(hi, lo), i16::from_be_bytes([hi, lo]));
        }
    }
}

#[test]
fn burst_is_reordered_to_x_y_z() {
    assert_eq!(decode_burst(&[0x00, 0x0a, 0x00, 0x0b, 0x00, 0x0c]), (10, 12, 11));
}

#[test]
fn burst_with_negative_samples() {
    assert_eq!(
        decode_burst(&[0xff, 0xff, 0x80, 0x00, 0x7f, 0xff]),
        (-1, 32767, -32768)
    );
}
