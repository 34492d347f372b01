use servo_bus::signmag::{decode_load, decode_speed, encode_load, encode_speed, SignMagnitude};

#[test]
fn speed_with_bit_15_set_is_negative() {
    let field = decode_speed(0x8032);
    assert_eq!(field, SignMagnitude { negative: true, magnitude: 0x0032 });
    assert_eq!(field.value(), -50);
}

#[test]
fn speed_with_bit_15_clear_is_positive() {
    let field = decode_speed(0x0032);
    assert_eq!(field, SignMagnitude { negative: false, magnitude: 50 });
    assert_eq!(field.value(), 50);
}

#[test]
fn speed_extremes() {
    assert_eq!(decode_speed(0x7FFF).value(), 32767);
    assert_eq!(decode_speed(0xFFFF).value(), -32767);
    assert_eq!(decode_speed(0x0000).value(), 0);
}

#[test]
fn negative_zero_keeps_its_sign() {
    let field = decode_speed(0x8000);
    assert!(field.negative);
    assert_eq!(field.magnitude, 0);
    assert_eq!(field.value(), 0);
    assert_eq!(encode_speed(field), 0x8000);
}

#[test]
fn load_with_bit_10_set_is_negative() {
    let field = decode_load(0x0432);
    assert_eq!(field, SignMagnitude { negative: true, magnitude: 0x32 });
    assert_eq!(field.value(), -50);
}

#[test]
fn load_with_bit_10_clear_is_positive() {
    assert_eq!(decode_load(0x03FF).value(), 1023);
    assert_eq!(decode_load(0x0001).value(), 1);
    assert_eq!(decode_load(0x07FF).value(), -1023);
}

#[test]
fn load_ignores_bit_15() {
    let field = decode_load(0x8032);
    assert_eq!(field, SignMagnitude { negative: false, magnitude: 0x32 });
}

#[test]
fn speed_round_trip_over_all_raw_values() {
    let mut raw: u32 = 0;
    while raw <= 0xFFFF {
        let r: u16 = raw as u16;
        assert_eq!(encode_speed(decode_speed(r)), r);
        raw += 1;
    }
}

#[test]
fn load_round_trip_over_the_whole_field() {
    let mut raw: u16 = 0;
    while raw < 0x0800 {
        assert_eq!(encode_load(decode_load(raw)), raw);
        raw += 1;
    }
}

#[test]
fn load_bits_above_the_field_are_dropped() {
    assert_eq!(encode_load(decode_load(0x0800)), 0x0000);
    assert_eq!(encode_load(decode_load(0xFC32)), 0x0432);
}

#[test]
fn magnitudes_stay_within_their_masks() {
    let mut raw: u32 = 0;
    while raw <= 0xFFFF {
        let r: u16 = raw as u16;
        assert!(decode_speed(r).magnitude <= 0x7FFF);
        assert!(decode_load(r).magnitude <= 0x03FF);
        raw += 257;
    }
}

#[test]
fn sign_symbols() {
    assert_eq!(decode_speed(0x8032).sign_symbol(), '-');
    assert_eq!(decode_speed(0x0032).sign_symbol(), '+');
    assert_eq!(decode_load(0x0400).sign_symbol(), '-');
    assert_eq!(decode_load(0x03FF).sign_symbol(), '+');
}

#[test]
fn encode_sets_only_the_sign_bit() {
    assert_eq!(encode_speed(SignMagnitude { negative: true, magnitude: 50 }), 0x8032);
    assert_eq!(encode_speed(SignMagnitude { negative: false, magnitude: 50 }), 0x0032);
    assert_eq!(encode_load(SignMagnitude { negative: true, magnitude: 50 }), 0x0432);
    assert_eq!(encode_load(SignMagnitude { negative: false, magnitude: 50 }), 0x0032);
}
