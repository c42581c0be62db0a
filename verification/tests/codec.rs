use sd2405al::bcd::{decimal_to_packed_bcd, packed_bcd_to_decimal};
use sd2405al::hours::{
    get_h24, hours_from_register, hours_to_register, is_24h_format, is_am, Hours,
};
use sd2405al::Error;

#[test]
fn can_convert_to_h24() {
    assert_eq!(0, get_h24(Hours::H24(0)));
    assert_eq!(0, get_h24(Hours::AM(0)));
    assert_eq!(12, get_h24(Hours::PM(0)));

    assert_eq!(1, get_h24(Hours::H24(1)));
    assert_eq!(1, get_h24(Hours::AM(1)));
    assert_eq!(13, get_h24(Hours::PM(1)));

    assert_eq!(23, get_h24(Hours::H24(23)));
    assert_eq!(12, get_h24(Hours::AM(12)));
    assert_eq!(23, get_h24(Hours::PM(11)));
}

#[test]
fn h24_reaches_the_top_of_a_byte() {
    assert_eq!(255, get_h24(Hours::PM(243)));
    assert_eq!(255, get_h24(Hours::H24(255)));
}

#[test]
fn bcd_decodes_nibble_by_nibble() {
    assert_eq!(0, packed_bcd_to_decimal(0x00));
    assert_eq!(9, packed_bcd_to_decimal(0x09));
    assert_eq!(10, packed_bcd_to_decimal(0x10));
    assert_eq!(59, packed_bcd_to_decimal(0x59));
    assert_eq!(99, packed_bcd_to_decimal(0x99));
}

#[test]
fn bcd_decodes_what_is_no_bcd() {
    assert_eq!(10, packed_bcd_to_decimal(0x0A));
    assert_eq!(105, packed_bcd_to_decimal(0x9F));
    assert_eq!(100, packed_bcd_to_decimal(0xA0));
    assert_eq!(165, packed_bcd_to_decimal(0xFF));
}

#[test]
fn bcd_encodes_two_digits() {
    assert_eq!(0x00, decimal_to_packed_bcd(0));
    assert_eq!(0x09, decimal_to_packed_bcd(9));
    assert_eq!(0x10, decimal_to_packed_bcd(10));
    assert_eq!(0x59, decimal_to_packed_bcd(59));
    assert_eq!(0x99, decimal_to_packed_bcd(99));
}

#[test]
fn bcd_truncates_the_tens_of_large_numbers() {
    assert_eq!(0xA0, decimal_to_packed_bcd(100));
    assert_eq!(0xF9, decimal_to_packed_bcd(159));
    assert_eq!(0x00, decimal_to_packed_bcd(160));
    assert_eq!(0x95, decimal_to_packed_bcd(255));
}

#[test]
fn bcd_round_trip() {
    for value in 0..=99u8 {
        assert_eq!(value, packed_bcd_to_decimal(decimal_to_packed_bcd(value)));
    }
}

#[test]
fn hours_encode_with_their_flags() {
    assert_eq!(0x80, hours_to_register::<()>(Hours::H24(0)).unwrap());
    assert_eq!(0xA3, hours_to_register::<()>(Hours::H24(23)).unwrap());
    assert_eq!(0x01, hours_to_register::<()>(Hours::AM(1)).unwrap());
    assert_eq!(0x12, hours_to_register::<()>(Hours::AM(12)).unwrap());
    assert_eq!(0x21, hours_to_register::<()>(Hours::PM(1)).unwrap());
    assert_eq!(0x32, hours_to_register::<()>(Hours::PM(12)).unwrap());
}

#[test]
fn hours_out_of_range_are_refused() {
    let refused = [
        Hours::H24(24),
        Hours::H24(255),
        Hours::AM(0),
        Hours::AM(13),
        Hours::PM(0),
        Hours::PM(13),
    ];
    for hours in refused {
        assert!(matches!(
            hours_to_register::<()>(hours),
            Err(Error::InvalidInputData)
        ));
    }
}

#[test]
fn hours_round_trip() {
    for h in 0..=23u8 {
        let data = hours_to_register::<()>(Hours::H24(h)).unwrap();
        assert_eq!(Hours::H24(h), hours_from_register(data));
    }
    for h in 1..=12u8 {
        let am = hours_to_register::<()>(Hours::AM(h)).unwrap();
        assert_eq!(Hours::AM(h), hours_from_register(am));
        let pm = hours_to_register::<()>(Hours::PM(h)).unwrap();
        assert_eq!(Hours::PM(h), hours_from_register(pm));
    }
}

#[test]
fn hours_decode_looks_at_the_24h_bit_first() {
    // Bits 7 and 5 are both set: a 24-hour value whose tens digit is 2.
    assert_eq!(Hours::H24(23), hours_from_register(0xA3));
    assert_eq!(Hours::H24(20), hours_from_register(0xA0));
    assert_eq!(Hours::PM(11), hours_from_register(0x31));
    assert_eq!(Hours::AM(11), hours_from_register(0x11));
    assert_eq!(Hours::AM(0), hours_from_register(0x00));
    assert_eq!(Hours::PM(0), hours_from_register(0x20));
    // Bit 6 belongs to the digits in either form.
    assert_eq!(Hours::AM(40), hours_from_register(0x40));
    assert_eq!(Hours::PM(40), hours_from_register(0x60));
    assert_eq!(Hours::H24(85), hours_from_register(0xFF));
}

#[test]
fn hour_flags_are_read_bit_by_bit() {
    assert!(is_24h_format(0x80));
    assert!(is_24h_format(0xFF));
    assert!(!is_24h_format(0x7F));
    assert!(!is_24h_format(0x00));
    assert!(is_am(0x00));
    assert!(is_am(0x1F));
    assert!(is_am(0x5F));
    assert!(!is_am(0x20));
    assert!(!is_am(0x32));
    assert!(!is_am(0xA0));
}
