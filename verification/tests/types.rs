use fecc_core::types::{Fixed, HexError, Point, Rgba, FIXED_ONE};

#[test]
fn test_rgba_from_hex_valid_6() {
    let colour = Rgba::from_hex("#FF0000").unwrap();
    assert_eq!(colour, Rgba::new(255, 0, 0, 255));

    let colour = Rgba::from_hex("00FF00").unwrap();
    assert_eq!(colour, Rgba::new(0, 255, 0, 255));
}

#[test]
fn test_rgba_from_hex_valid_8() {
    let colour = Rgba::from_hex("#0000FF80").unwrap();
    assert_eq!(colour, Rgba::new(0, 0, 255, 128));
}

#[test]
fn test_rgba_from_hex_invalid() {
    assert!(Rgba::from_hex("#ZZZZZZ").is_err()); // Invalid chars
    assert!(Rgba::from_hex("#123").is_err()); // Invalid length
    assert!(Rgba::from_hex("").is_err()); // Empty
}

#[test]
fn test_rgba_from_into_array() {
    let arr = [10, 20, 30, 40];
    let colour: Rgba = arr.into();
    assert_eq!(colour, Rgba::new(10, 20, 30, 40));

    let arr2: [u8; 4] = colour.into();
    assert_eq!(arr2, arr);
}

#[test]
fn from_hex_reads_eight_digits_without_hash() {
    assert_eq!(Rgba::from_hex("0000FF80"), Ok(Rgba::new(0, 0, 255, 128)));
}

#[test]
fn from_hex_reads_either_case() {
    assert_eq!(Rgba::from_hex("ff00aa"), Ok(Rgba::new(255, 0, 170, 255)));
    assert_eq!(Rgba::from_hex("#AbCdEf01"), Ok(Rgba::new(0xab, 0xcd, 0xef, 0x01)));
    assert_eq!(Rgba::from_hex("09afAF"), Ok(Rgba::new(0x09, 0xaf, 0xaf, 255)));
}

#[test]
fn from_hex_reports_the_length_it_found() {
    assert_eq!(Rgba::from_hex("#123"), Err(HexError::InvalidLength { found: 3 }));
    assert_eq!(Rgba::from_hex(""), Err(HexError::InvalidLength { found: 0 }));
    assert_eq!(Rgba::from_hex("#"), Err(HexError::InvalidLength { found: 0 }));
    assert_eq!(Rgba::from_hex("1234567"), Err(HexError::InvalidLength { found: 7 }));
    assert_eq!(Rgba::from_hex("#123456789"), Err(HexError::InvalidLength { found: 9 }));
}

#[test]
fn from_hex_reports_what_is_no_digit() {
    assert_eq!(Rgba::from_hex("#ZZZZZZ"), Err(HexError::InvalidDigit));
    assert_eq!(Rgba::from_hex("12345G"), Err(HexError::InvalidDigit));
    assert_eq!(Rgba::from_hex("+F0000"), Err(HexError::InvalidDigit));
    assert_eq!(Rgba::from_hex("-F0000"), Err(HexError::InvalidDigit));
    assert_eq!(Rgba::from_hex("FF 000"), Err(HexError::InvalidDigit));
    assert_eq!(Rgba::from_hex("é12345"), Err(HexError::InvalidDigit));
}

#[test]
fn from_hex_takes_one_hash_only() {
    assert_eq!(Rgba::from_hex("##FF0000"), Err(HexError::InvalidLength { found: 7 }));
    assert_eq!(Rgba::from_hex("#FF000#"), Err(HexError::InvalidDigit));
    assert_eq!(Rgba::from_hex("##FF000"), Err(HexError::InvalidDigit));
}

#[test]
fn named_colours() {
    assert_eq!(Rgba::black(), Rgba::new(0, 0, 0, 255));
    assert_eq!(Rgba::white(), Rgba::new(255, 255, 255, 255));
    assert_eq!(Rgba::transparent(), Rgba::new(0, 0, 0, 0));
    assert_eq!(Rgba::default(), Rgba::new(0, 0, 0, 0));
}

#[test]
fn fixed_counts_sixty_five_thousandths() {
    assert_eq!(FIXED_ONE, 65536);
    assert_eq!(Fixed::one().raw, 65536);
    assert_eq!(Fixed::zero().raw, 0);
    assert_eq!(Fixed::default().raw, 0);
    assert_eq!(Fixed::from_int(3).raw, 3 * 65536);
    assert_eq!(Fixed::from_int(-2).raw, -2 * 65536);
    assert_eq!(Fixed::from_int(i16::MAX).raw, 32767 * 65536);
    assert_eq!(Fixed::from_int(i16::MIN).raw, i32::MIN);
    assert_eq!(Fixed::from_raw(98304).raw, 98304);
}

#[test]
fn points_hold_what_they_are_given() {
    let p = Point::new(Fixed::from_int(3), Fixed::from_raw(7));
    assert_eq!(p.x, Fixed::from_int(3));
    assert_eq!(p.y.raw, 7);
    assert_eq!(Point::from_pixels(50, -4), Point::new(Fixed::from_int(50), Fixed::from_int(-4)));
    assert_eq!(Point::zero(), Point::from_pixels(0, 0));
    assert_eq!(Point::default(), Point::zero());
}
