use chuckle::hexil::{
    bytes_color, hexil_color, hexil_success_message, invalid_hex_message, strip_hash,
    InvalidHexCode,
};

#[test]
fn hex_codes_decode_to_colors() {
    let r = hexil_color("#ff00AA");
    assert_eq!(r.hex, "ff00AA");
    assert_eq!(r.color, Ok(0xff00aa));
    assert_eq!(hexil_color("f75fa7").color, Ok(0xf75fa7));
    assert_eq!(hexil_color("").color, Ok(0));
}

#[test]
fn long_hex_codes_keep_the_low_32_bits() {
    assert_eq!(hexil_color("0102030405").color, Ok(0x02030405));
    assert_eq!(bytes_color(&vec![0xde, 0xad, 0xbe, 0xef, 0x01]), 0xadbeef01);
}

#[test]
fn invalid_hex_codes_are_refused() {
    assert_eq!(hexil_color("zz").color, Err(InvalidHexCode));
    assert_eq!(hexil_color("abc").color, Err(InvalidHexCode));
    assert_eq!(hexil_color("é0").color, Err(InvalidHexCode));
    assert_eq!(hexil_color("##12#").hex, "12");
}

#[test]
fn hexil_replies() {
    assert_eq!(strip_hash("#a#b"), "ab");
    assert_eq!(invalid_hex_message("zz"), "`#zz` is not a valid hex code.");
    assert_eq!(
        hexil_success_message("ff00aa"),
        "Successfully set your role color to `#ff00aa`."
    );
}
