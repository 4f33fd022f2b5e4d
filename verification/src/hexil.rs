//! Custom role colors from hex codes.
use vstd::prelude::*;
use crate::text::{chars_of, push_char};

verus! {

/// The text with every `#` removed.
pub open spec fn without_hash(s: Seq<char>) -> Seq<char>
    decreases s.len(),
{
    if s.len() == 0 {
        s
    } else if s.last() == '#' {
        without_hash(s.drop_last())
    } else {
        without_hash(s.drop_last()).push(s.last())
    }
}

/// The value of a hex digit, either case.
pub open spec fn hex_digit(c: char) -> Option<nat> {
    if '0' <= c && c <= '9' {
        Some((c as nat - '0' as nat) as nat)
    } else if 'a' <= c && c <= 'f' {
        Some((c as nat - 'a' as nat + 10) as nat)
    } else if 'A' <= c && c <= 'F' {
        Some((c as nat - 'A' as nat + 10) as nat)
    } else {
        None
    }
}

/// The bytes that a hex text denotes: two digits per byte, high digit first.
/// `None` when the text has an odd length or a character that is no hex digit.
pub open spec fn hex_decode(s: Seq<char>) -> Option<Seq<u8>>
    decreases s.len(),
{
    if s.len() % 2 != 0 {
        None
    } else if s.len() == 0 {
        Some(Seq::empty())
    } else {
        match (hex_digit(s[0]), hex_digit(s[1]), hex_decode(s.subrange(2, s.len() as int))) {
            (Some(hi), Some(lo), Some(rest)) => Some(seq![(hi * 16 + lo) as u8] + rest),
            _ => None,
        }
    }
}

/// The error of `hex::decode`.
#[verifier::external_type_specification]
#[verifier::external_body]
pub struct ExFromHexError(hex::FromHexError);

/// Decodes a hex text into bytes (`hex::decode`). The crate reads the text's
/// bytes; as any byte of a character outside ASCII is no hex digit, reading
/// its characters gives the same verdict, and the same bytes.
#[verifier::external_body]
fn decode_hex(s: &str) -> (res: Result<Vec<u8>, hex::FromHexError>)
    ensures
        res is Ok <==> hex_decode(s@) is Some,
        res matches Ok(bytes) ==> hex_decode(s@) == Some(bytes@),
{
    hex::decode(s)
}

/// The color that a role gets from the bytes of a hex code: the bytes read as
/// a big-endian number, of which a 32-bit integer keeps the low 32 bits.
pub open spec fn color_of(bytes: Seq<u8>) -> nat
    decreases bytes.len(),
{
    if bytes.len() == 0 {
        0
    } else {
        ((color_of(bytes.drop_last()) * 256 + bytes.last()) % 0x1_0000_0000) as nat
    }
}

/// A hex code that did not decode.
#[derive(Debug, Clone, Copy, PartialEq, Eq)]
pub struct InvalidHexCode;

/// What `hexil` reads from its input: the code without `#`, and the color,
/// if the code is valid hex.
pub struct HexilInput {
    pub hex: String,
    pub color: Result<u32, InvalidHexCode>,
}

/// Removes every `#` from a text.
pub fn strip_hash(s: &str) -> (res: String)
    ensures
        res@ == without_hash(s@),
{
    let cs = chars_of(s);
    let mut res = String::new();
    let mut i: usize = 0;
    while i < cs.len()
        invariant
            i <= cs@.len(),
            cs@ == s@,
            res@ == without_hash(cs@.take(i as int)),
        decreases cs@.len() - i,
    {
        assert(cs@.take(i + 1).drop_last() =~= cs@.take(i as int));
        if cs[i] != '#' {
            push_char(&mut res, cs[i]);
        }
        i = i + 1;
    }
    assert(cs@.take(i as int) =~= cs@);
    res
}

proof fn lemma_shift_byte(acc: u32, x: u8)
    ensures
        (acc << 8u32) as int + x as int <= u32::MAX,
        ((acc << 8u32) + x as u32) as int == (acc as int * 256 + x as int) % 0x1_0000_0000,
{
    assert((acc << 8u32) as int + x as int <= u32::MAX) by (bit_vector);
    assert(((acc << 8u32) + x as u32) as int == (acc as int * 256 + x as int) % 0x1_0000_0000)
        by (bit_vector);
}

/// The color of a run of bytes, as `hexil` computes it.
pub fn bytes_color(bytes: &Vec<u8>) -> (res: u32)
    ensures
        res as nat == color_of(bytes@),
{
    let mut acc: u32 = 0;
    let mut i: usize = 0;
    while i < bytes.len()
        invariant
            i <= bytes@.len(),
            acc as nat == color_of(bytes@.take(i as int)),
        decreases bytes@.len() - i,
    {
        assert(bytes@.take(i + 1).drop_last() =~= bytes@.take(i as int));
        proof {
            lemma_shift_byte(acc, bytes@[i as int]);
        }
        acc = (acc << 8u32) + (bytes[i] as u32);
        i = i + 1;
    }
    assert(bytes@.take(i as int) =~= bytes@);
    acc
}

/// Reads the input of `hexil`: strips every `#`, then decodes the rest as
/// hex and computes the role color from its bytes.
pub fn hexil_color(input: &str) -> (res: HexilInput)
    ensures
        res.hex@ == without_hash(input@),
        match hex_decode(without_hash(input@)) {
            Some(bytes) => res.color == Ok::<u32, InvalidHexCode>(color_of(bytes) as u32),
            None => res.color == Err::<u32, InvalidHexCode>(InvalidHexCode),
        },
{
    let hex = strip_hash(input);
    let color = match decode_hex(hex.as_str()) {
        Ok(bytes) => Ok(bytes_color(&bytes)),
        Err(_) => Err(InvalidHexCode),
    };
    HexilInput { hex, color }
}

/// `` `#{hex}` is not a valid hex code.``
pub fn invalid_hex_message(hex: &str) -> (res: String)
    ensures
        res@ == "`#"@ + hex@ + "` is not a valid hex code."@,
{
    let mut res = String::new();
    res.append("`#");
    res.append(hex);
    res.append("` is not a valid hex code.");
    assert(res@ =~= "`#"@ + hex@ + "` is not a valid hex code."@);
    res
}

/// ``Successfully set your role color to `#{hex}`.``
pub fn hexil_success_message(hex: &str) -> (res: String)
    ensures
        res@ == "Successfully set your role color to `#"@ + hex@ + "`."@,
{
    let mut res = String::new();
    res.append("Successfully set your role color to `#");
    res.append(hex);
    res.append("`.");
    assert(res@ =~= "Successfully set your role color to `#"@ + hex@ + "`."@);
    res
}

} // verus!
