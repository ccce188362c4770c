//! Small shared helpers for reading values out of the raw ZWO SDK structures:
//! fixed-size NUL-terminated C `char` fields and 8-byte hardware ids.
use vstd::prelude::*;
use vstd::utf8::*;

verus! {

/// What `String::from_utf8_lossy` decodes a byte sequence to: the UTF-8
/// decoding, with each invalid sequence replaced by U+FFFD.
pub uninterp spec fn utf8_lossy(bytes: Seq<u8>) -> Seq<char>;

/// Trusted: `String::from_utf8_lossy(bytes).into_owned()`. The result is the
/// named decoding of `bytes`; where `bytes` is valid UTF-8 it is exactly the
/// UTF-8 decoding (std documents that valid input is returned unchanged).
#[verifier::external_body]
fn string_from_utf8_lossy(bytes: &[u8]) -> (s: String)
    ensures
        s@ == utf8_lossy(bytes@),
        valid_utf8(bytes@) ==> s@ == decode_utf8(bytes@),
{
    String::from_utf8_lossy(bytes).into_owned()
}

/// Trusted: `String::push`, which appends one `char` to the string.
#[verifier::external_body]
fn string_push(s: &mut String, c: char)
    ensures
        final(s)@ == old(s)@.push(c),
{
    s.push(c)
}

/// The bytes of a NUL-terminated C `char` field: every `char` before the
/// first NUL (or the whole buffer if it holds none), each read as its
/// unsigned byte value.
pub open spec fn c_string_bytes(buf: Seq<i8>) -> Seq<u8>
    decreases buf.len(),
{
    if buf.len() == 0 || buf[0] == 0 {
        Seq::empty()
    } else {
        seq![buf[0] as u8] + c_string_bytes(buf.drop_first())
    }
}

/// Read a fixed-size, NUL-terminated C `char` buffer into an owned `String`
/// (lossy on invalid UTF-8).
pub fn c_string_field(buf: &[i8]) -> (s: String)
    ensures
        s@ == utf8_lossy(c_string_bytes(buf@)),
        valid_utf8(c_string_bytes(buf@)) ==> s@ == decode_utf8(c_string_bytes(buf@)),
{
    let mut bytes: Vec<u8> = Vec::new();
    let mut i: usize = 0;
    assert(buf@.skip(0) =~= buf@);
    while i < buf.len() && buf[i] != 0
        invariant
            i <= buf@.len(),
            c_string_bytes(buf@) == bytes@ + c_string_bytes(buf@.skip(i as int)),
        decreases buf@.len() - i,
    {
        let c = buf[i];
        let ghost rest = buf@.skip(i as int);
        assert(rest[0] == c);
        assert(rest.drop_first() =~= buf@.skip(i + 1));
        assert(bytes@.push(c as u8) + c_string_bytes(buf@.skip(i + 1)) =~= bytes@ + (seq![
            c as u8,
        ] + c_string_bytes(buf@.skip(i + 1))));
        bytes.push(c as u8);
        i = i + 1;
    }
    assert(c_string_bytes(buf@.skip(i as int)) =~= Seq::<u8>::empty()) by {
        if i < buf@.len() {
            assert(buf@.skip(i as int)[0] == buf@[i as int]);
        }
    }
    assert(bytes@ + Seq::<u8>::empty() =~= bytes@);
    string_from_utf8_lossy(bytes.as_slice())
}

/// The lowercase hexadecimal digit for `n` (`0 <= n < 16`).
pub open spec fn spec_hex_digit(n: int) -> char {
    if n < 10 {
        (48 + n) as char
    } else {
        (87 + n) as char
    }
}

/// Whether `c` is a lowercase hexadecimal digit.
pub open spec fn is_lower_hex_digit(c: char) -> bool {
    ('0' <= c && c <= '9') || ('a' <= c && c <= 'f')
}

/// Bytes formatted as lowercase hex, two digits per byte, high nibble first.
pub open spec fn spec_hex(bytes: Seq<u8>) -> Seq<char> {
    Seq::new(
        2 * bytes.len(),
        |i: int|
            if i % 2 == 0 {
                spec_hex_digit(bytes[i / 2] as int / 16)
            } else {
                spec_hex_digit(bytes[i / 2] as int % 16)
            },
    )
}

fn hex_digit(n: u8) -> (c: char)
    requires
        n < 16,
    ensures
        c == spec_hex_digit(n as int),
{
    if n < 10 {
        (48 + n) as char
    } else {
        (87 + n) as char
    }
}

/// Format an 8-byte hardware id as a 16-character lowercase hex string.
pub fn hex8(bytes: &[u8; 8]) -> (s: String)
    ensures
        s@ == spec_hex(bytes@),
{
    let mut s = String::new();
    let mut i: usize = 0;
    while i < 8
        invariant
            i <= 8,
            bytes@.len() == 8,
            s@ =~= spec_hex(bytes@).take(2 * i),
        decreases 8 - i,
    {
        let b = bytes[i];
        string_push(&mut s, hex_digit(b / 16));
        string_push(&mut s, hex_digit(b % 16));
        assert(s@ =~= spec_hex(bytes@).take(2 * i + 2));
        i = i + 1;
    }
    assert(spec_hex(bytes@).take(16) =~= spec_hex(bytes@));
    s
}

} // verus!
