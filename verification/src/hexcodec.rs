//! Hexadecimal encoding and decoding of byte sequences, and ASCII-whitespace
//! trimming, with exact specifications.
//!
//! Programs enter the pipeline as hex strings; commitments leave it as hex
//! digests. Encoding always produces lower-case digits; decoding accepts
//! either case.

use vstd::prelude::*;
use vstd::utf8::{encode_utf8, is_ascii_chars, is_ascii_chars_encode_utf8};

verus! {

/// ASCII code of a hexadecimal digit (either case).
pub open spec fn is_hex_digit(b: u8) -> bool {
    (48 <= b <= 57) || (97 <= b <= 102) || (65 <= b <= 70)
}

/// Numeric value of a hexadecimal digit.
pub open spec fn nibble_val(b: u8) -> u8
    recommends
        is_hex_digit(b),
{
    if 48 <= b <= 57 {
        (b - 48) as u8
    } else if 97 <= b <= 102 {
        (b - 87) as u8
    } else {
        (b - 55) as u8
    }
}

/// A well-formed hex string: even length, hex digits throughout.
pub open spec fn is_hex_seq(s: Seq<u8>) -> bool {
    s.len() % 2 == 0 && forall|i: int| 0 <= i < s.len() ==> is_hex_digit(#[trigger] s[i])
}

/// The bytes denoted by a hex string, two digits per byte, high nibble first.
pub open spec fn hex_bytes(s: Seq<u8>) -> Seq<u8>
    recommends
        is_hex_seq(s),
    decreases s.len(),
{
    if s.len() < 2 {
        Seq::empty()
    } else {
        seq![(nibble_val(s[0]) * 16 + nibble_val(s[1])) as u8] + hex_bytes(s.skip(2))
    }
}

/// ASCII code of the lower-case hex digit for a nibble.
pub open spec fn hex_digit_ascii(n: u8) -> u8
    recommends
        n < 16,
{
    if n < 10 {
        (48 + n) as u8
    } else {
        (87 + n) as u8
    }
}

/// Lower-case hex encoding of a byte sequence, as ASCII codes.
pub open spec fn hex_ascii_of(data: Seq<u8>) -> Seq<u8>
    decreases data.len(),
{
    if data.len() == 0 {
        Seq::empty()
    } else {
        seq![
            hex_digit_ascii((data[0] / 16) as u8),
            hex_digit_ascii((data[0] % 16) as u8),
        ] + hex_ascii_of(data.drop_first())
    }
}

/// The characters corresponding one-to-one to a sequence of ASCII codes.
pub open spec fn chars_of_ascii(bytes: Seq<u8>) -> Seq<char> {
    bytes.map_values(|b: u8| b as char)
}

/// Lower-case hex encoding of a byte sequence, as characters.
pub open spec fn hex_str_of(data: Seq<u8>) -> Seq<char> {
    chars_of_ascii(hex_ascii_of(data))
}

/// The six ASCII whitespace code points (those `char::is_whitespace` accepts
/// below 0x80).
pub open spec fn is_ascii_ws(b: u8) -> bool {
    b == 32 || (9 <= b <= 13)
}

/// A byte sequence with leading ASCII whitespace removed.
pub open spec fn trim_front(s: Seq<u8>) -> Seq<u8>
    decreases s.len(),
{
    if s.len() > 0 && is_ascii_ws(s.first()) {
        trim_front(s.drop_first())
    } else {
        s
    }
}

/// A byte sequence with trailing ASCII whitespace removed.
pub open spec fn trim_back(s: Seq<u8>) -> Seq<u8>
    decreases s.len(),
{
    if s.len() > 0 && is_ascii_ws(s.last()) {
        trim_back(s.drop_last())
    } else {
        s
    }
}

/// A byte sequence with ASCII whitespace removed from both ends.
pub open spec fn trim_ascii(s: Seq<u8>) -> Seq<u8> {
    trim_back(trim_front(s))
}

/// The reason a byte sequence fails to be a well-formed hex string: an odd
/// number of digits, or (at even length) some byte that is no hex digit.
pub open spec fn hex_fault_spec(s: Seq<u8>) -> Seq<char> {
    if s.len() % 2 != 0 {
        "odd number of digits"@
    } else {
        "invalid character"@
    }
}

/// A one-line reason why a byte sequence is not a well-formed hex string.
pub fn hex_fault_reason(s: &[u8]) -> (r: &'static str)
    ensures
        r@ == hex_fault_spec(s@),
{
    if s.len() % 2 != 0 {
        "odd number of digits"
    } else {
        "invalid character"
    }
}

fn hex_digit_ok(b: u8) -> (r: bool)
    ensures
        r == is_hex_digit(b),
{
    (48 <= b && b <= 57) || (97 <= b && b <= 102) || (65 <= b && b <= 70)
}

fn nibble(b: u8) -> (r: u8)
    requires
        is_hex_digit(b),
    ensures
        r == nibble_val(b),
        r < 16,
{
    if b <= 57 {
        b - 48
    } else if b >= 97 {
        b - 87
    } else {
        b - 55
    }
}

/// Decode a hex string given as ASCII codes; `None` exactly when the input is
/// not a well-formed hex string.
pub fn hex_decode(s: &[u8]) -> (r: Option<Vec<u8>>)
    ensures
        r is Some <==> is_hex_seq(s@),
        r matches Some(v) ==> v@ == hex_bytes(s@) && v@.len() == s@.len() / 2,
{
    let n = s.len();
    if n % 2 != 0 {
        return None;
    }
    let mut out: Vec<u8> = Vec::new();
    let mut i: usize = 0;
    proof {
        assert(s@.skip(0) =~= s@);
        assert(out@ + hex_bytes(s@) =~= hex_bytes(s@));
    }
    while i < n
        invariant
            n == s@.len(),
            n % 2 == 0,
            i % 2 == 0,
            i <= n,
            forall|k: int| 0 <= k < i ==> is_hex_digit(#[trigger] s@[k]),
            hex_bytes(s@) == out@ + hex_bytes(s@.skip(i as int)),
            out@.len() == i / 2,
        decreases n - i,
    {
        let hi = s[i];
        let lo = s[i + 1];
        if !hex_digit_ok(hi) || !hex_digit_ok(lo) {
            return None;
        }
        let b = nibble(hi) * 16 + nibble(lo);
        out.push(b);
        proof {
            assert(s@.skip(i as int).skip(2) =~= s@.skip(i as int + 2));
            assert(hex_bytes(s@.skip(i as int)) == seq![b] + hex_bytes(s@.skip(i as int + 2)));
            assert(out@ + hex_bytes(s@.skip(i as int + 2)) =~= hex_bytes(s@));
        }
        i = i + 2;
    }
    proof {
        assert(s@.skip(n as int) =~= Seq::<u8>::empty());
        assert(out@ =~= hex_bytes(s@));
    }
    Some(out)
}

fn hex_digit_byte(n: u8) -> (r: u8)
    requires
        n < 16,
    ensures
        r == hex_digit_ascii(n),
        r < 128,
{
    if n < 10 {
        48 + n
    } else {
        87 + n
    }
}

/// Relies on `String::from_utf8`: bytes below 0x80 are one-byte UTF-8
/// encodings of the code points of the same value, so the resulting string
/// has exactly those code points as characters.
#[verifier::external_body]
fn ascii_to_string(bytes: Vec<u8>) -> (r: String)
    requires
        forall|i: int| 0 <= i < bytes@.len() ==> bytes@[i] < 128,
    ensures
        r@ == chars_of_ascii(bytes@),
{
    String::from_utf8(bytes).unwrap_or_default()
}

/// Encode bytes as a lower-case hex string, two digits per byte.
pub fn hex_encode(data: &[u8]) -> (r: String)
    ensures
        r@ == hex_str_of(data@),
        r@.len() == 2 * data@.len(),
{
    let n = data.len();
    let mut out: Vec<u8> = Vec::new();
    let mut i: usize = 0;
    proof {
        assert(data@.skip(0) =~= data@);
        assert(out@ + hex_ascii_of(data@) =~= hex_ascii_of(data@));
    }
    while i < n
        invariant
            n == data@.len(),
            i <= n,
            hex_ascii_of(data@) == out@ + hex_ascii_of(data@.skip(i as int)),
            out@.len() == 2 * i,
            forall|k: int| 0 <= k < out@.len() ==> #[trigger] out@[k] < 128,
        decreases n - i,
    {
        let b = data[i];
        out.push(hex_digit_byte(b / 16));
        out.push(hex_digit_byte(b % 16));
        proof {
            assert(data@.skip(i as int).drop_first() =~= data@.skip(i as int + 1));
            assert(hex_ascii_of(data@.skip(i as int)) == seq![
                hex_digit_ascii((b / 16) as u8),
                hex_digit_ascii((b % 16) as u8),
            ] + hex_ascii_of(data@.skip(i as int + 1)));
            assert(out@ + hex_ascii_of(data@.skip(i as int + 1)) =~= hex_ascii_of(data@));
        }
        i = i + 1;
    }
    proof {
        assert(data@.skip(n as int) =~= Seq::<u8>::empty());
        assert(out@ =~= hex_ascii_of(data@));
        lemma_hex_ascii_len(data@);
    }
    ascii_to_string(out)
}

/// The hex encoding of a byte sequence has two digits per byte.
pub proof fn lemma_hex_ascii_len(data: Seq<u8>)
    ensures
        hex_ascii_of(data).len() == 2 * data.len(),
    decreases data.len(),
{
    if data.len() > 0 {
        lemma_hex_ascii_len(data.drop_first());
    }
}

/// Remove ASCII whitespace from both ends of a byte slice.
pub fn trim_bytes(s: &[u8]) -> (r: &[u8])
    ensures
        r@ == trim_ascii(s@),
{
    let n = s.len();
    let mut i: usize = 0;
    proof {
        assert(s@.skip(0) =~= s@);
    }
    while i < n && is_ws(s[i])
        invariant
            n == s@.len(),
            i <= n,
            trim_front(s@) == trim_front(s@.skip(i as int)),
        decreases n - i,
    {
        proof {
            assert(s@.skip(i as int).drop_first() =~= s@.skip(i as int + 1));
        }
        i = i + 1;
    }
    proof {
        if i < n {
            assert(trim_front(s@.skip(i as int)) == s@.skip(i as int));
        } else {
            assert(s@.skip(i as int) =~= Seq::<u8>::empty());
        }
    }
    let mut j: usize = n;
    while j > i && is_ws(s[j - 1])
        invariant
            i <= j <= n,
            n == s@.len(),
            trim_front(s@) == s@.skip(i as int),
            trim_back(s@.subrange(i as int, n as int)) == trim_back(s@.subrange(i as int, j as int)),
        decreases j,
    {
        proof {
            assert(s@.subrange(i as int, j as int).drop_last() =~= s@.subrange(i as int, j as int - 1));
        }
        j = j - 1;
    }
    proof {
        if j > i {
            assert(trim_back(s@.subrange(i as int, j as int)) == s@.subrange(i as int, j as int));
        } else {
            assert(s@.subrange(i as int, j as int) =~= Seq::<u8>::empty());
        }
        assert(s@.skip(i as int) =~= s@.subrange(i as int, n as int));
    }
    vstd::slice::slice_subrange(s, i, j)
}

fn is_ws(b: u8) -> (r: bool)
    ensures
        r == is_ascii_ws(b),
{
    b == 32 || (9 <= b && b <= 13)
}

/// Every code in the hex encoding of a byte sequence is a lower-case hex
/// digit's ASCII code.
pub proof fn lemma_hex_ascii_digits(data: Seq<u8>)
    ensures
        forall|i: int| 0 <= i < hex_ascii_of(data).len() ==> is_hex_digit(
            #[trigger] hex_ascii_of(data)[i],
        ),
    decreases data.len(),
{
    if data.len() > 0 {
        lemma_hex_ascii_digits(data.drop_first());
        let e = hex_ascii_of(data);
        let rest = hex_ascii_of(data.drop_first());
        assert forall|i: int| 0 <= i < e.len() implies is_hex_digit(#[trigger] e[i]) by {
            if i >= 2 {
                assert(e[i] == rest[i - 2]);
            }
        }
    }
}

/// A sequence of bytes below 0x80 and the character sequence it stands for
/// denote each other: the characters are ASCII and their UTF-8 encoding is
/// the original bytes.
pub proof fn lemma_ascii_chars_bytes(bytes: Seq<u8>)
    requires
        forall|i: int| 0 <= i < bytes.len() ==> #[trigger] bytes[i] < 128,
    ensures
        is_ascii_chars(chars_of_ascii(bytes)),
        encode_utf8(chars_of_ascii(bytes)) =~= bytes,
{
    let chars = chars_of_ascii(bytes);
    assert forall|i: int| 0 <= i < chars.len() implies '\0' <= #[trigger] chars[i]
        <= '\u{7f}' by {
        assert(chars[i] == bytes[i] as char);
    }
    is_ascii_chars_encode_utf8(chars);
    assert forall|i: int| 0 <= i < bytes.len() implies encode_utf8(chars)[i]
        == #[trigger] bytes[i] by {
        assert(chars[i] as u8 == encode_utf8(chars)[i]);
        assert((bytes[i] as char) as u8 == bytes[i]);
    }
}

/// The hex encoding of a byte sequence, read back as UTF-8, is exactly its
/// ASCII codes, and holds no whitespace to trim.
pub proof fn lemma_hex_str_bytes(data: Seq<u8>)
    ensures
        is_ascii_chars(hex_str_of(data)),
        encode_utf8(hex_str_of(data)) =~= hex_ascii_of(data),
        trim_ascii(hex_ascii_of(data)) == hex_ascii_of(data),
{
    lemma_hex_ascii_digits(data);
    lemma_ascii_chars_bytes(hex_ascii_of(data));
    lemma_trim_no_ws(hex_ascii_of(data));
}

/// Trimming leaves a sequence without ASCII whitespace at its ends unchanged.
pub proof fn lemma_trim_no_ws(s: Seq<u8>)
    requires
        s.len() > 0 ==> !is_ascii_ws(s.first()) && !is_ascii_ws(s.last()),
    ensures
        trim_ascii(s) == s,
{
}

/// Decoding inverts encoding: the hex encoding of any byte sequence is a
/// well-formed hex string that decodes back to the same bytes.
pub proof fn lemma_hex_round_trip(data: Seq<u8>)
    ensures
        is_hex_seq(hex_ascii_of(data)),
        hex_bytes(hex_ascii_of(data)) == data,
    decreases data.len(),
{
    lemma_hex_ascii_len(data);
    lemma_hex_ascii_digits(data);
    if data.len() == 0 {
        assert(hex_bytes(hex_ascii_of(data)) =~= data);
    } else {
        lemma_hex_round_trip(data.drop_first());
        let e = hex_ascii_of(data);
        assert(e.skip(2) =~= hex_ascii_of(data.drop_first()));
        assert(nibble_val(e[0]) == data[0] / 16 && nibble_val(e[1]) == data[0] % 16);
        assert(hex_bytes(e) =~= data);
    }
}

} // verus!
