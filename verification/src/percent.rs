//! Percent-encoding of text for URLs, done by the `percent-encoding` crate.
use vstd::prelude::*;

verus! {

/// An ASCII letter or digit.
pub open spec fn is_ascii_alphanumeric(c: char) -> bool {
    ('0' <= c <= '9') || ('A' <= c <= 'Z') || ('a' <= c <= 'z')
}

/// The upper-case hexadecimal digit for `d` (`0 <= d < 16`).
pub open spec fn hex_digit(d: int) -> char {
    if d < 10 {
        (d + 48) as char
    } else {
        (d + 55) as char
    }
}

/// The UTF-8 encoding of a character.
pub open spec fn utf8_bytes(c: char) -> Seq<int> {
    let v = c as int;
    if v < 0x80 {
        seq![v]
    } else if v < 0x800 {
        seq![0xc0 + v / 64, 0x80 + v % 64]
    } else if v < 0x10000 {
        seq![0xe0 + v / 4096, 0x80 + (v / 64) % 64, 0x80 + v % 64]
    } else {
        seq![0xf0 + v / 262144, 0x80 + (v / 4096) % 64, 0x80 + (v / 64) % 64, 0x80 + v % 64]
    }
}

/// Each byte written as `%` and two upper-case hexadecimal digits.
pub open spec fn percent_bytes(bytes: Seq<int>) -> Seq<char>
    decreases bytes.len(),
{
    if bytes.len() == 0 {
        Seq::<char>::empty()
    } else {
        percent_bytes(bytes.drop_last()) + seq![
            '%',
            hex_digit(bytes.last() / 16),
            hex_digit(bytes.last() % 16),
        ]
    }
}

/// A character encoded with the `NON_ALPHANUMERIC` set: ASCII letters and
/// digits are kept, every other character has each byte of its UTF-8
/// encoding percent-encoded.
pub open spec fn percent_encode_char(c: char) -> Seq<char> {
    if is_ascii_alphanumeric(c) {
        seq![c]
    } else {
        percent_bytes(utf8_bytes(c))
    }
}

/// A text encoded with the `NON_ALPHANUMERIC` set, character by character.
pub open spec fn percent_encode_spec(s: Seq<char>) -> Seq<char>
    decreases s.len(),
{
    if s.len() == 0 {
        Seq::<char>::empty()
    } else {
        percent_encode_spec(s.drop_last()) + percent_encode_char(s.last())
    }
}

/// Trusted: `percent_encoding::utf8_percent_encode(s, NON_ALPHANUMERIC)`
/// written to a string.  The crate's documentation says that it percent-encodes
/// the UTF-8 bytes of `s` that are not ASCII or are in the set, as `%` and two
/// upper-case hexadecimal digits; `NON_ALPHANUMERIC` holds every ASCII byte
/// but the letters and digits.
#[verifier::external_body]
pub(crate) fn percent_encode_non_alphanumeric(s: &str) -> (res: String)
    ensures
        res@ == percent_encode_spec(s@),
{
    percent_encoding::utf8_percent_encode(s, percent_encoding::NON_ALPHANUMERIC).to_string()
}

/// A character that may stand in a URL component as it is: an ASCII letter
/// or digit, or the `%` of an escape.
pub open spec fn url_safe(c: char) -> bool {
    is_ascii_alphanumeric(c) || c == '%'
}

proof fn lemma_percent_bytes_safe(bytes: Seq<int>)
    requires
        forall|i: int| 0 <= i < bytes.len() ==> 0 <= #[trigger] bytes[i] < 256,
    ensures
        forall|i: int|
            0 <= i < percent_bytes(bytes).len() ==> url_safe(#[trigger] percent_bytes(bytes)[i]),
    decreases bytes.len(),
{
    if bytes.len() > 0 {
        let front = bytes.drop_last();
        assert forall|i: int| 0 <= i < front.len() implies 0 <= #[trigger] front[i] < 256 by {
            assert(front[i] == bytes[i]);
        }
        lemma_percent_bytes_safe(front);
        let b = bytes.last();
        assert(0 <= b < 256);
        let hi = b / 16;
        let lo = b % 16;
        assert(0 <= hi < 16);
        assert(0 <= lo < 16);
        assert(url_safe(hex_digit(hi)));
        assert(url_safe(hex_digit(lo)));
        let tail = seq!['%', hex_digit(hi), hex_digit(lo)];
        assert(percent_bytes(bytes) == percent_bytes(front) + tail);
        assert forall|i: int|
            0 <= i < percent_bytes(bytes).len() implies url_safe(
            #[trigger] percent_bytes(bytes)[i],
        ) by {
            if i >= percent_bytes(front).len() {
                assert(percent_bytes(bytes)[i] == tail[i - percent_bytes(front).len()]);
            } else {
                assert(percent_bytes(bytes)[i] == percent_bytes(front)[i]);
            }
        }
    }
}

proof fn lemma_utf8_bytes_in_range(c: char)
    ensures
        forall|i: int| 0 <= i < utf8_bytes(c).len() ==> 0 <= #[trigger] utf8_bytes(c)[i] < 256,
{
    let v = c as int;
    assert(0 <= v <= 0x10ffff);
}

/// Percent-encoding with `NON_ALPHANUMERIC` leaves only ASCII letters, digits
/// and `%` escapes, so an encoded name can stand in a URL parameter.
pub proof fn lemma_percent_encoding_url_safe(s: Seq<char>)
    ensures
        forall|i: int|
            0 <= i < percent_encode_spec(s).len() ==> url_safe(#[trigger] percent_encode_spec(s)[i]),
    decreases s.len(),
{
    if s.len() > 0 {
        lemma_percent_encoding_url_safe(s.drop_last());
        let c = s.last();
        let front = percent_encode_spec(s.drop_last());
        let tail = percent_encode_char(c);
        if !is_ascii_alphanumeric(c) {
            lemma_utf8_bytes_in_range(c);
            lemma_percent_bytes_safe(utf8_bytes(c));
        }
        assert forall|i: int| 0 <= i < tail.len() implies url_safe(#[trigger] tail[i]) by {}
        assert forall|i: int|
            0 <= i < percent_encode_spec(s).len() implies url_safe(
            #[trigger] percent_encode_spec(s)[i],
        ) by {
            if i >= front.len() {
                assert(percent_encode_spec(s)[i] == tail[i - front.len()]);
            } else {
                assert(percent_encode_spec(s)[i] == front[i]);
            }
        }
    }
}

} // verus!
