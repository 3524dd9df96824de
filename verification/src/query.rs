//! Free text on its way into a query string.

use vstd::prelude::*;
use vstd::string::*;

verus! {

/// The bytes that stand for themselves in a query string: ASCII letters and
/// digits, `-`, `.`, `_` and `~`.
pub open spec fn is_unreserved(byte: u8) -> bool {
    ||| 0x30 <= byte <= 0x39
    ||| 0x41 <= byte <= 0x5a
    ||| 0x61 <= byte <= 0x7a
    ||| byte == 0x2d
    ||| byte == 0x2e
    ||| byte == 0x5f
    ||| byte == 0x7e
}

/// The uppercase hexadecimal digit of a value below sixteen.
pub open spec fn upper_hex_digit(nibble: int) -> char {
    if nibble < 10 {
        ('0' as int + nibble) as char
    } else {
        ('A' as int + nibble - 10) as char
    }
}

/// One byte as it appears in a query string: itself, or `%` and two digits.
pub open spec fn percent_encoded_byte(byte: u8) -> Seq<char> {
    if is_unreserved(byte) {
        seq![byte as char]
    } else {
        seq!['%', upper_hex_digit(byte as int / 16), upper_hex_digit(byte as int % 16)]
    }
}

/// A run of bytes as it appears in a query string.
pub open spec fn percent_encoded(bytes: Seq<u8>) -> Seq<char>
    decreases bytes.len(),
{
    if bytes.len() == 0 {
        Seq::empty()
    } else {
        percent_encoded(bytes.drop_last()) + percent_encoded_byte(bytes.last())
    }
}

/// A character that cannot end or split a query parameter.
pub open spec fn is_query_safe(c: char) -> bool {
    ||| '0' <= c <= '9'
    ||| 'A' <= c <= 'Z'
    ||| 'a' <= c <= 'z'
    ||| c == '-'
    ||| c == '.'
    ||| c == '_'
    ||| c == '~'
    ||| c == '%'
}

/// `urlencoding::encode`, with the result as an owned string.
///
/// Trusted: the result is the UTF-8 bytes of `text` in order, each
/// unreserved byte as it is and every other byte as `%` and its two
/// uppercase hexadecimal digits.
#[verifier::external_body]
pub(crate) fn percent_encode(text: &str) -> (encoded: String)
    ensures
        encoded@ == percent_encoded(text.spec_bytes()),
{
    urlencoding::encode(text).into_owned()
}

/// Whatever the text, its encoding holds no character that could end the
/// parameter, begin another, or leave the query: no `&`, `=`, `#`, `?`, `/`,
/// no space, nothing outside ASCII.
pub proof fn lemma_percent_encoded_is_query_safe(bytes: Seq<u8>)
    ensures
        forall|i: int|
            0 <= i < percent_encoded(bytes).len() ==> is_query_safe(
                #[trigger] percent_encoded(bytes)[i],
            ),
    decreases bytes.len(),
{
    if bytes.len() > 0 {
        lemma_percent_encoded_is_query_safe(bytes.drop_last());
        let head = percent_encoded(bytes.drop_last());
        let tail = percent_encoded_byte(bytes.last());
        assert forall|i: int| 0 <= i < percent_encoded(bytes).len() implies is_query_safe(
            #[trigger] percent_encoded(bytes)[i],
        ) by {
            if i >= head.len() {
                assert(percent_encoded(bytes)[i] == tail[i - head.len()]);
            }
        }
    }
}

} // verus!
