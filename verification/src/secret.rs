//! Secrets of one launch: random bytes from the operating system, written
//! out as lowercase hexadecimal text.

use rand::RngCore;
use vstd::prelude::*;
use vstd::string::*;
use crate::text::{option_text, push_char, ASCII_ZERO};

verus! {

/// Number of random bytes in a token.
pub const TOKEN_BYTES: usize = 32;

/// Number of random bytes in the name of a token file.
pub const FILE_NAME_BYTES: usize = 16;

/// ASCII code of the letter `a`.
const ASCII_LOWER_A: u8 = 97;

/// One of the sixteen digits `0` to `9` and `a` to `f`.
pub open spec fn is_lower_hex(c: char) -> bool {
    ('0' <= c && c <= '9') || ('a' <= c && c <= 'f')
}

/// Every character is a lowercase hexadecimal digit.
pub open spec fn all_lower_hex(text: Seq<char>) -> bool {
    forall|i: int| 0 <= i < text.len() ==> is_lower_hex(#[trigger] text[i])
}

/// The lowercase hexadecimal digit of a value below sixteen.
pub open spec fn hex_digit(nibble: int) -> char {
    if nibble < 10 {
        ('0' as int + nibble) as char
    } else {
        ('a' as int + nibble - 10) as char
    }
}

/// Two digits for each byte, the high half first.
pub open spec fn hex_encoded(bytes: Seq<u8>) -> Seq<char> {
    Seq::new(
        2 * bytes.len(),
        |i: int|
            if i % 2 == 0 {
                hex_digit(bytes[i / 2] as int / 16)
            } else {
                hex_digit(bytes[i / 2] as int % 16)
            },
    )
}

/// A token: 64 lowercase hexadecimal digits.
pub open spec fn is_token(text: Seq<char>) -> bool {
    text.len() == 2 * TOKEN_BYTES && all_lower_hex(text)
}

/// The random part of a token file's name: 32 lowercase hexadecimal digits.
pub open spec fn is_file_name_component(text: Seq<char>) -> bool {
    text.len() == 2 * FILE_NAME_BYTES && all_lower_hex(text)
}

fn hex_digit_of(nibble: u8) -> (c: char)
    requires
        nibble < 16,
    ensures
        c == hex_digit(nibble as int),
        is_lower_hex(c),
{
    if nibble < 10 {
        (ASCII_ZERO + nibble) as char
    } else {
        (ASCII_LOWER_A + (nibble - 10)) as char
    }
}

/// Writes `bytes` as lowercase hexadecimal text.
pub fn hex_encode(bytes: &[u8]) -> (text: String)
    ensures
        text@ == hex_encoded(bytes@),
{
    let mut text = String::new();
    let mut i: usize = 0;
    while i < bytes.len()
        invariant
            i <= bytes@.len(),
            text@ == hex_encoded(bytes@.take(i as int)),
        decreases bytes@.len() - i,
    {
        let byte = bytes[i];
        push_char(&mut text, hex_digit_of(byte / 16));
        push_char(&mut text, hex_digit_of(byte % 16));
        i += 1;
    }
    text
}

/// `rand::Error`: why the random source failed. Carried through unread.
#[verifier::external_type_specification]
#[verifier::external_body]
pub struct ExRandError(rand::Error);

/// The operating system gave no random bytes. A launch cannot go on without
/// them: a guessable token would defeat the handshake.
pub struct RandomSourceError {
    /// What the random source reported.
    pub cause: rand::Error,
}

/// `RngCore::try_fill_bytes` of `rand::rngs::OsRng` on a fresh buffer of
/// `count` bytes. Trusted: when the call succeeds the buffer, still `count`
/// bytes long, is returned. Nothing is said of the bytes themselves.
#[verifier::external_body]
fn os_random_bytes(count: usize) -> (filled: Result<Vec<u8>, rand::Error>)
    requires
        count <= TOKEN_BYTES,
    ensures
        filled matches Ok(bytes) ==> bytes@.len() == count,
{
    let mut bytes = vec![0u8; count];
    match rand::rngs::OsRng.try_fill_bytes(&mut bytes) {
        Ok(()) => Ok(bytes),
        Err(error) => Err(error),
    }
}

/// `count` bytes from the operating system's random source, as hexadecimal
/// text.
fn random_hex(count: usize) -> (drawn: Result<String, RandomSourceError>)
    requires
        count <= TOKEN_BYTES,
    ensures
        drawn matches Ok(text) ==> text@.len() == 2 * count && all_lower_hex(text@),
{
    let filled = os_random_bytes(count);
    proof {
        match &filled {
            Ok(bytes) => {
                lemma_hex_encoded_shape(bytes@);
            },
            Err(_) => {},
        }
    }
    hex_of_draw(filled)
}

/// Hexadecimal text has two digits for each byte, all of them lowercase.
pub proof fn lemma_hex_encoded_shape(bytes: Seq<u8>)
    ensures
        hex_encoded(bytes).len() == 2 * bytes.len(),
        all_lower_hex(hex_encoded(bytes)),
{
}

/// Different bytes are never written as the same text: two secrets agree
/// only if the random draws behind them agree.
pub proof fn lemma_hex_encoded_injective(first: Seq<u8>, second: Seq<u8>)
    requires
        hex_encoded(first) == hex_encoded(second),
    ensures
        first == second,
{
    assert(first.len() == second.len()) by {
        assert(hex_encoded(first).len() == 2 * first.len());
        assert(hex_encoded(second).len() == 2 * second.len());
    }
    assert forall|k: int| 0 <= k < first.len() implies first[k] == second[k] by {
        let high = hex_encoded(first)[2 * k];
        let low = hex_encoded(first)[2 * k + 1];
        assert(high == hex_digit(first[k] as int / 16));
        assert(high == hex_digit(second[k] as int / 16));
        assert(low == hex_digit(first[k] as int % 16));
        assert(low == hex_digit(second[k] as int % 16));
        lemma_hex_digit_injective(first[k] as int / 16, second[k] as int / 16);
        lemma_hex_digit_injective(first[k] as int % 16, second[k] as int % 16);
    }
    assert(first =~= second);
}

proof fn lemma_hex_digit_injective(a: int, b: int)
    requires
        0 <= a < 16,
        0 <= b < 16,
        hex_digit(a) == hex_digit(b),
    ensures
        a == b,
{
}

/// Generates the token of a launch: 32 random bytes in hexadecimal.
pub fn generate_api_token() -> (token: Result<String, RandomSourceError>)
    ensures
        token matches Ok(text) ==> is_token(text@),
{
    random_hex(TOKEN_BYTES)
}

/// Generates the unguessable part of a token file's name: 16 random bytes
/// in hexadecimal.
pub fn generate_random_filename_component() -> (part: Result<String, RandomSourceError>)
    ensures
        part matches Ok(text) ==> is_file_name_component(text@),
{
    random_hex(FILE_NAME_BYTES)
}

/// What becomes of a draw from the random source: its bytes written as
/// hexadecimal text, or the source's own error handed on.
pub fn hex_of_draw(drawn: Result<Vec<u8>, rand::Error>) -> (text: Result<
    String,
    RandomSourceError,
>)
    ensures
        drawn matches Ok(bytes) ==> (text matches Ok(digits) && digits@ == hex_encoded(bytes@)),
        drawn matches Err(cause) ==> (text matches Err(error) && error.cause == cause),
{
    match drawn {
        Ok(bytes) => Ok(hex_encode(bytes.as_slice())),
        Err(cause) => Err(RandomSourceError { cause }),
    }
}

/// The token of this process: empty until it is first asked for, and the
/// same from then on.
pub struct TokenCell {
    token: Option<String>,
}

impl View for TokenCell {
    type V = Option<Seq<char>>;

    closed spec fn view(&self) -> Option<Seq<char>> {
        option_text(self.token)
    }
}

impl TokenCell {
    #[verifier::type_invariant]
    spec fn holds_a_token(self) -> bool {
        self.token matches Some(text) ==> is_token(text@)
    }

    /// A cell in which no token has been generated yet.
    pub fn new() -> (cell: TokenCell)
        ensures
            cell@ is None,
    {
        TokenCell { token: None }
    }
}

/// The token of this process, generated on the first call and repeated on
/// every later one.
pub fn get_api_token(cell: &mut TokenCell) -> (token: Result<String, RandomSourceError>)
    ensures
        token matches Ok(text) ==> is_token(text@) && final(cell)@ == Some(text@),
        token is Err ==> final(cell)@ is None,
        old(cell)@ is Some ==> token is Ok && final(cell)@ == old(cell)@,
{
    proof {
        use_type_invariant(&*cell);
    }
    match &cell.token {
        Some(text) => Ok(text.clone()),
        None => {
            let fresh = generate_api_token()?;
            cell.token = Some(fresh.clone());
            Ok(fresh)
        },
    }
}

} // verus!
