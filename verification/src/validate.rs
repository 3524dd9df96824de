//! Account identifiers, and the guard that every request path carrying one
//! has to pass.

use vstd::prelude::*;
use vstd::string::*;
use crate::secret::{all_lower_hex, is_lower_hex};

verus! {

/// Number of characters in an account identifier.
pub const ACCOUNT_ID_LENGTH: usize = 8;

/// The shape of an account identifier, as a pattern of the `regex` crate.
pub const ACCOUNT_ID_PATTERN: &'static str = "^[0-9a-f]{8}$";

/// An account identifier: exactly eight lowercase hexadecimal digits.
pub open spec fn is_account_id(text: Seq<char>) -> bool {
    text.len() == ACCOUNT_ID_LENGTH && all_lower_hex(text)
}

/// What the caller is told about a rejected identifier.
pub open spec fn invalid_account_id_message(account_id: Seq<char>) -> Seq<char> {
    "Invalid account_id format: expected 8 lowercase hex characters, got '"@ + account_id + "'"@
}

/// `regex::Error`: why a pattern did not compile. Carried through unread.
#[verifier::external_type_specification]
#[verifier::external_body]
pub struct ExRegexError(regex::Error);

/// `regex::Regex::new` on `pattern`, then `Regex::is_match` on `haystack`.
///
/// Trusted, of `ACCOUNT_ID_PATTERN` alone: the pattern compiles, and a
/// haystack matches it exactly when it is an account identifier. In the
/// crate's syntax `^` and `$` stand for the two ends of the haystack,
/// `[0-9a-f]` for one character of those two ranges, and `{8}` for exactly
/// eight of them. Nothing is claimed of any other pattern.
#[verifier::external_body]
fn regex_is_match(pattern: &str, haystack: &str) -> (found: Result<bool, regex::Error>)
    ensures
        pattern@ == ACCOUNT_ID_PATTERN@ ==> found is Ok,
        pattern@ == ACCOUNT_ID_PATTERN@ ==> (found matches Ok(hit) ==> hit == is_account_id(
            haystack@
        )),
{
    match regex::Regex::new(pattern) {
        Ok(compiled) => Ok(compiled.is_match(haystack)),
        Err(error) => Err(error),
    }
}

/// Accepts `account_id` if it is exactly eight lowercase hexadecimal digits,
/// and says what is wrong with it otherwise.
pub fn validate_account_id(account_id: &str) -> (verdict: Result<(), String>)
    ensures
        verdict is Ok <==> is_account_id(account_id@),
        verdict matches Err(message) ==> message@ == invalid_account_id_message(account_id@),
{
    match regex_is_match(ACCOUNT_ID_PATTERN, account_id) {
        Ok(true) => Ok(()),
        _ => {
            let mut message = String::from_str(
                "Invalid account_id format: expected 8 lowercase hex characters, got '",
            );
            message.append(account_id);
            message.append("'");
            Err(message)
        },
    }
}

/// An accepted identifier is one path segment and nothing more: it is
/// plain ASCII and holds no `/`, `\\`, `.`, `?`, `#`, `%` or `&`, no `=` and
/// no space.
pub proof fn lemma_account_id_is_one_path_segment(account_id: Seq<char>)
    requires
        is_account_id(account_id),
    ensures
        vstd::utf8::is_ascii_chars(account_id),
        !account_id.contains('/'),
        !account_id.contains('\\'),
        !account_id.contains('.'),
        !account_id.contains('?'),
        !account_id.contains('#'),
        !account_id.contains('%'),
        !account_id.contains('&'),
        !account_id.contains('='),
        !account_id.contains(' '),
{
    assert forall|i: int| 0 <= i < account_id.len() implies is_lower_hex(
        #[trigger] account_id[i],
    ) by {}
}

} // verus!
