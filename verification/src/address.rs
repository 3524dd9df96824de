//! Where the backend listens: the default loopback address, and the rule by
//! which an override from the environment is accepted or silently dropped.

use vstd::prelude::*;
use vstd::string::*;
use crate::text::{
    all_decimal_digits, ascii_starts_with, decimal_value, is_decimal_digit,
    lemma_ascii_bytes_are_chars, lemma_decimal_value_push, spells, ASCII_NINE, ASCII_ZERO,
};

verus! {

/// Base URL used when no acceptable override is present.
pub const DEFAULT_API_URL: &'static str = "http://127.0.0.1:1455";

/// Variable through which the environment may override the base URL.
pub const API_URL_VARIABLE: &'static str = "AICAP_API_URL";

/// First accepted form of an override, up to the port.
pub const LOCALHOST_PREFIX: &'static str = "http://localhost:";

/// Second accepted form of an override, up to the port.
pub const LOOPBACK_PREFIX: &'static str = "http://127.0.0.1:";

/// A port: one or more decimal digits whose value lies in 1..=65535.
pub open spec fn is_port_text(text: Seq<char>) -> bool {
    &&& text.len() > 0
    &&& all_decimal_digits(text)
    &&& 1 <= decimal_value(text) <= 65535
}

/// `url` is `prefix` followed by a port and nothing else.
pub open spec fn is_prefix_and_port(url: Seq<char>, prefix: Seq<char>) -> bool {
    &&& prefix.is_prefix_of(url)
    &&& is_port_text(url.skip(prefix.len() as int))
}

/// The shape of a base URL that a hardened build accepts:
/// `http://localhost:<port>` or `http://127.0.0.1:<port>`.
pub open spec fn is_loopback_base_url(url: Seq<char>) -> bool {
    is_prefix_and_port(url, LOCALHOST_PREFIX@) || is_prefix_and_port(url, LOOPBACK_PREFIX@)
}

/// `min(value, 65536)`: a port number as far as it matters whether it fits.
spec fn capped(value: nat) -> nat {
    if value <= 65535 {
        value
    } else {
        65536
    }
}

/// Whether the characters of `text` from index `from` on are a port.
fn is_port_from(text: &str, from: usize) -> (ok: bool)
    requires
        is_ascii(text),
        from <= text@.len(),
    ensures
        ok == is_port_text(text@.skip(from as int)),
{
    let bytes = text.as_bytes();
    proof {
        lemma_ascii_bytes_are_chars(text);
    }
    let n = bytes.len();
    if from >= n {
        return false;
    }
    let ghost port = text@.skip(from as int);
    let mut value: u32 = 0;
    let mut i: usize = from;
    while i < n
        invariant
            from <= i <= n,
            n == bytes@.len(),
            spells(bytes@, text@),
            port == text@.skip(from as int),
            all_decimal_digits(port.take(i - from)),
            value == capped(decimal_value(port.take(i - from))),
        decreases n - i,
    {
        let byte = bytes[i];
        if byte < ASCII_ZERO || byte > ASCII_NINE {
            proof {
                assert(port[i - from] == text@[i as int]);
            }
            return false;
        }
        let digit = (byte - ASCII_ZERO) as u32;
        proof {
            let c = port[i - from];
            assert(port.take(i + 1 - from) =~= port.take(i - from).push(c));
            lemma_decimal_value_push(port.take(i - from), c);
        }
        value = if value > 65535 {
            65536
        } else {
            let next = value * 10 + digit;
            if next > 65535 {
                65536
            } else {
                next
            }
        };
        i += 1;
    }
    proof {
        assert(port.take(n - from) =~= port);
    }
    1 <= value && value <= 65535
}

/// Whether `url` is `prefix` and then a port.
fn port_follows(url: &str, prefix: &str) -> (ok: bool)
    requires
        is_ascii(url),
        is_ascii(prefix),
    ensures
        ok == is_prefix_and_port(url@, prefix@),
{
    ascii_starts_with(url, prefix) && is_port_from(url, prefix.unicode_len())
}

/// A URL of the accepted shape is plain ASCII.
pub proof fn lemma_loopback_base_url_is_ascii(url: Seq<char>)
    requires
        is_loopback_base_url(url),
    ensures
        vstd::utf8::is_ascii_chars(url),
{
    reveal_strlit("http://localhost:");
    reveal_strlit("http://127.0.0.1:");
    let prefix = if is_prefix_and_port(url, LOCALHOST_PREFIX@) {
        LOCALHOST_PREFIX@
    } else {
        LOOPBACK_PREFIX@
    };
    let port = url.skip(prefix.len() as int);
    assert forall|i: int| 0 <= i < url.len() implies '\0' <= #[trigger] url[i] <= '\u{7f}' by {
        if i < prefix.len() {
            assert(url[i] == url.subrange(0, prefix.len() as int)[i]);
        } else {
            assert(url[i] == port[i - prefix.len()]);
            assert(is_decimal_digit(port[i - prefix.len()]));
        }
    }
}

/// Whether a hardened build accepts `url` as an override of the base URL.
pub fn is_allowed_release_url(url: &str) -> (allowed: bool)
    ensures
        allowed == is_loopback_base_url(url@),
{
    proof {
        reveal_strlit("http://localhost:");
        reveal_strlit("http://127.0.0.1:");
    }
    if !url.is_ascii() {
        proof {
            if is_loopback_base_url(url@) {
                lemma_loopback_base_url_is_ascii(url@);
            }
        }
        return false;
    }
    port_follows(url, LOCALHOST_PREFIX) || port_follows(url, LOOPBACK_PREFIX)
}

/// The base URL that results from an optional override.
///
/// A development build takes any override as it is. A hardened build takes
/// it only in the accepted shape, and the default in every other case.
pub open spec fn resolved_base_url(override_url: Option<Seq<char>>, hardened: bool) -> Seq<char> {
    match override_url {
        Some(url) if !hardened || is_loopback_base_url(url) => url,
        _ => DEFAULT_API_URL@,
    }
}

/// The default base URL has the shape that a hardened build accepts.
pub proof fn lemma_default_is_loopback_base_url()
    ensures
        is_loopback_base_url(DEFAULT_API_URL@),
{
    reveal_strlit("http://127.0.0.1:1455");
    reveal_strlit("http://127.0.0.1:");
    reveal_with_fuel(decimal_value, 5);
    assert(decimal_value(DEFAULT_API_URL@.skip(17)) == 1455);
}

/// In a hardened build the resolved base URL always has the accepted shape,
/// whatever the override was.
pub proof fn lemma_hardened_base_url_is_loopback(override_url: Option<Seq<char>>)
    ensures
        is_loopback_base_url(resolved_base_url(override_url, true)),
{
    lemma_default_is_loopback_base_url();
}

/// Decides the backend's base URL from the override found in the
/// environment, if any, and the kind of build.
pub fn get_api_base(override_url: Option<String>, hardened: bool) -> (base: String)
    ensures
        base@ == resolved_base_url(crate::text::option_text(override_url), hardened),
{
    match override_url {
        Some(url) => {
            if !hardened || is_allowed_release_url(url.as_str()) {
                url
            } else {
                String::from_str(DEFAULT_API_URL)
            }
        },
        None => String::from_str(DEFAULT_API_URL),
    }
}

} // verus!
