//! How the one HTTP client of the process is set up. Building it is the
//! caller's work, once; every request of the shell goes through it.

use vstd::prelude::*;
use vstd::string::*;
use crate::secret::{get_api_token, is_lower_hex, is_token, RandomSourceError, TokenCell};

verus! {

/// Header that carries the token on every request.
pub const TOKEN_HEADER: &'static str = "x-aicap-token";

/// Seconds that a request may take from start to end.
pub const REQUEST_TIMEOUT_SECS: u64 = 30;

/// Seconds that connecting may take.
pub const CONNECT_TIMEOUT_SECS: u64 = 10;

/// Idle connections kept per host.
pub const MAX_IDLE_PER_HOST: usize = 2;

/// The settings of the client.
pub struct ClientConfig {
    /// Name of the header sent with every request.
    pub header_name: String,
    /// Its value: the token of this process.
    pub header_value: String,
    pub timeout_secs: u64,
    pub connect_timeout_secs: u64,
    pub pool_max_idle_per_host: usize,
}

impl ClientConfig {
    /// The settings are the fixed ones, with `token` in the header.
    pub open spec fn carries(self, token: Seq<char>) -> bool {
        &&& self.header_name@ == TOKEN_HEADER@
        &&& self.header_value@ == token
        &&& self.timeout_secs == REQUEST_TIMEOUT_SECS
        &&& self.connect_timeout_secs == CONNECT_TIMEOUT_SECS
        &&& self.pool_max_idle_per_host == MAX_IDLE_PER_HOST
    }
}

/// The settings of the client, with the token of this process, generated
/// now if it was never asked for before.
pub fn get_client(cell: &mut TokenCell) -> (config: Result<ClientConfig, RandomSourceError>)
    ensures
        config matches Ok(settings) ==> {
            &&& is_token(settings.header_value@)
            &&& settings.carries(settings.header_value@)
            &&& final(cell)@ == Some(settings.header_value@)
        },
        config is Err ==> final(cell)@ is None,
        old(cell)@ is Some ==> config is Ok && final(cell)@ == old(cell)@,
{
    let token = get_api_token(cell)?;
    Ok(
        ClientConfig {
            header_name: String::from_str(TOKEN_HEADER),
            header_value: token,
            timeout_secs: REQUEST_TIMEOUT_SECS,
            connect_timeout_secs: CONNECT_TIMEOUT_SECS,
            pool_max_idle_per_host: MAX_IDLE_PER_HOST,
        },
    )
}

/// A character that may stand in the value of a header: visible ASCII.
pub open spec fn is_header_char(c: char) -> bool {
    '!' <= c && c <= '~'
}

/// A token can always be sent as the value of a header.
pub proof fn lemma_token_fits_header(token: Seq<char>)
    requires
        is_token(token),
    ensures
        forall|i: int| 0 <= i < token.len() ==> is_header_char(#[trigger] token[i]),
{
    assert forall|i: int| 0 <= i < token.len() implies is_header_char(#[trigger] token[i]) by {
        assert(is_lower_hex(token[i]));
    }
}

} // verus!
