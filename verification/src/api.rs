//! The requests that the shell sends to the backend. Each function answers
//! for one operation what is to be sent where; sending is the caller's work.

use vstd::prelude::*;
use vstd::string::*;
use crate::query::{percent_encode, percent_encoded};
use crate::validate::{invalid_account_id_message, is_account_id, validate_account_id};

verus! {

/// Seconds that the health probe may take.
pub const HEALTH_TIMEOUT_SECS: u64 = 2;

/// The HTTP methods that the backend is called with.
#[derive(Clone, Copy, Debug, PartialEq, Eq, Structural)]
pub enum Method {
    Get,
    Post,
    Put,
    Delete,
}

/// One call of the backend.
pub struct ApiRequest {
    pub method: Method,
    /// Base URL, path and query.
    pub url: String,
    /// How a refusal by the backend is introduced to the user.
    pub failure: String,
}

impl ApiRequest {
    /// The request is exactly this one.
    pub open spec fn asks(self, method: Method, url: Seq<char>, failure: Seq<char>) -> bool {
        &&& self.method == method
        &&& self.url@ == url
        &&& self.failure@ == failure
    }
}

/// The probe that tells whether a backend is there.
pub struct HealthProbe {
    /// Where to send the `GET`.
    pub url: String,
    /// Seconds after which the probe counts as failed.
    pub timeout_secs: u64,
}

fn request(method: Method, api_base: &str, path: &str, failure: &str) -> (request: ApiRequest)
    ensures
        request.asks(method, api_base@ + path@, failure@),
{
    ApiRequest {
        method,
        url: String::from_str(api_base).concat(path),
        failure: String::from_str(failure),
    }
}

/// Fetches the current usage limits.
pub fn fetch_limits(api_base: &str) -> (request: ApiRequest)
    ensures
        request.asks(Method::Get, api_base@ + "/api/v1/limits"@, "API error"@),
{
    request(Method::Get, api_base, "/api/v1/limits", "API error")
}

/// Has the backend refresh the limits.
pub fn refresh_limits(api_base: &str) -> (request: ApiRequest)
    ensures
        request.asks(Method::Post, api_base@ + "/api/v1/limits/refresh"@, "API error"@),
{
    request(Method::Post, api_base, "/api/v1/limits/refresh", "API error")
}

/// Begins a login with OpenAI.
pub fn login_openai(api_base: &str) -> (request: ApiRequest)
    ensures
        request.asks(Method::Get, api_base@ + "/api/v1/auth/openai/login"@, "Login failed"@),
{
    request(Method::Get, api_base, "/api/v1/auth/openai/login", "Login failed")
}

/// Begins a login with Antigravity.
pub fn login_antigravity(api_base: &str) -> (request: ApiRequest)
    ensures
        request.asks(
            Method::Get,
            api_base@ + "/api/v1/auth/antigravity/login"@,
            "Login failed"@,
        ),
{
    request(Method::Get, api_base, "/api/v1/auth/antigravity/login", "Login failed")
}

/// Begins the login of one more OpenAI account.
pub fn add_account_openai(api_base: &str) -> (request: ApiRequest)
    ensures
        request.asks(
            Method::Get,
            api_base@ + "/api/v1/auth/openai/login?add_account=true"@,
            "Add account failed"@,
        ),
{
    request(
        Method::Get,
        api_base,
        "/api/v1/auth/openai/login?add_account=true",
        "Add account failed",
    )
}

/// Begins the login of one more Antigravity account.
pub fn add_account_antigravity(api_base: &str) -> (request: ApiRequest)
    ensures
        request.asks(
            Method::Get,
            api_base@ + "/api/v1/auth/antigravity/login?add_account=true"@,
            "Add account failed"@,
        ),
{
    request(
        Method::Get,
        api_base,
        "/api/v1/auth/antigravity/login?add_account=true",
        "Add account failed",
    )
}

/// Ends the session with OpenAI.
pub fn logout_openai(api_base: &str) -> (request: ApiRequest)
    ensures
        request.asks(Method::Post, api_base@ + "/api/v1/auth/openai/logout"@, "Logout failed"@),
{
    request(Method::Post, api_base, "/api/v1/auth/openai/logout", "Logout failed")
}

/// Ends the session with Antigravity.
pub fn logout_antigravity(api_base: &str) -> (request: ApiRequest)
    ensures
        request.asks(
            Method::Post,
            api_base@ + "/api/v1/auth/antigravity/logout"@,
            "Logout failed"@,
        ),
{
    request(Method::Post, api_base, "/api/v1/auth/antigravity/logout", "Logout failed")
}

/// Where the accounts are listed: all of them, or those of one provider.
pub open spec fn accounts_url(api_base: Seq<char>, provider: Option<Seq<u8>>) -> Seq<char> {
    match provider {
        Some(name) => api_base + "/api/v1/accounts?provider="@ + percent_encoded(name),
        None => api_base + "/api/v1/accounts"@,
    }
}

/// The UTF-8 bytes of an optional string.
pub open spec fn option_bytes(text: Option<&str>) -> Option<Seq<u8>> {
    match text {
        Some(t) => Some(t.spec_bytes()),
        None => None,
    }
}

/// Lists the accounts, of one provider if one is named. The provider's
/// name goes into the query percent-encoded, and is not looked at
/// otherwise.
pub fn get_accounts(api_base: &str, provider: Option<&str>) -> (request: ApiRequest)
    ensures
        request.asks(Method::Get, accounts_url(api_base@, option_bytes(provider)), "API error"@),
{
    let url = match provider {
        Some(name) => {
            let encoded = percent_encode(name);
            String::from_str(api_base).concat("/api/v1/accounts?provider=").concat(
                encoded.as_str(),
            )
        },
        None => String::from_str(api_base).concat("/api/v1/accounts"),
    };
    ApiRequest { method: Method::Get, url, failure: String::from_str("API error") }
}

/// Path of one account below the base URL.
pub open spec fn account_url(api_base: Seq<char>, account_id: Seq<char>) -> Seq<char> {
    api_base + "/api/v1/accounts/"@ + account_id
}

fn account_request(
    method: Method,
    api_base: &str,
    account_id: &str,
    rest: &str,
    failure: &str,
) -> (request: Result<ApiRequest, String>)
    ensures
        is_account_id(account_id@) ==> (request matches Ok(r) && r.asks(
            method,
            account_url(api_base@, account_id@) + rest@,
            failure@,
        )),
        !is_account_id(account_id@) ==> (request matches Err(message) && message@
            == invalid_account_id_message(account_id@)),
{
    match validate_account_id(account_id) {
        Ok(()) => {
            let url = String::from_str(api_base).concat("/api/v1/accounts/").concat(
                account_id,
            ).concat(rest);
            Ok(ApiRequest { method, url, failure: String::from_str(failure) })
        },
        Err(message) => Err(message),
    }
}

/// Makes an account the active one. An identifier of the wrong shape is
/// refused here, and no request comes of it.
pub fn activate_account(api_base: &str, account_id: &str) -> (request: Result<ApiRequest, String>)
    ensures
        is_account_id(account_id@) ==> (request matches Ok(r) && r.asks(
            Method::Post,
            account_url(api_base@, account_id@) + "/activate"@,
            "Activate failed"@,
        )),
        !is_account_id(account_id@) ==> (request matches Err(message) && message@
            == invalid_account_id_message(account_id@)),
{
    account_request(Method::Post, api_base, account_id, "/activate", "Activate failed")
}

/// Gives an account a new display name. An identifier of the wrong shape is
/// refused here, and no request comes of it; the name goes into the query
/// percent-encoded, and is not looked at otherwise.
pub fn update_account_name(api_base: &str, account_id: &str, name: &str) -> (request: Result<
    ApiRequest,
    String,
>)
    ensures
        is_account_id(account_id@) ==> (request matches Ok(r) && r.asks(
            Method::Put,
            account_url(api_base@, account_id@) + "/name?name="@ + percent_encoded(
                name.spec_bytes(),
            ),
            "Update failed"@,
        )),
        !is_account_id(account_id@) ==> (request matches Err(message) && message@
            == invalid_account_id_message(account_id@)),
{
    match validate_account_id(account_id) {
        Ok(()) => {
            let encoded = percent_encode(name);
            let url = String::from_str(api_base).concat("/api/v1/accounts/").concat(
                account_id,
            ).concat("/name?name=").concat(encoded.as_str());
            Ok(ApiRequest { method: Method::Put, url, failure: String::from_str("Update failed") })
        },
        Err(message) => Err(message),
    }
}

/// Removes an account. An identifier of the wrong shape is refused here,
/// and no request comes of it.
pub fn delete_account(api_base: &str, account_id: &str) -> (request: Result<ApiRequest, String>)
    ensures
        is_account_id(account_id@) ==> (request matches Ok(r) && r.asks(
            Method::Delete,
            account_url(api_base@, account_id@),
            "Delete failed"@,
        )),
        !is_account_id(account_id@) ==> (request matches Err(message) && message@
            == invalid_account_id_message(account_id@)),
{
    proof {
        reveal_strlit("");
    }
    account_request(Method::Delete, api_base, account_id, "", "Delete failed")
}

/// Asks whether a backend answers at all.
pub fn check_backend(api_base: &str) -> (probe: HealthProbe)
    ensures
        probe.url@ == api_base@ + "/health"@,
        probe.timeout_secs == HEALTH_TIMEOUT_SECS,
{
    HealthProbe {
        url: String::from_str(api_base).concat("/health"),
        timeout_secs: HEALTH_TIMEOUT_SECS,
    }
}

} // verus!
