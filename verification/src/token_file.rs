//! The file through which the token reaches the backend: what it is called,
//! what it holds and how it must be created. Creating and removing it is
//! the caller's work.

use vstd::prelude::*;
use vstd::string::*;
use crate::secret::{
    generate_random_filename_component, is_file_name_component, is_lower_hex, RandomSourceError,
};

verus! {

/// Permission bits of a token file: read and write for the owner, nothing
/// for anyone else.
pub const TOKEN_FILE_MODE: u32 = 0o600;

/// Variable through which the backend learns where the token file is.
pub const TOKEN_FILE_VARIABLE: &'static str = "AICAP_API_TOKEN_FILE";

/// The name of the token file whose random part is `component`.
pub open spec fn token_file_name_of(component: Seq<char>) -> Seq<char> {
    "aicap-token-"@ + component + ".txt"@
}

/// A token file to be created in the system's temporary directory.
pub struct TokenFileRequest {
    /// Name of the file inside the temporary directory.
    pub file_name: String,
    /// Text to write and flush before the path is handed on.
    pub contents: String,
    /// Permission bits to create the file with, where the platform has them.
    pub mode: u32,
    /// The file must not exist yet: creation fails rather than reuse a path
    /// that someone else put there.
    pub exclusive: bool,
}

impl TokenFileRequest {
    /// The request writes `token`, for the owner alone, to a file that it
    /// creates itself.
    pub open spec fn delivers(self, token: Seq<char>) -> bool {
        &&& self.contents@ == token
        &&& self.mode == TOKEN_FILE_MODE
        &&& self.exclusive
    }
}

/// A name that `write_token_file` may choose: the fixed head and tail around
/// 32 lowercase hexadecimal digits.
pub open spec fn is_token_file_name(name: Seq<char>) -> bool {
    exists|component: Seq<char>|
        is_file_name_component(component) && name == #[trigger] token_file_name_of(component)
}

/// The name of the token file whose random part is `component`.
pub fn token_file_name(component: &str) -> (name: String)
    ensures
        name@ == token_file_name_of(component@),
{
    let mut name = String::from_str("aicap-token-");
    name.append(component);
    name.append(".txt");
    name
}

/// The request that delivers `token` in a file named after `component`.
pub fn token_file_request(token: &str, component: &str) -> (request: TokenFileRequest)
    ensures
        request.file_name@ == token_file_name_of(component@),
        request.delivers(token@),
{
    TokenFileRequest {
        file_name: token_file_name(component),
        contents: String::from_str(token),
        mode: TOKEN_FILE_MODE,
        exclusive: true,
    }
}

/// Plans the delivery of `token`: a file under a fresh random name, created
/// exclusively and for the owner alone, holding the token's text.
pub fn write_token_file(token: &str) -> (planned: Result<TokenFileRequest, RandomSourceError>)
    ensures
        planned matches Ok(request) ==> is_token_file_name(request.file_name@) && request.delivers(
            token@,
        ),
{
    let component = generate_random_filename_component()?;
    Ok(token_file_request(token, component.as_str()))
}

/// Names made of different random parts are different files.
pub proof fn lemma_token_file_names_differ(first: Seq<char>, second: Seq<char>)
    requires
        first != second,
    ensures
        token_file_name_of(first) != token_file_name_of(second),
{
    let head = "aicap-token-"@;
    let tail = ".txt"@;
    let a = token_file_name_of(first);
    let b = token_file_name_of(second);
    if a == b {
        assert(first.len() == second.len()) by {
            assert(a.len() == head.len() + first.len() + tail.len());
            assert(b.len() == head.len() + second.len() + tail.len());
        }
        assert forall|i: int| 0 <= i < first.len() implies first[i] == second[i] by {
            assert(a[head.len() + i] == first[i]);
            assert(b[head.len() + i] == second[i]);
        }
        assert(first =~= second);
    }
}

/// A name that `write_token_file` may choose is a plain file name: it has no
/// path separator in it, so the file lies in the temporary directory
/// itself.
pub proof fn lemma_token_file_name_is_plain(name: Seq<char>)
    requires
        is_token_file_name(name),
    ensures
        name.len() == 48,
        !name.contains('/'),
        !name.contains('\\'),
{
    reveal_strlit("aicap-token-");
    reveal_strlit(".txt");
    let component = choose|component: Seq<char>|
        is_file_name_component(component) && name == #[trigger] token_file_name_of(component);
    assert forall|i: int| 0 <= i < name.len() implies name[i] != '/' && name[i] != '\\' by {
        if 12 <= i < 44 {
            assert(name[i] == component[i - 12]);
            assert(is_lower_hex(component[i - 12]));
        }
    }
}

/// The step of creating a token file that went wrong.
#[derive(Clone, Copy, Debug, PartialEq, Eq, Structural)]
pub enum TokenFileStage {
    Create,
    Write,
    Flush,
}

/// What a failed delivery is reported as.
pub open spec fn token_file_error_of(stage: TokenFileStage, cause: Seq<char>) -> Seq<char> {
    match stage {
        TokenFileStage::Create => "Failed to create token file: "@ + cause,
        TokenFileStage::Write => "Failed to write token to file: "@ + cause,
        TokenFileStage::Flush => "Failed to flush token file: "@ + cause,
    }
}

/// The message for a delivery that failed at `stage` because of `cause`.
pub fn token_file_error(stage: TokenFileStage, cause: &str) -> (message: String)
    ensures
        message@ == token_file_error_of(stage, cause@),
{
    let mut message = match stage {
        TokenFileStage::Create => String::from_str("Failed to create token file: "),
        TokenFileStage::Write => String::from_str("Failed to write token to file: "),
        TokenFileStage::Flush => String::from_str("Failed to flush token file: "),
    };
    message.append(cause);
    message
}

} // verus!
