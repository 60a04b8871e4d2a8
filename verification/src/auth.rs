//! The access token that remote operations authenticate with, and the
//! request headers made from it.

use crate::command::{push_arg, texts, CommandResult, CommandView, GitCommand, ResultView};
use crate::error::{ErrorKind, ErrorView, SyncError};
use crate::text::{borrowed_text, text_of, trim, trimmed};
use base64::engine::general_purpose::STANDARD;
use base64::Engine;
use vstd::prelude::*;
use vstd::string::StringExecFns;

verus! {

/// Holds the access token once it has been obtained. A token that has been
/// stored stays: a later one does not replace it.
#[derive(Debug)]
pub struct CredentialProvider {
    token: Option<String>,
}

impl View for CredentialProvider {
    type V = Option<Seq<char>>;

    closed spec fn view(&self) -> Option<Seq<char>> {
        match self.token {
            Some(t) => Some(t@),
            None => None,
        }
    }
}

/// The standard base64 encoding, with padding, of the bytes of `input`, as
/// `encode` of `base64`'s `STANDARD` engine gives it.
pub uninterp spec fn base64_standard(input: Seq<char>) -> Seq<char>;

/// What the token is sent as under the basic scheme, before encoding.
pub open spec fn basic_credentials(token: Seq<char>) -> Seq<char> {
    "x-access-token:"@ + token
}

/// The header of the basic scheme around encoded credentials.
pub open spec fn basic_header(encoded: Seq<char>) -> Seq<char> {
    "Authorization: Basic "@ + encoded
}

/// The header of the bearer scheme around a token.
pub open spec fn bearer_header(token: Seq<char>) -> Seq<char> {
    "Authorization: Bearer "@ + token
}

/// The header of the basic scheme for a token: there is one for every
/// token, and none without a token.
pub open spec fn auth_header(token: Option<Seq<char>>) -> Option<Seq<char>> {
    match token {
        Some(t) => Some(basic_header(base64_standard(basic_credentials(t)))),
        None => None,
    }
}

/// The token that the output of the token command carries: the standard
/// output of a successful run, white space at its ends removed.
pub open spec fn token_from(result: ResultView) -> Result<Seq<char>, ErrorView> {
    match result {
        ResultView::Finished { success, stdout, stderr } => if success {
            Ok(trimmed(stdout))
        } else {
            Err(
                ErrorView {
                    kind: ErrorKind::AuthenticationFailed,
                    message: "Failed to get token from GitHub CLI"@,
                },
            )
        },
        ResultView::NotStarted { reason } => Err(
            ErrorView { kind: ErrorKind::Other, message: reason },
        ),
    }
}

/// The view of a result that carries a string or a failure.
pub open spec fn text_result(r: Result<String, SyncError>) -> Result<Seq<char>, ErrorView> {
    match r {
        Ok(s) => Ok(s@),
        Err(e) => Err(e@),
    }
}

/// Calls `encode` of `base64`'s `STANDARD` engine on the bytes of `input`.
/// Trusted: the result is the named encoding of `input`. The engine gives
/// up only where the length of the encoding does not fit the machine's
/// word, which takes an input longer than any string can be.
#[verifier::external_body]
fn base64_encode(input: &str) -> (encoded: String)
    ensures
        encoded@ == base64_standard(input@),
{
    STANDARD.encode(input)
}

impl CredentialProvider {
    /// A provider that holds no token yet.
    pub fn new() -> (provider: CredentialProvider)
        ensures
            provider@ is None,
    {
        CredentialProvider { token: None }
    }

    /// Stores `token`, unless a token is held already.
    pub fn store(&mut self, token: String)
        ensures
            final(self)@ == (if old(self)@ is Some {
                old(self)@
            } else {
                Some(token@)
            }),
    {
        if self.token.is_none() {
            self.token = Some(token);
        }
    }
}

/// The command that asks the GitHub command-line client for the token.
pub fn gh_token_command() -> (c: GitCommand)
    ensures
        c@ == (CommandView {
            program: "gh"@,
            args: seq!["auth"@, "token"@],
            prompt_disabled: false,
        }),
{
    let mut args: Vec<String> = Vec::new();
    push_arg(&mut args, "auth");
    push_arg(&mut args, "token");
    assert(texts(args@) =~= seq!["auth"@, "token"@]);
    GitCommand { program: "gh".to_owned(), args, prompt_disabled: false }
}

/// Reads the token from the outcome of the token command.
pub fn get_gh_token(result: &CommandResult) -> (r: Result<String, SyncError>)
    ensures
        text_result(r) == token_from(result@),
{
    match result {
        CommandResult::Finished { success, stdout, stderr } => {
            if *success {
                Ok(trim(stdout.as_str()))
            } else {
                Err(
                    SyncError::new(
                        ErrorKind::AuthenticationFailed,
                        "Failed to get token from GitHub CLI",
                    ),
                )
            }
        },
        CommandResult::NotStarted { reason } => Err(
            SyncError::new(ErrorKind::Other, reason.as_str()),
        ),
    }
}

/// Stores the token that the outcome of the token command carries. A
/// token that is held already stays. Where the outcome carries none, the
/// provider is left as it was and the failure is returned.
pub fn init_gh_token(provider: &mut CredentialProvider, result: &CommandResult) -> (r: Result<
    (),
    SyncError,
>)
    ensures
        match token_from(result@) {
            Ok(token) => r is Ok && final(provider)@ == (if old(provider)@ is Some {
                old(provider)@
            } else {
                Some(token)
            }),
            Err(e) => r is Err && r->Err_0@ == e && final(provider)@ == old(provider)@,
        },
{
    match get_gh_token(result) {
        Ok(token) => {
            provider.store(token);
            Ok(())
        },
        Err(e) => Err(e),
    }
}

/// The token held by `provider`, if one has been stored.
pub fn github_token(provider: &CredentialProvider) -> (token: Option<&str>)
    ensures
        borrowed_text(token) == provider@,
{
    match &provider.token {
        Some(t) => Some(t.as_str()),
        None => None,
    }
}

/// The header of the basic scheme around credentials that are encoded
/// already.
pub fn basic_header_for(encoded: &str) -> (header: String)
    ensures
        header@ == basic_header(encoded@),
{
    "Authorization: Basic ".to_owned().concat(encoded)
}

/// The header of the bearer scheme around `token`.
pub fn bearer_header_for(token: &str) -> (header: String)
    ensures
        header@ == bearer_header(token@),
{
    "Authorization: Bearer ".to_owned().concat(token)
}

/// The header that authenticates with the held token under the basic
/// scheme. There is none while no token is held.
pub fn github_auth_header(provider: &CredentialProvider) -> (header: Option<String>)
    ensures
        text_of(header) == auth_header(provider@),
{
    match github_token(provider) {
        Some(token) => {
            let credentials = "x-access-token:".to_owned().concat(token);
            let encoded = base64_encode(credentials.as_str());
            Some(basic_header_for(encoded.as_str()))
        },
        None => None,
    }
}

} // verus!
