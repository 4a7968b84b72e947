//! Signing a bot in, step by step.
//!
//! The caller talks to the platform and to the operator. After each answer it
//! asks here what to do next. A refusal by the platform ends the sign-in with
//! an authentication error: the gateway does not run a bot that is not
//! signed in.

use vstd::prelude::*;
use vstd::string::*;
use crate::bot::telegram::{session_file, session_path};
use crate::structs::auth::AuthData;
use crate::text::{trim, trimmed};
use crate::utils::BotError;

verus! {

/// Where a sign-in stands.
#[derive(Debug, PartialEq, Eq, Clone, Copy)]
pub enum SignInState {
    Start,
    CheckingAuthorization,
    RequestingCode,
    AwaitingCode,
    SigningIn,
    CheckingPassword,
    SavingSession,
    Done,
    Failed,
}

/// What happened since the last step.
#[derive(Debug, PartialEq)]
pub enum SignInEvent {
    /// The sign-in begins.
    Begin,
    /// The platform told whether the session is signed in already.
    Authorized(bool),
    /// The platform sent a login code to the account.
    CodeRequested,
    /// The operator typed the login code.
    CodeEntered(String),
    /// The platform accepted the login code.
    SignedIn,
    /// The platform accepted the login code and asks for the password.
    PasswordRequired,
    /// The platform accepted the password.
    PasswordAccepted,
    /// The session was written, or could not be written.
    SessionSaved(bool),
    /// The platform refused, or a call failed, for the reason given.
    Refused(String),
}

/// What the caller is to do next.
#[derive(Debug, PartialEq)]
pub enum SignInAction {
    /// Ask the platform whether the session is signed in already.
    CheckAuthorization,
    /// Ask the platform to send a login code to the account.
    RequestLoginCode { username: String },
    /// Ask the operator for the login code, with this prompt.
    Prompt { text: String },
    /// Sign in with the login code.
    SignIn { code: String },
    /// Answer with the password.
    CheckPassword { password: String },
    /// Write the session to this file; a failure is only noted.
    SaveSession { path: String },
    /// The bot is signed in.
    Finish,
    /// The bot cannot be signed in, for the reason given.
    Abort { reason: String },
}

pub enum SignInEventView {
    Begin,
    Authorized(bool),
    CodeRequested,
    CodeEntered(Seq<char>),
    SignedIn,
    PasswordRequired,
    PasswordAccepted,
    SessionSaved(bool),
    Refused(Seq<char>),
}

pub enum SignInActionView {
    CheckAuthorization,
    RequestLoginCode { username: Seq<char> },
    Prompt { text: Seq<char> },
    SignIn { code: Seq<char> },
    CheckPassword { password: Seq<char> },
    SaveSession { path: Seq<char> },
    Finish,
    Abort { reason: Seq<char> },
}

impl View for SignInEvent {
    type V = SignInEventView;

    open spec fn view(&self) -> SignInEventView {
        match *self {
            SignInEvent::Begin => SignInEventView::Begin,
            SignInEvent::Authorized(yes) => SignInEventView::Authorized(yes),
            SignInEvent::CodeRequested => SignInEventView::CodeRequested,
            SignInEvent::CodeEntered(code) => SignInEventView::CodeEntered(code@),
            SignInEvent::SignedIn => SignInEventView::SignedIn,
            SignInEvent::PasswordRequired => SignInEventView::PasswordRequired,
            SignInEvent::PasswordAccepted => SignInEventView::PasswordAccepted,
            SignInEvent::SessionSaved(saved) => SignInEventView::SessionSaved(saved),
            SignInEvent::Refused(reason) => SignInEventView::Refused(reason@),
        }
    }
}

impl View for SignInAction {
    type V = SignInActionView;

    open spec fn view(&self) -> SignInActionView {
        match *self {
            SignInAction::CheckAuthorization => SignInActionView::CheckAuthorization,
            SignInAction::RequestLoginCode { username } => SignInActionView::RequestLoginCode {
                username: username@,
            },
            SignInAction::Prompt { text } => SignInActionView::Prompt { text: text@ },
            SignInAction::SignIn { code } => SignInActionView::SignIn { code: code@ },
            SignInAction::CheckPassword { password } => SignInActionView::CheckPassword {
                password: password@,
            },
            SignInAction::SaveSession { path } => SignInActionView::SaveSession { path: path@ },
            SignInAction::Finish => SignInActionView::Finish,
            SignInAction::Abort { reason } => SignInActionView::Abort { reason: reason@ },
        }
    }
}

/// The prompt that asks the operator for the login code of `bot_name`.
pub open spec fn code_prompt(bot_name: Seq<char>) -> Seq<char> {
    bot_name + " Code: "@
}

/// The reason given when an answer arrives that the sign-in did not wait for.
pub open spec fn out_of_order() -> Seq<char> {
    "sign-in out of order"@
}

/// The state after `event`, and what to do next, for the bot `bot_name` that
/// signs in with `data`.
///
/// A session that is signed in already, and an account of another platform,
/// finish at once. Else a login code is requested and asked of the operator,
/// and the password, without the white space around it, is given where the
/// platform asks for it. Then the session is saved. A refusal at any point
/// aborts the sign-in, and so does an answer that was not waited for.
pub open spec fn sign_in_next(
    state: SignInState,
    event: SignInEventView,
    bot_name: Seq<char>,
    data: AuthData,
) -> (SignInState, SignInActionView) {
    match (state, event) {
        (_, SignInEventView::Refused(reason)) => (
            SignInState::Failed,
            SignInActionView::Abort { reason },
        ),
        (SignInState::Start, SignInEventView::Begin) => (
            SignInState::CheckingAuthorization,
            SignInActionView::CheckAuthorization,
        ),
        (SignInState::CheckingAuthorization, SignInEventView::Authorized(true)) => (
            SignInState::Done,
            SignInActionView::Finish,
        ),
        (SignInState::CheckingAuthorization, SignInEventView::Authorized(false)) => match data {
            AuthData::Telegram(auth) => (
                SignInState::RequestingCode,
                SignInActionView::RequestLoginCode { username: auth.username@ },
            ),
            _ => (SignInState::Done, SignInActionView::Finish),
        },
        (SignInState::RequestingCode, SignInEventView::CodeRequested) => (
            SignInState::AwaitingCode,
            SignInActionView::Prompt { text: code_prompt(bot_name) },
        ),
        (SignInState::AwaitingCode, SignInEventView::CodeEntered(code)) => (
            SignInState::SigningIn,
            SignInActionView::SignIn { code },
        ),
        (SignInState::SigningIn, SignInEventView::SignedIn) => (
            SignInState::SavingSession,
            SignInActionView::SaveSession { path: session_path(bot_name) },
        ),
        (SignInState::SigningIn, SignInEventView::PasswordRequired) => match data {
            AuthData::Telegram(auth) => (
                SignInState::CheckingPassword,
                SignInActionView::CheckPassword { password: trimmed(auth.password@) },
            ),
            _ => (SignInState::Failed, SignInActionView::Abort { reason: out_of_order() }),
        },
        (SignInState::CheckingPassword, SignInEventView::PasswordAccepted) => (
            SignInState::SavingSession,
            SignInActionView::SaveSession { path: session_path(bot_name) },
        ),
        (SignInState::SavingSession, SignInEventView::SessionSaved(_)) => (
            SignInState::Done,
            SignInActionView::Finish,
        ),
        _ => (SignInState::Failed, SignInActionView::Abort { reason: out_of_order() }),
    }
}

fn abort_out_of_order() -> (r: (SignInState, SignInAction))
    ensures
        r.0 == SignInState::Failed,
        r.1@ == (SignInActionView::Abort { reason: out_of_order() }),
{
    (SignInState::Failed, SignInAction::Abort { reason: "sign-in out of order".to_owned() })
}

/// The state after `event`, and what to do next.
pub fn sign_in_step(state: SignInState, event: SignInEvent, bot_name: &String, data: &AuthData) -> (r:
    (SignInState, SignInAction))
    ensures
        r.0 == sign_in_next(state, event@, bot_name@, *data).0,
        r.1@ == sign_in_next(state, event@, bot_name@, *data).1,
{
    match event {
        SignInEvent::Refused(reason) => (SignInState::Failed, SignInAction::Abort { reason }),
        SignInEvent::Begin => match state {
            SignInState::Start => (
                SignInState::CheckingAuthorization,
                SignInAction::CheckAuthorization,
            ),
            _ => abort_out_of_order(),
        },
        SignInEvent::Authorized(yes) => match state {
            SignInState::CheckingAuthorization => {
                if yes {
                    (SignInState::Done, SignInAction::Finish)
                } else {
                    match data {
                        AuthData::Telegram(auth) => (
                            SignInState::RequestingCode,
                            SignInAction::RequestLoginCode { username: auth.username.clone() },
                        ),
                        _ => (SignInState::Done, SignInAction::Finish),
                    }
                }
            },
            _ => abort_out_of_order(),
        },
        SignInEvent::CodeRequested => match state {
            SignInState::RequestingCode => {
                let mut text = bot_name.clone();
                text.append(" Code: ");
                (SignInState::AwaitingCode, SignInAction::Prompt { text })
            },
            _ => abort_out_of_order(),
        },
        SignInEvent::CodeEntered(code) => match state {
            SignInState::AwaitingCode => (SignInState::SigningIn, SignInAction::SignIn { code }),
            _ => abort_out_of_order(),
        },
        SignInEvent::SignedIn => match state {
            SignInState::SigningIn => (
                SignInState::SavingSession,
                SignInAction::SaveSession { path: session_file(bot_name) },
            ),
            _ => abort_out_of_order(),
        },
        SignInEvent::PasswordRequired => match state {
            SignInState::SigningIn => match data {
                AuthData::Telegram(auth) => (
                    SignInState::CheckingPassword,
                    SignInAction::CheckPassword { password: trim(auth.password.as_str()) },
                ),
                _ => abort_out_of_order(),
            },
            _ => abort_out_of_order(),
        },
        SignInEvent::PasswordAccepted => match state {
            SignInState::CheckingPassword => (
                SignInState::SavingSession,
                SignInAction::SaveSession { path: session_file(bot_name) },
            ),
            _ => abort_out_of_order(),
        },
        SignInEvent::SessionSaved(_) => match state {
            SignInState::SavingSession => (SignInState::Done, SignInAction::Finish),
            _ => abort_out_of_order(),
        },
    }
}

/// How the sign-in ended, if `action` ends it: well, or with an
/// authentication error that carries the reason.
pub fn sign_in_outcome(action: SignInAction) -> (r: Option<Result<(), BotError>>)
    ensures
        r == (match action {
            SignInAction::Finish => Some(Ok::<(), BotError>(())),
            SignInAction::Abort { reason } => Some(
                Err::<(), BotError>(BotError::Authentication(reason)),
            ),
            _ => None,
        }),
{
    match action {
        SignInAction::Finish => Some(Ok(())),
        SignInAction::Abort { reason } => Some(Err(BotError::Authentication(reason))),
        _ => None,
    }
}

/// Whether the sign-in is over, for good or bad.
pub fn sign_in_over(state: SignInState) -> (r: bool)
    ensures
        r == (state == SignInState::Done || state == SignInState::Failed),
{
    match state {
        SignInState::Done => true,
        SignInState::Failed => true,
        _ => false,
    }
}

/// A refusal ends the sign-in in failure, whatever it was waiting for.
pub proof fn lemma_refusal_is_fatal(
    state: SignInState,
    reason: Seq<char>,
    bot_name: Seq<char>,
    data: AuthData,
)
    ensures
        sign_in_next(state, SignInEventView::Refused(reason), bot_name, data) == (
            SignInState::Failed,
            SignInActionView::Abort { reason },
        ),
{
}

} // verus!
