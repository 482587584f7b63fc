//! The login decision flow.
//!
//! A login first tries to resume with the token that the session holds, and
//! turns to the credentials only where that did not log in. The flow is a
//! series of steps: each takes the session and the reply to the last request,
//! updates the session, and says what to do next. Sending the requests and
//! writing the token file is left to the caller.

use crate::error::ApiError;
use crate::json::{json_field, json_str, opt_text, reply_document, reply_json, same_text, str_field, Json};
use crate::session::{cleared, logged_in, RocketChat, SessionView};
use vstd::prelude::*;

verus! {

/// What to do next in a login.
pub enum LoginStep {
    /// Send `{resume: token}` to the login endpoint and hand the reply to
    /// `resume_reply`.
    SendResume(String),
    /// Write the (now empty) token to the token file, send
    /// `{user, password}` to the login endpoint and hand the reply to
    /// `credential_reply`.
    SendCredentials,
    /// Logged in; where a token is given, write it to the token file.
    LoggedIn(Option<String>),
    /// Not logged in, and nothing is left to try.
    NotLoggedIn,
    Failed(ApiError),
}

pub enum LoginStepView {
    SendResume(Seq<char>),
    SendCredentials,
    LoggedIn(Option<Seq<char>>),
    NotLoggedIn,
    Failed(ApiError),
}

impl View for LoginStep {
    type V = LoginStepView;

    open spec fn view(&self) -> LoginStepView {
        match self {
            LoginStep::SendResume(t) => LoginStepView::SendResume(t@),
            LoginStep::SendCredentials => LoginStepView::SendCredentials,
            LoginStep::LoggedIn(t) => LoginStepView::LoggedIn(opt_text(*t)),
            LoginStep::NotLoggedIn => LoginStepView::NotLoggedIn,
            LoginStep::Failed(e) => LoginStepView::Failed(*e),
        }
    }
}

pub open spec fn status_of(j: Json) -> Option<Seq<char>> {
    json_str(json_field(j, "status"@))
}

/// The string `data.<key>` of a reply, where it is there and not empty.
pub open spec fn data_text(j: Json, key: Seq<char>) -> Option<Seq<char>> {
    match json_field(j, "data"@) {
        Some(d) => match json_str(json_field(d, key)) {
            Some(s) => if s.len() > 0 { Some(s) } else { None },
            None => None,
        },
        None => None,
    }
}

/// A reply to a resume request: the user id where the server accepted the
/// token, `None` where it refused it.
pub open spec fn resume_result(j: Json) -> Result<Option<Seq<char>>, ApiError> {
    match status_of(j) {
        None => Err(ApiError::MalformedResponse),
        Some(st) => if st == "success"@ {
            match data_text(j, "userId"@) {
                Some(u) => Ok(Some(u)),
                None => Err(ApiError::MalformedResponse),
            }
        } else {
            Ok(None)
        },
    }
}

/// A reply to a credential login: the user id and the new token.
pub open spec fn credential_result(j: Json) -> Result<(Seq<char>, Seq<char>), ApiError> {
    match status_of(j) {
        None => Err(ApiError::MalformedResponse),
        Some(st) => if st == "success"@ {
            match (data_text(j, "userId"@), data_text(j, "authToken"@)) {
                (Some(u), Some(t)) => Ok((u, t)),
                _ => Err(ApiError::MalformedResponse),
            }
        } else {
            Err(ApiError::Rejected)
        },
    }
}

pub open spec fn resume_outcome(reply: Option<Seq<char>>) -> Result<Option<Seq<char>>, ApiError> {
    match reply_json(reply) {
        Ok(j) => resume_result(j),
        Err(e) => Err(e),
    }
}

pub open spec fn credential_outcome(reply: Option<Seq<char>>) -> Result<(Seq<char>, Seq<char>), ApiError> {
    match reply_json(reply) {
        Ok(j) => credential_result(j),
        Err(e) => Err(e),
    }
}

/// The first step: resume where a token is held, else log in with the
/// credentials where there are any.
pub open spec fn start_step(s: SessionView, with_credentials: bool) -> LoginStepView {
    if s.auth_token.len() > 0 {
        LoginStepView::SendResume(s.auth_token)
    } else if with_credentials {
        LoginStepView::SendCredentials
    } else {
        LoginStepView::NotLoggedIn
    }
}

pub open spec fn resume_step(with_credentials: bool, reply: Option<Seq<char>>) -> LoginStepView {
    match resume_outcome(reply) {
        Ok(Some(_)) => LoginStepView::LoggedIn(None),
        Ok(None) => if with_credentials {
            LoginStepView::SendCredentials
        } else {
            LoginStepView::NotLoggedIn
        },
        Err(e) => LoginStepView::Failed(e),
    }
}

/// The session after a resume reply: the user id where the token was
/// accepted; the token cleared where it was refused and the credentials are
/// to be tried.
pub open spec fn resume_state(s: SessionView, with_credentials: bool, reply: Option<Seq<char>>) -> SessionView {
    match resume_outcome(reply) {
        Ok(Some(u)) => SessionView { user_id: u, ..s },
        Ok(None) => if with_credentials {
            SessionView { auth_token: Seq::empty(), ..s }
        } else {
            s
        },
        Err(_) => s,
    }
}

pub open spec fn credential_step(reply: Option<Seq<char>>) -> LoginStepView {
    match credential_outcome(reply) {
        Ok((_, t)) => LoginStepView::LoggedIn(Some(t)),
        Err(e) => LoginStepView::Failed(e),
    }
}

/// The session after a credential reply: the user id and the token of an
/// accepting reply, set together; otherwise unchanged.
pub open spec fn credential_state(s: SessionView, reply: Option<Seq<char>>) -> SessionView {
    match credential_outcome(reply) {
        Ok((u, t)) => SessionView { user_id: u, auth_token: t, ..s },
        Err(_) => s,
    }
}

/// The string `data.<key>` of a reply, where it is there and not empty.
fn data_field(j: &Json, key: &str) -> (r: Option<String>)
    ensures
        opt_text(r) == data_text(*j, key@),
{
    match j.get("data") {
        Some(d) => match str_field(d, key) {
            Some(s) => {
                if s.is_empty() {
                    None
                } else {
                    Some(s.to_owned())
                }
            },
            None => None,
        },
        None => None,
    }
}

/// Reads a reply to a resume request.
pub fn resume_user_id(j: &Json) -> (r: Result<Option<String>, ApiError>)
    ensures
        match r {
            Ok(u) => resume_result(*j) == Ok::<Option<Seq<char>>, ApiError>(opt_text(u)),
            Err(e) => resume_result(*j) == Err::<Option<Seq<char>>, ApiError>(e),
        },
{
    let status = match str_field(j, "status") {
        Some(s) => s,
        None => return Err(ApiError::MalformedResponse),
    };
    if same_text(status, "success") {
        match data_field(j, "userId") {
            Some(u) => Ok(Some(u)),
            None => Err(ApiError::MalformedResponse),
        }
    } else {
        Ok(None)
    }
}

/// Reads a reply to a credential login: the user id and the token.
pub fn credential_session(j: &Json) -> (r: Result<(String, String), ApiError>)
    ensures
        match r {
            Ok((u, t)) => credential_result(*j) == Ok::<(Seq<char>, Seq<char>), ApiError>((u@, t@)),
            Err(e) => credential_result(*j) == Err::<(Seq<char>, Seq<char>), ApiError>(e),
        },
{
    let status = match str_field(j, "status") {
        Some(s) => s,
        None => return Err(ApiError::MalformedResponse),
    };
    if !same_text(status, "success") {
        return Err(ApiError::Rejected);
    }
    let user_id = match data_field(j, "userId") {
        Some(u) => u,
        None => return Err(ApiError::MalformedResponse),
    };
    match data_field(j, "authToken") {
        Some(t) => Ok((user_id, t)),
        None => Err(ApiError::MalformedResponse),
    }
}

impl RocketChat {
    /// Begins a login: forgets the user id, then asks to resume with the
    /// token held, or, without one, for the credentials where the caller has
    /// any.
    pub fn start_login(&mut self, with_credentials: bool) -> (r: LoginStep)
        ensures
            r@ == start_step(old(self)@, with_credentials),
            final(self)@ == cleared(old(self)@),
    {
        let token = self.get_auth_token();
        self.clear_user_id();
        if !token.as_str().is_empty() {
            LoginStep::SendResume(token)
        } else if with_credentials {
            LoginStep::SendCredentials
        } else {
            LoginStep::NotLoggedIn
        }
    }

    /// Takes the reply to a resume request (`None`: the transport failed).
    pub fn resume_reply(&mut self, with_credentials: bool, reply: Option<String>) -> (r: LoginStep)
        ensures
            r@ == resume_step(with_credentials, opt_text(reply)),
            final(self)@ == resume_state(old(self)@, with_credentials, opt_text(reply)),
    {
        let j = match reply_document(reply) {
            Ok(j) => j,
            Err(e) => return LoginStep::Failed(e),
        };
        match resume_user_id(&j) {
            Ok(Some(u)) => {
                self.set_user_id(u);
                LoginStep::LoggedIn(None)
            },
            Ok(None) => {
                if with_credentials {
                    self.set_auth_token(String::new());
                    LoginStep::SendCredentials
                } else {
                    LoginStep::NotLoggedIn
                }
            },
            Err(e) => LoginStep::Failed(e),
        }
    }

    /// Takes the reply to a credential login (`None`: the transport failed).
    pub fn credential_reply(&mut self, reply: Option<String>) -> (r: LoginStep)
        ensures
            r@ == credential_step(opt_text(reply)),
            final(self)@ == credential_state(old(self)@, opt_text(reply)),
    {
        let j = match reply_document(reply) {
            Ok(j) => j,
            Err(e) => return LoginStep::Failed(e),
        };
        match credential_session(&j) {
            Ok((u, t)) => {
                let saved = t.clone();
                self.set_session(u, t);
                LoginStep::LoggedIn(Some(saved))
            },
            Err(e) => LoginStep::Failed(e),
        }
    }
}

/// Resume comes before credentials: where the session holds a token that the
/// server accepts, a login with credentials sends the resume request and is
/// then logged in, and never sends the credentials.
pub proof fn lemma_resume_before_credentials(s: SessionView, reply: Option<Seq<char>>)
    requires
        s.auth_token.len() > 0,
        resume_outcome(reply) is Ok,
        resume_outcome(reply)->Ok_0 is Some,
    ensures
        start_step(s, true) == LoginStepView::SendResume(s.auth_token),
        resume_step(true, reply) == LoginStepView::LoggedIn(None),
        resume_step(true, reply) != LoginStepView::SendCredentials,
        logged_in(resume_state(cleared(s), true, reply)),
        resume_state(cleared(s), true, reply).auth_token == s.auth_token,
{
}

/// The user id and the token change together. A login begins by clearing the
/// user id; a step that then sets it leaves beside it the token that the same
/// reply vouches for (the token the resume was sent with, or the token the
/// credential reply issued); a step that does not log in leaves the user id
/// cleared.
pub proof fn lemma_identity_set_with_token(
    s: SessionView,
    with_credentials: bool,
    resume: Option<Seq<char>>,
    credentials: Option<Seq<char>>,
)
    ensures
        !logged_in(cleared(s)),
        ({
            let r = resume_state(cleared(s), with_credentials, resume);
            logged_in(r) <==> resume_outcome(resume) == Ok::<Option<Seq<char>>, ApiError>(Some(r.user_id))
                && r.auth_token == s.auth_token
        }),
        ({
            let c = credential_state(cleared(s), credentials);
            logged_in(c) <==> credential_outcome(credentials) == Ok::<(Seq<char>, Seq<char>), ApiError>(
                (c.user_id, c.auth_token),
            )
        }),
{
}

} // verus!
