use vstd::prelude::*;

use crate::api::{
    attributes_text, bearer_ok, credentials_text, email_text, otp_text, refresh_text, Api, Method, Request,
};
use crate::model::{EmailOrPhone, Error, Session, TransportError, User, UserAttributes};

verus! {

/// The current session once the service has answered a sign-up or a sign-in:
/// a session that it returned replaces the current one whole.
pub open spec fn after_sign_in(cur: Option<Session>, outcome: Result<Session, TransportError>) -> Option<Session> {
    match outcome {
        Ok(s) => Some(s),
        Err(_) => cur,
    }
}

/// What a sign-up or a sign-in reports once the service has answered.
pub open spec fn sign_in_result(outcome: Result<Session, TransportError>) -> Result<Session, Error> {
    match outcome {
        Ok(s) => Ok(s),
        Err(_) => Err(Error::TransportFailure),
    }
}

/// The current session once the service has answered a sign-out.
pub open spec fn after_sign_out(cur: Option<Session>, outcome: Result<(), TransportError>) -> Option<Session> {
    match outcome {
        Ok(_) => None,
        Err(_) => cur,
    }
}

/// The current session once the service has answered a refresh.
pub open spec fn after_refresh(cur: Option<Session>, outcome: Result<Session, TransportError>) -> Option<Session> {
    after_sign_in(cur, outcome)
}

/// What a refresh reports once the service has answered.
pub open spec fn refresh_result(outcome: Result<Session, TransportError>) -> Result<Session, Error> {
    match outcome {
        Ok(s) => Ok(s),
        Err(_) => Err(Error::InternalError),
    }
}

/// The session that an authenticated operation runs under, or why there is none.
pub open spec fn authenticated(cur: Option<Session>) -> Result<Session, Error> {
    match cur {
        Some(s) => Ok(s),
        None => Err(Error::NotAuthenticated),
    }
}

/// The refresh token that a refresh sends, or why none is sent.
pub open spec fn refresh_token_of(cur: Option<Session>) -> Result<Seq<char>, Error> {
    match cur {
        None => Err(Error::NotAuthenticated),
        Some(s) => if s.refresh_token@.len() == 0 {
            Err(Error::MissingRefreshToken)
        } else {
            Ok(s.refresh_token@)
        },
    }
}

/// Whether the service acknowledged a request.
pub fn acknowledged(outcome: Result<(), TransportError>) -> (r: bool)
    ensures
        r == outcome is Ok,
{
    outcome.is_ok()
}

/// The session lifecycle of one user: at most one current session, installed
/// whole by sign-up, sign-in and refresh, and cleared by sign-out.
///
/// Each operation that talks to the service is in two steps: a method that
/// decides what to send (or that nothing is to be sent), and, for those that
/// change the session, a method that takes what the service answered.
pub struct Client {
    current_session: Option<Session>,
    api: Api,
}

impl Client {
    pub closed spec fn session(&self) -> Option<Session> {
        self.current_session
    }

    pub closed spec fn api(&self) -> Api {
        self.api
    }

    pub closed spec fn wf(&self) -> bool {
        self.api.wf()
    }

    /// A client of the service at `url`, with no session.
    pub fn new(url: String) -> (r: Client)
        ensures
            r.wf(),
            r.session() is None,
            r.api().url == url,
            r.api().headers@.len() == 0,
    {
        Client { current_session: None, api: Api::new(url) }
    }

    /// A client that sends its requests through `api`, with no session.
    pub fn with_api(api: Api) -> (r: Client)
        requires
            api.wf(),
        ensures
            r.wf(),
            r.session() is None,
            r.api() == api,
    {
        Client { current_session: None, api }
    }

    pub fn current_session(&self) -> (r: &Option<Session>)
        ensures
            *r == self.session(),
    {
        &self.current_session
    }

    pub fn api_ref(&self) -> (r: &Api)
        ensures
            *r == self.api(),
    {
        &self.api
    }

    /// The request that creates an account.
    pub fn sign_up(&self, email_or_phone: EmailOrPhone, password: &String) -> (r: Request)
        requires
            self.wf(),
        ensures
            r@ == self.api().plain(Method::Post, "/signup"@, Some(credentials_text(email_or_phone, password@))),
    {
        self.api.sign_up(email_or_phone, password)
    }

    /// The request that signs in with a password.
    pub fn sign_in(&self, email_or_phone: EmailOrPhone, password: &String) -> (r: Request)
        requires
            self.wf(),
        ensures
            r@ == self.api().plain(
                Method::Post,
                "/token?grant_type=password"@,
                Some(credentials_text(email_or_phone, password@)),
            ),
    {
        self.api.sign_in(email_or_phone, password)
    }

    /// Takes the service's answer to a sign-up or a sign-in: a session that it
    /// returned becomes the current one and is returned; on failure the
    /// current session stays as it was.
    pub fn accept_session(&mut self, outcome: Result<Session, TransportError>) -> (r: Result<Session, Error>)
        requires
            old(self).wf(),
        ensures
            final(self).wf(),
            final(self).api() == old(self).api(),
            final(self).session() == after_sign_in(old(self).session(), outcome),
            r == sign_in_result(outcome),
    {
        match outcome {
            Ok(session) => {
                self.current_session = Some(session.copy());
                Ok(session)
            },
            Err(_) => Err(Error::TransportFailure),
        }
    }

    /// The request that sends a one-time passcode; the session is not used.
    pub fn send_otp(&self, email_or_phone: EmailOrPhone, should_create_user: Option<bool>) -> (r: Request)
        requires
            self.wf(),
        ensures
            r@ == self.api().plain(Method::Post, "/otp"@, Some(otp_text(email_or_phone, should_create_user))),
    {
        self.api.send_otp(email_or_phone, should_create_user)
    }

    /// The request that verifies a one-time passcode, with `params` as JSON
    /// text; the session is not used.
    pub fn verify_otp(&self, params: String) -> (r: Request)
        requires
            self.wf(),
        ensures
            r@ == self.api().plain(Method::Post, "/verify"@, Some(params@)),
    {
        self.api.verify_otp(params)
    }

    /// The request that ends the current session; `Ok(None)` where there is
    /// no session, so that signing out is done already; `TransportFailure`
    /// where the session's access token cannot be sent as a bearer header.
    pub fn sign_out(&self) -> (r: Result<Option<Request>, Error>)
        requires
            self.wf(),
        ensures
            match self.session() {
                None => r == Ok::<Option<Request>, Error>(None),
                Some(s) => if bearer_ok(s.access_token@) {
                    r is Ok && r->Ok_0 is Some && r->Ok_0->Some_0@ == self.api().bearing(
                        Method::Post,
                        "/logout"@,
                        s.access_token@,
                        None,
                    )
                } else {
                    r == Err::<Option<Request>, Error>(Error::TransportFailure)
                },
            },
    {
        match &self.current_session {
            Some(s) => match self.api.sign_out(&s.access_token) {
                Some(req) => Ok(Some(req)),
                None => Err(Error::TransportFailure),
            },
            None => Ok(None),
        }
    }

    /// Takes the service's answer to a sign-out: on success there is no
    /// current session any more.
    pub fn complete_sign_out(&mut self, outcome: Result<(), TransportError>) -> (r: bool)
        requires
            old(self).wf(),
        ensures
            final(self).wf(),
            final(self).api() == old(self).api(),
            final(self).session() == after_sign_out(old(self).session(), outcome),
            r == outcome is Ok,
    {
        match outcome {
            Ok(_) => {
                self.current_session = None;
                true
            },
            Err(_) => false,
        }
    }

    /// The request that sends a password recovery email; the session is not used.
    pub fn reset_password_for_email(&self, email: &str) -> (r: Request)
        requires
            self.wf(),
        ensures
            r@ == self.api().plain(Method::Post, "/recover"@, Some(email_text(email@))),
    {
        self.api.reset_password_for_email(email)
    }

    /// The request that changes the current user; `NotAuthenticated` where
    /// there is no session, `TransportFailure` where its access token cannot be
    /// sent as a bearer header.
    pub fn update_user(&self, user: UserAttributes) -> (r: Result<Request, Error>)
        requires
            self.wf(),
        ensures
            match authenticated(self.session()) {
                Err(e) => r == Err::<Request, Error>(e),
                Ok(s) => if bearer_ok(s.access_token@) {
                    r is Ok && r->Ok_0@ == self.api().bearing(
                        Method::Put,
                        "/user"@,
                        s.access_token@,
                        Some(attributes_text(user)),
                    )
                } else {
                    r == Err::<Request, Error>(Error::TransportFailure)
                },
            },
    {
        match &self.current_session {
            Some(s) => match self.api.update_user(user, s.access_token.as_str()) {
                Some(req) => Ok(req),
                None => Err(Error::TransportFailure),
            },
            None => Err(Error::NotAuthenticated),
        }
    }

    /// Takes the service's answer to a change of the current user: the user
    /// that it returned, or `TransportFailure`. The session is kept as it is:
    /// such a change rotates no token.
    pub fn complete_update_user(&self, outcome: Result<User, TransportError>) -> (r: Result<User, Error>)
        ensures
            r == match outcome {
                Ok(u) => Ok::<User, Error>(u),
                Err(_) => Err::<User, Error>(Error::TransportFailure),
            },
    {
        match outcome {
            Ok(u) => Ok(u),
            Err(_) => Err(Error::TransportFailure),
        }
    }

    /// The request that mints a new session from the current one's refresh
    /// token, or why none can be sent.
    pub fn refresh_session(&self) -> (r: Result<Request, Error>)
        requires
            self.wf(),
        ensures
            match refresh_token_of(self.session()) {
                Err(e) => r == Err::<Request, Error>(e),
                Ok(t) => r is Ok && r->Ok_0@ == self.api().plain(
                    Method::Post,
                    "/token?grant_type=refresh_token"@,
                    Some(refresh_text(t)),
                ),
            },
    {
        match &self.current_session {
            None => Err(Error::NotAuthenticated),
            Some(s) => {
                if s.refresh_token.as_str().is_empty() {
                    Err(Error::MissingRefreshToken)
                } else {
                    Ok(self.api.refresh_access_token(s.refresh_token.as_str()))
                }
            },
        }
    }

    /// Takes the service's answer to a refresh: a session that it returned
    /// replaces the current one whole; on failure nothing changes.
    pub fn complete_refresh(&mut self, outcome: Result<Session, TransportError>) -> (r: Result<Session, Error>)
        requires
            old(self).wf(),
        ensures
            final(self).wf(),
            final(self).api() == old(self).api(),
            final(self).session() == after_refresh(old(self).session(), outcome),
            r == refresh_result(outcome),
    {
        match outcome {
            Ok(session) => {
                self.current_session = Some(session.copy());
                Ok(session)
            },
            Err(_) => Err(Error::InternalError),
        }
    }
}

/// A sign-up or sign-in that the service answers with a session returns that
/// session and leaves it as the current one.
pub proof fn lemma_sign_in_installs_returned(cur: Option<Session>, s: Session)
    ensures
        sign_in_result(Ok(s)) == Ok::<Session, Error>(s),
        after_sign_in(cur, Ok(s)) == Some(s),
{
}

/// A refresh that the service answers with a session returns that session and
/// replaces the current one with it whole.
pub proof fn lemma_refresh_replaces_whole(cur: Option<Session>, s: Session)
    ensures
        refresh_result(Ok(s)) == Ok::<Session, Error>(s),
        after_refresh(cur, Ok(s)) == Some(s),
{
}

/// A sign-out that the service acknowledges leaves no current session, so an
/// authenticated operation after it is refused as not authenticated.
pub proof fn lemma_sign_out_ends_session(s: Session)
    ensures
        after_sign_out(Some(s), Ok(())) is None,
        authenticated(after_sign_out(Some(s), Ok(()))) == Err::<Session, Error>(Error::NotAuthenticated),
        refresh_token_of(after_sign_out(Some(s), Ok(()))) == Err::<Seq<char>, Error>(Error::NotAuthenticated),
{
}

/// A failed exchange with the service changes no session.
pub proof fn lemma_failure_keeps_session(cur: Option<Session>, e: TransportError)
    ensures
        after_sign_in(cur, Err(e)) == cur,
        after_refresh(cur, Err(e)) == cur,
        after_sign_out(cur, Err(e)) == cur,
{
}

} // verus!
