use vstd::prelude::*;

verus! {

/// An identity record as the service returns it.
pub struct User {
    pub id: String,
    pub aud: String,
    pub role: String,
    pub email: String,
    pub phone: String,
    pub email_confirmed_at: Option<String>,
    pub phone_confirmed_at: Option<String>,
    /// Free-form attributes, as JSON text.
    pub user_metadata: String,
    pub created_at: String,
    pub updated_at: String,
}

/// One authenticated login: a bearer token, the token that mints the next
/// session, and the user they belong to.
pub struct Session {
    pub access_token: String,
    pub token_type: String,
    pub expires_in: i64,
    pub refresh_token: String,
    pub user: User,
}

/// The identifier of an account: an email address or a phone number, never both.
pub enum EmailOrPhone {
    Email(String),
    Phone(String),
}

/// What the current user may change of their own account.
pub struct UserAttributes {
    pub email: String,
    pub password: String,
    /// Free-form attributes, as JSON text; sent as it stands.
    pub data: String,
}

/// A failed exchange with the service: no response (`status` is `None`) or a
/// status outside 2xx.
#[derive(Debug, Clone, Copy, PartialEq, Eq)]
pub struct TransportError {
    pub status: Option<u16>,
}

/// The outcomes that a client reports instead of a value.
#[derive(Debug, Clone, Copy, PartialEq, Eq)]
pub enum Error {
    /// The service could not be reached, or answered with a failure status.
    TransportFailure,
    /// An operation that needs a session was asked for while there is none.
    NotAuthenticated,
    /// The current session holds no refresh token.
    MissingRefreshToken,
    /// The service answered, but not with something the client can hold.
    InternalError,
}

pub fn copy_opt_string(s: &Option<String>) -> (r: Option<String>)
    ensures
        r == *s,
{
    match s {
        Some(t) => Some(t.clone()),
        None => None,
    }
}

impl User {
    /// A field-by-field copy.
    pub fn copy(&self) -> (r: User)
        ensures
            r == *self,
    {
        User {
            id: self.id.clone(),
            aud: self.aud.clone(),
            role: self.role.clone(),
            email: self.email.clone(),
            phone: self.phone.clone(),
            email_confirmed_at: copy_opt_string(&self.email_confirmed_at),
            phone_confirmed_at: copy_opt_string(&self.phone_confirmed_at),
            user_metadata: self.user_metadata.clone(),
            created_at: self.created_at.clone(),
            updated_at: self.updated_at.clone(),
        }
    }
}

impl Session {
    /// A field-by-field copy.
    pub fn copy(&self) -> (r: Session)
        ensures
            r == *self,
    {
        Session {
            access_token: self.access_token.clone(),
            token_type: self.token_type.clone(),
            expires_in: self.expires_in,
            refresh_token: self.refresh_token.clone(),
            user: self.user.copy(),
        }
    }
}

} // verus!
