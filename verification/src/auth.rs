//! The credentials of an endpoint, as callers present them and as the broker
//! stores them.

use vstd::prelude::*;

use crate::ident::{all_url_safe, random_id, RANDOM_CHARS};
use crate::status::Status;
use crate::text::same_text;

verus! {

/// An endpoint id with its token, as a caller sends them for registration and
/// as registration answers them. An empty token makes the endpoint public.
#[derive(Debug)]
pub struct Auth {
    id: String,
    token: String,
}

/// What a pair of id and token says.
pub struct AuthView {
    pub id: Seq<char>,
    pub token: Seq<char>,
}

impl View for Auth {
    type V = AuthView;

    closed spec fn view(&self) -> AuthView {
        AuthView { id: self.id@, token: self.token@ }
    }
}

impl Auth {
    /// The pair of `id` and `token`.
    pub fn new(id: String, token: String) -> (auth: Auth)
        ensures
            auth@ == (AuthView { id: id@, token: token@ }),
    {
        Auth { id, token }
    }

    /// A pair of a random id and a random token, twenty-one url-safe
    /// characters each.
    pub fn rnd() -> (auth: Auth)
        ensures
            auth@.id.len() == RANDOM_CHARS,
            auth@.token.len() == RANDOM_CHARS,
            all_url_safe(auth@.id),
            all_url_safe(auth@.token),
    {
        Auth { id: random_id(), token: random_id() }
    }

    /// The endpoint id.
    pub fn id(&self) -> (id: &str)
        ensures
            id@ == self@.id,
    {
        self.id.as_str()
    }

    /// The token.
    pub fn token(&self) -> (token: &str)
        ensures
            token@ == self@.token,
    {
        self.token.as_str()
    }

    /// The id and the token, in this order.
    pub fn into_parts(self) -> (parts: (String, String))
        ensures
            parts.0@ == self@.id,
            parts.1@ == self@.token,
    {
        (self.id, self.token)
    }
}

impl Clone for Auth {
    fn clone(&self) -> (copy: Auth)
        ensures
            copy@ == self@,
    {
        Auth { id: self.id.clone(), token: self.token.clone() }
    }
}

/// A stored pair of id and token that a presented token was looked up by.
#[derive(Debug)]
pub struct AuthGuardDb {
    id: String,
    token: String,
}

impl View for AuthGuardDb {
    type V = AuthView;

    closed spec fn view(&self) -> AuthView {
        AuthView { id: self.id@, token: self.token@ }
    }
}

impl AuthGuardDb {
    /// The guard for the stored pair of `id` and `token`.
    pub fn new(id: String, token: String) -> (guard: AuthGuardDb)
        ensures
            guard@ == (AuthView { id: id@, token: token@ }),
    {
        AuthGuardDb { id, token }
    }

    /// Whether the guard was issued for the endpoint `id`.
    pub fn id_matches(&self, id: &str) -> (matches: bool)
        ensures
            matches == (self@.id == id@),
    {
        same_text(self.id.as_str(), id)
    }

    /// The token that the guard was looked up by.
    pub fn token(&self) -> (token: &str)
        ensures
            token@ == self@.token,
    {
        self.token.as_str()
    }
}

impl Clone for AuthGuardDb {
    fn clone(&self) -> (copy: AuthGuardDb)
        ensures
            copy@ == self@,
    {
        AuthGuardDb { id: self.id.clone(), token: self.token.clone() }
    }
}

/// A pair of id and token that the broker made up for a caller who asked for
/// a random endpoint.
pub struct NewAuth {
    id: String,
    token: String,
}

impl View for NewAuth {
    type V = AuthView;

    closed spec fn view(&self) -> AuthView {
        AuthView { id: self.id@, token: self.token@ }
    }
}

impl NewAuth {
    /// A random id with a random token, twenty-one url-safe characters each.
    pub fn generate() -> (auth: NewAuth)
        ensures
            auth@.id.len() == RANDOM_CHARS,
            auth@.token.len() == RANDOM_CHARS,
            all_url_safe(auth@.id),
            all_url_safe(auth@.token),
    {
        NewAuth { id: random_id(), token: random_id() }
    }

    /// The endpoint id.
    pub fn id(&self) -> (id: &str)
        ensures
            id@ == self@.id,
    {
        self.id.as_str()
    }

    /// The token.
    pub fn token(&self) -> (token: &str)
        ensures
            token@ == self@.token,
    {
        self.token.as_str()
    }

    /// The same pair as a registration request.
    pub fn into_auth(self) -> (auth: Auth)
        ensures
            auth@ == self@,
    {
        Auth::new(self.id, self.token)
    }
}

impl Clone for NewAuth {
    fn clone(&self) -> (copy: NewAuth)
        ensures
            copy@ == self@,
    {
        NewAuth { id: self.id.clone(), token: self.token.clone() }
    }
}

/// The proof that a caller presented the cleanup secret.
pub struct ConfigurationAuth();

/// What the guard of the cleanup route answers to a presented secret: access
/// for the right one, `Forbidden` for a wrong one, `Unauthorized` for none.
pub open spec fn secret_verdict(presented: Option<Seq<char>>, secret: Seq<char>) -> Result<
    (),
    Status,
> {
    match presented {
        None => Err(Status::Unauthorized),
        Some(text) => if text == secret {
            Ok(())
        } else {
            Err(Status::Forbidden)
        },
    }
}

impl ConfigurationAuth {
    /// Checks the secret that a caller presented against the cleanup secret.
    pub fn from_header(presented: Option<&str>, secret: &str) -> (guard: Result<
        ConfigurationAuth,
        Status,
    >)
        ensures
            match secret_verdict(
                match presented {
                    Some(text) => Some(text@),
                    None => None,
                },
                secret@,
            ) {
                Ok(_) => guard is Ok,
                Err(status) => guard == Err::<ConfigurationAuth, Status>(status),
            },
    {
        match presented {
            None => Err(Status::Unauthorized),
            Some(text) => if same_text(text, secret) {
                Ok(ConfigurationAuth())
            } else {
                Err(Status::Forbidden)
            },
        }
    }
}

} // verus!
