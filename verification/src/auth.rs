//! Authorization against a music service: what every provider offers, and
//! the states that a session goes through.

pub mod deezer;
pub mod laws;

use crate::auth::deezer::format::{authorize_url, code_of, token_of, token_url};
use crate::auth::deezer::AuthDeezer;
use vstd::prelude::*;
use vstd::string::*;

verus! {

/// How far the authorization has come. The states follow each other in the
/// order in which they are written, and a session never goes back.
#[derive(Clone, Copy, Debug, PartialEq, Eq, Structural)]
pub enum AuthorizationStatus {
    /// Nothing has happened yet.
    NotStarted,
    /// The user has been given the link on which to grant access.
    AwaitingUserAuthorization,
    /// The code that the provider sent back has been read.
    CodeReceived,
    /// A token is held.
    TokenAcquired,
    /// Token and lifetime are held: the service can be used.
    Completed,
}

impl AuthorizationStatus {
    /// Place of the state in the order of the flow, from 0.
    pub open spec fn rank(self) -> nat {
        match self {
            AuthorizationStatus::NotStarted => 0,
            AuthorizationStatus::AwaitingUserAuthorization => 1,
            AuthorizationStatus::CodeReceived => 2,
            AuthorizationStatus::TokenAcquired => 3,
            AuthorizationStatus::Completed => 4,
        }
    }

    /// The later of `self` and `target`.
    pub open spec fn advanced_to(self, target: AuthorizationStatus) -> AuthorizationStatus {
        if self.rank() < target.rank() {
            target
        } else {
            self
        }
    }

    /// Place of the state in the order of the flow, from 0.
    pub fn position(&self) -> (r: u8)
        ensures
            r == self.rank(),
    {
        match self {
            AuthorizationStatus::NotStarted => 0,
            AuthorizationStatus::AwaitingUserAuthorization => 1,
            AuthorizationStatus::CodeReceived => 2,
            AuthorizationStatus::TokenAcquired => 3,
            AuthorizationStatus::Completed => 4,
        }
    }

    /// The later of `self` and `target`: a state moves forward or stays.
    pub fn advance(self, target: AuthorizationStatus) -> (r: AuthorizationStatus)
        ensures
            r == self.advanced_to(target),
    {
        if self.position() < target.position() {
            target
        } else {
            self
        }
    }
}

/// The services for which a session can be made.
#[allow(non_camel_case_types)]
#[derive(Clone, Copy, Debug, PartialEq, Eq, Structural)]
pub enum ServiceType {
    DEEZER,
}

/// Why a step of the flow did not succeed. The session is then as it was.
#[derive(Clone, Copy, Debug, PartialEq, Eq, Structural)]
pub enum AuthError {
    /// The redirect holds no authorization code.
    NotFound,
    /// The provider's reply holds no token and lifetime in the expected form.
    ParseError,
    /// The request to the provider could not be completed.
    TransportError,
}

/// The request to the provider could not be completed: no connection, a
/// status other than success, or a body that could not be read.
#[derive(Clone, Copy, Debug, PartialEq, Eq, Structural)]
pub struct TransportError;

/// What carries a request to the provider and brings the reply's body back.
/// The library asks nothing of it but an answer: whatever it returns is
/// taken as the outcome of the request.
pub trait Transport {
    /// Fetches `url` once, without trying again, and gives the body of the
    /// reply, or `TransportError` where there is none to give.
    fn send(&mut self, url: &str) -> Result<String, TransportError>;
}

/// Application id and application secret, as sequences of characters.
pub struct CredentialsView {
    pub app_id: Seq<char>,
    pub app_secret: Seq<char>,
}

/// Application id and application secret, as the provider issued them.
/// Neither is empty, and neither changes.
pub struct Credentials {
    app_id: String,
    app_secret: String,
}

impl View for Credentials {
    type V = CredentialsView;

    closed spec fn view(&self) -> CredentialsView {
        CredentialsView { app_id: self.app_id@, app_secret: self.app_secret@ }
    }
}

impl Credentials {
    /// Neither the id nor the secret is empty.
    #[verifier::type_invariant]
    pub open spec fn filled(&self) -> bool {
        self@.app_id.len() > 0 && self@.app_secret.len() > 0
    }

    /// Credentials of the application `app_id`, or nothing where the id or
    /// the secret is empty.
    pub fn new(app_id: String, app_secret: String) -> (made: Option<Credentials>)
        ensures
            match made {
                Some(c) => c@.app_id == app_id@ && c@.app_secret == app_secret@,
                None => app_id@.len() == 0 || app_secret@.len() == 0,
            },
            made is Some <==> app_id@.len() > 0 && app_secret@.len() > 0,
    {
        if app_id.as_str().is_empty() || app_secret.as_str().is_empty() {
            None
        } else {
            Some(Credentials { app_id, app_secret })
        }
    }

    /// The application id.
    pub fn app_id(&self) -> (id: &str)
        ensures
            id@ == self@.app_id,
            id@.len() > 0,
    {
        proof {
            use_type_invariant(self);
        }
        self.app_id.as_str()
    }

    /// The application secret. It goes to the provider and nowhere else.
    pub fn app_secret(&self) -> (secret: &str)
        ensures
            secret@ == self@.app_secret,
            secret@.len() > 0,
    {
        proof {
            use_type_invariant(self);
        }
        self.app_secret.as_str()
    }
}

/// The body that a transport brought back, or its failure, with the body as a
/// sequence of characters.
pub open spec fn reply_view(reply: Result<String, TransportError>) -> Result<
    Seq<char>,
    TransportError,
> {
    match reply {
        Ok(body) => Ok(body@),
        Err(e) => Err(e),
    }
}

/// A session as the contracts see it.
pub struct SessionView {
    pub service: ServiceType,
    pub app_id: Seq<char>,
    pub app_secret: Seq<char>,
    pub status: AuthorizationStatus,
    pub token: Option<Seq<char>>,
    pub expiry: Option<Seq<char>>,
}

impl SessionView {
    /// A session on which nothing has happened yet.
    pub open spec fn fresh(service: ServiceType, credentials: CredentialsView) -> SessionView {
        SessionView {
            service,
            app_id: credentials.app_id,
            app_secret: credentials.app_secret,
            status: AuthorizationStatus::NotStarted,
            token: None,
            expiry: None,
        }
    }

    /// What holds of every session: the credentials are not empty; a token is
    /// held only from `TokenAcquired` on; and a completed session holds both
    /// a token and its lifetime.
    pub open spec fn consistent(self) -> bool {
        &&& self.app_id.len() > 0
        &&& self.app_secret.len() > 0
        &&& self.token is Some ==> self.status.rank() >= AuthorizationStatus::TokenAcquired.rank()
        &&& self.status == AuthorizationStatus::Completed ==> self.token is Some
            && self.expiry is Some
    }

    /// `self` can come after `earlier` in the life of one session: same
    /// service and credentials, and a status that is not behind.
    pub open spec fn continues(self, earlier: SessionView) -> bool {
        &&& self.service == earlier.service
        &&& self.app_id == earlier.app_id
        &&& self.app_secret == earlier.app_secret
        &&& self.status.rank() >= earlier.status.rank()
    }

    /// The link on which the user grants access, in the provider's form.
    pub open spec fn authorize_link(self, redirect_uri: Seq<char>) -> Seq<char> {
        match self.service {
            ServiceType::DEEZER => authorize_url(self.app_id, redirect_uri),
        }
    }

    /// The authorization code that a redirect holds, if any.
    pub open spec fn response_code(self, response: Seq<char>) -> Option<Seq<char>> {
        match self.service {
            ServiceType::DEEZER => code_of(response),
        }
    }

    /// The address at which `code` is exchanged for a token.
    pub open spec fn token_link(self, code: Seq<char>) -> Seq<char> {
        match self.service {
            ServiceType::DEEZER => token_url(self.app_id, self.app_secret, code),
        }
    }

    /// Token and lifetime that a reply of the token endpoint holds, if any.
    pub open spec fn access_token(self, body: Seq<char>) -> Option<(Seq<char>, Seq<char>)> {
        match self.service {
            ServiceType::DEEZER => token_of(body),
        }
    }

    /// The session with its status moved forward to `target`, or unchanged
    /// where it is there already or further.
    pub open spec fn advanced_to(self, target: AuthorizationStatus) -> SessionView {
        SessionView { status: self.status.advanced_to(target), ..self }
    }

    /// The session once the link to grant access has been handed out.
    pub open spec fn after_authorize_link(self) -> SessionView {
        self.advanced_to(AuthorizationStatus::AwaitingUserAuthorization)
    }

    /// The session once `response` has been searched for a code: further on
    /// where it holds one, unchanged where it does not.
    pub open spec fn after_response(self, response: Seq<char>) -> SessionView {
        if self.response_code(response) is Some {
            self.advanced_to(AuthorizationStatus::CodeReceived)
        } else {
            self
        }
    }

    /// The session once `token` has been stored.
    pub open spec fn after_token(self, token: Seq<char>) -> SessionView {
        SessionView {
            token: Some(token),
            status: self.status.advanced_to(AuthorizationStatus::TokenAcquired),
            ..self
        }
    }

    /// What an exchange answers to the transport's `reply`: success where
    /// the body holds token and lifetime, else the reason.
    pub open spec fn exchange_result(self, reply: Result<Seq<char>, TransportError>) -> Result<
        (),
        AuthError,
    > {
        match reply {
            Err(_) => Err(AuthError::TransportError),
            Ok(body) => if self.access_token(body) is Some {
                Ok(())
            } else {
                Err(AuthError::ParseError)
            },
        }
    }

    /// The session once the transport's `reply` has been read: completed,
    /// with token and lifetime from the body, where the exchange succeeds,
    /// and unchanged where it fails.
    pub open spec fn after_exchange(self, reply: Result<Seq<char>, TransportError>) -> SessionView {
        match reply {
            Err(_) => self,
            Ok(body) => match self.access_token(body) {
                Some((token, lifetime)) => SessionView {
                    status: AuthorizationStatus::Completed,
                    token: Some(token),
                    expiry: Some(lifetime),
                    ..self
                },
                None => self,
            },
        }
    }
}

/// What a session with a provider offers, whichever provider it is. Each
/// provider has its own implementation; its texts are those that
/// `SessionView` gives for its `ServiceType`.
///
/// No method fails in any other way than by the error it returns, and a
/// method that returns an error leaves the session as it was.
pub trait AuthMethods {
    /// The session as the contracts see it.
    spec fn session(&self) -> SessionView;

    /// How far the authorization has come.
    fn status(&self) -> (status: &AuthorizationStatus)
        ensures
            *status == self.session().status,
            self.session().consistent(),
    ;

    /// The link on which the user grants access to the application, to be
    /// sent back to `redirect_uri` afterwards. A session that has not started
    /// now awaits the user; one that is further on stays where it is.
    fn get_authorize_link(&mut self, redirect_uri: &str) -> (link: String)
        ensures
            link@ == old(self).session().authorize_link(redirect_uri@),
            final(self).session() == old(self).session().after_authorize_link(),
            final(self).session().consistent(),
    ;

    /// The authorization code in the redirect that followed the user's
    /// consent, or `NotFound` where it holds none. With a code the session
    /// moves on to `CodeReceived`, unless it is further on already.
    fn parse_response_code(&mut self, response: &str) -> (code: Result<String, AuthError>)
        ensures
            match old(self).session().response_code(response@) {
                Some(found) => code matches Ok(c) && c@ == found,
                None => code matches Err(e) && e == AuthError::NotFound,
            },
            final(self).session() == old(self).session().after_response(response@),
            final(self).session().consistent(),
    ;

    /// The address to fetch in order to exchange `code` for a token.
    fn get_token_link(&self, code: &str) -> (link: String)
        ensures
            link@ == self.session().token_link(code@),
    ;

    /// Takes what the transport brought back from the address of
    /// `get_token_link`. A body that holds token and lifetime completes the
    /// session, which then holds both, whatever it held before. A failed
    /// transport gives `TransportError`, a body without them `ParseError`,
    /// and the session stays as it was.
    fn receive_token_reply(&mut self, reply: Result<String, TransportError>) -> (done: Result<
        (),
        AuthError,
    >)
        ensures
            done == old(self).session().exchange_result(reply_view(reply)),
            final(self).session() == old(self).session().after_exchange(reply_view(reply)),
            final(self).session().consistent(),
    ;

    /// Exchanges `code` for a token: sends one request through `transport`
    /// to the address of `get_token_link` and takes the reply as
    /// `receive_token_reply` does. What comes of it depends on the reply
    /// alone.
    fn authenticate_application(&mut self, transport: &mut dyn Transport, code: &str) -> (done:
        Result<(), AuthError>)
        ensures
            exists|reply: Result<Seq<char>, TransportError>|
                {
                    &&& done == old(self).session().exchange_result(reply)
                    &&& final(self).session() == old(self).session().after_exchange(reply)
                },
            done is Err ==> final(self).session() == old(self).session(),
            done is Ok ==> final(self).session().status == AuthorizationStatus::Completed,
            final(self).session().consistent(),
    {
        let link = self.get_token_link(code);
        let reply = transport.send(link.as_str());
        self.receive_token_reply(reply)
    }

    /// Stores `token`. The session moves on to `TokenAcquired`, unless it is
    /// completed already.
    fn save_token(&mut self, token: String)
        ensures
            final(self).session() == old(self).session().after_token(token@),
            final(self).session().consistent(),
    ;

    /// The token that the session holds, or the empty string where it holds
    /// none. It is for requests to the provider and for nothing else.
    fn get_token(&self) -> (token: String)
        ensures
            token@ == match self.session().token {
                Some(t) => t,
                None => Seq::<char>::empty(),
            },
            token@.len() > 0 ==> self.session().status.rank()
                >= AuthorizationStatus::TokenAcquired.rank(),
    ;

    /// The lifetime that came with the token, as the provider wrote it, or
    /// the empty string where the session holds none.
    fn get_expires(&self) -> (lifetime: String)
        ensures
            lifetime@ == match self.session().expiry {
                Some(t) => t,
                None => Seq::<char>::empty(),
            },
    ;
}

/// A session with `service`, on which nothing has happened yet.
pub fn new(service: ServiceType, credentials: Credentials) -> (auth: impl AuthMethods)
    ensures
        auth.session() == SessionView::fresh(service, credentials@),
        auth.session().consistent(),
{
    match service {
        ServiceType::DEEZER => AuthDeezer::new(credentials),
    }
}

} // verus!
