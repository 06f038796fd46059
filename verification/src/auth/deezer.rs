//! The authorization flow of one provider, Deezer.

pub mod format;

use crate::auth::deezer::format::{authorize_url, code_of, token_of, token_url};
use crate::auth::{
    AuthError, AuthMethods, AuthorizationStatus, Credentials, ServiceType, SessionView,
    TransportError,
};
use crate::text::{find, rfind};
use vstd::prelude::*;
use vstd::string::*;

verus! {

/// A session with Deezer: the credentials of the application, how far the
/// authorization has come, and the token with its lifetime once they are
/// there. The token is reached through `get_token` only.
pub struct AuthDeezer {
    credentials: Credentials,
    status: AuthorizationStatus,
    token: Option<String>,
    expires: Option<String>,
}

/// A string that may be missing, as a sequence of characters.
spec fn text_view(text: Option<String>) -> Option<Seq<char>> {
    match text {
        Some(t) => Some(t@),
        None => None,
    }
}

impl AuthDeezer {
    #[verifier::type_invariant]
    spec fn sound(&self) -> bool {
        self.session().consistent()
    }

    /// A session on which nothing has happened yet: not started, without
    /// token or lifetime.
    pub fn new(credentials: Credentials) -> (auth: AuthDeezer)
        ensures
            auth.session() == SessionView::fresh(ServiceType::DEEZER, credentials@),
            auth.session().consistent(),
    {
        proof {
            use_type_invariant(&credentials);
        }
        AuthDeezer {
            credentials,
            status: AuthorizationStatus::NotStarted,
            token: None,
            expires: None,
        }
    }

    /// The link on which a user grants access to the application `app_id`,
    /// to be sent back to `redirect_uri` afterwards. Both are written into
    /// the link as they are.
    pub fn build_authorize_url(app_id: &str, redirect_uri: &str) -> (link: String)
        ensures
            link@ == authorize_url(app_id@, redirect_uri@),
    {
        let base = String::from_str("https://connect.deezer.com/oauth/auth.php?app_id=");
        base.concat(app_id).concat("&redirect_uri=").concat(redirect_uri).concat(
            "&perms=basic_access",
        )
    }

    /// The address at which `code` is exchanged for an access token.
    pub fn build_token_url(app_id: &str, app_secret: &str, code: &str) -> (link: String)
        ensures
            link@ == token_url(app_id@, app_secret@, code@),
    {
        let base = String::from_str("https://connect.deezer.com/oauth/access_token.php?app_id=");
        base.concat(app_id).concat("&secret=").concat(app_secret).concat("&code=").concat(code)
    }

    /// The authorization code in a redirect: all that follows the last
    /// `?code=`, as it stands. `NotFound` where there is no `?code=`.
    pub fn parse_code(response: &str) -> (code: Result<String, AuthError>)
        ensures
            match code_of(response@) {
                Some(found) => code matches Ok(c) && c@ == found,
                None => code matches Err(e) && e == AuthError::NotFound,
            },
    {
        let marker = "?code=";
        match rfind(response, marker) {
            Some(at) => {
                let end: usize = response.unicode_len();
                let from: usize = at + marker.unicode_len();
                let rest = response.substring_char(from, end);
                Ok(String::from_str(rest))
            },
            None => Err(AuthError::NotFound),
        }
    }

    /// Token and lifetime in the reply of the token endpoint. The token runs
    /// from the end of the first `access_token=` to the last `&expires=`, the
    /// lifetime from there to the end. `ParseError` where a marker is
    /// missing, or where the last `&expires=` begins before the first
    /// `access_token=` has ended.
    pub fn extract_access_token(response: String) -> (found: Result<(String, String), AuthError>)
        ensures
            match token_of(response@) {
                Some((token, lifetime)) => found matches Ok(pair) && pair.0@ == token && pair.1@
                    == lifetime,
                None => found matches Err(e) && e == AuthError::ParseError,
            },
    {
        let token_pattern = "access_token=";
        let expires_pattern = "&expires=";
        let body = response.as_str();
        let length: usize = body.unicode_len();
        if let Some(begin) = find(body, token_pattern) {
            if let Some(end) = rfind(body, expires_pattern) {
                let from: usize = begin + token_pattern.unicode_len();
                if from <= end {
                    let token = String::from_str(body.substring_char(from, end));
                    let rest: usize = end + expires_pattern.unicode_len();
                    let expires = String::from_str(body.substring_char(rest, length));
                    return Ok((token, expires));
                }
            }
        }
        Err(AuthError::ParseError)
    }
}

impl AuthMethods for AuthDeezer {
    closed spec fn session(&self) -> SessionView {
        SessionView {
            service: ServiceType::DEEZER,
            app_id: self.credentials@.app_id,
            app_secret: self.credentials@.app_secret,
            status: self.status,
            token: text_view(self.token),
            expiry: text_view(self.expires),
        }
    }

    fn status(&self) -> (status: &AuthorizationStatus) {
        proof {
            use_type_invariant(self);
        }
        &self.status
    }

    fn get_authorize_link(&mut self, redirect_uri: &str) -> (link: String) {
        proof {
            use_type_invariant(&*self);
        }
        let link = Self::build_authorize_url(self.credentials.app_id(), redirect_uri);
        self.status = self.status.advance(AuthorizationStatus::AwaitingUserAuthorization);
        link
    }

    fn parse_response_code(&mut self, response: &str) -> (code: Result<String, AuthError>) {
        proof {
            use_type_invariant(&*self);
        }
        let code = Self::parse_code(response);
        if code.is_ok() {
            self.status = self.status.advance(AuthorizationStatus::CodeReceived);
        }
        code
    }

    fn get_token_link(&self, code: &str) -> (link: String) {
        Self::build_token_url(self.credentials.app_id(), self.credentials.app_secret(), code)
    }

    fn receive_token_reply(&mut self, reply: Result<String, TransportError>) -> (done: Result<
        (),
        AuthError,
    >) {
        proof {
            use_type_invariant(&*self);
        }
        match reply {
            Err(_) => Err(AuthError::TransportError),
            Ok(body) => match Self::extract_access_token(body) {
                Ok((token, expires)) => {
                    self.save_token(token);
                    self.expires = Some(expires);
                    self.status = AuthorizationStatus::Completed;
                    Ok(())
                },
                Err(e) => Err(e),
            },
        }
    }

    fn save_token(&mut self, token: String) {
        proof {
            use_type_invariant(&*self);
        }
        self.status = self.status.advance(AuthorizationStatus::TokenAcquired);
        self.token = Some(token);
    }

    fn get_token(&self) -> (token: String) {
        proof {
            use_type_invariant(self);
        }
        match &self.token {
            Some(t) => t.clone(),
            None => String::new(),
        }
    }

    fn get_expires(&self) -> (lifetime: String) {
        match &self.expires {
            Some(t) => t.clone(),
            None => String::new(),
        }
    }
}

} // verus!
