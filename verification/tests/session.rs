use music_streamer::auth::deezer::AuthDeezer;
use music_streamer::auth::{
    new, AuthError, AuthMethods, AuthorizationStatus, Credentials, ServiceType, Transport,
    TransportError,
};

/// A transport that answers every request with the same reply and keeps
/// the addresses it was asked for.
struct Canned {
    reply: Result<String, TransportError>,
    asked: Vec<String>,
}

impl Canned {
    fn body(text: &str) -> Canned {
        Canned { reply: Ok(text.to_string()), asked: Vec::new() }
    }

    fn failing() -> Canned {
        Canned { reply: Err(TransportError), asked: Vec::new() }
    }
}

impl Transport for Canned {
    fn send(&mut self, url: &str) -> Result<String, TransportError> {
        self.asked.push(url.to_string());
        self.reply.clone()
    }
}

fn credentials() -> Credentials {
    match Credentials::new("111".to_string(), "s3cr3t".to_string()) {
        Some(c) => c,
        None => panic!("id and secret are not empty"),
    }
}

#[test]
fn credentials_need_an_id_and_a_secret() {
    assert!(Credentials::new(String::new(), "s3cr3t".to_string()).is_none());
    assert!(Credentials::new("111".to_string(), String::new()).is_none());
    assert!(Credentials::new(String::new(), String::new()).is_none());
    assert!(Credentials::new("1".to_string(), "s".to_string()).is_some());
}

#[test]
fn credentials_hand_back_what_they_were_given() {
    let c = credentials();
    assert_eq!(c.app_id(), "111");
    assert_eq!(c.app_secret(), "s3cr3t");
}

#[test]
fn a_new_session_has_not_started_and_holds_nothing() {
    let auth = AuthDeezer::new(credentials());
    assert_eq!(*auth.status(), AuthorizationStatus::NotStarted);
    assert_eq!(auth.get_token(), "");
    assert_eq!(auth.get_expires(), "");
}

#[test]
fn new_makes_a_deezer_session() {
    let mut auth = new(ServiceType::DEEZER, credentials());
    assert_eq!(*auth.status(), AuthorizationStatus::NotStarted);
    assert_eq!(auth.get_token(), "");
    assert_eq!(
        auth.get_authorize_link("http://example.com"),
        "https://connect.deezer.com/oauth/auth.php?app_id=111&redirect_uri=http://example.com&perms=basic_access"
    );
}

#[test]
fn status_positions_follow_the_flow() {
    assert_eq!(AuthorizationStatus::NotStarted.position(), 0);
    assert_eq!(AuthorizationStatus::AwaitingUserAuthorization.position(), 1);
    assert_eq!(AuthorizationStatus::CodeReceived.position(), 2);
    assert_eq!(AuthorizationStatus::TokenAcquired.position(), 3);
    assert_eq!(AuthorizationStatus::Completed.position(), 4);
}

#[test]
fn advance_moves_forward_or_stays() {
    assert_eq!(
        AuthorizationStatus::NotStarted.advance(AuthorizationStatus::CodeReceived),
        AuthorizationStatus::CodeReceived
    );
    assert_eq!(
        AuthorizationStatus::Completed.advance(AuthorizationStatus::CodeReceived),
        AuthorizationStatus::Completed
    );
    assert_eq!(
        AuthorizationStatus::TokenAcquired.advance(AuthorizationStatus::TokenAcquired),
        AuthorizationStatus::TokenAcquired
    );
}

#[test]
fn get_authorize_link_awaits_the_user() {
    let mut auth = AuthDeezer::new(credentials());
    let link = auth.get_authorize_link("http://example.com");
    assert_eq!(
        link,
        "https://connect.deezer.com/oauth/auth.php?app_id=111&redirect_uri=http://example.com&perms=basic_access"
    );
    assert_eq!(*auth.status(), AuthorizationStatus::AwaitingUserAuthorization);
}

#[test]
fn get_authorize_link_twice_stays_where_it_is() {
    let mut auth = AuthDeezer::new(credentials());
    let first = auth.get_authorize_link("http://example.com");
    let second = auth.get_authorize_link("http://example.com");
    assert_eq!(first, second);
    assert_eq!(*auth.status(), AuthorizationStatus::AwaitingUserAuthorization);
}

#[test]
fn get_authorize_link_never_takes_the_status_back() {
    let mut auth = AuthDeezer::new(credentials());
    auth.get_authorize_link("http://example.com");
    assert_eq!(
        auth.parse_response_code("http://example.com/?code=abc"),
        Ok("abc".to_string())
    );
    auth.get_authorize_link("http://example.com");
    assert_eq!(*auth.status(), AuthorizationStatus::CodeReceived);

    let mut transport = Canned::body("access_token=XYZ&expires=3600");
    assert_eq!(auth.authenticate_application(&mut transport, "abc"), Ok(()));
    auth.get_authorize_link("http://example.com");
    assert_eq!(*auth.status(), AuthorizationStatus::Completed);
    assert_eq!(auth.get_token(), "XYZ");
}

#[test]
fn parse_response_code_moves_on_with_a_code() {
    let mut auth = AuthDeezer::new(credentials());
    auth.get_authorize_link("http://example.com");
    let code = auth.parse_response_code("http://example.com/test_path/?code=fre54bf0a48d1bf566f24c2289ce06d1");
    assert_eq!(code, Ok("fre54bf0a48d1bf566f24c2289ce06d1".to_string()));
    assert_eq!(*auth.status(), AuthorizationStatus::CodeReceived);
}

#[test]
fn parse_response_code_without_a_code_changes_nothing() {
    let mut auth = AuthDeezer::new(credentials());
    auth.get_authorize_link("http://example.com");
    assert_eq!(
        auth.parse_response_code("http://example.com/test_path/"),
        Err(AuthError::NotFound)
    );
    assert_eq!(*auth.status(), AuthorizationStatus::AwaitingUserAuthorization);
    assert_eq!(auth.get_token(), "");
}

#[test]
fn parse_response_code_never_takes_the_status_back() {
    let mut auth = AuthDeezer::new(credentials());
    auth.save_token("token".to_string());
    assert_eq!(auth.parse_response_code("?code=abc"), Ok("abc".to_string()));
    assert_eq!(*auth.status(), AuthorizationStatus::TokenAcquired);
}

#[test]
fn get_token_link_holds_id_secret_and_code() {
    let auth = AuthDeezer::new(credentials());
    assert_eq!(
        auth.get_token_link("fre54bf0"),
        "https://connect.deezer.com/oauth/access_token.php?app_id=111&secret=s3cr3t&code=fre54bf0"
    );
    assert_eq!(*auth.status(), AuthorizationStatus::NotStarted);
}

#[test]
fn round_trip_ends_completed_with_the_token() {
    let mut auth = AuthDeezer::new(credentials());
    auth.get_authorize_link("http://example.com/cb/");
    let code = match auth.parse_response_code("http://example.com/cb/?code=abc123") {
        Ok(code) => code,
        Err(e) => panic!("no code: {:?}", e),
    };
    assert_eq!(code, "abc123");
    let mut transport = Canned::body("access_token=XYZ&expires=3600");
    assert_eq!(auth.authenticate_application(&mut transport, &code), Ok(()));
    assert_eq!(*auth.status(), AuthorizationStatus::Completed);
    assert_eq!(auth.get_token(), "XYZ");
    assert_eq!(auth.get_expires(), "3600");
}

#[test]
fn authenticate_application_asks_once_at_the_token_address() {
    let mut auth = AuthDeezer::new(credentials());
    let mut transport = Canned::body("access_token=XYZ&expires=3600");
    assert_eq!(auth.authenticate_application(&mut transport, "abc123"), Ok(()));
    assert_eq!(
        transport.asked,
        vec![
            "https://connect.deezer.com/oauth/access_token.php?app_id=111&secret=s3cr3t&code=abc123"
                .to_string()
        ]
    );
}

#[test]
fn a_failed_transport_changes_nothing() {
    let mut auth = AuthDeezer::new(credentials());
    auth.get_authorize_link("http://example.com/cb/");
    assert_eq!(
        auth.parse_response_code("http://example.com/cb/?code=abc123"),
        Ok("abc123".to_string())
    );
    let mut transport = Canned::failing();
    assert_eq!(
        auth.authenticate_application(&mut transport, "abc123"),
        Err(AuthError::TransportError)
    );
    assert_eq!(transport.asked.len(), 1);
    assert_eq!(*auth.status(), AuthorizationStatus::CodeReceived);
    assert_eq!(auth.get_token(), "");
    assert_eq!(auth.get_expires(), "");
}

#[test]
fn a_failed_transport_keeps_an_earlier_token() {
    let mut auth = AuthDeezer::new(credentials());
    let mut good = Canned::body("access_token=XYZ&expires=3600");
    assert_eq!(auth.authenticate_application(&mut good, "abc123"), Ok(()));
    let mut bad = Canned::failing();
    assert_eq!(
        auth.authenticate_application(&mut bad, "abc123"),
        Err(AuthError::TransportError)
    );
    assert_eq!(*auth.status(), AuthorizationStatus::Completed);
    assert_eq!(auth.get_token(), "XYZ");
    assert_eq!(auth.get_expires(), "3600");
}

#[test]
fn a_reply_without_token_changes_nothing() {
    let mut auth = AuthDeezer::new(credentials());
    auth.get_authorize_link("http://example.com/cb/");
    let mut transport = Canned::body("wrong code");
    assert_eq!(
        auth.authenticate_application(&mut transport, "abc123"),
        Err(AuthError::ParseError)
    );
    assert_eq!(*auth.status(), AuthorizationStatus::AwaitingUserAuthorization);
    assert_eq!(auth.get_token(), "");

    auth.save_token("kept".to_string());
    let mut reversed = Canned::body("&expires=3600access_token=XYZ");
    assert_eq!(
        auth.authenticate_application(&mut reversed, "abc123"),
        Err(AuthError::ParseError)
    );
    assert_eq!(*auth.status(), AuthorizationStatus::TokenAcquired);
    assert_eq!(auth.get_token(), "kept");
}

#[test]
fn an_exchange_after_completion_overwrites_token_and_lifetime() {
    let mut auth = AuthDeezer::new(credentials());
    let mut first = Canned::body("access_token=XYZ&expires=3600");
    assert_eq!(auth.authenticate_application(&mut first, "abc123"), Ok(()));
    let mut second = Canned::body("access_token=UVW&expires=60");
    assert_eq!(auth.authenticate_application(&mut second, "def456"), Ok(()));
    assert_eq!(*auth.status(), AuthorizationStatus::Completed);
    assert_eq!(auth.get_token(), "UVW");
    assert_eq!(auth.get_expires(), "60");
}

#[test]
fn receive_token_reply_takes_each_kind_of_reply() {
    let mut auth = AuthDeezer::new(credentials());
    assert_eq!(
        auth.receive_token_reply(Err(TransportError)),
        Err(AuthError::TransportError)
    );
    assert_eq!(*auth.status(), AuthorizationStatus::NotStarted);
    assert_eq!(
        auth.receive_token_reply(Ok("nothing here".to_string())),
        Err(AuthError::ParseError)
    );
    assert_eq!(*auth.status(), AuthorizationStatus::NotStarted);
    assert_eq!(
        auth.receive_token_reply(Ok("access_token=XYZ&expires=3600".to_string())),
        Ok(())
    );
    assert_eq!(*auth.status(), AuthorizationStatus::Completed);
    assert_eq!(auth.get_token(), "XYZ");
    assert_eq!(auth.get_expires(), "3600");
}

#[test]
fn save_token_stores_the_token() {
    let mut auth = AuthDeezer::new(credentials());
    auth.save_token("token".to_string());
    assert_eq!(auth.get_token(), "token");
    assert_eq!(auth.get_expires(), "");
    assert_eq!(*auth.status(), AuthorizationStatus::TokenAcquired);
}

#[test]
fn save_token_on_a_completed_session_keeps_it_completed() {
    let mut auth = AuthDeezer::new(credentials());
    let mut transport = Canned::body("access_token=XYZ&expires=3600");
    assert_eq!(auth.authenticate_application(&mut transport, "abc123"), Ok(()));
    auth.save_token("other".to_string());
    assert_eq!(*auth.status(), AuthorizationStatus::Completed);
    assert_eq!(auth.get_token(), "other");
    assert_eq!(auth.get_expires(), "3600");
}
