//! What holds of every session, whatever the order of the calls.

use crate::auth::deezer::format::{
    code_marker, expires_marker, lemma_code_of_redirect, lemma_markers, lemma_token_of_reply,
    token_marker,
};
use crate::auth::{
    AuthError, AuthorizationStatus, CredentialsView, ServiceType, SessionView, TransportError,
};
use crate::text::occurs;
use vstd::prelude::*;

verus! {

/// A new session is consistent, and every step takes a consistent session
/// to a consistent one: a token is never held before `TokenAcquired`, and a
/// completed session always holds token and lifetime.
pub proof fn lemma_steps_keep_consistency(
    s: SessionView,
    response: Seq<char>,
    token: Seq<char>,
    reply: Result<Seq<char>, TransportError>,
)
    requires
        s.consistent(),
    ensures
        SessionView::fresh(
            s.service,
            CredentialsView { app_id: s.app_id, app_secret: s.app_secret },
        ).consistent(),
        s.after_authorize_link().consistent(),
        s.after_response(response).consistent(),
        s.after_token(token).consistent(),
        s.after_exchange(reply).consistent(),
{
}

/// No step takes the status back, and no step touches the service or the
/// credentials.
pub proof fn lemma_status_never_goes_back(
    s: SessionView,
    response: Seq<char>,
    token: Seq<char>,
    reply: Result<Seq<char>, TransportError>,
)
    ensures
        s.after_authorize_link().continues(s),
        s.after_response(response).continues(s),
        s.after_token(token).continues(s),
        s.after_exchange(reply).continues(s),
{
}

/// Handing out the link to grant access never takes a session below
/// `AwaitingUserAuthorization` nor below where it was, keeps token and
/// lifetime, and changes nothing when it is done again.
pub proof fn lemma_authorize_link_again(s: SessionView)
    ensures
        s.after_authorize_link().status.rank()
            >= AuthorizationStatus::AwaitingUserAuthorization.rank(),
        s.after_authorize_link().status.rank() >= s.status.rank(),
        s.status.rank() >= AuthorizationStatus::AwaitingUserAuthorization.rank()
            ==> s.after_authorize_link() == s,
        s.after_authorize_link().token == s.token,
        s.after_authorize_link().expiry == s.expiry,
        s.after_authorize_link().after_authorize_link() == s.after_authorize_link(),
{
}

/// An exchange that fails leaves the session as it was, status and token
/// included, so that it can be tried again. It fails with `TransportError`
/// exactly when the transport failed, and with `ParseError` exactly when the
/// body holds no token and lifetime.
pub proof fn lemma_failed_exchange_changes_nothing(
    s: SessionView,
    reply: Result<Seq<char>, TransportError>,
)
    ensures
        s.exchange_result(reply) is Err ==> s.after_exchange(reply) == s,
        s.exchange_result(reply) == Err::<(), AuthError>(AuthError::TransportError)
            <==> reply is Err,
        s.exchange_result(reply) == Err::<(), AuthError>(AuthError::ParseError) <==> reply is Ok
            && s.access_token(reply->Ok_0) is None,
{
}

/// An exchange that succeeds completes the session, whatever its status
/// was, and leaves it with the token and the lifetime of the body.
pub proof fn lemma_exchange_completes(s: SessionView, body: Seq<char>)
    requires
        s.access_token(body) is Some,
    ensures
        s.exchange_result(Ok(body)) == Ok::<(), AuthError>(()),
        s.after_exchange(Ok(body)).status == AuthorizationStatus::Completed,
        s.access_token(body) matches Some(found) && s.after_exchange(Ok(body)).token == Some(
            found.0,
        ) && s.after_exchange(Ok(body)).expiry == Some(found.1),
{
}

/// The whole flow: a new session that hands out the link, reads a redirect
/// with a code in it and then takes a reply with token and lifetime is
/// completed and holds that token and that lifetime.
pub proof fn lemma_round_trip(
    service: ServiceType,
    credentials: CredentialsView,
    response: Seq<char>,
    body: Seq<char>,
)
    requires
        SessionView::fresh(service, credentials).response_code(response) is Some,
        SessionView::fresh(service, credentials).access_token(body) is Some,
    ensures
        ({
            let start = SessionView::fresh(service, credentials);
            let asked = start.after_authorize_link();
            let coded = asked.after_response(response);
            let done = coded.after_exchange(Ok(body));
            &&& asked.status == AuthorizationStatus::AwaitingUserAuthorization
            &&& coded.status == AuthorizationStatus::CodeReceived
            &&& coded.exchange_result(Ok(body)) == Ok::<(), AuthError>(())
            &&& done.status == AuthorizationStatus::Completed
            &&& start.access_token(body) matches Some(found) && done.token == Some(found.0)
                && done.expiry == Some(found.1)
        }),
{
}

/// The whole flow with Deezer, on texts of the provider's form: a redirect
/// that ends in `?code=` and a code, and a reply of the form
/// `access_token=<token>&expires=<lifetime>`. The session ends completed,
/// with that token and that lifetime.
pub proof fn lemma_deezer_round_trip(
    credentials: CredentialsView,
    callback: Seq<char>,
    code: Seq<char>,
    token: Seq<char>,
    lifetime: Seq<char>,
)
    requires
        !occurs(code, code_marker()),
        !occurs(lifetime, expires_marker()),
    ensures
        ({
            let start = SessionView::fresh(ServiceType::DEEZER, credentials);
            let response = callback + code_marker() + code;
            let body = token_marker() + token + expires_marker() + lifetime;
            let coded = start.after_authorize_link().after_response(response);
            let done = coded.after_exchange(Ok(body));
            &&& start.response_code(response) == Some(code)
            &&& coded.status == AuthorizationStatus::CodeReceived
            &&& coded.exchange_result(Ok(body)) == Ok::<(), AuthError>(())
            &&& done.status == AuthorizationStatus::Completed
            &&& done.token == Some(token)
            &&& done.expiry == Some(lifetime)
        }),
{
    let empty = Seq::<char>::empty();
    lemma_code_of_redirect(callback, code);
    assert(!occurs(empty, token_marker())) by {
        lemma_markers();
    }
    lemma_token_of_reply(empty, token, lifetime);
    assert(empty + token_marker() + token + expires_marker() + lifetime =~= token_marker() + token
        + expires_marker() + lifetime);
}

} // verus!
