//! The texts that Deezer's authorization endpoints take and give, as
//! functions on sequences of characters.

use crate::text::{
    first_occurrence, head_is_unique, is_first_occurrence, is_last_occurrence, last_occurrence,
    lemma_first_occurrence_exists, lemma_first_occurrence_in_concat, lemma_first_occurrence_is,
    lemma_last_occurrence_exists, lemma_last_occurrence_in_concat, lemma_last_occurrence_is, occurs,
    occurs_at,
};
use vstd::prelude::*;

verus! {

/// Start of the link on which a user grants access, up to the application id.
pub open spec fn authorize_base() -> Seq<char> {
    "https://connect.deezer.com/oauth/auth.php?app_id="@
}

/// What introduces the redirect address in that link.
pub open spec fn redirect_param() -> Seq<char> {
    "&redirect_uri="@
}

/// The permissions asked for, which end that link.
pub open spec fn scope_suffix() -> Seq<char> {
    "&perms=basic_access"@
}

/// The link on which a user grants access to the application `app_id`, to be
/// sent back to `redirect_uri` afterwards. Both are taken as they are.
pub open spec fn authorize_url(app_id: Seq<char>, redirect_uri: Seq<char>) -> Seq<char> {
    authorize_base() + app_id + redirect_param() + redirect_uri + scope_suffix()
}

/// Start of the address of the token endpoint, up to the application id.
pub open spec fn token_base() -> Seq<char> {
    "https://connect.deezer.com/oauth/access_token.php?app_id="@
}

/// What introduces the application secret in that address.
pub open spec fn secret_param() -> Seq<char> {
    "&secret="@
}

/// What introduces the authorization code in that address.
pub open spec fn code_param() -> Seq<char> {
    "&code="@
}

/// The address at which `code` is exchanged for an access token.
pub open spec fn token_url(app_id: Seq<char>, app_secret: Seq<char>, code: Seq<char>) -> Seq<
    char,
> {
    token_base() + app_id + secret_param() + app_secret + code_param() + code
}

/// What stands before the authorization code in a redirect.
pub open spec fn code_marker() -> Seq<char> {
    "?code="@
}

/// The authorization code in a redirect: all that follows the last
/// `?code=`, or nothing where the redirect holds no `?code=`.
pub open spec fn code_of(response: Seq<char>) -> Option<Seq<char>> {
    match last_occurrence(response, code_marker()) {
        Some(at) => Some(response.skip(at + code_marker().len())),
        None => None,
    }
}

/// What stands before the token in the token endpoint's reply.
pub open spec fn token_marker() -> Seq<char> {
    "access_token="@
}

/// What stands between the token and its lifetime in that reply.
pub open spec fn expires_marker() -> Seq<char> {
    "&expires="@
}

/// Token and lifetime in the token endpoint's reply. The token runs from the
/// end of the first `access_token=` to the last `&expires=`, the lifetime from
/// there to the end. There is none where a marker is missing or where the
/// last `&expires=` begins before the first `access_token=` has ended.
pub open spec fn token_of(body: Seq<char>) -> Option<(Seq<char>, Seq<char>)> {
    match (first_occurrence(body, token_marker()), last_occurrence(body, expires_marker())) {
        (Some(begin), Some(end)) => {
            if begin + token_marker().len() <= end {
                Some(
                    (
                        body.subrange(begin + token_marker().len(), end),
                        body.skip(end + expires_marker().len()),
                    ),
                )
            } else {
                None
            }
        },
        _ => None,
    }
}

/// The three markers begin with a character that they do not hold again.
pub proof fn lemma_markers()
    ensures
        code_marker().len() == 6,
        token_marker().len() == 13,
        expires_marker().len() == 9,
        head_is_unique(code_marker()),
        head_is_unique(token_marker()),
        head_is_unique(expires_marker()),
{
    reveal_strlit("?code=");
    reveal_strlit("access_token=");
    reveal_strlit("&expires=");
}

/// The link to grant access begins with the fixed address, ends with the
/// fixed permissions, and holds the application id and the redirect address
/// unchanged, in that order, each behind its parameter name.
pub proof fn lemma_authorize_url_shape(app_id: Seq<char>, redirect_uri: Seq<char>)
    ensures
        authorize_base().is_prefix_of(authorize_url(app_id, redirect_uri)),
        scope_suffix().is_suffix_of(authorize_url(app_id, redirect_uri)),
        occurs_at(authorize_url(app_id, redirect_uri), app_id, authorize_base().len() as int),
        occurs_at(
            authorize_url(app_id, redirect_uri),
            redirect_param(),
            (authorize_base().len() + app_id.len()) as int,
        ),
        occurs_at(
            authorize_url(app_id, redirect_uri),
            redirect_uri,
            (authorize_base().len() + app_id.len() + redirect_param().len()) as int,
        ),
        authorize_url(app_id, redirect_uri).len() == authorize_base().len() + app_id.len()
            + redirect_param().len() + redirect_uri.len() + scope_suffix().len(),
{
    let url = authorize_url(app_id, redirect_uri);
    let a = authorize_base().len() as int;
    let b = a + app_id.len();
    let c = b + redirect_param().len();
    assert(url.subrange(a, b) =~= app_id);
    assert(url.subrange(b, c) =~= redirect_param());
    assert(url.subrange(c, c + redirect_uri.len()) =~= redirect_uri);
}

/// A redirect without `?code=` holds no code, and one with it holds one.
pub proof fn lemma_code_present(response: Seq<char>)
    ensures
        code_of(response) is Some <==> occurs(response, code_marker()),
{
}

/// The code is what follows the last `?code=`: where `?code=` stands at `at`
/// and nowhere further right, the code is the rest of the redirect behind it.
pub proof fn lemma_code_follows_last_marker(response: Seq<char>, at: int)
    requires
        is_last_occurrence(response, code_marker(), at),
    ensures
        code_of(response) == Some(response.skip(at + 6)),
{
    lemma_markers();
    lemma_last_occurrence_is(response, code_marker(), at);
}

/// Whatever stands before it, a `?code=` followed by a value without
/// `?code=` yields that value.
pub proof fn lemma_code_of_redirect(before: Seq<char>, code: Seq<char>)
    requires
        !occurs(code, code_marker()),
    ensures
        code_of(before + code_marker() + code) == Some(code),
{
    lemma_markers();
    lemma_last_occurrence_in_concat(before, code_marker(), code);
}

/// A reply that lacks `access_token=` or `&expires=` holds no token.
pub proof fn lemma_token_needs_both_markers(body: Seq<char>)
    requires
        !occurs(body, token_marker()) || !occurs(body, expires_marker()),
    ensures
        token_of(body) is None,
{
}

/// A reply holds a token exactly when both markers occur and the first
/// `access_token=` ends no later than the last `&expires=` begins.
pub proof fn lemma_token_present(body: Seq<char>)
    ensures
        token_of(body) is Some <==> (exists|begin: int, end: int|
            is_first_occurrence(body, token_marker(), begin) && is_last_occurrence(
                body,
                expires_marker(),
                end,
            ) && begin + 13 <= end),
{
    lemma_markers();
    if token_of(body) is Some {
        let b = choose|i: int| occurs_at(body, token_marker(), i);
        let e = choose|i: int| occurs_at(body, expires_marker(), i);
        lemma_first_occurrence_exists(body, token_marker(), b);
        lemma_last_occurrence_exists(body, expires_marker(), e);
        let begin = first_occurrence(body, token_marker())->0;
        let end = last_occurrence(body, expires_marker())->0;
        assert(is_first_occurrence(body, token_marker(), begin) && is_last_occurrence(
            body,
            expires_marker(),
            end,
        ) && begin + 13 <= end);
    }
    if exists|begin: int, end: int|
        is_first_occurrence(body, token_marker(), begin) && is_last_occurrence(
            body,
            expires_marker(),
            end,
        ) && begin + 13 <= end {
        let (begin, end) = choose|begin: int, end: int|
            is_first_occurrence(body, token_marker(), begin) && is_last_occurrence(
                body,
                expires_marker(),
                end,
            ) && begin + 13 <= end;
        lemma_first_occurrence_is(body, token_marker(), begin);
        lemma_last_occurrence_is(body, expires_marker(), end);
    }
}

/// Whatever stands before it, as long as that holds no `access_token=`, a
/// reply of the form `access_token=<token>&expires=<lifetime>` yields that
/// token and that lifetime, where the lifetime holds no `&expires=`.
pub proof fn lemma_token_of_reply(before: Seq<char>, token: Seq<char>, lifetime: Seq<char>)
    requires
        !occurs(before, token_marker()),
        !occurs(lifetime, expires_marker()),
    ensures
        token_of(before + token_marker() + token + expires_marker() + lifetime) == Some(
            (token, lifetime),
        ),
{
    lemma_markers();
    let body = before + token_marker() + token + expires_marker() + lifetime;
    assert(body =~= before + token_marker() + (token + expires_marker() + lifetime));
    lemma_first_occurrence_in_concat(
        before,
        token_marker(),
        token + expires_marker() + lifetime,
    );
    lemma_last_occurrence_in_concat(before + token_marker() + token, expires_marker(), lifetime);
}

} // verus!
