//! Signing in with the fantasy service.

use vstd::prelude::*;
use crate::backend::reply::{Failure, Status};
use crate::outside::{json_string, json_string_is_delimited, write_json_string};

verus! {

/// Seconds for which a sign-in may take.
pub const CSRF_LIFETIME: u64 = 600;

/// The page that hands the tokens to the window that opened it, up to the access token.
pub const PAGE_HEAD: &'static str = "<!doctype html><html><head><meta charset=\"utf-8\"><title>Auth Complete</title></head>
            <body style=\"font-family: ui-sans-serif, system-ui;\">
                <script>
                (function() { 
                    try { 
                        if (window.opener) { 
                            // POST MESSAGE: Sending the access token back to the main app window
                            window.opener.postMessage({ 
                                type: 'yahoo-auth', 
                                accessToken: ";

/// The same page, between the access token and the refresh token.
pub const PAGE_MIDDLE: &'static str = ",
                                refreshToken: ";

/// The same page, after the refresh token.
pub const PAGE_TAIL: &'static str = "
                            }, '*'); 
                        }
                    } catch(e) { 
                        console.error(\"Error sending token via postMessage:\", e);
                    }
                    // Always close the popup window after a brief delay
                    setTimeout(function(){ window.close(); }, 1500);
                })();
                </script>
                <p>Authentication successful. You can close this window.</p>
            </body></html>";

/// A cookie that holds a token.
#[derive(Debug)]
pub struct AuthCookie {
    pub name: &'static str,
    pub value: String,
    pub path: &'static str,
    pub secure: bool,
    pub http_only: bool,
    /// Whether the cookie goes along when a link leads here from elsewhere, but not otherwise.
    pub same_site_lax: bool,
}

/// What a visitor gets who signed in.
#[derive(Debug)]
pub struct AuthPage {
    pub cookie_auth: AuthCookie,
    pub cookie_refresh: AuthCookie,
    pub html: String,
}

/// Why a sign-in cannot be begun.
#[derive(Clone, Copy, Debug, PartialEq, Eq, Structural)]
pub enum SignInError {
    /// The fantasy service gives no address to go to.
    NoAddress,
    /// The store of sign-ins cannot be reached or does not take the sign-in.
    NoStore,
}

/// The key under which a sign-in is stored.
pub fn csrf_key(csrf_token: &str) -> (r: String)
    ensures
        r@ == "csrf:"@ + csrf_token@,
{
    let mut key: String = "csrf:".to_owned();
    key.append(csrf_token);
    key
}

/// The refusal where a sign-in cannot be begun.
pub fn sign_in_failure(error: SignInError) -> (r: Failure)
    ensures
        r.says(
            Status::InternalServerError,
            match error {
                SignInError::NoAddress => "Failed to initiate authentication"@,
                SignInError::NoStore => "Internal server error"@,
            },
        ),
{
    match error {
        SignInError::NoAddress => Failure::new(
            Status::InternalServerError,
            "Failed to initiate authentication",
        ),
        SignInError::NoStore => Failure::new(
            Status::InternalServerError,
            "Internal server error",
        ),
    }
}

/// Where a visitor is sent to sign in: to the address that the fantasy service gave, where it gave
/// one and the store took the sign-in; else the visitor is refused.
pub fn sign_in(address: Option<String>, stored: bool) -> (r: Result<String, Failure>)
    ensures
        r is Ok <==> address is Some && stored,
        r matches Ok(url) ==> address == Some(url),
        r matches Err(failure) ==> failure.says(
            Status::InternalServerError,
            match address {
                None => "Failed to initiate authentication"@,
                Some(_) => "Internal server error"@,
            },
        ),
{
    match address {
        None => Err(sign_in_failure(SignInError::NoAddress)),
        Some(url) => {
            if stored {
                Ok(url)
            } else {
                Err(sign_in_failure(SignInError::NoStore))
            }
        },
    }
}

/// Whether that is the refusal of a return, if any, given how many sign-ins were deleted.
pub open spec fn is_csrf_answer(deleted: Option<i32>, r: Option<Failure>) -> bool {
    &&& r is None <==> (deleted matches Some(count) && count > 0)
    &&& r matches Some(failure) ==> match deleted {
        Some(_) => failure.says(Status::BadRequest, "Invalid or expired CSRF token"@),
        None => failure.says(Status::InternalServerError, "Internal server error"@),
    }
}

/// Whether that is what a visitor gets for the tokens that the fantasy service gave.
pub open spec fn is_sign_in_of(
    tokens: Option<(String, Option<String>)>,
    r: Result<AuthPage, Failure>,
) -> bool {
    match tokens {
        Some((access, refresh)) => {
            let refresh = match refresh {
                Some(token) => token@,
                None => seq![],
            };
            &&& r matches Ok(page)
            &&& page.cookie_auth.holds("yahoo-auth"@, access@)
            &&& page.cookie_refresh.holds("yahoo-refresh"@, refresh)
            &&& page.html@ == auth_html(access@, refresh)
        },
        None => r matches Err(failure) && failure.says(
            Status::InternalServerError,
            "Failed to retrieve tokens"@,
        ),
    }
}

/// The refusal of a return from the fantasy service, if it is refused, given how many sign-ins
/// were deleted from the store under its key: there was one, or the return belongs to none.
/// Nothing is given where the store cannot be reached.
pub fn check_csrf(deleted: Option<i32>) -> (r: Option<Failure>)
    ensures
        is_csrf_answer(deleted, r),
{
    match deleted {
        Some(count) => {
            if count > 0 {
                None
            } else {
                Some(Failure::new(Status::BadRequest, "Invalid or expired CSRF token"))
            }
        },
        None => Some(Failure::new(Status::InternalServerError, "Internal server error")),
    }
}

/// The page that hands over both tokens.
pub open spec fn auth_html(access_token: Seq<char>, refresh_token: Seq<char>) -> Seq<char> {
    PAGE_HEAD@ + json_string(access_token) + PAGE_MIDDLE@ + json_string(refresh_token)
        + PAGE_TAIL@
}

impl AuthCookie {
    /// Whether this is the cookie of that name and value, for the pages of the fantasy service
    /// alone, and out of reach for scripts and for plain connections.
    pub open spec fn holds(self, name: Seq<char>, value: Seq<char>) -> bool {
        &&& self.name@ == name
        &&& self.value@ == value
        &&& self.path@ == "/yahoo"@
        &&& self.secure
        &&& self.http_only
        &&& self.same_site_lax
    }

    /// The cookie of that name and value.
    pub fn new(name: &'static str, value: String) -> (r: Self)
        ensures
            r.holds(name@, value@),
    {
        AuthCookie {
            name,
            value,
            path: "/yahoo",
            secure: true,
            http_only: true,
            same_site_lax: true,
        }
    }
}

/// A text as a JSON string.
fn quoted(text: &str) -> (r: String)
    ensures
        r@ == json_string(text@),
{
    match write_json_string(text) {
        Some(json) => json,
        None => "\"error\"".to_owned(),
    }
}

/// What a visitor gets, given the access token and the refresh token, if any, that the fantasy
/// service gave: the page and its cookies, with an empty text for a missing refresh token; or a
/// refusal where it gave no token.
pub fn after_exchange(tokens: Option<(String, Option<String>)>) -> (r: Result<AuthPage, Failure>)
    ensures
        is_sign_in_of(tokens, r),
{
    let (access, refresh) = match tokens {
        Some(tokens) => tokens,
        None => {
            return Err(Failure::new(Status::InternalServerError, "Failed to retrieve tokens"));
        },
    };
    let refresh: String = match refresh {
        Some(token) => token,
        None => String::new(),
    };
    let mut html: String = PAGE_HEAD.to_owned();
    html.append(quoted(access.as_str()).as_str());
    html.append(PAGE_MIDDLE);
    html.append(quoted(refresh.as_str()).as_str());
    html.append(PAGE_TAIL);
    Ok(
        AuthPage {
            cookie_auth: AuthCookie::new("yahoo-auth", access),
            cookie_refresh: AuthCookie::new("yahoo-refresh", refresh),
            html,
        },
    )
}

/// The page hands over exactly the tokens that it was made for: two pairs of tokens with the same
/// page are the same pair, whatever characters they hold.
pub proof fn page_hands_over_its_tokens(
    access_token: Seq<char>,
    refresh_token: Seq<char>,
    other_access: Seq<char>,
    other_refresh: Seq<char>,
)
    requires
        auth_html(access_token, refresh_token) == auth_html(other_access, other_refresh),
    ensures
        access_token == other_access,
        refresh_token == other_refresh,
{
    let page = auth_html(access_token, refresh_token);
    let head = PAGE_HEAD@.len() as int;
    let middle = PAGE_MIDDLE@.len() as int;
    let rest = PAGE_MIDDLE@ + json_string(refresh_token) + PAGE_TAIL@;
    let other_rest = PAGE_MIDDLE@ + json_string(other_refresh) + PAGE_TAIL@;
    assert(page.skip(head) =~= json_string(access_token) + rest);
    assert(page.skip(head) =~= json_string(other_access) + other_rest);
    json_string_is_delimited(access_token, other_access, rest, other_rest);
    assert(rest.skip(middle) =~= json_string(refresh_token) + PAGE_TAIL@);
    assert(other_rest.skip(middle) =~= json_string(other_refresh) + PAGE_TAIL@);
    json_string_is_delimited(refresh_token, other_refresh, PAGE_TAIL@, PAGE_TAIL@);
}

/// A return is let through exactly where a sign-in was deleted from the store. A return that belongs to
/// none is a bad request; one that cannot be looked up is an internal error.
pub proof fn return_needs_its_sign_in(count: i32, r: Option<Failure>, unknown: Option<Failure>)
    requires
        is_csrf_answer(Some(count), r),
        is_csrf_answer(None, unknown),
    ensures
        count > 0 ==> r is None,
        count <= 0 ==> (r matches Some(failure) && failure.status.number() == 400 && (
        failure.message matches Some(text) && text@ == "Invalid or expired CSRF token"@)),
        unknown matches Some(failure) && failure.status.number() == 500 && (
        failure.message matches Some(text) && text@ == "Internal server error"@),
{
}

/// Who signed in gets the access token in the one cookie and the refresh token in the other, and both in
/// the page, the access token first; without a refresh token an empty text stands in its places. Both
/// cookies go to the pages of the fantasy service alone, over secure connections, out of reach for
/// scripts. Who got no token is refused.
pub proof fn sign_in_gives_both_tokens(
    access: String,
    refresh: Option<String>,
    r: Result<AuthPage, Failure>,
    refused: Result<AuthPage, Failure>,
)
    requires
        is_sign_in_of(Some((access, refresh)), r),
        is_sign_in_of(None, refused),
    ensures
        r matches Ok(page) && {
            let second = page.cookie_refresh.value@;
            &&& page.cookie_auth.name@ == "yahoo-auth"@
            &&& page.cookie_auth.value@ == access@
            &&& page.cookie_refresh.name@ == "yahoo-refresh"@
            &&& refresh matches Some(token) ==> second == token@
            &&& refresh is None ==> second.len() == 0
            &&& page.html@ == PAGE_HEAD@ + json_string(access@) + PAGE_MIDDLE@ + json_string(second)
                + PAGE_TAIL@
            &&& page.cookie_auth.path@ == "/yahoo"@ && page.cookie_refresh.path@ == "/yahoo"@
            &&& page.cookie_auth.secure && page.cookie_refresh.secure
            &&& page.cookie_auth.http_only && page.cookie_refresh.http_only
            &&& page.cookie_auth.same_site_lax && page.cookie_refresh.same_site_lax
        },
        refused matches Err(failure) && failure.status.number() == 500 && (
        failure.message matches Some(text) && text@ == "Failed to retrieve tokens"@),
{
}

} // verus!
