//! Authorisation: of single requests, and of the library by a user, on another device.

use super::replies::{TokenErrorBody, TokenResponse};
use crate::rest::{parsed_url, ClientError, RestClient, UrlError};
use crate::text::same_text;
use vstd::prelude::*;

verus! {

/// Where the API of Trakt is found.
pub const DEFAULT_BASE_URL: &'static str = "https://api.trakt.tv";

/// What authorises a request: the application, and the user where there is a token.
#[derive(Debug, PartialEq, Eq)]
pub struct TraktAuth {
    pub client_id: String,
    pub access_token: Option<String>,
}

impl Clone for TraktAuth {
    fn clone(&self) -> (r: Self)
        ensures
            r == *self,
    {
        TraktAuth { client_id: self.client_id.clone(), access_token: self.access_token.clone() }
    }
}

/// What a request carries so that it is authorised: headers, and a bearer token.
#[derive(Debug)]
pub struct RequestAuth {
    pub headers: Vec<(String, String)>,
    pub bearer: Option<String>,
}

/// The names and values of headers.
pub open spec fn headers_view(headers: Seq<(String, String)>) -> Seq<(Seq<char>, Seq<char>)> {
    headers.map_values(|h: (String, String)| (h.0@, h.1@))
}

impl TraktAuth {
    pub open spec fn headers_spec(self) -> Seq<(Seq<char>, Seq<char>)> {
        seq![
            ("trakt-api-key"@, self.client_id@),
            ("trakt-api-version"@, "2"@),
            ("User-Agent"@, "remux/1.0"@),
        ]
    }

    /// What a request carries so that it is authorised.
    pub fn apply(&self) -> (r: RequestAuth)
        ensures
            headers_view(r.headers@) == self.headers_spec(),
            r.bearer == self.access_token,
    {
        let headers = vec![
            ("trakt-api-key".to_string(), self.client_id.clone()),
            ("trakt-api-version".to_string(), "2".to_string()),
            ("User-Agent".to_string(), "remux/1.0".to_string()),
        ];
        assert(headers_view(headers@) =~= self.headers_spec());
        RequestAuth { headers, bearer: self.access_token.clone() }
    }
}

/// Whether `r` is the client of the service at `base_url` for this application and this user, or
/// the refusal of an address that is none.
pub open spec fn is_client(
    r: Result<RestClient<TraktAuth>, UrlError>,
    client_id: Seq<char>,
    access_token: Option<Seq<char>>,
    base_url: Seq<char>,
) -> bool {
    match r {
        Ok(client) => {
            &&& parsed_url(base_url) == Ok::<Seq<char>, Seq<char>>(client.base_url@)
            &&& client.auth.client_id@ == client_id
            &&& match (client.auth.access_token, access_token) {
                (Some(s), Some(t)) => s@ == t,
                (None, None) => true,
                _ => false,
            }
            &&& client.max_retries == 3
        },
        Err(e) => parsed_url(base_url) == Err::<Seq<char>, Seq<char>>(e.message@),
    }
}

/// A client for requests that need no user.
pub fn trakt_client(client_id: &str, base_url: &str) -> (r: Result<RestClient<TraktAuth>, UrlError>)
    ensures
        is_client(r, client_id@, None, base_url@),
{
    trakt_user_client(client_id, None, base_url)
}

/// A client for requests of a user, or for requests that need none.
pub fn trakt_user_client(client_id: &str, access_token: Option<&str>, base_url: &str) -> (r: Result<
    RestClient<TraktAuth>,
    UrlError,
>)
    ensures
        is_client(
            r,
            client_id@,
            match access_token {
                Some(t) => Some(t@),
                None => None,
            },
            base_url@,
        ),
{
    match RestClient::new(base_url) {
        Ok(client) => {
            let token = match access_token {
                Some(t) => Some(t.to_string()),
                None => None,
            };
            let auth = TraktAuth { client_id: client_id.to_string(), access_token: token };
            Ok(client.with_auth(auth).with_retry(3))
        },
        Err(e) => Err(e),
    }
}

/// Where a device login stands.
#[derive(Debug, Clone, PartialEq, Eq)]
pub enum DeviceTokenStatus {
    Approved(TokenResponse),
    Pending,
    SlowDown,
    Denied,
    Expired,
}

/// Whether an answer with this status can say where a device login stands.
pub open spec fn tells_status(status: u16) -> bool {
    status == 400 || status == 404 || status == 418
}

/// The text in an error that can say where a device login stands: the body, or the message where
/// there is no body or an empty one.
pub open spec fn error_text(err: ClientError) -> Option<Seq<char>> {
    match err {
        ClientError::Http { status, message, endpoint, body } => if tells_status(status) {
            match body {
                Some(b) => if b@.len() > 0 {
                    Some(b@)
                } else {
                    Some(message@)
                },
                None => Some(message@),
            }
        } else {
            None
        },
        _ => None,
    }
}

/// The error that a text names: as a JSON body, or as it stands.
pub open spec fn error_name(raw: Seq<char>, body: Option<TokenErrorBody>) -> Seq<char> {
    match body {
        Some(b) => b.error@,
        None => raw,
    }
}

/// Where a device login stands that was answered with this status and this error.
pub open spec fn status_of(status: u16, error: Seq<char>) -> Option<DeviceTokenStatus> {
    if error == "authorization_pending"@ {
        Some(DeviceTokenStatus::Pending)
    } else if error == "slow_down"@ {
        Some(DeviceTokenStatus::SlowDown)
    } else if error == "access_denied"@ {
        Some(DeviceTokenStatus::Denied)
    } else if error == "expired_token"@ || error == "invalid_grant"@ {
        Some(DeviceTokenStatus::Expired)
    } else if status == 404 {
        Some(DeviceTokenStatus::Expired)
    } else {
        None
    }
}

/// Where a device login stands that was answered with this status and this error.
pub fn device_token_status(status: u16, error: &str) -> (r: Option<DeviceTokenStatus>)
    ensures
        r == status_of(status, error@),
{
    if same_text(error, "authorization_pending") {
        Some(DeviceTokenStatus::Pending)
    } else if same_text(error, "slow_down") {
        Some(DeviceTokenStatus::SlowDown)
    } else if same_text(error, "access_denied") {
        Some(DeviceTokenStatus::Denied)
    } else if same_text(error, "expired_token") || same_text(error, "invalid_grant") {
        Some(DeviceTokenStatus::Expired)
    } else if status == 404 {
        Some(DeviceTokenStatus::Expired)
    } else {
        None
    }
}

/// Whether `r` is what `err` says of a device login, where `parse` reads the text of the error as
/// a JSON body.
pub open spec fn tells<F: Fn(&str) -> Option<TokenErrorBody>>(
    err: ClientError,
    parse: F,
    r: Option<DeviceTokenStatus>,
) -> bool {
    match (err, error_text(err)) {
        (ClientError::Http { status, message, endpoint, body }, Some(raw)) => exists|
            s: &str,
            b: Option<TokenErrorBody>,
        |
            s@ == raw && #[trigger] call_ensures(parse, (s,), b) && r == status_of(
                status,
                error_name(raw, b),
            ),
        _ => r is None,
    }
}

/// What an error says of a device login, if anything. `parse` reads the text of the error as a
/// JSON body; where it cannot, the text itself is taken for the error.
pub fn device_token_status_from_error<F: Fn(&str) -> Option<TokenErrorBody>>(
    err: &ClientError,
    parse: F,
) -> (r: Option<DeviceTokenStatus>)
    requires
        forall|s: &str| #[trigger] call_requires(parse, (s,)),
    ensures
        tells(*err, parse, r),
{
    match err {
        ClientError::Http { status, message, endpoint: _, body } => {
            if *status != 400 && *status != 404 && *status != 418 {
                return None;
            }
            let raw: &str = match body {
                Some(b) => if b.as_str().is_empty() {
                    message.as_str()
                } else {
                    b.as_str()
                },
                None => message.as_str(),
            };
            match parse(raw) {
                Some(b) => device_token_status(*status, b.error.as_str()),
                None => device_token_status(*status, raw),
            }
        },
        _ => None,
    }
}

proof fn lemma_login_errors()
    ensures
        "authorization_pending"@ != "slow_down"@,
        "authorization_pending"@ != "access_denied"@,
        "authorization_pending"@ != "expired_token"@,
        "authorization_pending"@ != "invalid_grant"@,
        "slow_down"@ != "access_denied"@,
        "slow_down"@ != "expired_token"@,
        "slow_down"@ != "invalid_grant"@,
        "access_denied"@ != "expired_token"@,
        "access_denied"@ != "invalid_grant"@,
        "expired_token"@ != "invalid_grant"@,
{
    reveal_strlit("authorization_pending");
    reveal_strlit("slow_down");
    reveal_strlit("access_denied");
    reveal_strlit("expired_token");
    reveal_strlit("invalid_grant");
    assert("access_denied"@.len() == 13);
    assert("access_denied"@[0] == 'a');
    assert("authorization_pending"@.len() == 21);
    assert("expired_token"@.len() == 13);
    assert("expired_token"@[0] == 'e');
    assert("invalid_grant"@.len() == 13);
    assert("invalid_grant"@[0] == 'i');
    assert("slow_down"@.len() == 9);
}

/// A login stands as the error is named: it waits for the user, Trakt wants to be asked less often,
/// the user has refused, or the time is up. An answer that nothing is found, and that names none of
/// these, also says that the time is up, and any other says nothing. None says that the user has
/// agreed.
pub proof fn lemma_login_errors_mean(status: u16, error: Seq<char>)
    ensures
        ({
            let r = status_of(status, error);
            &&& r == Some(DeviceTokenStatus::Pending) <==> error == "authorization_pending"@
            &&& r == Some(DeviceTokenStatus::SlowDown) <==> error == "slow_down"@
            &&& r == Some(DeviceTokenStatus::Denied) <==> error == "access_denied"@
            &&& r == Some(DeviceTokenStatus::Expired) <==> error == "expired_token"@ || error
                == "invalid_grant"@ || (status == 404 && error != "authorization_pending"@ && error
                != "slow_down"@ && error != "access_denied"@)
            &&& !(r matches Some(DeviceTokenStatus::Approved(_)))
        }),
{
    lemma_login_errors();
}

/// Only an answer with status 400, 404 or 418 can say how a login stands, by its body or, where that
/// is missing or empty, by its message.
pub proof fn lemma_which_errors_tell(
    status: u16,
    message: String,
    endpoint: Option<String>,
    body: Option<String>,
    err: ClientError,
)
    ensures
        ({
            let text = error_text(ClientError::Http { status, message, endpoint, body });
            &&& text is Some <==> status == 400 || status == 404 || status == 418
            &&& text matches Some(t) ==> {
                &&& body matches Some(b) ==> b@.len() > 0 ==> t == b@
                &&& body is None || body->0@.len() == 0 ==> t == message@
            }
        }),
        !(err is Http) ==> error_text(err) is None,
        forall|raw: Seq<char>, b: TokenErrorBody| #[trigger]
            error_name(raw, Some(b)) == b.error@,
        forall|raw: Seq<char>| #[trigger] error_name(raw, None) == raw,
{
}

/// A request goes out under the id of the application, for the version of the service that is
/// spoken, and with the token of the user where there is one.
pub proof fn lemma_authorised_as_whom(auth: &TraktAuth, r: RequestAuth)
    requires
        call_ensures(TraktAuth::apply, (auth,), r),
    ensures
        headers_view(r.headers@).contains(("trakt-api-key"@, auth.client_id@)),
        headers_view(r.headers@).contains(("trakt-api-version"@, "2"@)),
        headers_view(r.headers@).contains(("User-Agent"@, "remux/1.0"@)),
        r.headers@.len() == 3,
        r.bearer == auth.access_token,
{
    let h = headers_view(r.headers@);
    assert(h[0] == ("trakt-api-key"@, auth.client_id@));
    assert(h[1] == ("trakt-api-version"@, "2"@));
    assert(h[2] == ("User-Agent"@, "remux/1.0"@));
}

/// A client is made for the address, the application and the user that it is asked for, and for
/// nobody where none is named.
pub proof fn lemma_client_as_asked_for(
    client_id: &str,
    base_url: &str,
    r: Result<RestClient<TraktAuth>, UrlError>,
)
    requires
        call_ensures(trakt_client, (client_id, base_url), r),
    ensures
        r matches Ok(client) ==> parsed_url(base_url@) == Ok::<Seq<char>, Seq<char>>(
            client.base_url@,
        ) && client.auth.client_id@ == client_id@ && client.auth.access_token is None
            && client.max_retries == 3,
        r matches Err(e) ==> parsed_url(base_url@) == Err::<Seq<char>, Seq<char>>(e.message@),
{
}

/// What an error says of a login is what its text says, read as a JSON body where it is one: the
/// error that the body names, or else the text itself. Any other error says nothing.
pub proof fn lemma_told_by_the_text<F: Fn(&str) -> Option<TokenErrorBody>>(
    err: ClientError,
    parse: F,
    r: Option<DeviceTokenStatus>,
)
    requires
        tells(err, parse, r),
    ensures
        !(err is Http) ==> r is None,
        err matches ClientError::Http { status, message, body, .. } ==> {
            let raw = match body {
                Some(b) => if b@.len() > 0 {
                    b@
                } else {
                    message@
                },
                None => message@,
            };
            if status == 400 || status == 404 || status == 418 {
                exists|s: &str, b: Option<TokenErrorBody>| #[trigger]
                    call_ensures(parse, (s,), b) && s@ == raw && match b {
                        Some(named) => r == status_of(status, named.error@),
                        None => r == status_of(status, raw),
                    }
            } else {
                r is None
            }
        },
{
    if let ClientError::Http { status, message, endpoint, body } = err {
        if let Some(raw) = error_text(err) {
            let (s, b) = choose|s: &str, b: Option<TokenErrorBody>|
                s@ == raw && #[trigger] call_ensures(parse, (s,), b) && r == status_of(
                    status,
                    error_name(raw, b),
                );
            assert(call_ensures(parse, (s,), b));
        }
    }
}

} // verus!
