//! The tokens of a user, and how they are kept.

use crate::credentials::{expiring, is_expiring, secret_expiring};
use crate::json::{
    as_text, as_uint, get_item, get_member, is_object, item, json, list_len, member, no_members,
    object_value, set_member, text_error, text_fault, text_value, uint_error, uint_fault, uint_value,
    value_text, value_uint, JsonView,
};
use crate::text::{digits, digits_text, join};
use crate::time::{clock_shows, unix_now};
use crate::tracker::{ErrorView, MediaTrackerCredentials, MediaTrackerError, MediaTrackerResult};
use crate::trakt::replies::TokenResponse;
use vstd::prelude::*;

verus! {

/// The tokens of a user.
#[derive(Debug, Clone)]
pub struct StoredTokens {
    pub access_token: String,
    pub refresh_token: String,
    pub token_type: String,
    pub created_at: u64,
    pub expires_in: u64,
}

pub struct TokensView {
    pub access_token: Seq<char>,
    pub refresh_token: Seq<char>,
    pub token_type: Seq<char>,
    pub created_at: u64,
    pub expires_in: u64,
}

impl View for StoredTokens {
    type V = TokensView;

    open spec fn view(&self) -> TokensView {
        TokensView {
            access_token: self.access_token@,
            refresh_token: self.refresh_token@,
            token_type: self.token_type@,
            created_at: self.created_at,
            expires_in: self.expires_in,
        }
    }
}

impl From<TokenResponse> for StoredTokens {
    fn from(token: TokenResponse) -> (r: Self) {
        StoredTokens {
            access_token: token.access_token,
            refresh_token: token.refresh_token,
            token_type: token.token_type,
            created_at: token.created_at,
            expires_in: token.expires_in,
        }
    }
}

impl vstd::std_specs::convert::FromSpecImpl<TokenResponse> for StoredTokens {
    open spec fn obeys_from_spec() -> bool {
        true
    }

    open spec fn from_spec(token: TokenResponse) -> StoredTokens {
        StoredTokens {
            access_token: token.access_token,
            refresh_token: token.refresh_token,
            token_type: token.token_type,
            created_at: token.created_at,
            expires_in: token.expires_in,
        }
    }
}

/// The tokens as they are kept.
pub open spec fn tokens_json(t: TokensView) -> JsonView {
    JsonView::Object(
        Map::<Seq<char>, JsonView>::empty().insert(
            "access_token"@,
            JsonView::Text(t.access_token),
        ).insert("refresh_token"@, JsonView::Text(t.refresh_token)).insert(
            "token_type"@,
            JsonView::Text(t.token_type),
        ).insert("created_at"@, JsonView::Int(t.created_at as int)).insert(
            "expires_in"@,
            JsonView::Int(t.expires_in as int),
        ),
    )
}

/// A field of what is kept: the member of that name, or the item at that place in a list.
pub open spec fn field(v: JsonView, i: int, name: Seq<char>) -> Option<JsonView> {
    match v {
        JsonView::List(_) => item(v, i),
        _ => member(v, name),
    }
}

/// A field that has to be there, and has to be a text.
pub open spec fn required_text(v: JsonView, i: int, name: Seq<char>) -> Option<Seq<char>> {
    match field(v, i, name) {
        Some(w) => as_text(w),
        None => None,
    }
}

/// A field that has to be a text if it is there.
pub open spec fn default_text(v: JsonView, i: int, name: Seq<char>) -> Option<Seq<char>> {
    match field(v, i, name) {
        Some(w) => as_text(w),
        None => Some(Seq::empty()),
    }
}

/// A field that has to be an unsigned integer if it is there.
pub open spec fn default_uint(v: JsonView, i: int, name: Seq<char>) -> Option<u64> {
    match field(v, i, name) {
        Some(w) => as_uint(w),
        None => Some(0),
    }
}

/// The tokens that are kept in `v`, if it holds tokens: an object, of which other members do not
/// matter, or a list of the fields in their order.
pub open spec fn kept_tokens(v: JsonView) -> Option<TokensView> {
    match (
        required_text(v, 0, "access_token"@),
        required_text(v, 1, "refresh_token"@),
        default_text(v, 2, "token_type"@),
        default_uint(v, 3, "created_at"@),
        default_uint(v, 4, "expires_in"@),
    ) {
        (
            Some(access_token),
            Some(refresh_token),
            Some(token_type),
            Some(created_at),
            Some(expires_in),
        ) => if item(v, 5) is None {
            Some(TokensView { access_token, refresh_token, token_type, created_at, expires_in })
        } else {
            None
        },
        _ => None,
    }
}

/// What is wrong with a field that has to be a text if it is there.
pub open spec fn text_field_fault(v: Option<JsonView>) -> Option<Seq<char>> {
    match v {
        Some(w) => if as_text(w) is None {
            Some(text_error(w))
        } else {
            None
        },
        None => None,
    }
}

/// What is wrong with a field that has to be an unsigned integer if it is there.
pub open spec fn uint_field_fault(v: Option<JsonView>) -> Option<Seq<char>> {
    match v {
        Some(w) => if as_uint(w) is None {
            Some(uint_error(w))
        } else {
            None
        },
        None => None,
    }
}

/// The first of the two, if there is one.
pub open spec fn or_else(a: Option<Seq<char>>, b: Option<Seq<char>>) -> Option<Seq<char>> {
    match a {
        Some(_) => a,
        None => b,
    }
}

/// What is wrong with an object in which a field is missing.
pub open spec fn absence_fault(v: JsonView, name: Seq<char>) -> Option<Seq<char>> {
    if member(v, name) is None {
        Some("missing field `"@ + name + "`"@)
    } else {
        None
    }
}

/// What is wrong with an object: the first field, by name, that is not what it has to be, or else
/// the first that is missing.
pub open spec fn object_fault(v: JsonView) -> Option<Seq<char>> {
    or_else(
        text_field_fault(member(v, "access_token"@)),
        or_else(
            uint_field_fault(member(v, "created_at"@)),
            or_else(
                uint_field_fault(member(v, "expires_in"@)),
                or_else(
                    text_field_fault(member(v, "refresh_token"@)),
                    or_else(
                        text_field_fault(member(v, "token_type"@)),
                        or_else(
                            absence_fault(v, "access_token"@),
                            absence_fault(v, "refresh_token"@),
                        ),
                    ),
                ),
            ),
        ),
    )
}

/// What is wrong with a list that ends before the field at `i`.
pub open spec fn length_fault(v: JsonView, i: int) -> Option<Seq<char>> {
    if item(v, i) is None {
        Some(
            "invalid length "@ + digits(i as nat)
                + ", expected struct StoredTokens with 5 elements"@,
        )
    } else {
        None
    }
}

/// What is wrong with a list of `n` items: the first field that is not what it has to be or is
/// missing, or else that there are too many.
pub open spec fn list_fault(v: JsonView, n: nat) -> Option<Seq<char>> {
    or_else(
        or_else(length_fault(v, 0), text_field_fault(item(v, 0))),
        or_else(
            or_else(length_fault(v, 1), text_field_fault(item(v, 1))),
            or_else(
                text_field_fault(item(v, 2)),
                or_else(
                    uint_field_fault(item(v, 3)),
                    or_else(
                        uint_field_fault(item(v, 4)),
                        if n > 5 {
                            Some(
                                "invalid length "@ + digits(n)
                                    + ", expected fewer elements in array"@,
                            )
                        } else {
                            None
                        },
                    ),
                ),
            ),
        ),
    )
}

/// The text of an error with another ending: not the `asked`, but the tokens are what was expected.
pub open spec fn expecting_tokens(text: Seq<char>, asked: Seq<char>) -> Seq<char> {
    text.take(text.len() - asked.len()) + "struct StoredTokens"@
}

/// What is wrong with what is kept, where it holds no tokens.
pub open spec fn fault(v: JsonView) -> Option<Seq<char>> {
    match v {
        JsonView::Object(_) => object_fault(v),
        JsonView::List(s) => list_fault(v, s.len()),
        JsonView::Text(_) => Some(expecting_tokens(uint_error(v), "u64"@)),
        _ => Some(expecting_tokens(text_error(v), "a string"@)),
    }
}

/// The refusal of credentials that hold no tokens: the user has to log in again.
pub open spec fn bad_credentials(v: JsonView) -> ErrorView {
    ErrorView::reauth("invalid stored Trakt credentials: "@ + fault(v)->0)
}

fn get_field<'a>(v: &'a serde_json::Value, i: usize, name: &str) -> (r: Option<
    &'a serde_json::Value,
>)
    ensures
        match r {
            Some(w) => field(json(*v), i as int, name@) == Some(json(*w)),
            None => field(json(*v), i as int, name@) is None,
        },
{
    if list_len(v).is_some() {
        get_item(v, i)
    } else {
        get_member(v, name)
    }
}

fn text_of(w: Option<&serde_json::Value>) -> (r: String)
    requires
        w matches Some(w) ==> as_text(json(*w)) is Some,
    ensures
        match w {
            Some(w) => as_text(json(*w)) == Some(r@),
            None => r@ == Seq::<char>::empty(),
        },
{
    match w {
        Some(w) => match value_text(w) {
            Some(s) => s.to_string(),
            None => String::new(),
        },
        None => String::new(),
    }
}

fn uint_of(w: Option<&serde_json::Value>) -> (r: u64)
    requires
        w matches Some(w) ==> as_uint(json(*w)) is Some,
    ensures
        match w {
            Some(w) => as_uint(json(*w)) == Some(r),
            None => r == 0,
        },
{
    match w {
        Some(w) => match value_uint(w) {
            Some(n) => n,
            None => 0,
        },
        None => 0,
    }
}

/// The text, if there is one.
spec fn seen(s: Option<String>) -> Option<Seq<char>> {
    match s {
        Some(s) => Some(s@),
        None => None,
    }
}

fn fault_of_text(v: Option<&serde_json::Value>) -> (r: Option<String>)
    ensures
        seen(r) == text_field_fault(
            match v {
                Some(w) => Some(json(*w)),
                None => None,
            },
        ),
{
    match v {
        Some(w) => text_fault(w),
        None => None,
    }
}

fn fault_of_uint(v: Option<&serde_json::Value>) -> (r: Option<String>)
    ensures
        seen(r) == uint_field_fault(
            match v {
                Some(w) => Some(json(*w)),
                None => None,
            },
        ),
{
    match v {
        Some(w) => uint_fault(w),
        None => None,
    }
}

fn find_object_fault(v: &serde_json::Value) -> (r: Option<String>)
    ensures
        seen(r) == object_fault(json(*v)),
{
    let access_token = get_member(v, "access_token");
    let refresh_token = get_member(v, "refresh_token");
    if let Some(text) = fault_of_text(access_token) {
        return Some(text);
    }
    if let Some(text) = fault_of_uint(get_member(v, "created_at")) {
        return Some(text);
    }
    if let Some(text) = fault_of_uint(get_member(v, "expires_in")) {
        return Some(text);
    }
    if let Some(text) = fault_of_text(refresh_token) {
        return Some(text);
    }
    if let Some(text) = fault_of_text(get_member(v, "token_type")) {
        return Some(text);
    }
    if access_token.is_none() {
        return Some(join(join("missing field `", "access_token").as_str(), "`"));
    }
    if refresh_token.is_none() {
        return Some(join(join("missing field `", "refresh_token").as_str(), "`"));
    }
    None
}

fn wrong_length(n: usize, expected: &str) -> (r: String)
    ensures
        r@ == "invalid length "@ + digits(n as nat) + expected@,
{
    join(join("invalid length ", digits_text(n as u64).as_str()).as_str(), expected)
}

fn find_list_fault(v: &serde_json::Value, n: usize) -> (r: Option<String>)
    requires
        json(*v) matches JsonView::List(s) && s.len() == n,
    ensures
        seen(r) == list_fault(json(*v), n as nat),
{
    let too_short = ", expected struct StoredTokens with 5 elements";
    if n < 1 {
        return Some(wrong_length(0, too_short));
    }
    if let Some(text) = fault_of_text(get_item(v, 0)) {
        return Some(text);
    }
    if n < 2 {
        return Some(wrong_length(1, too_short));
    }
    if let Some(text) = fault_of_text(get_item(v, 1)) {
        return Some(text);
    }
    if let Some(text) = fault_of_text(get_item(v, 2)) {
        return Some(text);
    }
    if let Some(text) = fault_of_uint(get_item(v, 3)) {
        return Some(text);
    }
    if let Some(text) = fault_of_uint(get_item(v, 4)) {
        return Some(text);
    }
    if n > 5 {
        return Some(wrong_length(n, ", expected fewer elements in array"));
    }
    None
}

fn expect_tokens(text: &str, asked: &str) -> (r: String)
    requires
        asked@.is_suffix_of(text@),
    ensures
        r@ == expecting_tokens(text@, asked@),
{
    let n: usize = text.unicode_len();
    let m: usize = asked.unicode_len();
    let front = text.substring_char(0, n - m);
    join(front, "struct StoredTokens")
}

/// What is wrong with what is kept, where it holds no tokens.
fn find_fault(v: &serde_json::Value) -> (r: Option<String>)
    ensures
        seen(r) == fault(json(*v)),
{
    if is_object(v) {
        return find_object_fault(v);
    }
    if let Some(n) = list_len(v) {
        return find_list_fault(v, n);
    }
    match text_fault(v) {
        Some(text) => Some(expect_tokens(text.as_str(), "a string")),
        None => match uint_fault(v) {
            Some(text) => Some(expect_tokens(text.as_str(), "u64")),
            None => None,
        },
    }
}

/// Something is wrong if and only if there are no tokens.
pub proof fn lemma_fault_or_tokens(v: JsonView)
    ensures
        fault(v) is None <==> kept_tokens(v) is Some,
{
}

impl StoredTokens {
    /// Whether the access token has less than an hour left at `now`.
    pub fn needs_refresh_at(&self, now: u64) -> (r: bool)
        ensures
            r == expiring(self.created_at, self.expires_in, now),
    {
        is_expiring(self.created_at, self.expires_in, now)
    }

    /// Whether the access token has less than an hour left, by the clock.
    pub fn needs_refresh(&self) -> (r: bool)
        ensures
            exists|now: u64| #[trigger]
                clock_shows(now) && r == expiring(self.created_at, self.expires_in, now),
    {
        let now: u64 = unix_now();
        self.needs_refresh_at(now)
    }

    /// The tokens that the credentials hold.
    pub fn from_creds(creds: &MediaTrackerCredentials) -> (r: MediaTrackerResult<StoredTokens>)
        ensures
            match r {
                Ok(t) => kept_tokens(creds@) == Some(t@),
                Err(e) => kept_tokens(creds@) is None && e@ == bad_credentials(creds@),
            },
    {
        let v = creds.expose();
        proof {
            lemma_fault_or_tokens(creds@);
        }
        if let Some(text) = find_fault(v) {
            return Err(
                MediaTrackerError::reauth(
                    join("invalid stored Trakt credentials: ", text.as_str()),
                ),
            );
        }
        let access_token = text_of(get_field(v, 0, "access_token"));
        let refresh_token = text_of(get_field(v, 1, "refresh_token"));
        let token_type = text_of(get_field(v, 2, "token_type"));
        let created_at: u64 = uint_of(get_field(v, 3, "created_at"));
        let expires_in: u64 = uint_of(get_field(v, 4, "expires_in"));
        Ok(StoredTokens { access_token, refresh_token, token_type, created_at, expires_in })
    }

    /// Credentials that hold the tokens.
    pub fn into_creds(self) -> (r: MediaTrackerResult<MediaTrackerCredentials>)
        ensures
            r matches Ok(creds) && creds@ == tokens_json(self@),
    {
        let mut m = no_members();
        set_member(&mut m, "access_token", text_value(self.access_token.as_str()));
        set_member(&mut m, "refresh_token", text_value(self.refresh_token.as_str()));
        set_member(&mut m, "token_type", text_value(self.token_type.as_str()));
        set_member(&mut m, "created_at", uint_value(self.created_at));
        set_member(&mut m, "expires_in", uint_value(self.expires_in));
        Ok(MediaTrackerCredentials::new(object_value(m)))
    }
}

proof fn lemma_field_names()
    ensures
        "access_token"@ != "refresh_token"@,
        "access_token"@ != "token_type"@,
        "access_token"@ != "created_at"@,
        "access_token"@ != "expires_in"@,
        "refresh_token"@ != "token_type"@,
        "refresh_token"@ != "created_at"@,
        "refresh_token"@ != "expires_in"@,
        "token_type"@ != "created_at"@,
        "token_type"@ != "expires_in"@,
        "created_at"@ != "expires_in"@,
{
    reveal_strlit("access_token");
    reveal_strlit("refresh_token");
    reveal_strlit("token_type");
    reveal_strlit("created_at");
    reveal_strlit("expires_in");
    assert("access_token"@[0] == 'a');
    assert("refresh_token"@[0] == 'r');
    assert("token_type"@[0] == 't');
    assert("created_at"@[0] == 'c');
    assert("expires_in"@[0] == 'e');
}

/// The tokens that were put into credentials come out of them unchanged: what `into_creds` makes,
/// `from_creds` reads.
pub proof fn lemma_tokens_round_trip(t: TokensView)
    ensures
        kept_tokens(tokens_json(t)) == Some(t),
{
    lemma_field_names();
}

/// Credentials that hold tokens are renewed when the tokens need it: the same answer is read off
/// the credentials and off the tokens.
pub proof fn lemma_same_expiry(t: TokensView, now: u64)
    ensures
        secret_expiring(tokens_json(t), now) == expiring(t.created_at, t.expires_in, now),
{
    lemma_field_names();
}

/// The tokens of a user are the members of these names. The two tokens have to be there and to be
/// texts. The others may be missing, and then say nothing.
pub proof fn lemma_tokens_by_name(m: Map<Seq<char>, JsonView>)
    ensures
        ({
            let v = JsonView::Object(m);
            match kept_tokens(v) {
                Some(t) => {
                    &&& member(v, "access_token"@) == Some(JsonView::Text(t.access_token))
                    &&& member(v, "refresh_token"@) == Some(JsonView::Text(t.refresh_token))
                    &&& member(v, "token_type"@) == Some(JsonView::Text(t.token_type)) || (member(
                        v,
                        "token_type"@,
                    ) is None && t.token_type.len() == 0)
                    &&& member(v, "created_at"@) == Some(JsonView::Int(t.created_at as int)) || (
                    member(v, "created_at"@) is None && t.created_at == 0)
                    &&& member(v, "expires_in"@) == Some(JsonView::Int(t.expires_in as int)) || (
                    member(v, "expires_in"@) is None && t.expires_in == 0)
                },
                None => {
                    ||| !(member(v, "access_token"@) matches Some(JsonView::Text(_)))
                    ||| !(member(v, "refresh_token"@) matches Some(JsonView::Text(_)))
                    ||| member(v, "token_type"@) matches Some(w) && !(w is Text)
                    ||| member(v, "created_at"@) matches Some(w) && as_uint(w) is None
                    ||| member(v, "expires_in"@) matches Some(w) && as_uint(w) is None
                },
            }
        }),
{
}

/// In a list the tokens stand in this order: the access token, the refresh token, the type, when
/// they were made, and how long they are good for. There are five at most.
pub proof fn lemma_tokens_by_place(s: Seq<JsonView>)
    ensures
        kept_tokens(JsonView::List(s)) matches Some(t) ==> {
            &&& 2 <= s.len() <= 5
            &&& s[0] == JsonView::Text(t.access_token)
            &&& s[1] == JsonView::Text(t.refresh_token)
            &&& s.len() > 2 ==> s[2] == JsonView::Text(t.token_type)
            &&& s.len() > 3 ==> s[3] == JsonView::Int(t.created_at as int)
            &&& s.len() > 4 ==> s[4] == JsonView::Int(t.expires_in as int)
            &&& s.len() <= 2 ==> t.token_type.len() == 0
            &&& s.len() <= 3 ==> t.created_at == 0
            &&& s.len() <= 4 ==> t.expires_in == 0
        },
        kept_tokens(JsonView::List(s)) is None ==> {
            ||| s.len() < 2 || s.len() > 5
            ||| !(s[0] is Text) || !(s[1] is Text)
            ||| s.len() > 2 && !(s[2] is Text)
            ||| s.len() > 3 && as_uint(s[3]) is None
            ||| s.len() > 4 && as_uint(s[4]) is None
        },
{
}

/// Credentials that hold no tokens send the user back to the login, whatever is wrong with them. A
/// text, a number and nothing at all hold no tokens.
pub proof fn lemma_no_tokens_no_login(v: JsonView)
    ensures
        bad_credentials(v).needs_reauth(),
        "invalid stored Trakt credentials: "@.is_prefix_of(bad_credentials(v).message()),
        !(v is Object) && !(v is List) ==> kept_tokens(v) is None,
        v is Object && member(v, "access_token"@) is None ==> kept_tokens(v) is None,
        v is Object && member(v, "refresh_token"@) is None ==> kept_tokens(v) is None,
{
    let head = "invalid stored Trakt credentials: "@;
    assert(head =~= (head + fault(v)->0).take(head.len() as int));
}

/// The tokens that Trakt gives a user are kept, each as what it is.
pub proof fn lemma_tokens_of_answer(token: TokenResponse, t: StoredTokens)
    requires
        call_ensures(<StoredTokens as From<TokenResponse>>::from, (token,), t),
    ensures
        t.access_token == token.access_token,
        t.refresh_token == token.refresh_token,
        t.token_type == token.token_type,
        t.created_at == token.created_at,
        t.expires_in == token.expires_in,
{
}

/// The refusal names the first thing that is wrong: of an object the first field, by name, that is
/// something else, and where there is none the first that is missing.
pub proof fn lemma_what_is_wrong_with_an_object(m: Map<Seq<char>, JsonView>)
    ensures
        ({
            let v = JsonView::Object(m);
            let access = member(v, "access_token"@);
            let refresh = member(v, "refresh_token"@);
            let head = "invalid stored Trakt credentials: "@;
            &&& access matches Some(w) ==> !(w is Text) ==> bad_credentials(v).message() == head
                + text_error(w)
            &&& kept_tokens(v) is None && access is None && (refresh matches Some(w) ==> w is Text)
                && member(v, "token_type"@) is None && member(v, "created_at"@) is None && member(
                v,
                "expires_in"@,
            ) is None ==> bad_credentials(v).message() == head + "missing field `access_token`"@
            &&& (access matches Some(w) && w is Text) && refresh is None && member(
                v,
                "token_type"@,
            ) is None && member(v, "created_at"@) is None && member(v, "expires_in"@) is None
                ==> bad_credentials(v).message() == head + "missing field `refresh_token`"@
            &&& (access matches Some(w) ==> w is Text) && (member(
                v,
                "created_at"@,
            ) matches Some(w) && as_uint(w) is None) ==> bad_credentials(v).message() == head
                + uint_error(member(v, "created_at"@)->0)
        }),
{
    reveal_strlit("missing field `");
    reveal_strlit("access_token");
    reveal_strlit("refresh_token");
    reveal_strlit("`");
    reveal_strlit("missing field `access_token`");
    reveal_strlit("missing field `refresh_token`");
    assert("missing field `"@ + "access_token"@ + "`"@ =~= "missing field `access_token`"@);
    assert("missing field `"@ + "refresh_token"@ + "`"@ =~= "missing field `refresh_token`"@);
}

/// Of a list that is too short it is told where it ends, and of one that is too long how long it is.
/// Of anything else than an object or a list it is told that it is no such thing.
pub proof fn lemma_what_is_wrong_with_the_rest(s: Seq<JsonView>, v: JsonView)
    requires
        !(v is Object),
        !(v is List),
    ensures
        ({
            let head = "invalid stored Trakt credentials: "@;
            let told = bad_credentials(JsonView::List(s)).message();
            &&& s.len() == 0 ==> told == head + ("invalid length "@ + digits(0)
                + ", expected struct StoredTokens with 5 elements"@)
            &&& s.len() == 1 && s[0] is Text ==> told == head + ("invalid length "@ + digits(1)
                + ", expected struct StoredTokens with 5 elements"@)
            &&& s.len() > 5 && s[0] is Text && s[1] is Text && s[2] is Text && as_uint(s[3]) is Some
                && as_uint(s[4]) is Some ==> told == head + ("invalid length "@ + digits(s.len())
                + ", expected fewer elements in array"@)
            &&& s.len() > 0 && !(s[0] is Text) ==> told == head + text_error(s[0])
            &&& "struct StoredTokens"@.is_suffix_of(bad_credentials(v).message())
            &&& !(v is Text) ==> bad_credentials(v).message() == head + (text_error(v).take(
                text_error(v).len() - "a string"@.len(),
            ) + "struct StoredTokens"@)
            &&& v is Text ==> bad_credentials(v).message() == head + (uint_error(v).take(
                uint_error(v).len() - "u64"@.len(),
            ) + "struct StoredTokens"@)
        }),
{
    let told = bad_credentials(v).message();
    let tail = "struct StoredTokens"@;
    assert(told.subrange(told.len() - tail.len(), told.len() as int) =~= tail);
}

} // verus!
