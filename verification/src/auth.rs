//! Bearer credentials: signed, time-limited tokens that bind a subject.
//!
//! Signing and signature checking are the `jsonwebtoken` crate's, with the
//! HS256 algorithm. The expiry rule is this module's own: a token expires 24
//! hours after it was issued and is refused once its expiry lies in the
//! past.

use vstd::prelude::*;
use crate::clock::{now, to_seconds};
use crate::decimal::{render_i32, signed_text};
use crate::entities::Account;
use crate::errors::{AppError, AppErrorView, AuthFailure};
use crate::text::{occurs_at, same_text, starts_with};

verus! {

/// The lifetime of a token, in seconds.
pub const TOKEN_LIFETIME: u64 = 86_400;

/// The error of the `jsonwebtoken` crate, `jsonwebtoken::errors::Error`:
/// carried from `encode` to where it is turned into an error of this crate,
/// and never looked into.
#[verifier::external_type_specification]
#[verifier::external_body]
pub struct ExTokenError(jsonwebtoken::errors::Error);

/// The HS256 token that `jsonwebtoken` writes for a subject, an expiry and
/// a secret.
pub uninterp spec fn hs256_token(subject: Seq<char>, expires: u64, secret: Seq<char>) -> Seq<char>;

/// The subject and expiry that `jsonwebtoken` reads from a token whose
/// HS256 signature it accepts for a secret; `None` for any other text.
pub uninterp spec fn hs256_claims(token: Seq<char>, secret: Seq<char>) -> Option<(Seq<char>, u64)>;

/// The claims of a token.
#[derive(Debug, PartialEq, Eq)]
pub struct Claims {
    /// The subject: a user identifier.
    pub sub: String,
    /// The expiry, in seconds since the Unix epoch.
    pub exp: u64,
}

/// The mathematical value of [`Claims`].
pub struct ClaimsView {
    pub sub: Seq<char>,
    pub exp: u64,
}

impl View for Claims {
    type V = ClaimsView;

    open spec fn view(&self) -> ClaimsView {
        ClaimsView { sub: self.sub@, exp: self.exp }
    }
}

/// A login request.
#[derive(Debug, PartialEq, Eq)]
pub struct LoginRequest {
    pub email: String,
    pub password: String,
}

/// An account as the login and current-user responses show it.
#[derive(Debug, PartialEq, Eq)]
pub struct UserResponse {
    pub id: i32,
    pub email: String,
    pub name: String,
}

/// The answer to a successful login.
#[derive(Debug, PartialEq, Eq)]
pub struct LoginResponse {
    pub token: String,
    pub user: UserResponse,
}

/// The mathematical value of a [`UserResponse`].
pub struct UserResponseView {
    pub id: i32,
    pub email: Seq<char>,
    pub name: Seq<char>,
}

impl View for UserResponse {
    type V = UserResponseView;

    open spec fn view(&self) -> UserResponseView {
        UserResponseView { id: self.id, email: self.email@, name: self.name@ }
    }
}

/// The mathematical value of a [`LoginResponse`].
pub struct LoginResponseView {
    pub token: Seq<char>,
    pub user: UserResponseView,
}

impl View for LoginResponse {
    type V = LoginResponseView;

    open spec fn view(&self) -> LoginResponseView {
        LoginResponseView { token: self.token@, user: self.user@ }
    }
}

/// Signs the claims `sub` and `exp` with `jsonwebtoken::encode`, under the
/// default header (HS256) and `EncodingKey::from_secret`. `encode` fails only
/// where the key is of another family than the header's algorithm, where the
/// claims cannot be written as JSON, or where signing fails; none of these
/// can happen with an HMAC key, the default header and a map of one text and
/// one number, so the contract promises a token. The token depends on the
/// three arguments alone, so the contract names it; and a token that `encode`
/// wrote is one that `decode` reads back, under the same secret, as the
/// claims it was written for.
#[verifier::external_body]
pub(crate) fn sign_claims(sub: &str, exp: u64, secret: &str) -> (r: Result<
    String,
    jsonwebtoken::errors::Error,
>)
    ensures
        r is Ok,
        r matches Ok(token) ==> token@ == hs256_token(sub@, exp, secret@) && hs256_claims(
            token@,
            secret@,
        ) == Some((sub@, exp)),
{
    let mut claims = serde_json::Map::new();
    claims.insert("sub".to_string(), serde_json::Value::from(sub));
    claims.insert("exp".to_string(), serde_json::Value::from(exp));
    let key = jsonwebtoken::EncodingKey::from_secret(secret.as_bytes());
    jsonwebtoken::encode(&jsonwebtoken::Header::default(), &claims, &key)
}

/// The view of claims that were read.
pub open spec fn read_view(claims: Option<(String, u64)>) -> Option<(Seq<char>, u64)> {
    match claims {
        Some((sub, exp)) => Some((sub@, exp)),
        None => None,
    }
}

/// Reads a token with `jsonwebtoken::decode`, under `DecodingKey::from_secret`
/// and the default validation (HS256, an `exp` claim required) with the
/// clock-dependent expiry check switched off, and picks the `sub` text and
/// the `exp` number from the claims. What is read depends on the token and
/// the secret alone; the contract names it and says no more.
#[verifier::external_body]
pub(crate) fn read_claims(token: &str, secret: &str) -> (r: Option<(String, u64)>)
    ensures
        read_view(r) == hs256_claims(token@, secret@),
{
    let mut rules = jsonwebtoken::Validation::default();
    rules.validate_exp = false;
    let key = jsonwebtoken::DecodingKey::from_secret(secret.as_bytes());
    match jsonwebtoken::decode::<serde_json::Value>(token, &key, &rules) {
        Ok(data) => match (
            data.claims.get("sub").and_then(|v| v.as_str()),
            data.claims.get("exp").and_then(|v| v.as_u64()),
        ) {
            (Some(sub), Some(exp)) => Some((sub.to_string(), exp)),
            _ => None,
        },
        Err(_) => None,
    }
}

/// The expiry of a token issued at `now`: 24 hours later. An instant before
/// the epoch counts from the epoch down, and never gives a negative expiry.
pub open spec fn expiry_for(now: i64) -> u64 {
    if now + TOKEN_LIFETIME >= 0 {
        (now + TOKEN_LIFETIME) as u64
    } else {
        0
    }
}

/// A token with expiry `exp` is refused at `now`: its expiry lies in the
/// past.
pub open spec fn expired(exp: u64, now: i64) -> bool {
    exp < now
}

/// What reading a token at `now` gives, from what `jsonwebtoken` read.
pub open spec fn verdict_of(read: Option<(Seq<char>, u64)>, now: i64) -> Result<
    ClaimsView,
    AuthFailure,
> {
    match read {
        Some((sub, exp)) => if expired(exp, now) {
            Err(AuthFailure::InvalidToken)
        } else {
            Ok(ClaimsView { sub, exp })
        },
        None => Err(AuthFailure::InvalidToken),
    }
}

/// What verifying `token` under `secret` at `now` gives.
pub open spec fn verified(token: Seq<char>, secret: Seq<char>, now: i64) -> Result<
    ClaimsView,
    AuthFailure,
> {
    verdict_of(hs256_claims(token, secret), now)
}

/// The view of a claims result.
pub open spec fn claims_result(r: Result<Claims, AuthFailure>) -> Result<ClaimsView, AuthFailure> {
    match r {
        Ok(claims) => Ok(claims@),
        Err(e) => Err(e),
    }
}

/// The expiry of a token issued at `now` (seconds since the epoch).
pub fn expiry_after(now: i64) -> (r: u64)
    ensures
        r == expiry_for(now),
{
    if now >= 0 {
        now as u64 + TOKEN_LIFETIME
    } else if now >= -86_400 {
        (now + 86_400) as u64
    } else {
        0
    }
}

/// Issues a token for the subject `user_id` at `now` (seconds since the
/// epoch): it expires 24 hours later. The result is always a token: the one
/// that `jsonwebtoken` writes for these claims under the secret. Verifying it
/// under the same secret returns the same subject at every instant up to its
/// expiry, and fails at every later one.
pub fn create_jwt_at(user_id: &str, secret: &str, now: i64) -> (r: Result<String, AppError>)
    ensures
        r matches Ok(token) && {
            &&& token@ == hs256_token(user_id@, expiry_for(now), secret@)
            &&& forall|at: i64|
                !expired(expiry_for(now), at) ==> #[trigger] verified(token@, secret@, at) == Ok::<
                    ClaimsView,
                    AuthFailure,
                >(ClaimsView { sub: user_id@, exp: expiry_for(now) })
            &&& forall|at: i64|
                expired(expiry_for(now), at) ==> #[trigger] verified(token@, secret@, at) == Err::<
                    ClaimsView,
                    AuthFailure,
                >(AuthFailure::InvalidToken)
        },
{
    match sign_claims(user_id, expiry_after(now), secret) {
        Ok(token) => Ok(token),
        Err(_) => Err(AppError::Internal(String::from_str("Failed to create token"))),
    }
}

/// Issues a token for the subject `user_id` now. The result is always a
/// token; whatever the clock reads, it is the one of `create_jwt_at` for
/// that reading, and it verifies at that reading.
pub fn create_jwt(user_id: &str, secret: &str) -> (r: Result<String, AppError>)
    ensures
        r matches Ok(token) && exists|at: i64|
            #[trigger] hs256_token(user_id@, expiry_for(at), secret@) == token@ && verified(
                token@,
                secret@,
                at,
            ) == Ok::<ClaimsView, AuthFailure>(ClaimsView { sub: user_id@, exp: expiry_for(at) }),
{
    let at = to_seconds(now());
    let r = create_jwt_at(user_id, secret, at);
    proof {
        assert(!expired(expiry_for(at), at));
        assert(hs256_token(user_id@, expiry_for(at), secret@) == r->Ok_0@);
    }
    r
}

/// Decides on a token at `now`, from what `jsonwebtoken` read from it:
/// nothing read, or an expiry in the past, is an invalid token.
pub fn claims_verdict(read: Option<(String, u64)>, now: i64) -> (r: Result<Claims, AuthFailure>)
    ensures
        claims_result(r) == verdict_of(read_view(read), now),
{
    match read {
        Some((sub, exp)) => {
            let late = now >= 0 && exp < now as u64;
            if late {
                Err(AuthFailure::InvalidToken)
            } else {
                Ok(Claims { sub, exp })
            }
        },
        None => Err(AuthFailure::InvalidToken),
    }
}

/// Verifies `token` under `secret` at `now` (seconds since the epoch).
/// Returns the claims if the token is well-formed, signed with the secret
/// and not expired; fails with `InvalidToken` otherwise.
pub fn verify_jwt_at(token: &str, secret: &str, now: i64) -> (r: Result<Claims, AuthFailure>)
    ensures
        claims_result(r) == verified(token@, secret@, now),
{
    claims_verdict(read_claims(token, secret), now)
}

/// Verifies `token` under `secret` now. Whatever the clock reads, the
/// outcome is the one of `verify_jwt_at` for that reading.
pub fn verify_jwt(token: &str, secret: &str) -> (r: Result<Claims, AuthFailure>)
    ensures
        exists|at: i64| claims_result(r) == #[trigger] verified(token@, secret@, at),
        hs256_claims(token@, secret@) is None ==> r is Err,
{
    let at = to_seconds(now());
    let r = verify_jwt_at(token, secret, at);
    proof {
        assert(claims_result(r) == verified(token@, secret@, at));
    }
    r
}

/// The credential in an `Authorization` header value: what follows the
/// prefix `Bearer `, if the value begins with it.
pub open spec fn bearer_of(header: Option<Seq<char>>) -> Option<Seq<char>> {
    match header {
        Some(value) => if occurs_at(value, 0, "Bearer "@) {
            Some(value.subrange(7, value.len() as int))
        } else {
            None
        },
        None => None,
    }
}

/// The view of an optional text slice.
pub open spec fn slice_text(o: Option<&str>) -> Option<Seq<char>> {
    match o {
        Some(s) => Some(s@),
        None => None,
    }
}

/// Takes the bearer credential from the value of the `Authorization`
/// header, if the header is there and begins with `Bearer `.
pub fn extract_token_from_header(header: Option<&str>) -> (r: Option<String>)
    ensures
        crate::text::opt_text(r) == bearer_of(slice_text(header)),
{
    match header {
        Some(value) => {
            proof {
                reveal_strlit("Bearer ");
            }
            if starts_with(value, "Bearer ") {
                let n = value.unicode_len();
                Some(String::from_str(value.substring_char(7, n)))
            } else {
                None
            }
        },
        None => None,
    }
}

/// What checking the credential of a request at `now` gives: a missing
/// credential and an invalid one are both `Unauthorized`, each with its own
/// reason.
pub open spec fn auth_outcome(header: Option<Seq<char>>, secret: Seq<char>, now: i64) -> Result<
    ClaimsView,
    AppErrorView,
> {
    match bearer_of(header) {
        None => Err(AppErrorView::Unauthorized(AuthFailure::MissingHeader)),
        Some(token) => match verified(token, secret, now) {
            Ok(claims) => Ok(claims),
            Err(why) => Err(AppErrorView::Unauthorized(why)),
        },
    }
}

/// The view of a checked credential.
pub open spec fn auth_result(r: Result<Claims, AppError>) -> Result<ClaimsView, AppErrorView> {
    match r {
        Ok(claims) => Ok(claims@),
        Err(e) => Err(e@),
    }
}

/// Checks the credential of a request at `now` (seconds since the epoch),
/// from the value of its `Authorization` header.
pub fn check_user_auth_at(header: Option<&str>, secret: &str, now: i64) -> (r: Result<
    Claims,
    AppError,
>)
    ensures
        auth_result(r) == auth_outcome(slice_text(header), secret@, now),
{
    match extract_token_from_header(header) {
        None => Err(AppError::Unauthorized(AuthFailure::MissingHeader)),
        Some(token) => match verify_jwt_at(token.as_str(), secret, now) {
            Ok(claims) => Ok(claims),
            Err(why) => Err(AppError::Unauthorized(why)),
        },
    }
}

/// Checks the credential of a request now.
pub fn check_user_auth(header: Option<&str>, secret: &str) -> (r: Result<Claims, AppError>)
    ensures
        exists|at: i64| auth_result(r) == #[trigger] auth_outcome(slice_text(header), secret@, at),
{
    let at = to_seconds(now());
    let r = check_user_auth_at(header, secret, at);
    proof {
        assert(auth_result(r) == auth_outcome(slice_text(header), secret@, at));
    }
    r
}

/// A token whose expiry lies before `now` is refused,
/// whatever else it holds and whatever its signature.
pub proof fn expired_token_is_refused(read: Option<(Seq<char>, u64)>, now: i64)
    requires
        read matches Some((_, exp)) && exp < now,
    ensures
        verdict_of(read, now) == Err::<ClaimsView, AuthFailure>(AuthFailure::InvalidToken),
{
}

/// A request that carries `Bearer ` and a token is judged by that token
/// alone: it is authorised exactly when the token verifies.
pub proof fn bearer_token_decides(token: Seq<char>, secret: Seq<char>, now: i64)
    ensures
        bearer_of(Some("Bearer "@ + token)) == Some(token),
        auth_outcome(Some("Bearer "@ + token), secret, now) == match verified(token, secret, now) {
            Ok(claims) => Ok::<ClaimsView, AppErrorView>(claims),
            Err(why) => Err::<ClaimsView, AppErrorView>(AppErrorView::Unauthorized(why)),
        },
{
    reveal_strlit("Bearer ");
    let value = "Bearer "@ + token;
    assert(value.subrange(0, 7) =~= "Bearer "@);
    assert(value.subrange(7, value.len() as int) =~= token);
}

/// The login pair of a request is the expected one: both expected values
/// are set, and the request's address and password equal them.
pub open spec fn pair_accepted(
    email: Seq<char>,
    password: Seq<char>,
    expected_email: Seq<char>,
    expected_password: Seq<char>,
) -> bool {
    expected_email.len() > 0 && expected_password.len() > 0 && email == expected_email && password
        == expected_password
}

/// Decides whether a login request carries the expected pair.
pub fn credentials_accepted(
    request: &LoginRequest,
    expected_email: &str,
    expected_password: &str,
) -> (r: bool)
    ensures
        r == pair_accepted(request.email@, request.password@, expected_email@, expected_password@),
{
    expected_email.unicode_len() > 0 && expected_password.unicode_len() > 0 && same_text(
        request.email.as_str(),
        expected_email,
    ) && same_text(request.password.as_str(), expected_password)
}

/// The subject of the token of an account: its identifier in decimal.
pub fn token_subject(id: i32) -> (r: String)
    ensures
        r@ == signed_text(id as int),
{
    render_i32(id)
}

/// The response for an account.
pub fn account_response(account: Account) -> (r: UserResponse)
    ensures
        r@ == (UserResponseView { id: account.id, email: account.email@, name: account.name@ }),
{
    UserResponse { id: account.id, email: account.email, name: account.name }
}

/// The login response for an account and its token.
pub fn login_response(account: Account, token: String) -> (r: LoginResponse)
    ensures
        r@ == (LoginResponseView {
            token: token@,
            user: UserResponseView { id: account.id, email: account.email@, name: account.name@ },
        }),
{
    LoginResponse { token, user: account_response(account) }
}

/// The view of a login result.
pub open spec fn login_result(r: Result<LoginResponse, AppError>) -> Result<
    LoginResponseView,
    AppErrorView,
> {
    match r {
        Ok(response) => Ok(response@),
        Err(e) => Err(e@),
    }
}

/// Ends a login at `now` (seconds since the epoch): issues the token whose
/// subject is the account's identifier and answers with it and the account.
/// The result is always an answer.
pub fn finish_login(account: Account, secret: &str, now: i64) -> (r: Result<
    LoginResponse,
    AppError,
>)
    ensures
        r matches Ok(response) && {
            &&& response@.token == hs256_token(
                signed_text(account.id as int),
                expiry_for(now),
                secret@,
            )
            &&& response@.user == (UserResponseView {
                id: account.id,
                email: account.email@,
                name: account.name@,
            })
            &&& verified(response@.token, secret@, now) == Ok::<ClaimsView, AuthFailure>(
                ClaimsView { sub: signed_text(account.id as int), exp: expiry_for(now) },
            )
        },
{
    let subject = token_subject(account.id);
    match create_jwt_at(subject.as_str(), secret, now) {
        Ok(token) => {
            proof {
                assert(!expired(expiry_for(now), now));
            }
            Ok(login_response(account, token))
        },
        Err(e) => Err(e),
    }
}

/// The account identifier that claims name: their subject read as a
/// decimal `i32`, or a bad request where it is none.
pub fn subject_id(claims: &Claims) -> (r: Result<i32, AppError>)
    ensures
        match crate::decimal::i32_of_text(claims.sub@) {
            Some(id) => r == Ok::<i32, AppError>(id),
            None => (r matches Err(e) && e@ == AppErrorView::BadRequest("Invalid user ID"@)),
        },
{
    match crate::decimal::parse_i32(claims.sub.as_str()) {
        Some(id) => Ok(id),
        None => Err(AppError::BadRequest(String::from_str("Invalid user ID"))),
    }
}

/// The view of an account response result.
pub open spec fn response_result(r: Result<UserResponse, AppError>) -> Result<
    UserResponseView,
    AppErrorView,
> {
    match r {
        Ok(response) => Ok(response@),
        Err(e) => Err(e@),
    }
}

} // verus!
