//! Who may call the service: logging in, and checking the token that a
//! login hands out.

use crate::backend::database::auth::User;
use crate::backend::database::FlygDatabaseError;
use crate::backend::routes::Status;
use crate::backend::FlygSettings;
use vstd::prelude::*;
use vstd::string::StrSliceExecFns;

verus! {

/// How long a token is valid, in seconds.
pub const TOKEN_LIFETIME_IN_SECONDS: u64 = 3600;

/// By how many seconds the clocks of the service and of whoever issued a
/// token may differ.
pub const TOKEN_LEEWAY_IN_SECONDS: u64 = 5;

/// The bcrypt hash that a password is checked against where the user is not
/// known, so that the answer takes as long as for a user who is.
pub const UNKNOWN_USER_HASH: &'static str =
    "$2y$12$7xMzqvnHyizkumZYpIRXheGMAqDKVo8HKtpmQSn51JUfY0N2VN4ua";

/// What a client sends to log in.
#[derive(Clone, Debug, PartialEq, Eq)]
pub struct LoginInformation {
    /// The email address of the user.
    pub username: String,
    /// The password of the user.
    pub password: String,
}

/// What a client gets when it has logged in.
#[derive(Clone, Debug, PartialEq, Eq)]
pub struct TokenResponse {
    /// The token with which the client calls the service.
    pub access_token: String,
}

/// A user whose token was found valid.
#[derive(Clone, Debug, PartialEq, Eq)]
pub struct AuthenticatedUser {
    /// The email address that the token was issued to.
    pub email_address: String,
}

/// Why a request was not let through.
#[derive(Clone, Copy, Debug, PartialEq, Eq, Structural)]
pub enum AuthorizationError {
    /// The request has no `Authorization` header.
    MissingAuthorizationHeader,
    /// The header is not the word `bearer`, one space, and a token.
    MalformedAuthorizationHeader,
    /// The token is forged, run out, not yet valid, or lacks a claim.
    InvalidToken,
    /// The service has no key to check tokens with.
    NoDecodingKey,
}

/// What a token says.
#[derive(Clone, Debug, PartialEq, Eq)]
pub struct Claims {
    /// When the token runs out, in seconds since the Unix epoch.
    pub exp: u64,
    /// When the token was issued.
    pub iat: u64,
    /// From when on the token is valid.
    pub nbf: u64,
    /// The email address of the user the token was issued to.
    pub sub: String,
    /// Whether that user may administer the service.
    pub admin: bool,
}

/// What a token of unknown make says: each claim as far as the token holds
/// it in the right type.
#[derive(Clone, Debug, PartialEq, Eq)]
pub struct LooseClaims {
    /// The claim `exp`, where it is a number that fits 64 bits.
    pub exp: Option<u64>,
    /// The claim `iat`, where it is a number that fits 64 bits.
    pub iat: Option<u64>,
    /// The claim `nbf`, where it is a number that fits 64 bits.
    pub nbf: Option<u64>,
    /// The claim `sub`, where it is a string.
    pub sub: Option<String>,
    /// The claim `admin`, where it is a boolean.
    pub admin: Option<bool>,
}

/// The way in which tokens are signed.
#[derive(Clone, Copy, Debug, PartialEq, Eq, Structural)]
pub enum TokenAlgorithm {
    /// RSA with PKCS #1 v1.5 padding and SHA-256.
    Rs256,
}

/// A key with which tokens are checked.
#[verifier::external_type_specification]
#[verifier::external_body]
pub struct ExDecodingKey<'a>(jsonwebtoken::DecodingKey<'a>);

/// A key with which tokens are signed.
#[verifier::external_type_specification]
#[verifier::external_body]
pub struct ExEncodingKey(jsonwebtoken::EncodingKey);

/// The checks that a token has to pass.
#[verifier::external_type_specification]
#[verifier::external_body]
pub struct ExValidation(jsonwebtoken::Validation);

/// The lower-case form of a text, as `str::to_lowercase` of the standard
/// library gives it.
pub uninterp spec fn lowercase_of(text: Seq<char>) -> Seq<char>;

/// What `bcrypt::verify` says of a password and a hash: whether the hash is
/// that of the password, or `None` where the hash is malformed.
pub uninterp spec fn bcrypt_verdict(password: Seq<char>, hash: Seq<char>) -> Option<bool>;

/// Whether `jsonwebtoken::DecodingKey::from_rsa_pem` reads a key out of a
/// text.
pub uninterp spec fn holds_rsa_decoding_key(pem: Seq<char>) -> bool;

/// What a key for signing holds, as bytes: one byte that tells the family
/// of the key (a shared secret, RSA, or an elliptic curve), then the key
/// itself, as the secret or in DER.
pub uninterp spec fn encoding_key_contents(key: jsonwebtoken::EncodingKey) -> Seq<u8>;

/// What the key holds that `jsonwebtoken::EncodingKey::from_rsa_pem` reads
/// out of a text; `None` where it reads none.
pub uninterp spec fn rsa_encoding_key_in(pem: Seq<char>) -> Option<Seq<u8>>;

/// The token that `jsonwebtoken::encode` puts together from a header for
/// `algorithm`, the five claims and the key that holds `key`; `None` where
/// the key is not one that signs as `algorithm` says.
pub uninterp spec fn signed_token(
    algorithm: TokenAlgorithm,
    exp: u64,
    iat: u64,
    nbf: u64,
    sub: Seq<char>,
    admin: bool,
    key: Seq<u8>,
) -> Option<Seq<char>>;

/// `str::to_lowercase` of the standard library: the lower-case form of
/// `text` under the Unicode case mappings. Nothing more is claimed of it
/// than that the same text always has the same lower-case form.
#[verifier::external_body]
fn to_lowercase(text: &str) -> (lower: String)
    ensures
        lower@ == lowercase_of(text@),
{
    text.to_lowercase()
}

/// `bcrypt::verify`: splits the hash into cost, salt and digest, hashes the
/// password anew with that cost and salt, and says whether the digests
/// agree. A hash that is not 60 ASCII characters in the shape of a bcrypt
/// hash is an error, given here as `None`. The verdict depends on the
/// password and the hash alone.
#[verifier::external_body]
fn check_password(password: &str, hash: &str) -> (verdict: Option<bool>)
    ensures
        verdict == bcrypt_verdict(password@, hash@),
{
    bcrypt::verify(password, hash).ok()
}

/// `jsonwebtoken::DecodingKey::from_rsa_pem`: the RSA key that `pem` holds,
/// or `None` where it holds none. Whether a text holds a key depends on the
/// text alone.
#[verifier::external_body]
fn decoding_key<'a>(pem: &'a str) -> (key: Option<jsonwebtoken::DecodingKey<'a>>)
    ensures
        key is Some <==> holds_rsa_decoding_key(pem@),
{
    jsonwebtoken::DecodingKey::from_rsa_pem(pem.as_bytes()).ok()
}

/// `jsonwebtoken::EncodingKey::from_rsa_pem`: the RSA key that `pem` holds,
/// or `None` where it holds none. Which key a text holds depends on the
/// text alone.
#[verifier::external_body]
fn encoding_key(pem: &str) -> (key: Option<jsonwebtoken::EncodingKey>)
    ensures
        key matches Some(found) ==> rsa_encoding_key_in(pem@) == Some(encoding_key_contents(found)),
        key is None ==> rsa_encoding_key_in(pem@) is None,
{
    jsonwebtoken::EncodingKey::from_rsa_pem(pem.as_bytes()).ok()
}

/// `jsonwebtoken::Validation::new` with its fields `leeway`, `validate_exp`
/// and `validate_nbf` set: the checks for tokens signed as `algorithm` says.
/// Nothing is claimed of the result.
#[verifier::external_body]
fn validation(
    algorithm: TokenAlgorithm,
    leeway: u64,
    validate_exp: bool,
    validate_nbf: bool,
) -> jsonwebtoken::Validation {
    let mut checks = jsonwebtoken::Validation::new(
        match algorithm {
            TokenAlgorithm::Rs256 => jsonwebtoken::Algorithm::RS256,
        },
    );
    checks.leeway = leeway;
    checks.validate_exp = validate_exp;
    checks.validate_nbf = validate_nbf;
    checks
}

/// `jsonwebtoken::decode`: what `token` says, where its signature is that
/// of `key` and it passes `checks` at the time of the call; `None` where it
/// does not. The claims are read as a JSON object and handed out one by
/// one. Nothing is claimed of the result, which depends on the clock.
#[verifier::external_body]
fn decode(
    token: &str,
    key: &jsonwebtoken::DecodingKey,
    checks: &jsonwebtoken::Validation,
) -> Option<LooseClaims> {
    let claims = jsonwebtoken::decode::<serde_json::Value>(token, key, checks).ok()?.claims;
    Some(
        LooseClaims {
            exp: claims.get("exp").and_then(serde_json::Value::as_u64),
            iat: claims.get("iat").and_then(serde_json::Value::as_u64),
            nbf: claims.get("nbf").and_then(serde_json::Value::as_u64),
            sub: claims.get("sub").and_then(serde_json::Value::as_str).map(str::to_owned),
            admin: claims.get("admin").and_then(serde_json::Value::as_bool),
        },
    )
}

/// `jsonwebtoken::encode`: the token that says `claims`, under the header
/// that `jsonwebtoken::Header::new` makes for `algorithm`, signed with
/// `key`; `None` where the key cannot sign so. The claims are handed over
/// as a JSON object. Signing with RSA and PKCS #1 v1.5 padding draws on no
/// chance, so that the same claims and the same key always give the same
/// token.
#[verifier::external_body]
fn encode(algorithm: TokenAlgorithm, claims: &Claims, key: &jsonwebtoken::EncodingKey) -> (token:
    Option<String>)
    ensures
        token matches Some(text) ==> signed_token(
            algorithm,
            claims.exp,
            claims.iat,
            claims.nbf,
            claims.sub@,
            claims.admin,
            encoding_key_contents(*key),
        ) == Some(text@),
        token is None ==> signed_token(
            algorithm,
            claims.exp,
            claims.iat,
            claims.nbf,
            claims.sub@,
            claims.admin,
            encoding_key_contents(*key),
        ) is None,
{
    let header = jsonwebtoken::Header::new(
        match algorithm {
            TokenAlgorithm::Rs256 => jsonwebtoken::Algorithm::RS256,
        },
    );
    let mut body = serde_json::Map::new();
    body.insert("exp".to_owned(), claims.exp.into());
    body.insert("iat".to_owned(), claims.iat.into());
    body.insert("nbf".to_owned(), claims.nbf.into());
    body.insert("sub".to_owned(), claims.sub.as_str().into());
    body.insert("admin".to_owned(), claims.admin.into());
    jsonwebtoken::encode(&header, &body, key).ok()
}

/// Whether the only space of `header` is at `at`.
pub open spec fn splits_at(header: Seq<char>, at: int) -> bool {
    &&& 0 <= at < header.len()
    &&& header[at] == ' '
    &&& forall|i: int| 0 <= i < header.len() && i != at ==> header[i] != ' '
}

/// Whether `header` is a word, one space and a rest, with no other space
/// in it, and the word is `bearer` in whatever case.
pub open spec fn is_bearer(header: Seq<char>, at: int) -> bool {
    splits_at(header, at) && lowercase_of(header.subrange(0, at)) == "bearer"@
}

/// Where the only space of `header` is; `None` for a header with no space
/// or with more than one.
fn only_space(header: &str) -> (at: Option<usize>)
    ensures
        at matches Some(found) ==> splits_at(header@, found as int),
        at is None ==> forall|i: int| !splits_at(header@, i),
{
    let length = header.unicode_len();
    let mut spaces: usize = 0;
    let mut first: usize = 0;
    let mut i: usize = 0;
    for c in iter: header.chars()
        invariant
            iter.seq() == header@,
            length == header@.len(),
            i == iter.index(),
            spaces <= 2,
            spaces == 0 ==> forall|j: int| 0 <= j < i ==> header@[j] != ' ',
            spaces >= 1 ==> first < i && header@[first as int] == ' ',
            spaces == 1 ==> forall|j: int| 0 <= j < i && j != first ==> header@[j] != ' ',
            spaces == 2 ==> exists|j: int| 0 <= j < i && j != first && header@[j] == ' ',
    {
        if c == ' ' {
            if spaces == 0 {
                first = i;
            }
            if spaces < 2 {
                spaces = spaces + 1;
            }
        }
        i = i + 1;
    }
    if spaces == 1 {
        Some(first)
    } else {
        assert forall|at: int| !splits_at(header@, at) by {
            if splits_at(header@, at) && spaces == 2 {
                let other = choose|j: int| 0 <= j < i && j != first && header@[j] == ' ';
                assert(header@[first as int] == ' ' && header@[other] == ' ');
            }
        }
        None
    }
}

/// The token in an `Authorization` header.
///
/// The header has to be the word `bearer`, in whatever case, one space, and
/// the token; the token is what follows the space, and may be empty. A
/// header with no space or with more than one is malformed, and so is one
/// that starts with another word.
pub fn bearer_token<'a>(header: &'a str) -> (token: Result<&'a str, AuthorizationError>)
    ensures
        (forall|at: int| !is_bearer(header@, at)) ==> token == Err::<&str, AuthorizationError>(
            AuthorizationError::MalformedAuthorizationHeader,
        ),
        forall|at: int|
            is_bearer(header@, at) ==> (token matches Ok(found) && found@ == header@.subrange(
                at + 1,
                header@.len() as int,
            )),
{
    let at = match only_space(header) {
        Some(at) => at,
        None => {
            return Err(AuthorizationError::MalformedAuthorizationHeader);
        },
    };
    assert forall|other: int| splits_at(header@, other) implies other == at by {
        assert(header@[at as int] == ' ');
    }
    let length = header.unicode_len();
    let scheme = to_lowercase(header.substring_char(0, at));
    let expected = "bearer".to_owned();
    if scheme == expected {
        assert(is_bearer(header@, at as int));
        Ok(header.substring_char(at + 1, length))
    } else {
        Err(AuthorizationError::MalformedAuthorizationHeader)
    }
}

impl LooseClaims {
    /// The claims, where the token holds every one of them.
    pub open spec fn complete(self) -> Option<Claims> {
        match self {
            LooseClaims {
                exp: Some(exp),
                iat: Some(iat),
                nbf: Some(nbf),
                sub: Some(sub),
                admin: Some(admin),
            } => Some(Claims { exp, iat, nbf, sub, admin }),
            _ => None,
        }
    }
}

impl AuthenticatedUser {
    /// Who is let through, given what the check of a token came to: the
    /// user named by the claim `sub` of a token that passed the check and
    /// holds every claim.
    pub open spec fn admitted(decoded: Option<LooseClaims>) -> Result<
        AuthenticatedUser,
        AuthorizationError,
    > {
        match decoded {
            Some(loose) => match loose.complete() {
                Some(claims) => Ok(AuthenticatedUser { email_address: claims.sub }),
                None => Err(AuthorizationError::InvalidToken),
            },
            None => Err(AuthorizationError::InvalidToken),
        }
    }

    /// Lets the holder of a token through, given what the check of the
    /// token came to (`None` where the token was refused).
    ///
    /// The holder is the user named by the claim `sub`, provided that the
    /// token passed the check and holds every claim of a token of this
    /// service; any other token is invalid.
    pub fn from_claims(decoded: Option<LooseClaims>) -> (user: Result<
        AuthenticatedUser,
        AuthorizationError,
    >)
        ensures
            user == AuthenticatedUser::admitted(decoded),
    {
        match decoded {
            Some(
                LooseClaims {
                    exp: Some(_),
                    iat: Some(_),
                    nbf: Some(_),
                    sub: Some(sub),
                    admin: Some(_),
                },
            ) => Ok(AuthenticatedUser { email_address: sub }),
            _ => Err(AuthorizationError::InvalidToken),
        }
    }

    /// Decides whether a request is let through, given its `Authorization`
    /// header, if it has one, and the settings of the service, if it has
    /// any.
    ///
    /// A request without the header is refused, and so is one whose header
    /// is not `bearer`, a space and a token. Without settings, or with
    /// settings whose public key is no RSA key, there is nothing to check a
    /// token with. Past that the token decides: it has to be signed with
    /// RS256 by the key of the service and be within its time of validity,
    /// give or take the leeway, and it has to hold every claim.
    pub fn from_request(authorization: Option<&str>, settings: Option<&FlygSettings>) -> (user:
        Result<AuthenticatedUser, AuthorizationError>)
        ensures
            authorization is None ==> user == Err::<AuthenticatedUser, AuthorizationError>(
                AuthorizationError::MissingAuthorizationHeader,
            ),
            authorization matches Some(header) ==> {
                &&& (forall|at: int| !is_bearer(header@, at)) ==> user == Err::<
                    AuthenticatedUser,
                    AuthorizationError,
                >(AuthorizationError::MalformedAuthorizationHeader)
                &&& (exists|at: int| is_bearer(header@, at)) ==> {
                    &&& settings is None ==> user == Err::<AuthenticatedUser, AuthorizationError>(
                        AuthorizationError::NoDecodingKey,
                    )
                    &&& settings matches Some(found) ==> {
                        &&& !holds_rsa_decoding_key(found.public_key@) ==> user == Err::<
                            AuthenticatedUser,
                            AuthorizationError,
                        >(AuthorizationError::NoDecodingKey)
                        &&& holds_rsa_decoding_key(found.public_key@) ==> user is Ok || user
                            == Err::<AuthenticatedUser, AuthorizationError>(
                            AuthorizationError::InvalidToken,
                        )
                    }
                }
            },
    {
        let header = match authorization {
            Some(header) => header,
            None => {
                return Err(AuthorizationError::MissingAuthorizationHeader);
            },
        };
        let token = match bearer_token(header) {
            Ok(token) => token,
            Err(error) => {
                return Err(error);
            },
        };
        let checks = validation(TokenAlgorithm::Rs256, TOKEN_LEEWAY_IN_SECONDS, true, true);
        let settings = match settings {
            Some(settings) => settings,
            None => {
                return Err(AuthorizationError::NoDecodingKey);
            },
        };
        let key = match decoding_key(settings.public_key.as_str()) {
            Some(key) => key,
            None => {
                return Err(AuthorizationError::NoDecodingKey);
            },
        };
        AuthenticatedUser::from_claims(decode(token, &key, &checks))
    }
}

impl AuthorizationError {
    /// The status with which a request that was not let through is
    /// answered: it is forbidden, whatever the reason.
    pub fn status(&self) -> (status: Status)
        ensures
            status == Status::Forbidden,
    {
        Status::Forbidden
    }
}

impl Claims {
    /// What a token issued at `issued_at` to `subject` says: it is valid
    /// from the second after it was issued and for an hour from then.
    pub open spec fn issued(issued_at: u64, subject: String, is_admin: bool) -> Claims {
        Claims {
            exp: (issued_at + 1 + TOKEN_LIFETIME_IN_SECONDS) as u64,
            iat: issued_at,
            nbf: (issued_at + 1) as u64,
            sub: subject,
            admin: is_admin,
        }
    }

    /// The claims of a token issued at `issued_at` to `subject`; `None`
    /// where the time at which the token runs out does not fit 64 bits.
    pub fn new(issued_at: u64, subject: &String, is_admin: bool) -> (claims: Option<Claims>)
        ensures
            issued_at + 1 + TOKEN_LIFETIME_IN_SECONDS > u64::MAX ==> claims is None,
            issued_at + 1 + TOKEN_LIFETIME_IN_SECONDS <= u64::MAX ==> claims == Some(
                Claims::issued(issued_at, *subject, is_admin),
            ),
    {
        if issued_at > u64::MAX - 1 - TOKEN_LIFETIME_IN_SECONDS {
            return None;
        }
        Some(
            Claims {
                exp: issued_at + 1 + TOKEN_LIFETIME_IN_SECONDS,
                iat: issued_at,
                nbf: issued_at + 1,
                sub: subject.clone(),
                admin: is_admin,
            },
        )
    }
}

/// The token that is issued to `subject` at `issued_at` under the RSA key
/// in the text `private_key`, if one is.
///
/// It says that it was issued at that time, is valid from the second after
/// and runs out an hour from then, and it is signed with RS256. There is
/// none without the time, with a time so late that the token would never
/// run out, with a text that holds no RSA key, or with a key that cannot
/// sign.
pub open spec fn issued_token(
    subject: Seq<char>,
    is_admin: bool,
    private_key: Seq<char>,
    issued_at: Option<u64>,
) -> Option<Seq<char>> {
    match (issued_at, rsa_encoding_key_in(private_key)) {
        (Some(time), Some(key)) => if time + 1 + TOKEN_LIFETIME_IN_SECONDS <= u64::MAX {
            signed_token(
                TokenAlgorithm::Rs256,
                (time + 1 + TOKEN_LIFETIME_IN_SECONDS) as u64,
                time,
                (time + 1) as u64,
                subject,
                is_admin,
                key,
            )
        } else {
            None
        },
        _ => None,
    }
}

/// Issues a token to `subject`, signed with the RSA key in `private_key`;
/// `issued_at` is the time by the clock of the service, in seconds since
/// the Unix epoch, or `None` where the clock cannot be read.
///
/// Whether `subject` is entitled to a token is for the caller to find out.
/// There is no token without the time, with a time so late that the token
/// would never run out, or without a key that signs; else the token is the
/// one that says so of `subject`, signed with that key.
pub fn get_token_for_user(
    subject: &String,
    is_admin: bool,
    private_key: &String,
    issued_at: Option<u64>,
) -> (token: Option<String>)
    ensures
        token matches Some(text) ==> issued_token(subject@, is_admin, private_key@, issued_at)
            == Some(text@),
        token is None ==> issued_token(subject@, is_admin, private_key@, issued_at) is None,
{
    let time = match issued_at {
        Some(time) => time,
        None => {
            return None;
        },
    };
    let claims = match Claims::new(time, subject, is_admin) {
        Some(claims) => claims,
        None => {
            return None;
        },
    };
    let key = match encoding_key(private_key.as_str()) {
        Some(key) => key,
        None => {
            return None;
        },
    };
    encode(TokenAlgorithm::Rs256, &claims, &key)
}

/// The public key with which the tokens of the service can be checked.
pub fn get_public_key_for_signature_validation(configuration: &FlygSettings) -> (key: String)
    ensures
        key == configuration.public_key,
{
    configuration.public_key.clone()
}

/// The answer to a login whose password was right, given the token that was
/// issued, if one was: the token, or the failure of the service.
pub fn token_response(token: Option<String>) -> (answer: Result<TokenResponse, Status>)
    ensures
        token matches Some(access_token) ==> answer == Ok::<TokenResponse, Status>(
            TokenResponse { access_token },
        ),
        token is None ==> answer == Err::<TokenResponse, Status>(Status::InternalServerError),
{
    match token {
        Some(access_token) => Ok(TokenResponse { access_token }),
        None => Err(Status::InternalServerError),
    }
}

/// Answers a login, given what the lookup of the user came to, the RSA key
/// with which tokens are signed, and the time by the clock of the service
/// (`None` where it cannot be read).
///
/// A user who is not known is unauthorized, and is told so only after a
/// password check that takes as long as a real one. A password that is not
/// the user's is unauthorized as well. A stored hash that is no bcrypt hash
/// is a failure of the service, and so is a token that cannot be issued.
/// Else the answer is the token issued to the user under that key.
pub fn get_login_token(
    login_information: &LoginInformation,
    user: Result<User, FlygDatabaseError>,
    private_key: &String,
    issued_at: Option<u64>,
) -> (answer: Result<TokenResponse, Status>)
    ensures
        user is Err ==> answer == Err::<TokenResponse, Status>(Status::Unauthorized),
        user matches Ok(found) ==> {
            &&& bcrypt_verdict(login_information.password@, found.password@) == Some(false)
                ==> answer == Err::<TokenResponse, Status>(Status::Unauthorized)
            &&& bcrypt_verdict(login_information.password@, found.password@) is None ==> answer
                == Err::<TokenResponse, Status>(Status::InternalServerError)
            &&& bcrypt_verdict(login_information.password@, found.password@) == Some(true)
                ==> match issued_token(
                login_information.username@,
                found.is_admin,
                private_key@,
                issued_at,
            ) {
                Some(text) => answer matches Ok(response) && response.access_token@ == text,
                None => answer == Err::<TokenResponse, Status>(Status::InternalServerError),
            }
        },
{
    let found = match user {
        Ok(found) => found,
        Err(_) => {
            let _ = check_password("some_password", UNKNOWN_USER_HASH);
            return Err(Status::Unauthorized);
        },
    };
    match check_password(login_information.password.as_str(), found.password.as_str()) {
        Some(true) => {},
        Some(false) => {
            return Err(Status::Unauthorized);
        },
        None => {
            return Err(Status::InternalServerError);
        },
    }
    token_response(
        get_token_for_user(&login_information.username, found.is_admin, private_key, issued_at),
    )
}

} // verus!
