//! The App assertion: a short-lived token, signed with the App's private key,
//! that proves to GitHub who is calling.

use crate::json::{members, plain, JsonObject, JsonView, Members, RawObject, Scalar};
use crate::models::HandlersErr;
use vstd::prelude::*;
use vstd::string::*;

verus! {

/// `jsonwebtoken::errors::Error`, of which only its presence is read.
#[verifier::external_type_specification]
#[verifier::external_body]
pub struct ExJwtError(jsonwebtoken::errors::Error);

/// `jsonwebtoken::EncodingKey`, which loading a key gives and nothing reads.
#[verifier::external_type_specification]
#[verifier::external_body]
pub struct ExEncodingKey(jsonwebtoken::EncodingKey);

/// The identifier that GitHub gave the App: the `iss` claim.
pub const APP_ID: u64 = 61447;

/// How long an assertion is valid, in seconds: nine minutes, one less than
/// the ten that GitHub allows.
pub const ASSERTION_LIFETIME: i64 = 540;

/// The longest lifetime that GitHub accepts, in seconds.
pub const LIFETIME_CEILING: i64 = 600;

/// The `company` claim.
pub open spec fn company() -> Seq<char> {
    "dollar-ci"@
}

/// The claims of an assertion, as mathematical values.
pub struct ClaimsView {
    pub iat: int,
    pub sub: Seq<char>,
    pub company: Seq<char>,
    pub iss: int,
    pub exp: int,
}

/// The claims that an assertion for `name`, issued at `now`, carries.
pub open spec fn claims_at(name: Seq<char>, now: int) -> ClaimsView {
    ClaimsView {
        iat: now,
        sub: name,
        company: company(),
        iss: APP_ID as int,
        exp: now + ASSERTION_LIFETIME,
    }
}

/// The JSON object that is signed for the given claims.
pub open spec fn claim_members(claims: ClaimsView) -> Members {
    Members::empty().insert("iat"@, JsonView::Integer(claims.iat)).insert(
        "sub"@,
        JsonView::Text(claims.sub),
    ).insert("company"@, JsonView::Text(claims.company)).insert(
        "iss"@,
        JsonView::Integer(claims.iss),
    ).insert("exp"@, JsonView::Integer(claims.exp))
}

/// The claims of an assertion. They always name this App as the issuer and
/// expire `ASSERTION_LIFETIME` seconds after they were issued.
pub struct Claims {
    iat: i64,
    sub: String,
    company: String,
    iss: u64,
    exp: i64,
}

impl View for Claims {
    type V = ClaimsView;

    closed spec fn view(&self) -> ClaimsView {
        ClaimsView {
            iat: self.iat as int,
            sub: self.sub@,
            company: self.company@,
            iss: self.iss as int,
            exp: self.exp as int,
        }
    }
}

impl Claims {
    #[verifier::type_invariant]
    closed spec fn well_formed(&self) -> bool {
        self@ == claims_at(self.sub@, self.iat as int)
    }

    /// The claims of an assertion for `name` that is issued at `now`.
    pub fn new(name: &str, now: i64) -> (claims: Claims)
        requires
            now + ASSERTION_LIFETIME <= i64::MAX,
        ensures
            claims@ == claims_at(name@, now as int),
    {
        Claims {
            iat: now,
            sub: name.to_owned(),
            company: String::from_str("dollar-ci"),
            iss: APP_ID,
            exp: now + ASSERTION_LIFETIME,
        }
    }

    /// The claims as the JSON object that is signed.
    pub fn to_object(&self) -> (object: JsonObject)
        ensures
            object@ == claim_members(self@),
    {
        proof {
            use_type_invariant(self);
        }
        let issuer: i64 = self.iss as i64;
        JsonObject::new().with("iat", Scalar::Integer(self.iat)).with(
            "sub",
            Scalar::Text(self.sub.clone()),
        ).with("company", Scalar::Text(self.company.clone())).with(
            "iss",
            Scalar::Integer(issuer),
        ).with("exp", Scalar::Integer(self.exp))
    }

    /// When the assertion was issued, in seconds since the epoch.
    pub fn issued_at(&self) -> (seconds: i64)
        ensures
            seconds == self@.iat,
    {
        self.iat
    }

    /// When the assertion expires, in seconds since the epoch.
    pub fn expires_at(&self) -> (seconds: i64)
        ensures
            seconds == self@.exp,
            seconds == self@.iat + ASSERTION_LIFETIME,
    {
        proof {
            use_type_invariant(self);
        }
        self.exp
    }

    /// The App that issued the assertion.
    pub fn issuer(&self) -> (id: u64)
        ensures
            id == self@.iss,
            id == APP_ID,
    {
        proof {
            use_type_invariant(self);
        }
        self.iss
    }

    /// Whom the assertion was issued for.
    pub fn subject(&self) -> (name: &str)
        ensures
            name@ == self@.sub,
    {
        self.sub.as_str()
    }
}

/// Whether `jsonwebtoken::EncodingKey::from_rsa_pem` takes `pem` as an RSA
/// key in PEM form.
pub uninterp spec fn rsa_pem_accepted(pem: Seq<u8>) -> bool;

/// `jsonwebtoken::EncodingKey::from_rsa_pem`. It reads the PEM frame and
/// the DER inside and nothing else, so whether it takes the bytes depends on
/// the bytes alone. It does not ask that the key is a private one: a public
/// RSA key is taken here and fails at signing.
#[verifier::external_body]
fn load_rsa_key(pem: &[u8]) -> (key: Result<
    jsonwebtoken::EncodingKey,
    jsonwebtoken::errors::Error,
>)
    ensures
        key is Ok <==> rsa_pem_accepted(pem@),
{
    jsonwebtoken::EncodingKey::from_rsa_pem(pem)
}

/// The RS256 token that `jsonwebtoken::encode` makes of a claims object with
/// the given members, signed with the RSA key that `pem` holds; `None` where
/// it fails, as it does for a key that is not a private one.
pub uninterp spec fn rs256_token(claims: Members, pem: Seq<u8>) -> Option<Seq<char>>;

/// `jsonwebtoken::encode` with the header of an RS256 token, on the key that
/// `jsonwebtoken::EncodingKey::from_rsa_pem` reads from `pem`.
///
/// The token is a function of the members and the key's bytes. The claims
/// are written in the order of their names. RS256 pads by PKCS#1 v1.5:
/// `jsonwebtoken` hands `ring` a random source for the signature, but
/// `ring` reads none for this padding, nor for the private-key operation.
#[verifier::external_body]
fn sign_rs256(claims: &RawObject, pem: &[u8]) -> (token: Result<
    String,
    jsonwebtoken::errors::Error,
>)
    requires
        plain(members(*claims)),
        rsa_pem_accepted(pem@),
    ensures
        token is Ok <==> rs256_token(members(*claims), pem@) is Some,
        token matches Ok(t) ==> rs256_token(members(*claims), pem@) == Some(t@),
{
    let key = jsonwebtoken::EncodingKey::from_rsa_pem(pem)?;
    jsonwebtoken::encode(&jsonwebtoken::Header::new(jsonwebtoken::Algorithm::RS256), claims, &key)
}

/// What issuing an assertion returns, given what signing returned.
pub fn signed_or_error(signed: Result<String, jsonwebtoken::errors::Error>) -> (assertion: Result<
    String,
    HandlersErr,
>)
    ensures
        signed matches Ok(token) ==> assertion == Ok::<String, HandlersErr>(token),
        signed is Err ==> assertion == Err::<String, HandlersErr>(HandlersErr::SigningError),
{
    match signed {
        Ok(token) => Ok(token),
        Err(_) => Err(HandlersErr::SigningError),
    }
}

/// What issuing an assertion gives for a claims object with the given
/// members and the key `pem`: `KeyLoadError` where the key is not accepted,
/// else the RS256 token of the members under that key, or `SigningError`
/// where there is none.
pub open spec fn issued(claims: Members, pem: Seq<u8>) -> Result<Seq<char>, HandlersErr> {
    if !rsa_pem_accepted(pem) {
        Err(HandlersErr::KeyLoadError)
    } else {
        match rs256_token(claims, pem) {
            Some(token) => Ok(token),
            None => Err(HandlersErr::SigningError),
        }
    }
}

/// What `create` gives for `name` and the key `pem` at the time `now`: the
/// outcome of issuing the claims for that name and time.
pub open spec fn created(name: Seq<char>, pem: Seq<u8>, now: int) -> Result<
    Seq<char>,
    HandlersErr,
> {
    issued(claim_members(claims_at(name, now)), pem)
}

/// The text of a token, or the error.
pub open spec fn token_view(assertion: Result<String, HandlersErr>) -> Result<Seq<char>, HandlersErr> {
    match assertion {
        Ok(token) => Ok(token@),
        Err(error) => Err(error),
    }
}

/// Signs `claims` with the RSA private key in `pem`, which gives the
/// assertion as an RS256 token.
pub fn issue(claims: &Claims, pem: &[u8]) -> (assertion: Result<String, HandlersErr>)
    ensures
        token_view(assertion) == issued(claim_members(claims@), pem@),
{
    match load_rsa_key(pem) {
        Ok(_) => {
            let object = claims.to_object();
            signed_or_error(sign_rs256(object.raw(), pem))
        },
        Err(_) => Err(HandlersErr::KeyLoadError),
    }
}

/// Issues an assertion for `name` at the time `now`, in seconds since the
/// epoch: valid from then for `ASSERTION_LIFETIME` seconds, and signed with
/// the RSA private key in `pem`.
pub fn create(name: &str, pem: &[u8], now: i64) -> (assertion: Result<String, HandlersErr>)
    requires
        now + ASSERTION_LIFETIME <= i64::MAX,
    ensures
        token_view(assertion) == created(name@, pem@, now as int),
{
    let claims = Claims::new(name, now);
    issue(&claims, pem)
}

/// An assertion always lives `ASSERTION_LIFETIME` seconds, which is under
/// GitHub's ceiling, and names this App as its issuer, whoever it is issued
/// for and whenever.
pub proof fn lemma_assertion_lifetime(name: Seq<char>, now: int)
    ensures
        claims_at(name, now).exp - claims_at(name, now).iat == 540,
        claims_at(name, now).exp - claims_at(name, now).iat <= LIFETIME_CEILING,
        claims_at(name, now).iss == APP_ID,
{
}

/// What is signed for an assertion: exactly the five claims, of which `iat`
/// is the time of issue, `exp` lies `ASSERTION_LIFETIME` seconds after it,
/// `iss` is this App and `sub` the name it was issued for.
pub proof fn lemma_signed_claims(name: Seq<char>, now: int)
    ensures
        claim_members(claims_at(name, now)).dom() =~= set![
            "iat"@,
            "sub"@,
            "company"@,
            "iss"@,
            "exp"@,
        ],
        claim_members(claims_at(name, now))["iat"@] == JsonView::Integer(now),
        claim_members(claims_at(name, now))["exp"@] == JsonView::Integer(now + 540),
        claim_members(claims_at(name, now))["iss"@] == JsonView::Integer(61447),
        claim_members(claims_at(name, now))["sub"@] == JsonView::Text(name),
        claim_members(claims_at(name, now))["company"@] == JsonView::Text(company()),
{
    reveal_strlit("iat");
    reveal_strlit("sub");
    reveal_strlit("company");
    reveal_strlit("iss");
    reveal_strlit("exp");
    assert("iat"@[0] == 'i' && "iat"@[1] == 'a');
    assert("iss"@[0] == 'i' && "iss"@[1] == 's');
    assert("sub"@[0] == 's');
    assert("exp"@[0] == 'e');
    assert("company"@.len() == 7);
    assert("iat"@.len() == 3 && "sub"@.len() == 3 && "iss"@.len() == 3 && "exp"@.len() == 3);
}

} // verus!
