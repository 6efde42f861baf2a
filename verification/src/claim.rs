use vstd::prelude::*;
use crate::err::IdentityError;
use crate::repo::user_repo::found_by_id;
use crate::repo::user_repo::UserStore;
use crate::traits::t_user_manager::UserStoreTrait;
use crate::traits::token::TokenContainerTrait;
use crate::user::identity_user::user_result;
use crate::user::identity_user::IdentityUser;
use crate::user::identity_user::UserRecord;
use crate::util::now_seconds;
use crate::util::same_text;

verus! {

/// The longest lifetime, in seconds, that a configuration may give a claim,
/// forwards or backwards.
pub const MAX_LIFETIME: i64 = 9_223_372_036_854_775;

/// The bound below which the clock's seconds stay.
pub const CLOCK_BOUND: i64 = 185_542_587_187_200;

/// A time that the clock can show, in seconds since the Unix epoch.
pub open spec fn is_clock_time(now: int) -> bool {
    0 <= now < CLOCK_BOUND
}

/// A claim as a value: who it speaks of, who issued it, and the seconds since
/// the Unix epoch at which it ends and at which it was made.
pub struct ClaimData {
    pub sub: Seq<char>,
    pub iss: Seq<char>,
    pub exp: int,
    pub iat: int,
}

/// A claim: the assertion, good for a time, that its bearer is the user
/// `sub`. The times are whole seconds since the Unix epoch.
#[derive(Debug, PartialEq, Eq)]
pub struct Claim {
    pub sub: String,
    pub iss: String,
    pub exp: i64,
    pub iat: i64,
}

impl View for Claim {
    type V = ClaimData;

    open spec fn view(&self) -> ClaimData {
        ClaimData { sub: self.sub@, iss: self.iss@, exp: self.exp as int, iat: self.iat as int }
    }
}

/// What claims are issued and checked with: the issuer's name, the secret
/// that tokens are signed with, and the lifetimes in seconds of a session
/// claim and of a claim for changing the password.
pub struct ClaimConfig {
    issuer: String,
    secret: String,
    expiration: i64,
    expiration_change_pwd: i64,
}

/// A claim configuration as a value.
pub struct ClaimSettings {
    pub issuer: Seq<char>,
    pub secret: Seq<char>,
    pub expiration: int,
    pub expiration_change_pwd: int,
}

/// A lifetime that a configuration may hold.
pub open spec fn is_lifetime(ttl: int) -> bool {
    -MAX_LIFETIME <= ttl <= MAX_LIFETIME
}

impl View for ClaimConfig {
    type V = ClaimSettings;

    closed spec fn view(&self) -> ClaimSettings {
        ClaimSettings {
            issuer: self.issuer@,
            secret: self.secret@,
            expiration: self.expiration as int,
            expiration_change_pwd: self.expiration_change_pwd as int,
        }
    }
}

impl ClaimConfig {
    #[verifier::type_invariant]
    closed spec fn lifetimes_bounded(&self) -> bool {
        is_lifetime(self.expiration as int) && is_lifetime(self.expiration_change_pwd as int)
    }

    /// A configuration of these four values; none where a lifetime is longer
    /// than `MAX_LIFETIME`.
    pub fn new(issuer: &str, secret: &str, expiration: i64, expiration_change_pwd: i64) -> (r:
        Option<ClaimConfig>)
        ensures
            r is Some <==> is_lifetime(expiration as int) && is_lifetime(
                expiration_change_pwd as int,
            ),
            r matches Some(c) ==> c@ == (ClaimSettings {
                issuer: issuer@,
                secret: secret@,
                expiration: expiration as int,
                expiration_change_pwd: expiration_change_pwd as int,
            }),
    {
        if expiration < -MAX_LIFETIME || expiration > MAX_LIFETIME {
            return None;
        }
        if expiration_change_pwd < -MAX_LIFETIME || expiration_change_pwd > MAX_LIFETIME {
            return None;
        }
        Some(
            ClaimConfig {
                issuer: issuer.to_owned(),
                secret: secret.to_owned(),
                expiration,
                expiration_change_pwd,
            },
        )
    }

    /// Does nothing; it is there for what it states: the lifetimes of a
    /// configuration are no longer than `MAX_LIFETIME`.
    pub fn holds_bounds(&self)
        ensures
            is_lifetime(self@.expiration),
            is_lifetime(self@.expiration_change_pwd),
    {
        proof {
            use_type_invariant(self);
        }
    }

    /// The issuer's name.
    pub fn get_issuer(&self) -> (r: &str)
        ensures
            r@ == self@.issuer,
    {
        self.issuer.as_str()
    }

    /// The secret that tokens are signed with.
    pub fn get_secret(&self) -> (r: &str)
        ensures
            r@ == self@.secret,
    {
        self.secret.as_str()
    }

    /// The lifetime of a session claim, in seconds.
    pub fn get_expiration(&self) -> (r: i64)
        ensures
            r == self@.expiration,
            is_lifetime(r as int),
    {
        proof {
            use_type_invariant(self);
        }
        self.expiration
    }

    /// The lifetime of a claim for changing the password, in seconds.
    pub fn get_expiration_change_pwd(&self) -> (r: i64)
        ensures
            r == self@.expiration_change_pwd,
            is_lifetime(r as int),
    {
        proof {
            use_type_invariant(self);
        }
        self.expiration_change_pwd
    }
}

/// The token that signing makes of a claim under a secret: what
/// `jsonwebtoken::encode` returns for the default header, the claim's four
/// members and the secret as HMAC key; `None` where it fails.
pub uninterp spec fn jwt_encoded(claim: ClaimData, secret: Seq<char>) -> Option<Seq<char>>;

/// The claim that a token holds under a secret: what `jsonwebtoken::decode`
/// reads out of it where the signature is good and the payload has the four
/// members of a claim; `None` where it has not. Neither the time nor the
/// issuer plays a part in it.
pub uninterp spec fn jwt_decoded(token: Seq<char>, secret: Seq<char>) -> Option<ClaimData>;

/// The failure of signing or of reading a token. Nothing is read from it.
#[verifier::external_type_specification]
#[verifier::external_body]
pub struct ExJwtError(jsonwebtoken::errors::Error);

/// An optional claim seen as a value.
pub open spec fn claim_option(r: Option<Claim>) -> Option<ClaimData> {
    match r {
        Some(c) => Some(c@),
        None => None,
    }
}

/// A result with a claim in it seen as a value.
pub open spec fn claim_result(r: Result<Claim, IdentityError>) -> Result<ClaimData, IdentityError> {
    match r {
        Ok(c) => Ok(c@),
        Err(e) => Err(e),
    }
}

/// `token` is what signing makes of `claim` under `secret`.
pub open spec fn is_token_of(token: Seq<char>, claim: ClaimData, secret: Seq<char>) -> bool {
    jwt_encoded(claim, secret) == Some(token)
}

/// Calls `jsonwebtoken::encode` with the default header (HS256) on a JSON
/// object of the claim's four members, `exp`, `iat`, `iss` and `sub`, and
/// with the secret's bytes as key. The call computes from its arguments
/// alone.
#[verifier::external_body]
fn jwt_encode(claim: &Claim, secret: &str) -> (r: Result<String, jsonwebtoken::errors::Error>)
    ensures
        r matches Ok(t) ==> jwt_encoded(claim@, secret@) == Some(t@),
        r is Err ==> jwt_encoded(claim@, secret@) is None,
{
    let mut m = serde_json::Map::new();
    m.insert("exp".to_owned(), serde_json::Value::from(claim.exp));
    m.insert("iat".to_owned(), serde_json::Value::from(claim.iat));
    m.insert("iss".to_owned(), serde_json::Value::from(claim.iss.as_str()));
    m.insert("sub".to_owned(), serde_json::Value::from(claim.sub.as_str()));
    let key = jsonwebtoken::EncodingKey::from_secret(secret.as_bytes());
    jsonwebtoken::encode(&jsonwebtoken::Header::default(), &m, &key)
}

/// Calls `jsonwebtoken::decode` for HS256 with the secret's bytes as key and
/// with the checks of expiry and of required members switched off, so that
/// the call computes from its arguments alone: it checks the token's shape
/// and signature and parses the payload. The four members of a claim are
/// then taken out of the payload; a payload that lacks one, or holds one of
/// another JSON type, counts as unreadable. A token that `encode` made of a
/// claim under the same secret is read back as that claim.
#[verifier::external_body]
fn jwt_decode(token: &str, secret: &str) -> (r: Option<Claim>)
    ensures
        claim_option(r) == jwt_decoded(token@, secret@),
        forall|c: Claim| #[trigger] is_token_of(token@, c@, secret@) ==> claim_option(r) == Some(c@),
{
    let mut v = jsonwebtoken::Validation::new(jsonwebtoken::Algorithm::HS256);
    v.validate_exp = false;
    v.required_spec_claims.clear();
    let key = jsonwebtoken::DecodingKey::from_secret(secret.as_bytes());
    let c = jsonwebtoken::decode::<serde_json::Value>(token, &key, &v).ok()?.claims;
    Some(Claim {
        sub: c.get("sub")?.as_str()?.to_owned(),
        iss: c.get("iss")?.as_str()?.to_owned(),
        exp: c.get("exp")?.as_i64()?,
        iat: c.get("iat")?.as_i64()?,
    })
}

/// The claim that is issued to `subject` at the time `now` for `ttl`
/// seconds, or why none is.
pub open spec fn issued(subject: Seq<char>, issuer: Seq<char>, ttl: int, now: int) -> Result<
    ClaimData,
    IdentityError,
> {
    if subject.len() == 0 {
        Err(IdentityError::SubjectOfTokenIsEmpty)
    } else {
        Ok(ClaimData { sub: subject, iss: issuer, exp: now + ttl, iat: now })
    }
}

/// What the check of a claim at the time `now` answers: a claim whose end
/// lies before `now` has expired; one of another issuer is refused; expiry is
/// looked at first.
pub open spec fn checked(claim: ClaimData, issuer: Seq<char>, now: int) -> Result<
    ClaimData,
    IdentityError,
> {
    if now > claim.exp {
        Err(IdentityError::SignatureHasExpired)
    } else if claim.iss != issuer {
        Err(IdentityError::IssuerIsInvalid)
    } else {
        Ok(claim)
    }
}

/// What decoding a token at the time `now` answers. Exactly one of the four
/// errors, or the claim.
pub open spec fn decoded(token: Seq<char>, settings: ClaimSettings, now: int) -> Result<
    ClaimData,
    IdentityError,
> {
    if token.len() == 0 {
        Err(IdentityError::TokenIsEmpty)
    } else {
        match jwt_decoded(token, settings.secret) {
            None => Err(IdentityError::TokenIsInvalid),
            Some(c) => checked(c, settings.issuer, now),
        }
    }
}

/// The user that a token stands for at the time `now`: the record under the
/// subject of its claim.
pub open spec fn resolved(
    token: Seq<char>,
    users: Seq<UserRecord>,
    settings: ClaimSettings,
    now: int,
) -> Result<UserRecord, IdentityError> {
    match decoded(token, settings, now) {
        Err(e) => Err(e),
        Ok(c) => match found_by_id(users, c.sub) {
            Some(u) => Ok(u),
            None => Err(IdentityError::UserNotFound),
        },
    }
}

impl Claim {
    /// Issues a claim to `subject` at the time `now` for `ttl` seconds. A
    /// claim needs a subject.
    pub fn issue(subject: &str, issuer: &str, ttl: i64, now: i64) -> (r: Result<Claim, IdentityError>)
        requires
            i64::MIN <= now + ttl <= i64::MAX,
        ensures
            claim_result(r) == issued(subject@, issuer@, ttl as int, now as int),
    {
        if subject.is_empty() {
            return Err(IdentityError::SubjectOfTokenIsEmpty);
        }
        Ok(Claim { sub: subject.to_owned(), iss: issuer.to_owned(), exp: now + ttl, iat: now })
    }

    /// Issues a session claim to `subject`, from now on for the configured
    /// lifetime of a session.
    pub fn new_read_write_claim(subject: &str, config: &ClaimConfig) -> (r: Result<
        Claim,
        IdentityError,
    >)
        ensures
            exists|now: int| is_clock_time(now) && claim_result(r) == #[trigger] issued(
                subject@,
                config@.issuer,
                config@.expiration,
                now,
            ),
    {
        let now = now_seconds();
        Claim::issue(subject, config.get_issuer(), config.get_expiration(), now)
    }

    /// Issues a claim for changing the password to `subject`, from now on for
    /// the lifetime configured for such claims.
    pub fn new_change_password_claim(subject: &str, config: &ClaimConfig) -> (r: Result<
        Claim,
        IdentityError,
    >)
        ensures
            exists|now: int| is_clock_time(now) && claim_result(r) == #[trigger] issued(
                subject@,
                config@.issuer,
                config@.expiration_change_pwd,
                now,
            ),
    {
        let now = now_seconds();
        Claim::issue(subject, config.get_issuer(), config.get_expiration_change_pwd(), now)
    }

    /// Signs the claim with the configured secret and returns the token.
    pub fn token_from_user(&self, config: &ClaimConfig) -> (r: Result<String, IdentityError>)
        ensures
            crate::credential::text_result(r) == match jwt_encoded(self@, config@.secret) {
                Some(t) => Ok::<Seq<char>, IdentityError>(t),
                None => Err::<Seq<char>, IdentityError>(IdentityError::TokenCannotBeMadeFromClaim),
            },
    {
        match jwt_encode(self, config.get_secret()) {
            Ok(token) => Ok(token),
            Err(_) => Err(IdentityError::TokenCannotBeMadeFromClaim),
        }
    }

    /// Checks the claim at the time `now` against the issuer `issuer`.
    pub fn check(self, issuer: &str, now: i64) -> (r: Result<Claim, IdentityError>)
        ensures
            claim_result(r) == checked(self@, issuer@, now as int),
    {
        if now > self.exp {
            return Err(IdentityError::SignatureHasExpired);
        }
        if !same_text(self.iss.as_str(), issuer) {
            return Err(IdentityError::IssuerIsInvalid);
        }
        Ok(self)
    }

    /// Decodes a token at the time `now`: reads the claim out of it and
    /// checks signature, expiry and issuer. A token that was made of a claim
    /// under the configured secret gives that claim back as long as the
    /// claim is good.
    pub fn decode_token_at(token: &str, config: &ClaimConfig, now: i64) -> (r: Result<
        Claim,
        IdentityError,
    >)
        ensures
            claim_result(r) == decoded(token@, config@, now as int),
            forall|c: Claim|
                token@.len() > 0 && #[trigger] is_token_of(token@, c@, config@.secret)
                    ==> claim_result(r) == checked(c@, config@.issuer, now as int),
    {
        if token.is_empty() {
            return Err(IdentityError::TokenIsEmpty);
        }
        match jwt_decode(token, config.get_secret()) {
            Some(claim) => claim.check(config.get_issuer(), now),
            None => Err(IdentityError::TokenIsInvalid),
        }
    }

    /// Decodes a token now.
    pub fn decode_token(token: &str, config: &ClaimConfig) -> (r: Result<Claim, IdentityError>)
        ensures
            exists|now: int| is_clock_time(now) && claim_result(r) == #[trigger] decoded(
                token@,
                config@,
                now,
            ),
    {
        let now = now_seconds();
        Claim::decode_token_at(token, config, now)
    }

    /// Decodes the token that a request carries, at the time `now`.
    pub fn decode_token_viewmodel_at<T: TokenContainerTrait>(
        token: &T,
        config: &ClaimConfig,
        now: i64,
    ) -> (r: Result<Claim, IdentityError>)
        ensures
            claim_result(r) == decoded(token.token_text(), config@, now as int),
    {
        Claim::decode_token_at(token.get_token(), config, now)
    }

    /// Decodes the token that a request carries, now.
    pub fn decode_token_viewmodel<T: TokenContainerTrait>(token: &T, config: &ClaimConfig) -> (r:
        Result<Claim, IdentityError>)
        ensures
            exists|now: int| is_clock_time(now) && claim_result(r) == #[trigger] decoded(
                token.token_text(),
                config@,
                now,
            ),
    {
        Claim::decode_token(token.get_token(), config)
    }

    /// The user that a token stands for at the time `now`: the token is
    /// decoded, and the record under its subject looked up.
    pub fn token_to_user_at(token: &str, db: &UserStore, config: &ClaimConfig, now: i64) -> (r:
        Result<IdentityUser, IdentityError>)
        ensures
            user_result(r) == resolved(token@, db@, config@, now as int),
    {
        match Claim::decode_token_at(token, config, now) {
            Ok(claim) => match db.get_user_by_uuid(claim.sub.as_str()) {
                Some(user) => Ok(user),
                None => Err(IdentityError::UserNotFound),
            },
            Err(e) => Err(e),
        }
    }

    /// The user that a token stands for now.
    pub fn token_to_user(token: &str, db: &UserStore, config: &ClaimConfig) -> (r: Result<
        IdentityUser,
        IdentityError,
    >)
        ensures
            exists|now: int| is_clock_time(now) && user_result(r) == #[trigger] resolved(
                token@,
                db@,
                config@,
                now,
            ),
    {
        let now = now_seconds();
        Claim::token_to_user_at(token, db, config, now)
    }
}

/// A claim is good from the moment it is issued until its lifetime is over:
/// checked at any time from `now` to `now + ttl` against the issuer that
/// made it, the claim issued to `subject` at `now` comes back as it is, with
/// that subject.
pub proof fn lemma_issued_claim_is_good(
    subject: Seq<char>,
    issuer: Seq<char>,
    ttl: int,
    now: int,
    later: int,
)
    requires
        subject.len() > 0,
        now <= later <= now + ttl,
    ensures
        issued(subject, issuer, ttl, now) matches Ok(c) && c.sub == subject && checked(
            c,
            issuer,
            later,
        ) == Ok::<ClaimData, IdentityError>(c),
{
}

/// Expiry is sharp: a claim of the right issuer is good up to and at the
/// second of its end, and has expired from the next second on.
pub proof fn lemma_expiry_boundary(claim: ClaimData, issuer: Seq<char>, now: int)
    requires
        claim.iss == issuer,
    ensures
        now <= claim.exp ==> checked(claim, issuer, now) == Ok::<ClaimData, IdentityError>(claim),
        now > claim.exp ==> checked(claim, issuer, now) == Err::<ClaimData, IdentityError>(
            IdentityError::SignatureHasExpired,
        ),
        checked(claim, issuer, claim.exp) == Ok::<ClaimData, IdentityError>(claim),
        checked(claim, issuer, claim.exp + 1) == Err::<ClaimData, IdentityError>(
            IdentityError::SignatureHasExpired,
        ),
{
}

/// The same for tokens: a token that holds a claim of the configured issuer
/// decodes to that claim up to and at the second of the claim's end, and
/// fails as expired from the next second on.
pub proof fn lemma_decode_boundary(token: Seq<char>, settings: ClaimSettings, claim: ClaimData)
    requires
        token.len() > 0,
        jwt_decoded(token, settings.secret) == Some(claim),
        claim.iss == settings.issuer,
    ensures
        forall|now: int|
            now <= claim.exp ==> #[trigger] decoded(token, settings, now) == Ok::<
                ClaimData,
                IdentityError,
            >(claim),
        forall|now: int|
            now > claim.exp ==> #[trigger] decoded(token, settings, now) == Err::<
                ClaimData,
                IdentityError,
            >(IdentityError::SignatureHasExpired),
{
}

} // verus!
