//! Access tokens (HS256 JSON Web Tokens) and refresh tokens (opaque,
//! stored as keyed hashes in their session).
use crate::claims_text::{claims_json, claims_text};
use crate::crypto::{is_opaque_token, token_digest, TokenHandler};
use crate::errors::{SessionRepositoryError, TokenError};
use crate::instant::{is_instant, is_span, now_utc, NANOS_PER_DAY};
use crate::model::{session_is_live, Claims, Session};
use vstd::prelude::*;

verus! {

/// The token `jsonwebtoken::encode` writes for the header
/// `{"typ":"JWT","alg":"HS256"}` and the given JSON claims text, signed with
/// HMAC-SHA256 under `secret`; `None` where the text is not JSON.
pub uninterp spec fn hs256_jwt(claims_json: Seq<char>, secret: Seq<u8>) -> Option<Seq<char>>;

/// The characters JSON counts as white space.
pub open spec fn is_json_white_space(c: char) -> bool {
    c == ' ' || c == '\t' || c == '\n' || c == '\r'
}

/// The text neither starts nor ends with JSON white space.
pub open spec fn no_outer_json_white_space(s: Seq<char>) -> bool {
    s.len() > 0 ==> !is_json_white_space(s[0]) && !is_json_white_space(s.last())
}

/// `jsonwebtoken::encode` with an HS256 header of type `JWT`, the claims
/// text taken verbatim as JSON (`serde_json::value::RawValue`), and
/// `EncodingKey::from_secret`. The token carries the claims text as its
/// payload (`RawValue` keeps a text without outer white space as it is), and
/// its signature verifies under the same secret, so `jsonwebtoken::decode`
/// reads that text back.
#[verifier::external_body]
fn encode_hs256(claims_json: &str, secret: &[u8]) -> (r: Option<String>)
    ensures
        match r {
            Some(t) => hs256_jwt(claims_json@, secret@) == Some(t@),
            None => hs256_jwt(claims_json@, secret@) is None,
        },
        r matches Some(t) ==> (no_outer_json_white_space(claims_json@) ==> hs256_claims_text(
            t@,
            secret@,
        ) == Some(claims_json@)),
{
    let mut header = jsonwebtoken::Header::new(jsonwebtoken::Algorithm::HS256);
    header.typ = Some("JWT".to_string());
    let claims = serde_json::value::RawValue::from_string(claims_json.to_string()).ok()?;
    let key = jsonwebtoken::EncodingKey::from_secret(secret);
    jsonwebtoken::encode(&header, &claims, &key).ok()
}

/// The claims JSON text an HS256 token carries, where its signature
/// verifies under `secret` and its payload is JSON; `None` otherwise.
pub uninterp spec fn hs256_claims_text(token: Seq<char>, secret: Seq<u8>) -> Option<Seq<char>>;

/// `jsonwebtoken::decode` with `DecodingKey::from_secret` and
/// `Validation::new(Algorithm::HS256)`, giving the claims as JSON text.
/// Whether it succeeds also depends on the clock (the expiry is checked
/// against the current time) and on the validation of the other claims,
/// so when it fails is not stated; what it gives when it succeeds is the
/// token's claims text, which depends on the token and the secret alone.
#[verifier::external_body]
fn decode_hs256(token: &str, secret: &[u8]) -> (r: Option<String>)
    ensures
        r matches Some(t) ==> hs256_claims_text(token@, secret@) == Some(t@),
{
    let validation = jsonwebtoken::Validation::new(jsonwebtoken::Algorithm::HS256);
    let key = jsonwebtoken::DecodingKey::from_secret(secret);
    let data = jsonwebtoken::decode::<Box<serde_json::value::RawValue>>(token, &key, &validation);
    data.ok().map(|d| d.claims.get().to_string())
}

/// How long after its creation a session may at most be kept alive by
/// refreshing: 90 days.
pub const SESSION_ABSOLUTE_LIFETIME: i128 = 90 * NANOS_PER_DAY;

/// The expiry a refresh gives a session: `now + duration`, but never later
/// than 90 days after the session was created.
pub open spec fn refreshed_expiry(created_at: int, now: int, duration: int) -> int {
    let candidate = now + duration;
    let cap = created_at + SESSION_ABSOLUTE_LIFETIME;
    if candidate <= cap {
        candidate
    } else {
        cap
    }
}

/// The outcome `r` of rotating `session` is the one the instant `now` gives:
/// refused exactly when the session is no longer live at `now`, and otherwise
/// expiring at `refreshed_expiry` of `now`.
pub open spec fn rotated_at<E>(
    session: Session,
    r: Result<RotatedRefreshToken, E>,
    duration: int,
    now: int,
) -> bool {
    &&& is_instant(now)
    &&& (r is Err <==> !session_is_live(session, now))
    &&& (r matches Ok(rt) ==> rt.session.expires_at == refreshed_expiry(
        session.created_at as int,
        now,
        duration,
    ))
}

/// Claims made now for `sub` and its session `sid`: issued by `iss` for
/// `aud`, at an instant the clock can show, expiring `expires_in`
/// nanoseconds later, not marking an administrator.
pub open spec fn fresh_claims(
    c: Claims,
    iss: String,
    sub: u128,
    sid: u128,
    aud: String,
    expires_in: i128,
) -> bool {
    &&& c.iss == iss
    &&& c.sub == sub
    &&& c.sid == sid
    &&& c.aud == aud
    &&& is_instant(c.iat as int)
    &&& c.exp == c.iat + expires_in
    &&& !c.is_admin
}

/// `r` is the outcome of signing the claims `c` under `secret`: the token
/// `jsonwebtoken` writes for their `claims_text`, which reads back as that
/// text; an error where it writes none.
pub open spec fn signed_as<E>(r: Result<(String, Claims), E>, c: Claims, secret: Seq<u8>) -> bool {
    match hs256_jwt(claims_text(c), secret) {
        Some(t) => r matches Ok((token, claims)) && token@ == t && claims == c && hs256_claims_text(
            t,
            secret,
        ) == Some(claims_text(c)),
        None => r is Err,
    }
}

/// The claims text starts with `{` and ends with `}`.
pub proof fn lemma_claims_text_has_no_outer_white_space(c: Claims)
    ensures
        no_outer_json_white_space(claims_text(c)),
        claims_text(c)[0] == '{',
        claims_text(c).last() == '}',
{
    reveal_strlit("{\"jti\":");
    reveal_strlit("}");
    let t = claims_text(c);
    let head = "{\"jti\":"@;
    assert(t[0] == head[0]);
    assert(t.last() == "}"@[0]);
}

/// A session and the new refresh token that now opens it.
pub struct RotatedRefreshToken {
    pub session: Session,
    pub refresh_token: String,
}

/// Issues and checks tokens.
pub struct TokenService {}

impl TokenService {
    pub fn new() -> (s: TokenService) {
        TokenService {  }
    }

    /// Signs the JSON text of access-token claims into an HS256 JWT.
    pub fn sign_claims_text(&self, claims_json: &str, secret: &[u8]) -> (r: Result<
        String,
        TokenError,
    >)
        ensures
            match hs256_jwt(claims_json@, secret@) {
                Some(t) => r matches Ok(s) && s@ == t,
                None => r matches Err(TokenError::Unexpected(m)) && m@
                    == "Access Token couldn't be generated"@,
            },
            r matches Ok(t) ==> (no_outer_json_white_space(claims_json@) ==> hs256_claims_text(
                t@,
                secret@,
            ) == Some(claims_json@)),
    {
        match encode_hs256(claims_json, secret) {
            Some(t) => Ok(t),
            None => Err(TokenError::Unexpected("Access Token couldn't be generated")),
        }
    }

    /// Fresh claims for `sub` and its session `sid`, issued now and expiring
    /// `expires_in` nanoseconds later, and the HS256 JWT that carries them
    /// as `claims_text`, signed under `secret`.
    pub fn generate_access_token(
        &self,
        iss: String,
        sub: u128,
        aud: String,
        sid: u128,
        expires_in: i128,
        secret: &[u8],
    ) -> (r: Result<(String, Claims), TokenError>)
        requires
            is_span(expires_in as int),
        ensures
            exists|c: Claims|
                #[trigger] fresh_claims(c, iss, sub, sid, aud, expires_in) && signed_as(
                    r,
                    c,
                    secret@,
                ),
    {
        let claims = Claims::new(iss, sub, sid, aud, expires_in);
        let text = claims_json(&claims);
        proof {
            lemma_claims_text_has_no_outer_white_space(claims);
        }
        let r = match self.sign_claims_text(text.as_str(), secret) {
            Ok(t) => Ok((t, claims)),
            Err(e) => Err(e),
        };
        assert(fresh_claims(claims, iss, sub, sid, aud, expires_in) && signed_as(r, claims, secret@));
        r
    }

    /// A fresh refresh token: an opaque string of 32 random bytes.
    pub fn generate_refresh_token(&self) -> (t: String)
        ensures
            is_opaque_token(t@),
    {
        TokenHandler::generate_token()
    }

    /// Checks an access token's signature and expiry and gives its claims
    /// as JSON text; a token that does not pass is invalid.
    pub fn decode_access_token(&self, token: &str, secret: &[u8]) -> (r: Result<String, TokenError>)
        ensures
            r matches Ok(t) ==> hs256_claims_text(token@, secret@) == Some(t@),
            r matches Err(e) ==> e matches TokenError::InvalidToken(m) && m@
                == "Access Token is invalid"@,
    {
        match decode_hs256(token, secret) {
            Some(json) => Ok(json),
            None => Err(TokenError::InvalidToken("Access Token is invalid".to_string())),
        }
    }

    /// Accepts decoded claims only while the session they name (looked up
    /// by their `sid`) exists, is not revoked and has not expired at `now`.
    pub fn verify_access_token(
        &self,
        claims: Claims,
        session: Result<Option<Session>, SessionRepositoryError>,
        now: i128,
    ) -> (r: Result<Claims, TokenError>)
        ensures
            match session {
                Err(_) => r matches Err(TokenError::Unexpected(m)) && m@
                    == "Session Repository Error"@,
                Ok(None) => r matches Err(TokenError::InvalidToken(m)) && m@
                    == "Access Token Invalid"@,
                Ok(Some(s)) => if session_is_live(s, now as int) {
                    r == Ok::<Claims, TokenError>(claims)
                } else {
                    r matches Err(TokenError::InvalidToken(m)) && m@ == "Access Token Invalid"@
                },
            },
    {
        match session {
            Err(_) => Err(TokenError::Unexpected("Session Repository Error")),
            Ok(None) => Err(TokenError::InvalidToken("Access Token Invalid".to_string())),
            Ok(Some(s)) => {
                if s.revoked_at.is_some() || s.expires_at <= now {
                    Err(TokenError::InvalidToken("Access Token Invalid".to_string()))
                } else {
                    Ok(claims)
                }
            },
        }
    }

    /// Rotation at `now`: a revoked or expired session is refused; a live
    /// one gets the new token hash and the expiry `refreshed_expiry`, every
    /// other field unchanged.
    pub fn rotate_session(
        session: Session,
        token_hash: String,
        refresh_token_duration: i128,
        now: i128,
    ) -> (r: Result<Session, TokenError>)
        requires
            is_instant(now as int),
            is_instant(session.created_at as int),
            is_span(refresh_token_duration as int),
        ensures
            !session_is_live(session, now as int) <==> r is Err,
            r matches Err(e) ==> e matches TokenError::InvalidToken(m) && m@
                == "Refresh Token invalid"@,
            r matches Ok(s) ==> {
                &&& s.token_hash == token_hash
                &&& s.expires_at == refreshed_expiry(
                    session.created_at as int,
                    now as int,
                    refresh_token_duration as int,
                )
                &&& s.id == session.id
                &&& s.uid == session.uid
                &&& s.created_at == session.created_at
                &&& s.last_seen_at == session.last_seen_at
                &&& s.revoked_at == session.revoked_at
                &&& s.user_agent == session.user_agent
                &&& s.ip_address == session.ip_address
            },
    {
        if session.revoked_at.is_some() || session.expires_at <= now {
            return Err(TokenError::InvalidToken("Refresh Token invalid".to_string()));
        }
        let candidate = now + refresh_token_duration;
        let absolute_cap = session.created_at + SESSION_ABSOLUTE_LIFETIME;
        let new_expires_at = if candidate <= absolute_cap {
            candidate
        } else {
            absolute_cap
        };
        let mut new_session = session;
        new_session.token_hash = token_hash;
        new_session.expires_at = new_expires_at;
        Ok(new_session)
    }

    /// Rotates the refresh token of a session: a new opaque token, its keyed
    /// hash stored in the session, and a new expiry (see `rotate_session`,
    /// applied at the current time).
    pub fn rotate_refresh_token(
        &self,
        session: Session,
        secret: &[u8],
        refresh_token_duration: i128,
    ) -> (r: Result<RotatedRefreshToken, TokenError>)
        requires
            is_instant(session.created_at as int),
            is_span(refresh_token_duration as int),
        ensures
            exists|now: int| #[trigger] rotated_at(session, r, refresh_token_duration as int, now),
            r matches Err(e) ==> e matches TokenError::InvalidToken(m) && m@
                == "Refresh Token invalid"@,
            r matches Ok(rt) ==> {
                &&& is_opaque_token(rt.refresh_token@)
                &&& rt.session.token_hash@ == token_digest(rt.refresh_token@, secret@)
                &&& rt.session.id == session.id
                &&& rt.session.uid == session.uid
                &&& rt.session.created_at == session.created_at
                &&& rt.session.last_seen_at == session.last_seen_at
                &&& rt.session.revoked_at == session.revoked_at
                &&& rt.session.user_agent == session.user_agent
                &&& rt.session.ip_address == session.ip_address
            },
    {
        let now = now_utc();
        let refresh_token = self.generate_refresh_token();
        let token_hash = TokenHandler::hash_token(refresh_token.as_str(), secret);
        let r = match TokenService::rotate_session(session, token_hash, refresh_token_duration, now) {
            Ok(s) => Ok(RotatedRefreshToken { session: s, refresh_token }),
            Err(e) => Err(e),
        };
        assert(rotated_at(session, r, refresh_token_duration as int, now as int));
        r
    }
}

/// However often a session is refreshed, it never expires later than 90
/// days after its creation: a rotation keeps the creation time and caps the
/// new expiry there.
pub proof fn law_rotation_respects_absolute_lifetime(created_at: int, now: int, duration: int)
    ensures
        refreshed_expiry(created_at, now, duration) <= created_at + SESSION_ABSOLUTE_LIFETIME,
        refreshed_expiry(created_at, now, duration) <= now + duration,
{
}

} // verus!
