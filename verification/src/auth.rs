//! Credentials: the principal a bearer token stands for, and the secret that
//! signs and verifies tokens.
//!
//! A token is a JSON Web Token signed with HMAC-SHA256, made and checked by
//! the `jwt` crate. It carries one claim, `username`, and never expires: it
//! holds until the secret changes.

use hmac::{Hmac, Mac};
use jwt::{SignWithKey, VerifyWithKey};
use sha2::Sha256;
use std::collections::BTreeMap;
use vstd::prelude::*;
use vstd::slice::slice_to_vec;

verus! {

/// The token that the `jwt` crate issues under `secret` for the single claim
/// `name: value`, or nothing where it issues none.
pub uninterp spec fn signed_token(secret: Seq<u8>, name: Seq<char>, value: Seq<char>) -> Option<
    Seq<char>,
>;

/// The claims that the `jwt` crate reads from `token` once it has verified
/// the token under `secret`, or nothing where it rejects the token.
pub uninterp spec fn verified_claims(secret: Seq<u8>, token: Seq<char>) -> Option<
    Seq<(Seq<char>, Seq<char>)>,
>;

/// Calls `SignWithKey::sign_with_key` of the `jwt` crate on a map with the
/// one entry `name: value`, with an HMAC-SHA256 key made from `secret` by
/// `Mac::new_from_slice`. Whether a token comes back, and which, depends on
/// the three arguments alone.
#[verifier::external_body]
fn sign_claim(secret: &[u8], name: &str, value: &str) -> (signed: Option<String>)
    ensures
        match signed {
            Some(token) => signed_token(secret@, name@, value@) == Some(token@),
            None => signed_token(secret@, name@, value@) is None,
        },
{
    let key: Hmac<Sha256> = Hmac::new_from_slice(secret).ok()?;
    BTreeMap::from([(name, value)]).sign_with_key(&key).ok()
}

/// Calls `VerifyWithKey::verify_with_key` of the `jwt` crate on the token,
/// with an HMAC-SHA256 key made from `secret` by `Mac::new_from_slice`, and
/// hands out the claims of a verified token as pairs. Whether the token is
/// accepted, and with which claims, depends on the two arguments alone.
#[verifier::external_body]
fn verify_claims(secret: &[u8], token: &str) -> (verified: Option<Vec<(String, String)>>)
    ensures
        match verified {
            Some(claims) => verified_claims(secret@, token@) == Some(claims_view(claims@)),
            None => verified_claims(secret@, token@) is None,
        },
{
    let key: Hmac<Sha256> = Hmac::new_from_slice(secret).ok()?;
    let claims: BTreeMap<String, String> = token.verify_with_key(&key).ok()?;
    Some(claims.into_iter().collect())
}

/// Mathematical value of a run of claims.
pub open spec fn claims_view(claims: Seq<(String, String)>) -> Seq<(Seq<char>, Seq<char>)> {
    claims.map_values(|claim: (String, String)| (claim.0@, claim.1@))
}

/// The value of the first claim called `name`.
pub open spec fn claim(claims: Seq<(Seq<char>, Seq<char>)>, name: Seq<char>) -> Option<Seq<char>>
    decreases claims.len(),
{
    if claims.len() == 0 {
        None
    } else if claims[0].0 == name {
        Some(claims[0].1)
    } else {
        claim(claims.drop_first(), name)
    }
}

/// The username that a verification outcome stands for.
pub open spec fn claimed_username(verified: Option<Seq<(Seq<char>, Seq<char>)>>) -> Option<
    Seq<char>,
> {
    match verified {
        Some(claims) => claim(claims, "username"@),
        None => None,
    }
}

/// The secret shared by signing and verification.
#[derive(Debug, PartialEq, Eq)]
pub struct ServerKey {
    pub secret: Vec<u8>,
}

impl View for ServerKey {
    type V = Seq<u8>;

    open spec fn view(&self) -> Seq<u8> {
        self.secret@
    }
}

impl Clone for ServerKey {
    fn clone(&self) -> (copy: Self)
        ensures
            copy@ == self@,
    {
        ServerKey { secret: self.secret.clone() }
    }
}

impl ServerKey {
    /// The key for a secret. Every secret is accepted, whatever its length.
    pub fn new(secret: &[u8]) -> (key: ServerKey)
        ensures
            key@ == secret@,
    {
        ServerKey { secret: slice_to_vec(secret) }
    }
}

/// A token could not be issued.
#[derive(Debug, PartialEq, Eq, Clone, Copy)]
pub struct SigningError;

/// An authenticated principal.
#[derive(Debug, PartialEq, Eq)]
pub struct AuthUser {
    pub username: String,
}

impl AuthUser {
    /// The token for this principal under `secret`.
    pub open spec fn token(&self, secret: Seq<u8>) -> Option<Seq<char>> {
        signed_token(secret, "username"@, self.username@)
    }

    /// Issues the bearer token for this principal.
    pub fn sign_with_key(&self, key: &ServerKey) -> (issued: Result<String, SigningError>)
        ensures
            match issued {
                Ok(token) => self.token(key@) == Some(token@),
                Err(_) => self.token(key@) is None,
            },
    {
        match sign_claim(key.secret.as_slice(), "username", self.username.as_str()) {
            Some(token) => Ok(token),
            None => Err(SigningError),
        }
    }

    /// The principal named by the claims of a verified token: the value of
    /// the first claim called `username`.
    pub fn from_claims(claims: &Vec<(String, String)>) -> (user: Option<AuthUser>)
        ensures
            match user {
                Some(user) => claim(claims_view(claims@), "username"@) == Some(user.username@),
                None => claim(claims_view(claims@), "username"@) is None,
            },
    {
        let name = "username".to_owned();
        let ghost all = claims_view(claims@);
        let mut i: usize = 0;
        assert(all.skip(0) =~= all);
        while i < claims.len()
            invariant
                i <= claims.len(),
                all == claims_view(claims@),
                name@ == "username"@,
                claim(all, name@) == claim(all.skip(i as int), name@),
            decreases claims.len() - i,
        {
            assert(all.skip(i as int).drop_first() =~= all.skip(i as int + 1));
            if claims[i].0 == name {
                return Some(AuthUser { username: claims[i].1.clone() });
            }
            i += 1;
        }
        None
    }
}

/// Re-derives the principal from a bearer token. Any failure, be it a
/// malformed token, a signature made under another secret or claims without
/// a username, gives the same answer: nobody.
pub fn verify_token(server_key: &ServerKey, token: &str) -> (user: Option<AuthUser>)
    ensures
        match user {
            Some(user) => claimed_username(verified_claims(server_key@, token@)) == Some(
                user.username@,
            ),
            None => claimed_username(verified_claims(server_key@, token@)) is None,
        },
{
    match verify_claims(server_key.secret.as_slice(), token) {
        Some(claims) => AuthUser::from_claims(&claims),
        None => None,
    }
}

/// Proof that a request came with a valid bearer token. The operations that
/// change the store ask for one.
#[derive(Debug, PartialEq, Eq)]
pub struct Authenticate(pub AuthUser);

impl Authenticate {
    /// Admits the bearer of a valid token; a request without a token, or with
    /// one that does not verify, is not admitted.
    pub fn check(server_key: &ServerKey, bearer: Option<&str>) -> (admitted: Option<Authenticate>)
        ensures
            match admitted {
                Some(auth) => bearer is Some && claimed_username(
                    verified_claims(server_key@, bearer->0@),
                ) == Some(auth.0.username@),
                None => bearer is None || claimed_username(
                    verified_claims(server_key@, bearer->0@),
                ) is None,
            },
    {
        match bearer {
            Some(token) => match verify_token(server_key, token) {
                Some(user) => Some(Authenticate(user)),
                None => None,
            },
            None => None,
        }
    }
}

} // verus!
