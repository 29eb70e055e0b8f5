//! The signaling endpoint's decisions: who may open a session or mint a
//! token, and how a session description travels in base64.
use crate::keys::{after_create, after_redeem, is_token, redeemed, Keys, Permissions};
use crate::text::str_eq;
use base64::Engine;
use vstd::prelude::*;

verus! {

/// Why a request was refused.
#[derive(Debug, Clone, Copy, PartialEq, Eq, Structural)]
pub enum AuthError {
    PasswordIncorrect,
    /// The token is unknown, used, or expired.
    BadSession,
    NoAuthentication,
}

impl AuthError {
    /// The reason given to the client.
    pub fn message(&self) -> (r: String)
        ensures
            *self == AuthError::PasswordIncorrect ==> r@ == "Password incorrect."@,
            *self == AuthError::BadSession ==> r@ == "Bad session."@,
            *self == AuthError::NoAuthentication ==> r@ == "No authentication provided."@,
    {
        match self {
            AuthError::PasswordIncorrect => "Password incorrect.".to_owned(),
            AuthError::BadSession => "Bad session.".to_owned(),
            AuthError::NoAuthentication => "No authentication provided.".to_owned(),
        }
    }
}

/// The outcome of an offer with `password` and `key` against the
/// configured password, tokens `m` and time `now`.
pub open spec fn offer_auth(
    password: Option<Seq<char>>,
    key: Option<Seq<char>>,
    configured: Seq<char>,
    m: Map<Seq<char>, (Permissions, u64)>,
    now: u64,
) -> Result<Permissions, AuthError> {
    match password {
        Some(p) => if p == configured {
            Ok(Permissions::FullControl)
        } else {
            Err(AuthError::PasswordIncorrect)
        },
        None => match key {
            Some(k) => match redeemed(m, k, now) {
                Some(perm) => Ok(perm),
                None => Err(AuthError::BadSession),
            },
            None => Err(AuthError::NoAuthentication),
        },
    }
}

pub open spec fn opt_view(s: Option<&str>) -> Option<Seq<char>> {
    match s {
        Some(v) => Some(v@),
        None => None,
    }
}

/// Authenticates an offer. A password, if given, decides alone and grants
/// full control; otherwise a token is redeemed, once, with the permission
/// it was minted with.
pub fn authenticate_offer(
    password: Option<&str>,
    key: Option<&str>,
    configured: &str,
    keys: &mut Keys,
    now: u64,
) -> (r: Result<Permissions, AuthError>)
    requires
        old(keys).wf(),
    ensures
        final(keys).wf(),
        r == offer_auth(opt_view(password), opt_view(key), configured@, old(keys)@, now),
        password is None && key is Some ==> final(keys)@ == after_redeem(
            old(keys)@,
            key.unwrap()@,
            now,
        ),
        !(password is None && key is Some) ==> final(keys)@ == old(keys)@,
{
    match password {
        Some(p) => {
            if str_eq(p, configured) {
                Ok(Permissions::FullControl)
            } else {
                Err(AuthError::PasswordIncorrect)
            }
        },
        None => match key {
            Some(k) => match keys.use_key(k, now) {
                Some(perm) => Ok(perm),
                None => Err(AuthError::BadSession),
            },
            None => Err(AuthError::NoAuthentication),
        },
    }
}

/// Mints a token for a request with the right password: view-only if
/// asked, else full control.
pub fn issue_key(
    password: &str,
    view_only: bool,
    configured: &str,
    keys: &mut Keys,
    now: u64,
) -> (r: Result<String, AuthError>)
    requires
        old(keys).wf(),
    ensures
        final(keys).wf(),
        password@ != configured@ ==> r == Err::<String, AuthError>(AuthError::PasswordIncorrect)
            && final(keys)@ == old(keys)@,
        password@ == configured@ ==> (r matches Ok(t) && is_token(t@) && final(keys)@
            == after_create(
            old(keys)@,
            t@,
            if view_only {
                Permissions::ViewOnly
            } else {
                Permissions::FullControl
            },
            now,
        )),
{
    if str_eq(password, configured) {
        let permissions = if view_only {
            Permissions::ViewOnly
        } else {
            Permissions::FullControl
        };
        Ok(keys.create_key(permissions, now))
    } else {
        Err(AuthError::PasswordIncorrect)
    }
}

/// The padded standard base64 text of some bytes.
pub uninterp spec fn base64_text(b: Seq<u8>) -> Seq<char>;

/// The bytes that a padded standard base64 text decodes to, if it is valid.
pub uninterp spec fn base64_bytes(s: Seq<char>) -> Option<Seq<u8>>;

#[verifier::external_type_specification]
#[verifier::external_body]
pub struct ExDecodeError(base64::DecodeError);

/// Relies on base64's `STANDARD` engine `encode`: the padded base64 text
/// of the bytes, which depends on the bytes alone.
#[verifier::external_body]
fn base64_encode(b: &[u8]) -> (r: String)
    ensures
        r@ == base64_text(b@),
{
    base64::prelude::BASE64_STANDARD.encode(b)
}

/// Relies on base64's `STANDARD` engine `decode`: the decoded bytes, or an
/// error on invalid input; which one depends on the text alone.
#[verifier::external_body]
fn base64_decode(s: &str) -> (r: Result<Vec<u8>, base64::DecodeError>)
    ensures
        r matches Ok(v) ==> base64_bytes(s@) == Some(v@),
        r is Err ==> base64_bytes(s@) is None,
{
    base64::prelude::BASE64_STANDARD.decode(s)
}

/// The bytes of an offer sent in base64; `None` if the text is not valid
/// base64.
pub fn decode_offer(offer: &str) -> (r: Option<Vec<u8>>)
    ensures
        r matches Some(v) ==> base64_bytes(offer@) == Some(v@),
        r is None <==> base64_bytes(offer@) is None,
{
    match base64_decode(offer) {
        Ok(v) => Some(v),
        Err(_) => None,
    }
}

/// The base64 text in which an answer is sent back.
pub fn encode_answer(answer: &str) -> (r: String)
    ensures
        r@ == base64_text(vstd::utf8::encode_utf8(answer@)),
{
    base64_encode(answer.as_bytes())
}

} // verus!
