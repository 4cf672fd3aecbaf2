//! Signed capabilities: the per-call token and the notify token. Tokens
//! are JWTs signed with the gateway-wide symmetric secret; a valid token
//! carries the right issuer, an expiry that has not passed, and the
//! claims it was minted with.

use vstd::prelude::*;
use vstd::string::StringSliceAdditionalSpecFns;

use jwt_simple::algorithms::HS256Key;
use jwt_simple::claims::Claims;
use jwt_simple::common::VerificationOptions;
use jwt_simple::prelude::Duration;
use jwt_simple::prelude::MACLike;

use crate::address_book::storage::last_app_with_secret;
use crate::address_book::storage::AddressBookStorage;
use crate::protocol::address_book::AppId;
use crate::protocol::notify::NotifyIdentify;
use crate::protocol::token::CreateNotifyTokenRequest;
use crate::protocol::token::CreateNotifyTokenResponse;
use crate::protocol::token::TokenApiError;
use crate::protocol::CallApiError;
use crate::protocol::CallDirection;
use crate::protocol::InternalCallId;

verus! {

/// The capability a per-call token carries: which call, and which side
/// of it.
#[derive(Debug, PartialEq, Eq)]
pub struct CallToken {
    pub direction: CallDirection,
    pub call_id: InternalCallId,
}

impl Clone for CallToken {
    fn clone(&self) -> (r: Self)
        ensures
            r == *self,
    {
        CallToken { direction: self.direction, call_id: self.call_id.clone() }
    }
}

/// The word a call direction is written as inside a token.
pub open spec fn direction_word(d: CallDirection) -> Seq<char> {
    match d {
        CallDirection::Outgoing => "Outgoing"@,
        CallDirection::Incoming => "Incoming"@,
    }
}

/// Renders a call direction as its token word.
pub fn direction_to_word(d: CallDirection) -> (r: &'static str)
    ensures
        r@ == direction_word(d),
{
    match d {
        CallDirection::Outgoing => "Outgoing",
        CallDirection::Incoming => "Incoming",
    }
}

/// Reads a token word back as a call direction: exactly the two words
/// are accepted.
pub fn direction_from_word(w: &str) -> (r: Option<CallDirection>)
    ensures
        w@ == direction_word(CallDirection::Outgoing) ==> r == Some(
            CallDirection::Outgoing,
        ),
        w@ == direction_word(CallDirection::Incoming) ==> r == Some(
            CallDirection::Incoming,
        ),
        (w@ != direction_word(CallDirection::Outgoing) && w@ != direction_word(
            CallDirection::Incoming,
        )) ==> r is None,
{
    let word: String = w.to_owned();
    let outgoing: String = "Outgoing".to_owned();
    let incoming: String = "Incoming".to_owned();
    proof {
        reveal_strlit("Outgoing");
        reveal_strlit("Incoming");
        assert("Outgoing"@[0] == 'O' && "Incoming"@[0] == 'I');
        assert("Outgoing"@ != "Incoming"@);
    }
    if word == outgoing {
        Some(CallDirection::Outgoing)
    } else if word == incoming {
        Some(CallDirection::Incoming)
    } else {
        None
    }
}

/// Law: the direction words round-trip: reading the written word yields
/// the direction back, for both directions.
pub proof fn lemma_direction_word_round_trip(d: CallDirection)
    ensures
        direction_word(d) == direction_word(CallDirection::Outgoing) ==> d
            == CallDirection::Outgoing,
        direction_word(d) == direction_word(CallDirection::Incoming) ==> d
            == CallDirection::Incoming,
{
    reveal_strlit("Outgoing");
    reveal_strlit("Incoming");
    assert(direction_word(CallDirection::Outgoing) != direction_word(
        CallDirection::Incoming,
    )) by {
        assert(direction_word(CallDirection::Outgoing)[0] == 'O');
        assert(direction_word(CallDirection::Incoming)[0] == 'I');
    }
}

#[verifier::external_type_specification]
#[verifier::external_body]
pub struct ExHS256Key(HS256Key);

/// Relies on jwt_simple's HS256Key::from_bytes: builds the HMAC key from
/// the secret's bytes; it accepts any byte string.
#[verifier::external_body]
fn hs256_key_from_bytes(secret: &[u8]) -> HS256Key {
    HS256Key::from_bytes(secret)
}

/// Relies on jwt_simple's Claims::with_custom_claims, with_issuer and
/// HS256Key::authenticate (HS256 JWT signing): signs a two-field claims
/// object with the given issuer and an expiry of now plus the duration.
/// Signing these claims cannot fail in practice; a failure yields None.
#[verifier::external_body]
fn jwt_sign_two_claims(
    key: &HS256Key,
    field1: &str,
    value1: &str,
    field2: &str,
    value2: &str,
    issuer: &str,
    duration_secs: u64,
) -> Option<String> {
    let mut object = serde_json::Map::new();
    object.insert(field1.to_string(), serde_json::Value::String(value1.to_string()));
    object.insert(field2.to_string(), serde_json::Value::String(value2.to_string()));
    let claims = Claims::with_custom_claims(
        serde_json::Value::Object(object),
        Duration::from_secs(duration_secs),
    ).with_issuer(issuer);
    key.authenticate(claims).ok()
}

/// Relies on jwt_simple's HS256Key::verify_token with allowed_issuers
/// (HS256 JWT verification): accepts only tokens signed with this key
/// whose issuer matches; returns the two named claim fields as strings
/// and the token's expiry in seconds since the epoch, if present.
#[verifier::external_body]
fn jwt_verify_two_claims(
    key: &HS256Key,
    token: &str,
    issuer: &str,
    field1: &str,
    field2: &str,
) -> Option<(String, String, Option<u64>)> {
    let mut options = VerificationOptions::default();
    let mut allowed = std::collections::HashSet::new();
    allowed.insert(issuer.to_string());
    options.allowed_issuers = Some(allowed);
    let claims = key.verify_token::<serde_json::Value>(token, Some(options)).ok()?;
    let object = claims.custom.as_object()?;
    let value1 = object.get(field1)?.as_str()?.to_string();
    let value2 = object.get(field2)?.as_str()?.to_string();
    let expires = claims.expires_at.map(|t| t.as_secs());
    Some((value1, value2, expires))
}

/// Relies on jwt_simple's Clock::now_since_epoch (the system clock):
/// seconds since the Unix epoch. Nothing is promised of the value.
#[verifier::external_body]
fn now_since_epoch_secs() -> u64 {
    jwt_simple::prelude::Clock::now_since_epoch().as_secs()
}

/// Reads verified call-token parts back into a capability: accepted
/// exactly when the direction word is one of the two known words and the
/// token carries an expiry that lies after `now`.
pub fn call_token_from_parts(
    call_id: String,
    direction: &str,
    expires_at: Option<u64>,
    now: u64,
) -> (r: Option<CallToken>)
    ensures
        match r {
            Some(t) => t.call_id@ == call_id@ && direction_word(t.direction) == direction@
                && (expires_at matches Some(e) && now < e),
            None => (direction@ != direction_word(CallDirection::Outgoing) && direction@
                != direction_word(CallDirection::Incoming)) || expires_at is None || (
            expires_at matches Some(e) && now >= e),
        },
{
    let d = match direction_from_word(direction) {
        Some(d) => d,
        None => {
            return None;
        },
    };
    match expires_at {
        Some(e) => {
            if now >= e {
                None
            } else {
                Some(CallToken { direction: d, call_id: InternalCallId::new(call_id) })
            }
        },
        None => None,
    }
}

/// The per-call API authorization rule: a request on call `call_id` is
/// allowed exactly when a token decoded, and the call it is bound to is
/// the call in the path; everything else is the wrong token.
pub fn authorize_call_token(decoded: Option<CallToken>, call_id: &str) -> (r: Result<
    CallToken,
    CallApiError,
>)
    ensures
        match r {
            Ok(token) => decoded == Some(token) && token.call_id@ == call_id@,
            Err(e) => e == CallApiError::WrongToken && match decoded {
                Some(token) => token.call_id@ != call_id@,
                None => true,
            },
        },
{
    match decoded {
        Some(token) => {
            let path_id = InternalCallId::new(call_id.to_owned());
            if token.call_id.same_as(&path_id) {
                Ok(token)
            } else {
                Err(CallApiError::WrongToken)
            }
        },
        None => Err(CallApiError::WrongToken),
    }
}

/// The bearer-secret rule of the call API: an unknown secret is the
/// wrong secret.
pub fn authorize_secret(checked: Option<AppId>) -> (r: Result<AppId, CallApiError>)
    ensures
        match r {
            Ok(app) => checked == Some(app),
            Err(e) => e == CallApiError::WrongSecret && checked is None,
        },
{
    match checked {
        Some(app) => Ok(app),
        None => Err(CallApiError::WrongSecret),
    }
}

/// Reads verified notify-token parts back into an identity: accepted
/// exactly when the token carries an expiry that lies after `now`.
pub fn notify_identify_from_parts(
    app: String,
    client: String,
    expires_at: Option<u64>,
    now: u64,
) -> (r: Option<NotifyIdentify>)
    ensures
        match r {
            Some(identity) => identity.app@ == app@ && identity.client@ == client@ && (
            expires_at matches Some(e) && now < e),
            None => expires_at is None || (expires_at matches Some(e) && now >= e),
        },
{
    match expires_at {
        Some(e) => {
            if now >= e {
                None
            } else {
                Some(NotifyIdentify { app: AppId::new(app), client })
            }
        },
        None => None,
    }
}

/// Holds the gateway's signing key and mints and checks its tokens.
pub struct SecureContext {
    key: HS256Key,
}

/// The signing-key bytes for a gateway secret. The JWT library refuses
/// keys shorter than twelve bytes, so shorter secrets are zero-padded up
/// to that length; longer secrets are used as they are.
fn key_bytes(secret: &str) -> (r: Vec<u8>)
    ensures
        r@.len() >= 12,
        secret.spec_bytes().len() >= 12 ==> r@ == secret.spec_bytes(),
{
    let bytes = secret.as_bytes();
    let mut key: Vec<u8> = Vec::new();
    let mut i: usize = 0;
    while i < bytes.len()
        invariant
            i <= bytes@.len(),
            key@ =~= bytes@.take(i as int),
        decreases bytes@.len() - i,
    {
        key.push(bytes[i]);
        i = i + 1;
    }
    proof {
        assert(key@ =~= bytes@);
    }
    while key.len() < 12
        invariant
            bytes@.len() >= 12 ==> key@ == bytes@,
        decreases 12 - key@.len(),
    {
        key.push(0);
    }
    key
}

impl SecureContext {
    /// A context signing with the given symmetric secret.
    pub fn new(secret: &str) -> Self {
        let bytes = key_bytes(secret);
        SecureContext { key: hs256_key_from_bytes(bytes.as_slice()) }
    }

    /// Looks the bearer secret up in the directory and returns the owning
    /// app's identifier: the root app for the root secret, else the app
    /// carrying the secret.
    pub fn check_secret(&self, address_book: &AddressBookStorage, secret: &str) -> (r:
        Option<AppId>)
        ensures
            match (
                if address_book.root_spec().app_secret@ == secret@ {
                    Some(address_book.root_spec())
                } else {
                    last_app_with_secret(address_book.apps_spec(), secret@)
                },
                r,
            ) {
                (Some(app), Some(id)) => id@ == app.app_id@,
                (None, None) => true,
                _ => false,
            },
    {
        let app = address_book.validate_app(secret)?;
        Some(AppId::new(app.app_id))
    }

    /// Mints a per-call token binding the call and its direction, valid
    /// for `duration_secs`. Signing cannot fail for these claims; the
    /// impossible failure yields an empty string, which no verification
    /// accepts.
    pub fn encode_call_token(&self, token: CallToken, duration_secs: u64) -> String {
        let direction = direction_to_word(token.direction);
        let signed = jwt_sign_two_claims(
            &self.key,
            "call_id",
            token.call_id.as_str(),
            "direction",
            direction,
            "call",
            duration_secs,
        );
        match signed {
            Some(s) => s,
            None => String::new(),
        }
    }

    /// Mints a notify token binding an app and a client id, valid for
    /// `duration_secs`.
    pub fn encode_notify_token(&self, identify: NotifyIdentify, duration_secs: u64)
        -> String {
        let signed = jwt_sign_two_claims(
            &self.key,
            "app",
            identify.app.as_str(),
            "client",
            identify.client.as_str(),
            "noti",
            duration_secs,
        );
        match signed {
            Some(s) => s,
            None => String::new(),
        }
    }

    /// The token API: a notify token for one of the app's clients is
    /// minted exactly when the bearer secret names an app; an unknown
    /// secret is the wrong secret.
    pub fn create_notify_token(
        &self,
        address_book: &AddressBookStorage,
        secret: &str,
        request: CreateNotifyTokenRequest,
    ) -> (r: Result<CreateNotifyTokenResponse, TokenApiError>)
        ensures
            ({
                let known = if address_book.root_spec().app_secret@ == secret@ {
                    Some(address_book.root_spec())
                } else {
                    last_app_with_secret(address_book.apps_spec(), secret@)
                };
                r is Ok <==> known is Some
            }),
    {
        let app_id = match self.check_secret(address_book, secret) {
            Some(app_id) => app_id,
            None => {
                return Err(TokenApiError::WrongSecret);
            },
        };
        let identify = NotifyIdentify { app: app_id, client: request.client_id };
        let token = self.encode_notify_token(identify, request.ttl);
        Ok(CreateNotifyTokenResponse { token })
    }

    /// Checks a per-call token: the signature and issuer through the JWT
    /// library, then the direction word and the expiry against the clock.
    pub fn decode_call_token(&self, token: &str) -> Option<CallToken> {
        let parts = jwt_verify_two_claims(&self.key, token, "call", "call_id", "direction");
        match parts {
            Some((call_id, direction, expires_at)) => {
                let now = now_since_epoch_secs();
                call_token_from_parts(call_id, direction.as_str(), expires_at, now)
            },
            None => None,
        }
    }

    /// Checks a notify token: the signature and issuer through the JWT
    /// library, then the expiry against the clock.
    pub fn decode_notify_token(&self, token: &str) -> Option<NotifyIdentify> {
        let parts = jwt_verify_two_claims(&self.key, token, "noti", "app", "client");
        match parts {
            Some((app, client, expires_at)) => {
                let now = now_since_epoch_secs();
                notify_identify_from_parts(app, client, expires_at, now)
            },
            None => None,
        }
    }
}

} // verus!
