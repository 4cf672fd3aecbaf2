//! Token round trips and the secret check.

use sip_gateway::address_book::storage::AddressBookStorage;
use sip_gateway::protocol::address_book::AppId;
use sip_gateway::protocol::address_book::AppInfo;
use sip_gateway::protocol::notify::NotifyIdentify;
use sip_gateway::protocol::CallDirection;
use sip_gateway::protocol::InternalCallId;
use sip_gateway::protocol::token::CreateNotifyTokenRequest;
use sip_gateway::protocol::token::TokenApiError;
use sip_gateway::protocol::CallApiError;
use sip_gateway::secure::authorize_call_token;
use sip_gateway::secure::authorize_secret;
use sip_gateway::secure::CallToken;
use sip_gateway::secure::SecureContext;

#[test]
fn test_token_encoding_decoding() {
    let secret = "my_secret";
    let _storage = AddressBookStorage::new(secret);
    let context = SecureContext::new(secret);

    let call_token = CallToken {
        direction: CallDirection::Outgoing,
        call_id: InternalCallId::random(),
    };
    let encoded_token = context.encode_call_token(call_token.clone(), 100);
    let decoded_token = context.decode_call_token(&encoded_token).unwrap();
    assert_eq!(decoded_token, call_token);

    let notify_token = NotifyIdentify {
        app: AppId::new("app1".to_owned()),
        client: "client1".to_owned(),
    };
    let encoded_token = context.encode_notify_token(notify_token.clone(), 100);
    let decoded_token = context.decode_notify_token(&encoded_token).unwrap();
    assert_eq!(decoded_token, notify_token);
}

#[test]
fn call_token_expired_is_rejected() {
    let context = SecureContext::new("my_secret");
    let call_token = CallToken {
        direction: CallDirection::Outgoing,
        call_id: InternalCallId::random(),
    };
    // A zero-lifetime token expires at the moment it is minted.
    let encoded_token = context.encode_call_token(call_token, 0);
    assert_eq!(context.decode_call_token(&encoded_token), None);
}

#[test]
fn call_token_wrong_key_is_rejected() {
    let context = SecureContext::new("my_secret");
    let other = SecureContext::new("other_secret");
    let call_token = CallToken {
        direction: CallDirection::Incoming,
        call_id: InternalCallId::random(),
    };
    let encoded_token = context.encode_call_token(call_token, 100);
    assert_eq!(other.decode_call_token(&encoded_token), None);
}

#[test]
fn call_token_wrong_issuer_is_rejected() {
    let context = SecureContext::new("my_secret");
    let notify_token = NotifyIdentify {
        app: AppId::new("app1".to_owned()),
        client: "client1".to_owned(),
    };
    let encoded = context.encode_notify_token(notify_token, 100);
    // A notify token does not authorize call APIs.
    assert_eq!(context.decode_call_token(&encoded), None);
}

#[test]
fn check_secret_finds_root_and_apps() {
    let mut storage = AddressBookStorage::new("root_secret");
    let context = SecureContext::new("root_secret");
    storage.sync_apps(vec![
        AppInfo { app_id: "app1".to_owned(), app_secret: "s1".to_owned() },
        AppInfo { app_id: "app2".to_owned(), app_secret: "s2".to_owned() },
    ]);
    let root = context.check_secret(&storage, "root_secret").unwrap();
    assert_eq!(root.as_str(), "");
    let app = context.check_secret(&storage, "s2").unwrap();
    assert_eq!(app.as_str(), "app2");
    assert!(context.check_secret(&storage, "nope").is_none());
}

#[test]
fn call_api_authorization_matches_token_to_path() {
    let context = SecureContext::new("my_secret");
    let call_id = InternalCallId::random();
    let token = CallToken { direction: CallDirection::Incoming, call_id: call_id.clone() };
    let encoded = context.encode_call_token(token, 100);

    let decoded = context.decode_call_token(&encoded);
    let allowed = authorize_call_token(decoded, call_id.as_str()).unwrap();
    assert!(allowed.call_id.same_as(&call_id));

    let decoded = context.decode_call_token(&encoded);
    assert_eq!(
        authorize_call_token(decoded, "somebody-else"),
        Err(CallApiError::WrongToken)
    );
    assert_eq!(
        authorize_call_token(None, call_id.as_str()),
        Err(CallApiError::WrongToken)
    );
}

#[test]
fn bearer_secret_rule_maps_unknown_to_wrong_secret() {
    let storage = AddressBookStorage::new("root_secret");
    let context = SecureContext::new("root_secret");
    assert!(authorize_secret(context.check_secret(&storage, "root_secret")).is_ok());
    assert_eq!(
        authorize_secret(context.check_secret(&storage, "nope")),
        Err(CallApiError::WrongSecret)
    );
}

#[test]
fn notify_tokens_are_minted_for_known_secrets_only() {
    let storage = AddressBookStorage::new("root_secret");
    let context = SecureContext::new("root_secret");
    let minted = context
        .create_notify_token(
            &storage,
            "root_secret",
            CreateNotifyTokenRequest { client_id: "client1".to_owned(), ttl: 100 },
        )
        .unwrap();
    let identity = context.decode_notify_token(&minted.token).unwrap();
    assert_eq!(identity.client, "client1");

    let refused = context.create_notify_token(
        &storage,
        "nope",
        CreateNotifyTokenRequest { client_id: "client1".to_owned(), ttl: 100 },
    );
    assert_eq!(refused.unwrap_err(), TokenApiError::WrongSecret);
}
