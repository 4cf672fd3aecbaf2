//! Directory admission: subnets, unknown numbers, owners, wholesale sync.

use sip_gateway::address_book::storage::AddressBookStorage;
use sip_gateway::protocol::address_book::AppInfo;
use sip_gateway::protocol::address_book::HookContentType;
use sip_gateway::protocol::address_book::IpAddress;
use sip_gateway::protocol::address_book::IpSubnet;
use sip_gateway::protocol::address_book::PhoneNumber;
use sip_gateway::protocol::address_book::PhoneNumberRoute;

fn v4(a: u8, b: u8, c: u8, d: u8) -> IpAddress {
    let bits = ((a as u128) << 24) | ((b as u128) << 16) | ((c as u128) << 8) | (d as u128);
    IpAddress { bits, v6: false }
}

fn number(number: &str, subnets: Vec<IpSubnet>, app_id: &str, hook: &str) -> PhoneNumber {
    PhoneNumber {
        number: number.to_owned(),
        subnets,
        auth: None,
        app_id: app_id.to_owned(),
        hook: hook.to_owned(),
        hook_content_type: HookContentType::Json,
        route: PhoneNumberRoute::Dynamic { hook: hook.to_owned() },
    }
}

fn subnet(base: IpAddress, prefix_len: u8) -> IpSubnet {
    IpSubnet { base, prefix_len }
}

#[test]
fn admits_ip_inside_subnet() {
    let mut storage = AddressBookStorage::new("root");
    storage.sync_numbers(vec![number(
        "+1555",
        vec![subnet(v4(10, 0, 0, 0), 24)],
        "",
        "http://app/hook",
    )]);
    let hit = storage.validate_phone(v4(10, 0, 0, 5), "+1999", "+1555");
    let (app, matched) = hit.unwrap();
    assert_eq!(app.app_id, "");
    assert_eq!(app.app_secret, "root");
    assert_eq!(matched.number, "+1555");
}

#[test]
fn rejects_ip_outside_every_subnet() {
    let mut storage = AddressBookStorage::new("root");
    storage.sync_numbers(vec![number(
        "+1555",
        vec![subnet(v4(10, 0, 0, 0), 24), subnet(v4(192, 168, 1, 0), 30)],
        "",
        "http://app/hook",
    )]);
    assert!(storage.validate_phone(v4(10, 0, 1, 5), "+1999", "+1555").is_none());
    assert!(storage.validate_phone(v4(192, 168, 1, 4), "+1999", "+1555").is_none());
    let hit = storage.validate_phone(v4(192, 168, 1, 3), "+1999", "+1555");
    assert!(hit.is_some());
}

#[test]
fn unknown_number_is_always_rejected() {
    let mut storage = AddressBookStorage::new("root");
    storage.sync_numbers(vec![number(
        "+1555",
        vec![subnet(v4(0, 0, 0, 0), 0)],
        "",
        "http://app/hook",
    )]);
    assert!(storage.validate_phone(v4(10, 0, 0, 5), "+1999", "+9999").is_none());
}

#[test]
fn owner_app_must_exist() {
    let mut storage = AddressBookStorage::new("root");
    storage.sync_numbers(vec![number(
        "+1555",
        vec![subnet(v4(0, 0, 0, 0), 0)],
        "missing_app",
        "http://app/hook",
    )]);
    assert!(storage.validate_phone(v4(10, 0, 0, 5), "+1999", "+1555").is_none());
    storage.sync_apps(vec![AppInfo {
        app_id: "missing_app".to_owned(),
        app_secret: "s".to_owned(),
    }]);
    let (app, _) = storage.validate_phone(v4(10, 0, 0, 5), "+1999", "+1555").unwrap();
    assert_eq!(app.app_secret, "s");
}

#[test]
fn zero_prefix_admits_same_family_only() {
    let mut storage = AddressBookStorage::new("root");
    storage.sync_numbers(vec![number(
        "+1555",
        vec![subnet(v4(0, 0, 0, 0), 0)],
        "",
        "http://app/hook",
    )]);
    assert!(storage.validate_phone(v4(203, 0, 113, 9), "+1999", "+1555").is_some());
    let v6 = IpAddress { bits: 1, v6: true };
    assert!(storage.validate_phone(v6, "+1999", "+1555").is_none());
}

#[test]
fn sync_replaces_tables_wholesale() {
    let mut storage = AddressBookStorage::new("root");
    storage.sync_numbers(vec![number(
        "+1555",
        vec![subnet(v4(0, 0, 0, 0), 0)],
        "",
        "h",
    )]);
    storage.sync_numbers(vec![number(
        "+2666",
        vec![subnet(v4(0, 0, 0, 0), 0)],
        "",
        "h",
    )]);
    assert!(storage.validate_phone(v4(1, 2, 3, 4), "x", "+1555").is_none());
    assert!(storage.validate_phone(v4(1, 2, 3, 4), "x", "+2666").is_some());
}

#[test]
fn duplicate_secrets_keep_the_last_synced_app() {
    let mut storage = AddressBookStorage::new("root");
    storage.sync_apps(vec![
        AppInfo { app_id: "first".to_owned(), app_secret: "dup".to_owned() },
        AppInfo { app_id: "second".to_owned(), app_secret: "dup".to_owned() },
    ]);
    let app = storage.validate_app("dup").unwrap();
    assert_eq!(app.app_id, "second");
}
