use tcc_launcher::account::{account_from_row_at, uuid_from_bytes, AccountKind, AccountRow};
use tcc_launcher::error::{AuthError, LauncherError};
use tcc_launcher::store::{CredentialsStore, DefaultUserWrite};

fn row(expires: i64) -> AccountRow {
    AccountRow {
        id: (1u8..=16).collect(),
        username: "Steve".to_string(),
        access_token: None,
        refresh_token: Some("r".to_string()),
        expires,
    }
}

#[test]
fn uuid_bytes_are_big_endian() {
    let bytes: Vec<u8> = (1u8..=16).collect();
    assert_eq!(uuid_from_bytes(&bytes), 0x0102030405060708090a0b0c0d0e0f10u128);
    assert_eq!(uuid_from_bytes(&vec![0xff; 16]), u128::MAX);
    assert_eq!(uuid_from_bytes(&vec![0; 16]), 0);
}

#[test]
fn row_becomes_offline_account() {
    let a = account_from_row_at(&row(1_700_000_000), 5);
    assert_eq!(a.id, 0x0102030405060708090a0b0c0d0e0f10u128);
    assert_eq!(a.username, "Steve");
    assert_eq!(a.access_token, "");
    assert_eq!(a.refresh_token, "r");
    assert_eq!(a.expires, 1_700_000_000);
    assert_eq!(a.kind, AccountKind::Offline);
}

#[test]
fn unrepresentable_expiry_falls_back_to_now() {
    let a = account_from_row_at(&row(i64::MAX), 42);
    assert_eq!(a.expires, 42);
    let b = account_from_row_at(&row(-5), 42);
    assert_eq!(b.expires, -5);
}

#[test]
fn chrono_range_bounds() {
    const MIN: i64 = -8_334_601_228_800;
    const MAX: i64 = 8_210_266_876_799;
    assert_eq!(account_from_row_at(&row(MIN), 7).expires, MIN);
    assert_eq!(account_from_row_at(&row(MIN - 1), 7).expires, 7);
    assert_eq!(account_from_row_at(&row(MAX), 7).expires, MAX);
    assert_eq!(account_from_row_at(&row(MAX + 1), 7).expires, 7);
}

#[test]
fn account_id_as_text() {
    let a = account_from_row_at(&row(0), 0);
    assert_eq!(a.id_text(), "01020304-0506-0708-090a-0b0c0d0e0f10");
    let mut b = a.clone();
    b.id = 0x67e5504410b1426f9247bb680e5fe0c8;
    assert_eq!(b.id_text(), "67e55044-10b1-426f-9247-bb680e5fe0c8");
}

#[test]
fn first_account_becomes_default() {
    let mut s = CredentialsStore::new(None);
    assert_eq!(s.add_account(7, 1), DefaultUserWrite::Upsert(7));
    assert_eq!(s.resolve_default_id(), Some(7));
    assert_eq!(s.add_account(8, 2), DefaultUserWrite::Keep);
    assert_eq!(s.resolve_default_id(), Some(7));
}

#[test]
fn removing_default_clears_it() {
    let mut s = CredentialsStore::new(Some(7));
    assert_eq!(s.remove_account(8), DefaultUserWrite::Keep);
    assert_eq!(s.resolve_default_id(), Some(7));
    assert_eq!(s.remove_account(7), DefaultUserWrite::Clear);
    assert_eq!(s.resolve_default_id(), None);
    assert_eq!(s.remove_account(7), DefaultUserWrite::Keep);
}

#[test]
fn set_default_then_read_back() {
    let mut s = CredentialsStore::new(None);
    assert_eq!(s.set_default_user(Some(3)), DefaultUserWrite::Upsert(3));
    assert_eq!(s.resolve_default_id(), Some(3));
    assert_eq!(s.set_default_user(None), DefaultUserWrite::Clear);
    assert_eq!(s.resolve_default_id(), None);
}

#[test]
fn default_user_column_is_read_as_uuid() {
    let s = CredentialsStore::load_default_user(&Some(vec![0, 0, 0, 0, 0, 0, 0, 0, 0, 0, 0, 0, 0, 0, 1, 0]));
    assert_eq!(s.resolve_default_id(), Some(256));
    assert_eq!(CredentialsStore::load_default_user(&None).resolve_default_id(), None);
}

#[test]
fn auth_errors_wrap() {
    match LauncherError::from_auth(AuthError::DataDirNotFound) {
        LauncherError::Auth(AuthError::DataDirNotFound) => {}
        other => panic!("unexpected {:?}", other),
    }
}
