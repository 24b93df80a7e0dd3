use oxidize_auth::account::{get_account, Account, AccountData};
use oxidize_auth::error::AuthError;
use oxidize_auth::instant::Instant;
use oxidize_auth::profile::MinecraftProfile;
use oxidize_auth::store::{AccountUpdate, AccountUpsert};

fn at(secs: i64, nanos: u32) -> Instant {
    Instant::new(secs, nanos).expect("a moment within range")
}

fn record(id: &str, expires_at: Instant, last_refreshed: Instant) -> AccountData {
    AccountData {
        id: id.to_string(),
        username: format!("name of {}", id),
        access_token: format!("access of {}", id),
        refresh_token: format!("refresh of {}", id),
        expires_at,
        last_refreshed,
    }
}

fn lifetime_read(expires_at: Instant, last_refreshed: Instant) -> u32 {
    get_account(Ok(Some(record("abc", expires_at, last_refreshed)))).expect("credentials").expires_in
}

#[test]
fn credentials_are_read_out_of_the_record() {
    let found = record("abc", at(1_700_003_600, 0), at(1_700_000_000, 0));
    assert_eq!(
        get_account(Ok(Some(found))),
        Ok(MinecraftProfile {
            uuid: "abc".to_string(),
            access_token: "access of abc".to_string(),
            refresh_token: "refresh of abc".to_string(),
            expires_in: 3600,
        })
    );
}

#[test]
fn the_lifetime_is_counted_from_the_making_of_the_record() {
    assert_eq!(lifetime_read(at(1_700_003_600, 0), at(1_700_000_000, 0)), 3600);
    assert_eq!(lifetime_read(at(1_700_003_600, 0), at(1_600_000_000, 0)), 100_003_600);
    assert_eq!(lifetime_read(at(5, 0), at(5, 0)), 0);
}

#[test]
fn the_lifetime_is_in_whole_seconds() {
    assert_eq!(lifetime_read(at(10, 0), at(8, 500_000_000)), 1);
    assert_eq!(lifetime_read(at(10, 499_999_999), at(8, 500_000_000)), 1);
    assert_eq!(lifetime_read(at(10, 500_000_000), at(8, 500_000_000)), 2);
    assert_eq!(lifetime_read(at(8, 999_999_999), at(8, 0)), 0);
}

#[test]
fn a_lifetime_below_zero_wraps_round() {
    assert_eq!(lifetime_read(at(99, 0), at(100, 0)), u32::MAX);
    assert_eq!(lifetime_read(at(0, 0), at(3600, 0)), (-3600_i64) as u32);
    assert_eq!(lifetime_read(at(0, 0), at(3600, 0)), 4_294_963_696);
    assert_eq!(lifetime_read(at(8, 500_000_000), at(10, 0)), u32::MAX);
    assert_eq!(lifetime_read(at(9, 500_000_000), at(10, 0)), 0);
    assert_eq!(lifetime_read(at(0, 0), at(4_294_967_296, 0)), 0);
    assert_eq!(lifetime_read(at(0, 0), at(4_294_967_297, 0)), u32::MAX);
}

#[test]
fn a_lifetime_beyond_32_bits_keeps_its_low_bits() {
    assert_eq!(lifetime_read(at(4_294_967_295, 0), at(0, 0)), u32::MAX);
    assert_eq!(lifetime_read(at(4_294_967_296, 0), at(0, 0)), 0);
    assert_eq!(lifetime_read(at(4_294_967_301, 0), at(0, 0)), 5);
    assert_eq!(lifetime_read(at(8_000_000_000_000, 0), at(-8_000_000_000_000, 0)), (16_000_000_000_000_i64) as u32);
}

#[test]
fn an_identity_without_a_record_is_not_found() {
    assert_eq!(get_account(Ok(None)), Err(AuthError::AccountNotFound));
}

#[test]
fn a_failing_store_is_reported_with_its_cause() {
    assert_eq!(
        get_account(Err("connection refused".to_string())),
        Err(AuthError::DatabaseError("connection refused".to_string()))
    );
}

#[test]
fn a_record_is_shown_with_its_instants_as_text() {
    let shown = Account::from(record("abc", at(1_431_648_000, 500_000_000), at(1_431_644_400, 0)));
    assert_eq!(shown.id, "abc");
    assert_eq!(shown.username, "name of abc");
    assert_eq!(shown.access_token, "access of abc");
    assert_eq!(shown.refresh_token, "refresh of abc");
    assert_eq!(shown.expires_at, "2015-05-15T00:00:00.500+00:00");
    assert_eq!(shown.last_refreshed, "2015-05-14T23:00:00+00:00");
}

#[test]
fn a_record_is_shown_through_into_as_well() {
    let shown: Account = record("abc", at(0, 0), at(0, 0)).into();
    assert_eq!(shown.expires_at, "1970-01-01T00:00:00+00:00");
    assert_eq!(shown.last_refreshed, "1970-01-01T00:00:00+00:00");
}

fn upsert(id: &str, expires_at: Instant) -> AccountUpsert {
    AccountUpsert {
        id: id.to_string(),
        username: "new name".to_string(),
        access_token: "new access".to_string(),
        refresh_token: "new refresh".to_string(),
        expires_at,
    }
}

#[test]
fn an_upsert_makes_a_record_where_there_is_none() {
    let stored = upsert("abc", at(2000, 0)).apply(None, at(1000, 7));
    assert_eq!(
        stored,
        AccountData {
            id: "abc".to_string(),
            username: "new name".to_string(),
            access_token: "new access".to_string(),
            refresh_token: "new refresh".to_string(),
            expires_at: at(2000, 0),
            last_refreshed: at(1000, 7),
        }
    );
}

#[test]
fn an_upsert_overwrites_all_but_the_making_of_a_record() {
    let held = record("abc", at(500, 0), at(100, 0));
    let stored = upsert("abc", at(2000, 0)).apply(Some(held), at(1000, 7));
    assert_eq!(
        stored,
        AccountData {
            id: "abc".to_string(),
            username: "new name".to_string(),
            access_token: "new access".to_string(),
            refresh_token: "new refresh".to_string(),
            expires_at: at(2000, 0),
            last_refreshed: at(100, 0),
        }
    );
}

#[test]
fn an_update_overwrites_the_tokens_and_the_expiry_only() {
    let held = record("abc", at(500, 0), at(100, 0));
    let update = AccountUpdate {
        id: "abc".to_string(),
        access_token: "new access".to_string(),
        refresh_token: "new refresh".to_string(),
        expires_at: at(2000, 0),
    };
    assert_eq!(
        update.apply(held),
        AccountData {
            id: "abc".to_string(),
            username: "name of abc".to_string(),
            access_token: "new access".to_string(),
            refresh_token: "new refresh".to_string(),
            expires_at: at(2000, 0),
            last_refreshed: at(100, 0),
        }
    );
}
