//! Stored accounts, and what is read out of them.

use crate::error::AuthError;
use crate::instant::{rfc3339_text, Instant, Moment};
use crate::profile::{MinecraftProfile, ProfileView};
use vstd::prelude::*;
use vstd::std_specs::convert::FromSpecImpl;

verus! {

/// One account as the account store holds it. There is one record for each
/// identity; `id` is that identity and never changes.
#[derive(Debug, PartialEq, Eq, Clone)]
pub struct AccountData {
    pub id: String,
    /// The name under which the profile service knows the identity.
    pub username: String,
    pub access_token: String,
    pub refresh_token: String,
    /// When the access token stops being valid.
    pub expires_at: Instant,
    /// The instant that the store gave the record when it made it.
    pub last_refreshed: Instant,
}

/// An [`AccountData`] as a mathematical value.
pub struct AccountDataView {
    pub id: Seq<char>,
    pub username: Seq<char>,
    pub access_token: Seq<char>,
    pub refresh_token: Seq<char>,
    pub expires_at: Moment,
    pub last_refreshed: Moment,
}

impl View for AccountData {
    type V = AccountDataView;

    open spec fn view(&self) -> AccountDataView {
        AccountDataView {
            id: self.id@,
            username: self.username@,
            access_token: self.access_token@,
            refresh_token: self.refresh_token@,
            expires_at: self.expires_at@,
            last_refreshed: self.last_refreshed@,
        }
    }
}

/// One account as it is shown outside the library: the stored record with its two
/// instants written as RFC 3339 text.
#[derive(Debug, Clone)]
pub struct Account {
    pub id: String,
    pub username: String,
    pub access_token: String,
    pub refresh_token: String,
    pub expires_at: String,
    pub last_refreshed: String,
}

/// An [`Account`] as a mathematical value.
pub struct AccountView {
    pub id: Seq<char>,
    pub username: Seq<char>,
    pub access_token: Seq<char>,
    pub refresh_token: Seq<char>,
    pub expires_at: Seq<char>,
    pub last_refreshed: Seq<char>,
}

impl View for Account {
    type V = AccountView;

    open spec fn view(&self) -> AccountView {
        AccountView {
            id: self.id@,
            username: self.username@,
            access_token: self.access_token@,
            refresh_token: self.refresh_token@,
            expires_at: self.expires_at@,
            last_refreshed: self.last_refreshed@,
        }
    }
}

/// The shape in which a stored record is shown: every text as it is, every instant
/// as RFC 3339 writes it.
pub open spec fn shown(data: AccountDataView) -> AccountView {
    AccountView {
        id: data.id,
        username: data.username,
        access_token: data.access_token,
        refresh_token: data.refresh_token,
        expires_at: rfc3339_text(data.expires_at.secs, data.expires_at.nanos),
        last_refreshed: rfc3339_text(data.last_refreshed.secs, data.last_refreshed.nanos),
    }
}

/// No text can be made inside a specification, so the account that `from` returns
/// cannot be written down as a value: what it holds is stated by `from` itself.
impl FromSpecImpl<AccountData> for Account {
    open spec fn obeys_from_spec() -> bool {
        false
    }

    open spec fn from_spec(data: AccountData) -> Account {
        arbitrary()
    }
}

impl From<AccountData> for Account {
    /// The stored record in the shape in which it is shown.
    fn from(data: AccountData) -> (account: Account)
        ensures
            account@ == shown(data@),
    {
        let expires_at = data.expires_at.to_rfc3339();
        let last_refreshed = data.last_refreshed.to_rfc3339();
        Account {
            id: data.id,
            username: data.username,
            access_token: data.access_token,
            refresh_token: data.refresh_token,
            expires_at,
            last_refreshed,
        }
    }
}

/// The 32 low bits of a number, read as an unsigned number.
pub open spec fn low_32_bits(n: int) -> u32 {
    (n % 0x1_0000_0000) as u32
}

/// The credentials that a stored record stands for. The lifetime is the whole
/// seconds from the record's making to the expiry, cut to their 32 low bits: it is
/// not the time that is left now.
pub open spec fn credentials_of(account: AccountDataView) -> ProfileView {
    ProfileView {
        uuid: account.id,
        access_token: account.access_token,
        refresh_token: account.refresh_token,
        expires_in: low_32_bits(account.expires_at.whole_seconds_since(account.last_refreshed)),
    }
}

/// Cuts a number to its 32 low bits.
fn cut_to_32_bits(n: i64) -> (low: u32)
    ensures
        low == low_32_bits(n as int),
{
    if n >= 0 {
        (n % 0x1_0000_0000) as u32
    } else {
        let below: i64 = (-(n + 1)) % 0x1_0000_0000;
        (0xFFFF_FFFF - below) as u32
    }
}

/// The credentials of the account that the store found, if it found one.
///
/// `found` is the store's answer to a search by identity: the record, `None` where
/// no record has that identity, or what the store reported when it failed.
pub fn get_account(found: Result<Option<AccountData>, String>) -> (credentials: Result<
    MinecraftProfile,
    AuthError,
>)
    ensures
        match found {
            Ok(Some(account)) => credentials matches Ok(profile) && profile@ == credentials_of(
                account@,
            ),
            Ok(None) => credentials == Err::<MinecraftProfile, AuthError>(
                AuthError::AccountNotFound,
            ),
            Err(cause) => credentials == Err::<MinecraftProfile, AuthError>(
                AuthError::DatabaseError(cause),
            ),
        },
{
    match found {
        Ok(Some(account)) => {
            let lifetime = account.expires_at.whole_seconds_since(&account.last_refreshed);
            Ok(
                MinecraftProfile {
                    uuid: account.id,
                    access_token: account.access_token,
                    refresh_token: account.refresh_token,
                    expires_in: cut_to_32_bits(lifetime),
                },
            )
        },
        Ok(None) => Err(AuthError::AccountNotFound),
        Err(cause) => Err(AuthError::DatabaseError(cause)),
    }
}

} // verus!
