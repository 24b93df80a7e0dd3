//! What the library asks the account store to write, and the record that results.

use crate::account::{AccountData, AccountDataView};
use crate::instant::{Instant, Moment};
use vstd::prelude::*;

verus! {

/// Makes or overwrites the record of one identity in a single step: where the store
/// holds a record under `id`, the other four fields replace what it holds; where it
/// holds none, a record with all five is made.
#[derive(Debug, PartialEq, Eq, Clone)]
pub struct AccountUpsert {
    pub id: String,
    pub username: String,
    pub access_token: String,
    pub refresh_token: String,
    pub expires_at: Instant,
}

/// An [`AccountUpsert`] as a mathematical value.
pub struct AccountUpsertView {
    pub id: Seq<char>,
    pub username: Seq<char>,
    pub access_token: Seq<char>,
    pub refresh_token: Seq<char>,
    pub expires_at: Moment,
}

impl View for AccountUpsert {
    type V = AccountUpsertView;

    open spec fn view(&self) -> AccountUpsertView {
        AccountUpsertView {
            id: self.id@,
            username: self.username@,
            access_token: self.access_token@,
            refresh_token: self.refresh_token@,
            expires_at: self.expires_at@,
        }
    }
}

impl AccountUpsertView {
    /// The record under `self.id` once the store has done as asked. `existing` is
    /// the record that it held there before; `created_at` is the instant that the
    /// store gives to a record that it makes.
    pub open spec fn applied(
        self,
        existing: Option<AccountDataView>,
        created_at: Moment,
    ) -> AccountDataView {
        AccountDataView {
            id: self.id,
            username: self.username,
            access_token: self.access_token,
            refresh_token: self.refresh_token,
            expires_at: self.expires_at,
            last_refreshed: match existing {
                Some(held) => held.last_refreshed,
                None => created_at,
            },
        }
    }
}

/// What a record that may be there is as a mathematical value.
pub open spec fn held_view(existing: Option<AccountData>) -> Option<AccountDataView> {
    match existing {
        Some(held) => Some(held@),
        None => None,
    }
}

impl AccountUpsert {
    /// The record under `self.id` once a store has done as asked.
    pub fn apply(self, existing: Option<AccountData>, created_at: Instant) -> (stored: AccountData)
        ensures
            stored@ == self@.applied(held_view(existing), created_at@),
    {
        let last_refreshed = match existing {
            Some(held) => held.last_refreshed,
            None => created_at,
        };
        AccountData {
            id: self.id,
            username: self.username,
            access_token: self.access_token,
            refresh_token: self.refresh_token,
            expires_at: self.expires_at,
            last_refreshed,
        }
    }
}

/// Replaces the two tokens and the expiry of the record under `id`, and nothing else
/// of it. It never makes a record.
#[derive(Debug, PartialEq, Eq, Clone)]
pub struct AccountUpdate {
    pub id: String,
    pub access_token: String,
    pub refresh_token: String,
    pub expires_at: Instant,
}

/// An [`AccountUpdate`] as a mathematical value.
pub struct AccountUpdateView {
    pub id: Seq<char>,
    pub access_token: Seq<char>,
    pub refresh_token: Seq<char>,
    pub expires_at: Moment,
}

impl View for AccountUpdate {
    type V = AccountUpdateView;

    open spec fn view(&self) -> AccountUpdateView {
        AccountUpdateView {
            id: self.id@,
            access_token: self.access_token@,
            refresh_token: self.refresh_token@,
            expires_at: self.expires_at@,
        }
    }
}

impl AccountUpdateView {
    /// The record `existing` once the store has done as asked.
    pub open spec fn applied(self, existing: AccountDataView) -> AccountDataView {
        AccountDataView {
            access_token: self.access_token,
            refresh_token: self.refresh_token,
            expires_at: self.expires_at,
            ..existing
        }
    }
}

impl AccountUpdate {
    /// The record `existing` once a store has done as asked.
    pub fn apply(self, existing: AccountData) -> (stored: AccountData)
        ensures
            stored@ == self@.applied(existing@),
    {
        AccountData {
            id: existing.id,
            username: existing.username,
            access_token: self.access_token,
            refresh_token: self.refresh_token,
            expires_at: self.expires_at,
            last_refreshed: existing.last_refreshed,
        }
    }
}

} // verus!
