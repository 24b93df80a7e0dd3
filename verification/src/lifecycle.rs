//! Adding an account, refreshing it, and sweeping the store for expired ones.
//!
//! None of the three reaches a store or a network. Each is a function from the
//! stage that an operation has reached, with what the outside world answered, to
//! what is to be done next. The caller does that and comes back with the answer,
//! until the operation is finished.

use crate::account::{credentials_of, get_account, low_32_bits, AccountData, AccountDataView};
use crate::error::AuthError;
use crate::instant::{compute_expiry, Instant, Moment, MAX_SECONDS};
use crate::profile::{create_profile_from_url, profile_of_query, MinecraftProfile, ProfileView};
use crate::query::{
    appended_size, has_room_for_pair, parsed_query, url_query, url_without_query, with_query_pair,
};
use crate::store::{AccountUpdate, AccountUpdateView, AccountUpsert, AccountUpsertView};
use url::Url;
use vstd::prelude::*;

verus! {

/// Name of the query parameter under which a refresh request carries the refresh
/// token.
pub const REFRESH_REQUEST_PARAMETER: &'static str = "refreshToken";

/// How far the adding of an account has come, as it is shown to the user.
#[derive(Debug, PartialEq, Eq, Clone, Copy)]
pub enum AddAccountProcessPayload {
    WaitingForBrowser,
    RequestRecieved,
    Complete,
}

/// Where the adding of an account stands, with what has just come in.
#[derive(Debug, PartialEq, Eq)]
pub enum AddAccountStage {
    /// The browser was sent back with `url`.
    Redirected { url: String },
    /// The profile service was asked for the name of `profile.uuid`. `lookup` is the
    /// name, or what the transport reported; `now` is the time of the answer.
    ProfileResolved { profile: MinecraftProfile, lookup: Result<String, String>, now: Instant },
    /// The store was asked to write. `outcome` is empty, or what the store reported.
    Stored { outcome: Result<(), String> },
}

/// What is to be done next to add an account.
#[derive(Debug, PartialEq, Eq)]
pub enum AddAccountNext {
    /// Ask the profile service for the name of `profile.uuid`, and come back with
    /// [`AddAccountStage::ProfileResolved`] and this profile.
    LookupProfile { profile: MinecraftProfile },
    /// Have the store do `upsert`, and come back with [`AddAccountStage::Stored`].
    UpsertAccount { upsert: AccountUpsert },
    /// Nothing: the operation has ended with `outcome`.
    Finished { outcome: Result<(), AuthError> },
}

/// What a redirect URL given as text yields: the profile in its query string, the
/// error of the parameter that is missing there, or `UrlParseError` where the text is
/// no URL.
pub open spec fn redirect_outcome(url: Seq<char>) -> Result<ProfileView, AuthError> {
    match parsed_query(url) {
        Some(pairs) => profile_of_query(pairs),
        None => Err(AuthError::UrlParseError),
    }
}

/// The write that stores `profile` under the name `username`, for tokens that were
/// issued at `now`.
pub open spec fn upsert_for(
    profile: ProfileView,
    username: Seq<char>,
    now: Moment,
) -> AccountUpsertView {
    AccountUpsertView {
        id: profile.uuid,
        username,
        access_token: profile.access_token,
        refresh_token: profile.refresh_token,
        expires_at: now.plus_seconds(profile.expires_in as int),
    }
}

/// Whether `next` is what follows `stage` when an account is added.
pub open spec fn adding_follows(stage: AddAccountStage, next: AddAccountNext) -> bool {
    match stage {
        AddAccountStage::Redirected { url } => match redirect_outcome(url@) {
            Ok(read) => next matches AddAccountNext::LookupProfile { profile } && profile@ == read,
            Err(error) => next == (AddAccountNext::Finished { outcome: Err(error) }),
        },
        AddAccountStage::ProfileResolved { profile, lookup, now } => match lookup {
            Ok(username) => next matches AddAccountNext::UpsertAccount { upsert } && upsert@
                == upsert_for(profile@, username@, now@),
            Err(cause) => next == (AddAccountNext::Finished {
                outcome: Err(AuthError::NetworkError(cause)),
            }),
        },
        AddAccountStage::Stored { outcome } => match outcome {
            Ok(_) => next == (AddAccountNext::Finished { outcome: Ok(()) }),
            Err(cause) => next == (AddAccountNext::Finished {
                outcome: Err(AuthError::DatabaseError(cause)),
            }),
        },
    }
}

impl AddAccountStage {
    /// Whether the expiry that this stage asks for is an instant that can be held.
    pub open spec fn within_limits(self) -> bool {
        self matches AddAccountStage::ProfileResolved { profile, lookup: Ok(_), now } ==> now@.secs
            + profile.expires_in <= MAX_SECONDS
    }

    /// Tests [`Self::within_limits`].
    pub fn fits(&self) -> (fits: bool)
        ensures
            fits == self.within_limits(),
    {
        match self {
            AddAccountStage::ProfileResolved { profile, lookup: Ok(_), now } => {
                now.timestamp() <= MAX_SECONDS - (profile.expires_in as i64)
            },
            _ => true,
        }
    }
}

impl AddAccountNext {
    /// Whether this asks the store to write.
    pub open spec fn writes(self) -> bool {
        self is UpsertAccount
    }
}

/// The adding of an account asks the store to write only once the redirect URL has
/// given a profile and the profile service a name: where either fails, the store
/// stays as it was.
pub proof fn lemma_adding_writes_after_lookup_only(stage: AddAccountStage, next: AddAccountNext)
    requires
        adding_follows(stage, next),
        next.writes(),
    ensures
        stage matches AddAccountStage::ProfileResolved { lookup: Ok(_), .. },
{
}

/// One step of adding an account.
///
/// The redirect URL is read; the name of the identity is asked for; the account is
/// written with an expiry of `now` plus the lifetime that the URL gave. The first
/// failure ends the operation.
pub fn process_adding_account(stage: AddAccountStage) -> (next: AddAccountNext)
    requires
        stage.within_limits(),
    ensures
        adding_follows(stage, next),
{
    match stage {
        AddAccountStage::Redirected { url } => {
            match Url::parse(url.as_str()) {
                Ok(parsed) => match create_profile_from_url(&parsed) {
                    Ok(profile) => AddAccountNext::LookupProfile { profile },
                    Err(error) => AddAccountNext::Finished { outcome: Err(error) },
                },
                Err(_) => AddAccountNext::Finished { outcome: Err(AuthError::UrlParseError) },
            }
        },
        AddAccountStage::ProfileResolved { profile, lookup, now } => {
            match lookup {
                Ok(username) => {
                    let expires_at = compute_expiry(now, profile.expires_in);
                    AddAccountNext::UpsertAccount {
                        upsert: AccountUpsert {
                            id: profile.uuid,
                            username,
                            access_token: profile.access_token,
                            refresh_token: profile.refresh_token,
                            expires_at,
                        },
                    }
                },
                Err(cause) => AddAccountNext::Finished {
                    outcome: Err(AuthError::NetworkError(cause)),
                },
            }
        },
        AddAccountStage::Stored { outcome } => {
            match outcome {
                Ok(_) => AddAccountNext::Finished { outcome: Ok(()) },
                Err(cause) => AddAccountNext::Finished {
                    outcome: Err(AuthError::DatabaseError(cause)),
                },
            }
        },
    }
}

/// One step of adding an account, or `None` where the stage asks for an expiry that
/// cannot be held.
pub fn try_process_adding_account(stage: AddAccountStage) -> (next: Option<AddAccountNext>)
    ensures
        next is Some <==> stage.within_limits(),
        next matches Some(step) ==> adding_follows(stage, step),
{
    if stage.fits() {
        Some(process_adding_account(stage))
    } else {
        None
    }
}

/// An account that has just been added reads back with the identity and the tokens
/// that it was added with, and it expires the given lifetime after it was added. The
/// lifetime that is read back is the time from the record's making to its expiry: for
/// a record that was made at the moment of the adding it is the lifetime given, for
/// one that was there before it need not be.
pub proof fn lemma_added_account_reads_back(
    profile: ProfileView,
    username: Seq<char>,
    now: Moment,
    existing: Option<AccountDataView>,
    created_at: Moment,
)
    ensures
        ({
            let stored = upsert_for(profile, username, now).applied(existing, created_at);
            let read = credentials_of(stored);
            &&& stored.id == profile.uuid
            &&& stored.expires_at == now.plus_seconds(profile.expires_in as int)
            &&& read.uuid == profile.uuid
            &&& read.access_token == profile.access_token
            &&& read.refresh_token == profile.refresh_token
            &&& read.expires_in == low_32_bits(
                stored.expires_at.whole_seconds_since(stored.last_refreshed),
            )
            &&& existing is None && created_at == now ==> read == profile
        }),
{
}

/// Where the refreshing of one account stands, with what has just come in.
#[derive(Debug, PartialEq, Eq)]
pub enum RefreshStage {
    /// The refresh was asked for.
    Started,
    /// The store was searched for the account. `found` is its record, `None` where
    /// it holds none, or what the store reported.
    AccountLookedUp { found: Result<Option<AccountData>, String> },
    /// The identity provider was asked for new tokens. `response` is the profile
    /// that it sent, or what the transport reported; `now` is the time of the answer.
    Responded { response: Result<MinecraftProfile, String>, now: Instant },
    /// The store was asked to write. `outcome` is empty, or what the store reported.
    Updated { outcome: Result<(), String> },
}

/// What is to be done next to refresh an account.
#[derive(Debug, PartialEq, Eq)]
pub enum RefreshNext {
    /// Search the store for the record under `id`, and come back with
    /// [`RefreshStage::AccountLookedUp`].
    FindAccount { id: String },
    /// Send a POST request to `request`, read the body of the answer as a profile,
    /// and come back with [`RefreshStage::Responded`].
    PostRefresh { request: Url },
    /// Have the store do `update`, and come back with [`RefreshStage::Updated`].
    UpdateAccount { update: AccountUpdate },
    /// Nothing: the operation has ended with `outcome`.
    Finished { outcome: Result<(), AuthError> },
}

impl RefreshNext {
    /// Whether this asks the store to write.
    pub open spec fn writes(self) -> bool {
        self is UpdateAccount
    }
}

/// The write that puts the tokens of `response` under `account_id`, for tokens that
/// were issued at `now`. The identity in the response plays no part.
pub open spec fn update_for(
    account_id: Seq<char>,
    response: ProfileView,
    now: Moment,
) -> AccountUpdateView {
    AccountUpdateView {
        id: account_id,
        access_token: response.access_token,
        refresh_token: response.refresh_token,
        expires_at: now.plus_seconds(response.expires_in as int),
    }
}

/// Whether `next` is what follows `stage` when the account `account_id` is
/// refreshed at the endpoint `url`.
pub open spec fn refresh_follows(
    account_id: Seq<char>,
    url: &Url,
    stage: RefreshStage,
    next: RefreshNext,
) -> bool {
    match stage {
        RefreshStage::Started => next matches RefreshNext::FindAccount { id } && id@ == account_id,
        RefreshStage::AccountLookedUp { found } => match found {
            Ok(Some(account)) => {
                &&& next matches RefreshNext::PostRefresh { request }
                &&& url_query(&request) == url_query(url).push(
                    (REFRESH_REQUEST_PARAMETER@, account.refresh_token@),
                )
                &&& url_without_query(&request) == url_without_query(url)
            },
            Ok(None) => next == (RefreshNext::Finished {
                outcome: Err(AuthError::AccountNotFound),
            }),
            Err(cause) => next == (RefreshNext::Finished {
                outcome: Err(AuthError::DatabaseError(cause)),
            }),
        },
        RefreshStage::Responded { response, now } => match response {
            Ok(profile) => next matches RefreshNext::UpdateAccount { update } && update@
                == update_for(account_id, profile@, now@),
            Err(cause) => next == (RefreshNext::Finished {
                outcome: Err(AuthError::NetworkError(cause)),
            }),
        },
        RefreshStage::Updated { outcome } => match outcome {
            Ok(_) => next == (RefreshNext::Finished { outcome: Ok(()) }),
            Err(cause) => next == (RefreshNext::Finished {
                outcome: Err(AuthError::DatabaseError(cause)),
            }),
        },
    }
}

/// Refreshing an identity that the store does not hold ends with `AccountNotFound`,
/// and neither of its two steps asks the store to write.
pub proof fn lemma_unknown_account_is_not_written(
    account_id: Seq<char>,
    url: &Url,
    first: RefreshNext,
    second: RefreshNext,
)
    requires
        refresh_follows(account_id, url, RefreshStage::Started, first),
        refresh_follows(
            account_id,
            url,
            RefreshStage::AccountLookedUp { found: Ok(None) },
            second,
        ),
    ensures
        !first.writes(),
        second == (RefreshNext::Finished { outcome: Err(AuthError::AccountNotFound) }),
        !second.writes(),
{
}

/// A refresh asks the store to write only once the endpoint has answered with a
/// profile: where the lookup, the request or the reading of the answer fails, the
/// stored record stays as it was.
pub proof fn lemma_refresh_writes_after_answer_only(
    account_id: Seq<char>,
    url: &Url,
    stage: RefreshStage,
    next: RefreshNext,
)
    requires
        refresh_follows(account_id, url, stage, next),
        next.writes(),
    ensures
        stage matches RefreshStage::Responded { response: Ok(_), .. },
{
}

/// A refresh writes under the identity that it was asked for, whatever identity the
/// answer carries; the record keeps its identity, its name and the instant of its
/// making, and takes the tokens of the answer and an expiry of `now` plus their
/// lifetime.
pub proof fn lemma_refresh_keeps_identity(
    account_id: Seq<char>,
    response: ProfileView,
    now: Moment,
    existing: AccountDataView,
)
    ensures
        ({
            let update = update_for(account_id, response, now);
            let stored = update.applied(existing);
            &&& update.id == account_id
            &&& stored.id == existing.id
            &&& stored.username == existing.username
            &&& stored.last_refreshed == existing.last_refreshed
            &&& stored.access_token == response.access_token
            &&& stored.refresh_token == response.refresh_token
            &&& stored.expires_at == now.plus_seconds(response.expires_in as int)
        }),
{
}

impl RefreshStage {
    /// Whether the request that this stage asks for is a URL that can be held, and
    /// the expiry that it asks for an instant that can be held.
    pub open spec fn within_limits(self, url: &Url) -> bool {
        &&& self matches RefreshStage::AccountLookedUp { found: Ok(Some(account)) }
            ==> appended_size(url, REFRESH_REQUEST_PARAMETER@, account.refresh_token@) <= u32::MAX
        &&& self matches RefreshStage::Responded { response: Ok(profile), now } ==> now@.secs
            + profile.expires_in <= MAX_SECONDS
    }

    /// Tests [`Self::within_limits`].
    pub fn fits(&self, url: &Url) -> (fits: bool)
        ensures
            fits == self.within_limits(url),
    {
        match self {
            RefreshStage::AccountLookedUp { found: Ok(Some(account)) } => {
                has_room_for_pair(url, REFRESH_REQUEST_PARAMETER, account.refresh_token.as_str())
            },
            RefreshStage::Responded { response: Ok(profile), now } => {
                now.timestamp() <= MAX_SECONDS - (profile.expires_in as i64)
            },
            _ => true,
        }
    }
}

/// One step of refreshing the account `account_id` at the endpoint `url`.
///
/// The account is looked up; its refresh token is sent to the endpoint as one more
/// query parameter; the tokens that come back are written under `account_id`,
/// whatever identity came with them, with an expiry of `now` plus their lifetime.
/// The first failure ends the operation, and nothing is written before the
/// endpoint has answered with a profile.
pub fn refresh_account(account_id: &String, url: &Url, stage: RefreshStage) -> (next: RefreshNext)
    requires
        stage.within_limits(url),
    ensures
        refresh_follows(account_id@, url, stage, next),
{
    match stage {
        RefreshStage::Started => RefreshNext::FindAccount { id: account_id.clone() },
        RefreshStage::AccountLookedUp { found } => {
            match get_account(found) {
                Ok(credentials) => RefreshNext::PostRefresh {
                    request: with_query_pair(
                        url,
                        REFRESH_REQUEST_PARAMETER,
                        credentials.refresh_token.as_str(),
                    ),
                },
                Err(error) => RefreshNext::Finished { outcome: Err(error) },
            }
        },
        RefreshStage::Responded { response, now } => {
            match response {
                Ok(profile) => {
                    let expires_at = compute_expiry(now, profile.expires_in);
                    RefreshNext::UpdateAccount {
                        update: AccountUpdate {
                            id: account_id.clone(),
                            access_token: profile.access_token,
                            refresh_token: profile.refresh_token,
                            expires_at,
                        },
                    }
                },
                Err(cause) => RefreshNext::Finished {
                    outcome: Err(AuthError::NetworkError(cause)),
                },
            }
        },
        RefreshStage::Updated { outcome } => {
            match outcome {
                Ok(_) => RefreshNext::Finished { outcome: Ok(()) },
                Err(cause) => RefreshNext::Finished {
                    outcome: Err(AuthError::DatabaseError(cause)),
                },
            }
        },
    }
}

/// One step of refreshing an account, or `None` where the stage asks for a request
/// or an expiry that cannot be held.
pub fn try_refresh_account(account_id: &String, url: &Url, stage: RefreshStage) -> (next: Option<
    RefreshNext,
>)
    ensures
        next is Some <==> stage.within_limits(url),
        next matches Some(step) ==> refresh_follows(account_id@, url, stage, step),
{
    if stage.fits(url) {
        Some(refresh_account(account_id, url, stage))
    } else {
        None
    }
}

/// Where a sweep stands, with what has just come in.
#[derive(Debug, PartialEq, Eq)]
pub enum SweepStage {
    /// The sweep was asked for.
    Started,
    /// The store was asked for all its accounts. `accounts` are its records in the
    /// order in which it gave them, or what it reported; `now` is the time of the
    /// answer.
    Listed { accounts: Result<Vec<AccountData>, String>, now: Instant },
    /// The refresh of `pending[position]` has ended with `outcome`.
    Refreshed { outcome: Result<(), AuthError>, pending: Vec<String>, position: usize },
}

/// What is to be done next in a sweep.
#[derive(Debug, PartialEq, Eq)]
pub enum SweepNext {
    /// Ask the store for all its accounts, and come back with
    /// [`SweepStage::Listed`].
    FindAllAccounts,
    /// Refresh the account `pending[position]`, and come back with
    /// [`SweepStage::Refreshed`], the same `pending` and the same `position`.
    RefreshAccount { pending: Vec<String>, position: usize },
    /// Nothing: the sweep has ended with `outcome`.
    Finished { outcome: Result<(), AuthError> },
}

/// The identities of the accounts that have expired strictly before `now`, in the
/// order of `accounts`.
pub open spec fn expired_ids(accounts: Seq<AccountData>, now: Moment) -> Seq<Seq<char>> {
    accounts.filter(|account: AccountData| account.expires_at@.before(now)).map_values(
        |account: AccountData| account.id@,
    )
}

/// Whether `account` has the identity `id` and has expired strictly before `now`.
pub open spec fn expired_under(account: AccountData, id: Seq<char>, now: Moment) -> bool {
    account.id@ == id && account.expires_at@.before(now)
}

/// Whether one of `accounts` has the identity `id` and has expired strictly before
/// `now`.
pub open spec fn holds_expired(accounts: Seq<AccountData>, id: Seq<char>, now: Moment) -> bool {
    exists|i: int| 0 <= i < accounts.len() && expired_under(#[trigger] accounts[i], id, now)
}

/// Every identity that a sweep picks is that of an account that has expired before
/// `now`, and every account that has expired before `now` has its identity picked.
pub proof fn lemma_expired_ids(accounts: Seq<AccountData>, now: Moment)
    ensures
        forall|k: int|
            0 <= k < expired_ids(accounts, now).len() ==> holds_expired(
                accounts,
                #[trigger] expired_ids(accounts, now)[k],
                now,
            ),
        forall|i: int|
            0 <= i < accounts.len() && (#[trigger] accounts[i]).expires_at@.before(now)
                ==> expired_ids(accounts, now).contains(accounts[i].id@),
{
    let expired = |account: AccountData| account.expires_at@.before(now);
    let picked = accounts.filter(expired);
    let ids = expired_ids(accounts, now);
    broadcast use vstd::seq_lib::group_filter_ensures;

    assert forall|k: int| 0 <= k < ids.len() implies holds_expired(
        accounts,
        #[trigger] ids[k],
        now,
    ) by {
        assert(accounts.contains(picked[k])) by {
            accounts.lemma_filter_contains_rev(expired, picked[k]);
        }
        let i = choose|i: int| 0 <= i < accounts.len() && accounts[i] == picked[k];
        assert(expired_under(accounts[i], ids[k], now));
    }
    assert forall|i: int|
        0 <= i < accounts.len() && (#[trigger] accounts[i]).expires_at@.before(
            now,
        ) implies ids.contains(accounts[i].id@) by {
        assert(picked.contains(accounts[i]));
        let k = choose|k: int| 0 <= k < picked.len() && picked[k] == accounts[i];
        assert(ids[k] == accounts[i].id@);
    }
}

/// Whether `next` is what follows `stage` in a sweep.
pub open spec fn sweep_follows(stage: SweepStage, next: SweepNext) -> bool {
    match stage {
        SweepStage::Started => next == SweepNext::FindAllAccounts,
        SweepStage::Listed { accounts, now } => match accounts {
            Ok(listed) => if expired_ids(listed@, now@).len() == 0 {
                next == (SweepNext::Finished { outcome: Ok(()) })
            } else {
                &&& next matches SweepNext::RefreshAccount { pending, position }
                &&& pending.deep_view() == expired_ids(listed@, now@)
                &&& position == 0
            },
            Err(cause) => next == (SweepNext::Finished {
                outcome: Err(AuthError::DatabaseError(cause)),
            }),
        },
        SweepStage::Refreshed { outcome, pending, position } => match outcome {
            Ok(_) => if position + 1 < pending.len() {
                next == (SweepNext::RefreshAccount { pending, position: (position + 1) as usize })
            } else {
                next == (SweepNext::Finished { outcome: Ok(()) })
            },
            Err(error) => next == (SweepNext::Finished { outcome: Err(error) }),
        },
    }
}

/// The identities of the accounts among `accounts` that have expired strictly
/// before `now`, in the order of `accounts`.
pub fn select_expired(accounts: &Vec<AccountData>, now: Instant) -> (pending: Vec<String>)
    ensures
        pending.deep_view() == expired_ids(accounts@, now@),
{
    let ghost expired = |account: AccountData| account.expires_at@.before(now@);
    let ghost id_of = |account: AccountData| account.id@;
    let mut pending: Vec<String> = Vec::new();
    let mut i: usize = 0;
    proof {
        reveal(Seq::filter);
    }
    while i < accounts.len()
        invariant
            i <= accounts.len(),
            expired == |account: AccountData| account.expires_at@.before(now@),
            id_of == |account: AccountData| account.id@,
            pending.deep_view() == accounts@.take(i as int).filter(expired).map_values(id_of),
        decreases accounts.len() - i,
    {
        let ghost before = accounts@.take(i as int);
        let ghost after = accounts@.take(i + 1);
        let ghost held = pending.deep_view();
        proof {
            reveal(Seq::filter);
            assert(after.drop_last() == before);
        }
        if accounts[i].expires_at.is_before(&now) {
            pending.push(accounts[i].id.clone());
            proof {
                assert(after.filter(expired).map_values(id_of) == held.push(
                    accounts@[i as int].id@,
                ));
            }
        }
        i = i + 1;
    }
    assert(accounts@.take(i as int) == accounts@);
    pending
}

/// A sweep ends with the error of the first refresh that fails, and asks for no
/// refresh after it.
pub proof fn lemma_sweep_stops_at_first_failure(
    error: AuthError,
    pending: Vec<String>,
    position: usize,
    next: SweepNext,
)
    requires
        sweep_follows(SweepStage::Refreshed { outcome: Err(error), pending, position }, next),
    ensures
        next == (SweepNext::Finished { outcome: Err(error) }),
{
}

/// One step of a sweep.
///
/// The accounts that have expired before `now` are picked from the store's answer
/// once, and refreshed one after the other in the store's order. The first refresh
/// that fails ends the sweep with its error, and the accounts behind it are not
/// tried.
pub fn refresh_accounts(stage: SweepStage) -> (next: SweepNext)
    ensures
        sweep_follows(stage, next),
{
    match stage {
        SweepStage::Started => SweepNext::FindAllAccounts,
        SweepStage::Listed { accounts, now } => {
            match accounts {
                Ok(listed) => {
                    let pending = select_expired(&listed, now);
                    if pending.len() == 0 {
                        SweepNext::Finished { outcome: Ok(()) }
                    } else {
                        SweepNext::RefreshAccount { pending, position: 0 }
                    }
                },
                Err(cause) => SweepNext::Finished {
                    outcome: Err(AuthError::DatabaseError(cause)),
                },
            }
        },
        SweepStage::Refreshed { outcome, pending, position } => {
            match outcome {
                Ok(_) => {
                    if position < pending.len() && position + 1 < pending.len() {
                        SweepNext::RefreshAccount { pending, position: position + 1 }
                    } else {
                        SweepNext::Finished { outcome: Ok(()) }
                    }
                },
                Err(error) => SweepNext::Finished { outcome: Err(error) },
            }
        },
    }
}

} // verus!
