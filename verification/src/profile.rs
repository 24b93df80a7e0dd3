//! The credentials that a redirect URL or a refresh exchange carries.

use crate::decimal::{decimal_u32, parse_u32};
use crate::error::AuthError;
use crate::query::{find_value, first_value, query_pairs, url_query};
use url::Url;
use vstd::prelude::*;

verus! {

/// Name of the query parameter that carries the identity.
pub const IDENTITY_PARAMETER: &'static str = "minecraftId";

/// Name of the query parameter that carries the access token.
pub const ACCESS_TOKEN_PARAMETER: &'static str = "minecraftToken";

/// Name of the query parameter that carries the refresh token.
pub const REFRESH_TOKEN_PARAMETER: &'static str = "microsoftRefreshToken";

/// Name of the query parameter that carries the lifetime of the access token in
/// seconds.
pub const EXPIRES_IN_PARAMETER: &'static str = "microsoftExpiresIn";

/// The credentials of one identity as the identity provider hands them out: they
/// live for one operation and are never stored in this shape.
#[derive(Debug, PartialEq, Eq, Clone)]
pub struct MinecraftProfile {
    /// The identity: the stable key of the account with the provider.
    pub uuid: String,
    pub access_token: String,
    pub refresh_token: String,
    /// Seconds for which the access token is valid, counted from when it was issued.
    pub expires_in: u32,
}

/// A [`MinecraftProfile`] as a mathematical value.
pub struct ProfileView {
    pub uuid: Seq<char>,
    pub access_token: Seq<char>,
    pub refresh_token: Seq<char>,
    pub expires_in: u32,
}

impl View for MinecraftProfile {
    type V = ProfileView;

    open spec fn view(&self) -> ProfileView {
        ProfileView {
            uuid: self.uuid@,
            access_token: self.access_token@,
            refresh_token: self.refresh_token@,
            expires_in: self.expires_in,
        }
    }
}

/// What is read out of the pairs of a query string: the profile made of the first
/// value of each of the four parameters, or the error of the first parameter, in the
/// order identity, access token, refresh token, lifetime, that has no value. A
/// lifetime that is no unsigned decimal number of 32 bits counts as missing.
pub open spec fn profile_of_query(pairs: Seq<(Seq<char>, Seq<char>)>) -> Result<
    ProfileView,
    AuthError,
> {
    match first_value(pairs, IDENTITY_PARAMETER@) {
        None => Err(AuthError::MissingIdentity),
        Some(uuid) => match first_value(pairs, ACCESS_TOKEN_PARAMETER@) {
            None => Err(AuthError::MissingAccessToken),
            Some(access_token) => match first_value(pairs, REFRESH_TOKEN_PARAMETER@) {
                None => Err(AuthError::MissingRefreshToken),
                Some(refresh_token) => match first_value(pairs, EXPIRES_IN_PARAMETER@) {
                    None => Err(AuthError::MissingExpiresIn),
                    Some(lifetime) => match decimal_u32(lifetime) {
                        None => Err(AuthError::MissingExpiresIn),
                        Some(expires_in) => Ok(
                            ProfileView { uuid, access_token, refresh_token, expires_in },
                        ),
                    },
                },
            },
        },
    }
}

/// A query string that holds all four parameters, the lifetime as a number, yields
/// the profile made of the first value of each.
pub proof fn lemma_complete_query_yields_profile(
    pairs: Seq<(Seq<char>, Seq<char>)>,
    uuid: Seq<char>,
    access_token: Seq<char>,
    refresh_token: Seq<char>,
    lifetime: Seq<char>,
    expires_in: u32,
)
    requires
        first_value(pairs, IDENTITY_PARAMETER@) == Some(uuid),
        first_value(pairs, ACCESS_TOKEN_PARAMETER@) == Some(access_token),
        first_value(pairs, REFRESH_TOKEN_PARAMETER@) == Some(refresh_token),
        first_value(pairs, EXPIRES_IN_PARAMETER@) == Some(lifetime),
        decimal_u32(lifetime) == Some(expires_in),
    ensures
        profile_of_query(pairs) == Ok::<ProfileView, AuthError>(
            ProfileView { uuid, access_token, refresh_token, expires_in },
        ),
{
}

/// A query string that lacks a parameter yields that parameter's error, whatever
/// else it holds, provided that the parameters that are looked at before it are
/// there. They are looked at in the order identity, access token, refresh token,
/// lifetime.
pub proof fn lemma_missing_parameter_yields_its_error(pairs: Seq<(Seq<char>, Seq<char>)>)
    ensures
        first_value(pairs, IDENTITY_PARAMETER@) is None ==> profile_of_query(pairs) == Err::<
            ProfileView,
            AuthError,
        >(AuthError::MissingIdentity),
        first_value(pairs, IDENTITY_PARAMETER@) is Some && first_value(
            pairs,
            ACCESS_TOKEN_PARAMETER@,
        ) is None ==> profile_of_query(pairs) == Err::<ProfileView, AuthError>(
            AuthError::MissingAccessToken,
        ),
        first_value(pairs, IDENTITY_PARAMETER@) is Some && first_value(
            pairs,
            ACCESS_TOKEN_PARAMETER@,
        ) is Some && first_value(pairs, REFRESH_TOKEN_PARAMETER@) is None ==> profile_of_query(
            pairs,
        ) == Err::<ProfileView, AuthError>(AuthError::MissingRefreshToken),
        first_value(pairs, IDENTITY_PARAMETER@) is Some && first_value(
            pairs,
            ACCESS_TOKEN_PARAMETER@,
        ) is Some && first_value(pairs, REFRESH_TOKEN_PARAMETER@) is Some && (first_value(
            pairs,
            EXPIRES_IN_PARAMETER@,
        ) matches Some(lifetime) ==> decimal_u32(lifetime) is None) ==> profile_of_query(pairs)
            == Err::<ProfileView, AuthError>(AuthError::MissingExpiresIn),
{
}

/// Only the first value of each of the four parameters counts: two query strings
/// that agree on those yield the same.
pub proof fn lemma_only_first_values_count(
    one: Seq<(Seq<char>, Seq<char>)>,
    other: Seq<(Seq<char>, Seq<char>)>,
)
    requires
        first_value(one, IDENTITY_PARAMETER@) == first_value(other, IDENTITY_PARAMETER@),
        first_value(one, ACCESS_TOKEN_PARAMETER@) == first_value(other, ACCESS_TOKEN_PARAMETER@),
        first_value(one, REFRESH_TOKEN_PARAMETER@) == first_value(other, REFRESH_TOKEN_PARAMETER@),
        first_value(one, EXPIRES_IN_PARAMETER@) == first_value(other, EXPIRES_IN_PARAMETER@),
    ensures
        profile_of_query(one) == profile_of_query(other),
{
}

/// What a profile or the failure to make one is as a mathematical value.
pub open spec fn outcome_view(outcome: Result<MinecraftProfile, AuthError>) -> Result<
    ProfileView,
    AuthError,
> {
    match outcome {
        Ok(profile) => Ok(profile@),
        Err(error) => Err(error),
    }
}

/// Reads a profile out of the name/value pairs of a query string.
pub fn create_profile_from_pairs(pairs: &Vec<(String, String)>) -> (outcome: Result<
    MinecraftProfile,
    AuthError,
>)
    ensures
        outcome_view(outcome) == profile_of_query(pairs.deep_view()),
{
    let uuid = match find_value(pairs, IDENTITY_PARAMETER) {
        Some(value) => value,
        None => { return Err(AuthError::MissingIdentity); },
    };
    let access_token = match find_value(pairs, ACCESS_TOKEN_PARAMETER) {
        Some(value) => value,
        None => { return Err(AuthError::MissingAccessToken); },
    };
    let refresh_token = match find_value(pairs, REFRESH_TOKEN_PARAMETER) {
        Some(value) => value,
        None => { return Err(AuthError::MissingRefreshToken); },
    };
    let lifetime = match find_value(pairs, EXPIRES_IN_PARAMETER) {
        Some(value) => value,
        None => { return Err(AuthError::MissingExpiresIn); },
    };
    let expires_in = match parse_u32(lifetime.as_str()) {
        Some(number) => number,
        None => { return Err(AuthError::MissingExpiresIn); },
    };
    Ok(MinecraftProfile { uuid, access_token, refresh_token, expires_in })
}

/// Reads a profile out of the query string of a redirect URL.
pub fn create_profile_from_url(url: &Url) -> (outcome: Result<MinecraftProfile, AuthError>)
    ensures
        outcome_view(outcome) == profile_of_query(url_query(url)),
{
    let pairs = query_pairs(url);
    create_profile_from_pairs(&pairs)
}

} // verus!
