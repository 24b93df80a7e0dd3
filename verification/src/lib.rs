//! Account linkage for Minecraft sign-in through Microsoft: reading the tokens
//! that a redirect URL carries, keeping one account record per identity, and
//! keeping the stored tokens fresh.
//!
//! The library decides and computes; it reaches neither a store nor a network.
//! [`lifecycle`] says, step by step, what is to be asked of them.

pub mod account;
pub mod decimal;
pub mod error;
pub mod instant;
pub mod lifecycle;
pub mod profile;
pub mod query;
pub mod store;

pub use crate::account::{get_account, Account, AccountData};
pub use crate::error::AuthError;
pub use crate::instant::{compute_expiry, Instant};
pub use crate::lifecycle::{
    process_adding_account, refresh_account, refresh_accounts, AddAccountProcessPayload,
};
pub use crate::profile::{create_profile_from_url, MinecraftProfile};
