//! StellarShield: an on-chain security layer for Stellar wallets.
//!
//! Three contracts that are meant to be deployed together:
//!
//!   - `GuardContract`    a per-user daily spending cap
//!   - `RegistryContract` destinations the cap does not apply to
//!   - `AuthContract`     passkey (P-256) registration and verification
//!
//! The cap is the product. Everything else exists to let a person spend
//! normally without turning it off.
//!
//! This crate holds the contracts' logic over the Soroban host: what each
//! entrypoint reads and writes, and when it refuses. It runs inside a contract
//! invocation (see [`host::in_contract`]). The authorisation checks
//! (`require_auth`), the cross-contract call to the registry and the host's
//! signature check are made by the entrypoints that call into it.
pub mod auth;
mod error;
pub mod guard;
pub mod history;
pub mod host;
pub mod laws;
pub mod registry;

pub use auth::SignatureCheck;
pub use error::Error;
pub use guard::TransferError;

use soroban_sdk::{Address, Env};
use vstd::prelude::*;

verus! {

/// The per-user daily spending cap.
pub struct GuardContract;

impl GuardContract {
    /// Set `user`'s daily spending limit. Must be positive.
    pub fn set_limit(env: &mut Env, user: &Address, new_limit: i128) -> (r: Result<(), Error>)
        requires
            host::in_contract(*old(env)),
        ensures
            guard::set_limit_post(*old(env), *final(env), *user, new_limit, r),
    {
        guard::set_limit(env, user, new_limit)
    }

    /// `user`'s limit, if they have set one. `None` means unguarded.
    /// Reading is also using: a limit that is found is kept alive.
    pub fn limit_of(env: &mut Env, user: &Address) -> (r: Option<i128>)
        requires
            host::in_contract(*old(env)),
        ensures
            guard::limit_of_post(*old(env), *final(env), *user, r),
    {
        guard::limit_of(env, user)
    }

    /// What `user` has spent against today's budget.
    pub fn spent_today(env: &Env, user: &Address) -> (r: i128)
        requires
            host::in_contract(*env),
        ensures
            r == guard::spent_in(*env, *user, guard::day_of(host::ledger_seq(*env))),
    {
        guard::spent_today(env, user)
    }

    /// Record a guarded spend by `user` of `amount` to `to`, enforcing the
    /// daily limit unless the registry at `registry` exempts `to` (its reply to
    /// `is_trusted_drip(to)`). The amount must be positive, whatever the
    /// destination; a spend to an exempt destination is not counted. If the
    /// registry cannot be asked, nothing of this contract changes but,
    /// possibly, its instance's TTL. See [`guard::execute_transfer_post`].
    pub fn execute_transfer(env: &mut Env, user: &Address, registry: &Address, to: &Address, amount: i128) -> (r: Result<(), TransferError>)
        requires
            host::in_contract(*old(env)),
        ensures
            guard::execute_transfer_post(*old(env), *final(env), *user, *registry, *to, amount, r),
    {
        guard::execute_transfer(env, user, registry, to, amount)
    }
}

/// The destinations the cap does not apply to.
pub struct RegistryContract;

impl RegistryContract {
    /// Set the admin. Callable once, at deployment.
    pub fn init(env: &mut Env, admin: &Address) -> (r: Result<(), Error>)
        requires
            host::in_contract(*old(env)),
        ensures
            registry::init_post(*old(env), *final(env), *admin, r),
    {
        registry::init(env, admin)
    }

    /// The admin of this registry.
    pub fn admin(env: &Env) -> (r: Result<Address, Error>)
        requires
            host::in_contract(*env),
        ensures
            r == registry::admin_result(*env),
    {
        registry::admin(env)
    }

    /// Exempt `drip_address` from the velocity limit. Admin only: the host
    /// checks the authorisation of the address [`RegistryContract::admin`]
    /// returns.
    pub fn add_trusted_drip(env: &mut Env, drip_address: &Address) -> (r: Result<(), Error>)
        requires
            host::in_contract(*old(env)),
        ensures
            registry::admin_set_drip_post(*old(env), *final(env), *drip_address, true, r),
    {
        registry::admin_set_trusted_drip(env, drip_address, true)
    }

    /// Withdraw an exemption. Admin only, as for `add_trusted_drip`.
    pub fn remove_trusted_drip(env: &mut Env, drip_address: &Address) -> (r: Result<(), Error>)
        requires
            host::in_contract(*old(env)),
        ensures
            registry::admin_set_drip_post(*old(env), *final(env), *drip_address, false, r),
    {
        registry::admin_set_trusted_drip(env, drip_address, false)
    }

    /// Whether `drip_address` is exempt from the velocity limit.
    pub fn is_trusted_drip(env: &Env, drip_address: &Address) -> (r: bool)
        requires
            host::in_contract(*env),
        ensures
            r == registry::is_exempt(*env, *drip_address),
    {
        registry::is_trusted_drip(env, drip_address)
    }
}

/// Passkey registration, thresholds and signature checks.
pub struct AuthContract;

impl AuthContract {
    /// Register a passkey public key (65-byte uncompressed P-256).
    pub fn register_key(env: &mut Env, user: &Address, pubkey: &[u8; 65])
        requires
            host::in_contract(*old(env)),
        ensures
            auth::register_key_post(*old(env), *final(env), *user, pubkey@),
    {
        auth::register_key(env, user, pubkey)
    }

    /// Whether a passkey is registered for `user`.
    pub fn has_key(env: &Env, user: &Address) -> (r: bool)
        requires
            host::in_contract(*env),
        ensures
            r == host::pubkeys(*env).contains_key(*user),
    {
        auth::key_of(env, user).is_some()
    }

    /// Set the multi-sig threshold. Must be at least 1.
    ///
    /// Stored and readable, but not enforced by any entrypoint.
    pub fn set_threshold(env: &mut Env, user: &Address, threshold: u32) -> (r: Result<(), Error>)
        requires
            host::in_contract(*old(env)),
        ensures
            auth::set_threshold_post(*old(env), *final(env), *user, threshold, r),
    {
        auth::set_threshold(env, user, threshold)
    }

    /// `user`'s multi-sig threshold; 1 when none is set.
    pub fn threshold_of(env: &Env, user: &Address) -> (r: u32)
        requires
            host::in_contract(*env),
        ensures
            r == auth::threshold_or_default(host::thresholds(*env).get(*user)),
    {
        auth::threshold_of(env, user)
    }

    /// Prepare the check of a P-256 signature by `user` over `message`; see
    /// [`auth::verify_sig`].
    pub fn verify_sig(env: &Env, user: &Address, message: &[u8], signature: &[u8; 64]) -> (r: Result<SignatureCheck, Error>)
        requires
            host::in_contract(*env),
        ensures
            auth::verify_sig_post(*env, *user, message@, signature@, r),
    {
        auth::verify_sig(env, user, message, signature)
    }
}

} // verus!
