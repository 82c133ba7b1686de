//! Destinations the daily cap does not apply to, and the admin who may name
//! them.
use crate::error::Error;
use crate::guard::{bump_instance, bump_persistent, PersistentKey, INSTANCE_BUMP_AT, INSTANCE_TTL};
use crate::guard;
use crate::host;
use crate::host::{admin_present, load_admin, load_drip, save_admin, save_drip, Family};
use soroban_sdk::{Address, Env};
use vstd::prelude::*;

verus! {

/// Whether a stored exemption flag exempts: a missing flag does not.
pub open spec fn drip_flag(stored: Option<bool>) -> bool {
    match stored {
        Some(b) => b,
        None => false,
    }
}

/// Whether `drip` is exempt in the storage of `env`.
pub open spec fn is_exempt(env: Env, drip: Address) -> bool {
    drip_flag(host::drips(env).get(drip))
}

/// The effect of `init(admin)` taking `a` to `b` with result `r`: the first
/// call records `admin`; any later one is refused and changes nothing.
pub open spec fn init_post(a: Env, b: Env, admin: Address, r: Result<(), Error>) -> bool {
    if host::admin_of(a) is Some {
        r == Err::<(), Error>(Error::AlreadyInitialised) && b == a
    } else {
        &&& r == Ok::<(), Error>(())
        &&& host::admin_of(b) == Some(admin)
        &&& host::unchanged_except(a, b, Family::Admin)
        &&& host::entry_ttls_unchanged(a, b)
        &&& host::instance_ttl(b) == host::extended(
            host::instance_ttl(a),
            INSTANCE_BUMP_AT,
            INSTANCE_TTL,
            host::max_ttl(a),
        )
        &&& host::max_ttl(b) == host::max_ttl(a)
    }
}

/// What `admin()` gives in storage `env`: the recorded admin, or
/// `NotInitialised`.
pub open spec fn admin_result(env: Env) -> Result<Address, Error> {
    match host::admin_of(env) {
        Some(a) => Ok(a),
        None => Err(Error::NotInitialised),
    }
}

/// The effect of `set_trusted_drip(drip, trusted)` taking `a` to `b`: the
/// flag is stored, and it and the instance are kept alive.
pub open spec fn set_drip_post(a: Env, b: Env, drip: Address, trusted: bool) -> bool {
    &&& host::drips(b) == host::drips(a).insert(drip, trusted)
    &&& host::unchanged_except(a, b, Family::Drip)
    &&& host::entry_ttls_unchanged_except(a, b, Family::Drip, drip)
    &&& host::drip_ttls(b).contains_key(drip)
    &&& guard::kept_alive(host::drip_ttls(b)[drip], host::max_ttl(a))
    &&& host::instance_ttl(b) == host::extended(
        host::instance_ttl(a),
        INSTANCE_BUMP_AT,
        INSTANCE_TTL,
        host::max_ttl(a),
    )
    &&& host::max_ttl(b) == host::max_ttl(a)
}

/// The effect of an admin-only change of `drip`'s exemption to `trusted`: a
/// registry with no admin refuses and changes nothing (fail closed).
pub open spec fn admin_set_drip_post(a: Env, b: Env, drip: Address, trusted: bool, r: Result<(), Error>) -> bool {
    if host::admin_of(a) is None {
        r == Err::<(), Error>(Error::NotInitialised) && b == a
    } else {
        r == Ok::<(), Error>(()) && set_drip_post(a, b, drip, trusted)
    }
}

/// Record the admin. Callable once: an admin cannot be silently replaced.
pub fn init(env: &mut Env, admin: &Address) -> (r: Result<(), Error>)
    requires
        host::in_contract(*old(env)),
    ensures
        init_post(*old(env), *final(env), *admin, r),
{
    if admin_present(env) {
        return Err(Error::AlreadyInitialised);
    }
    bump_instance(env);
    save_admin(env, admin);
    Ok(())
}

/// The admin of this registry; `NotInitialised` before `init`.
pub fn admin(env: &Env) -> (r: Result<Address, Error>)
    requires
        host::in_contract(*env),
    ensures
        r == admin_result(*env),
{
    match load_admin(env) {
        Some(a) => Ok(a),
        None => Err(Error::NotInitialised),
    }
}

/// Store whether `drip` is exempt from the daily cap.
pub fn set_trusted_drip(env: &mut Env, drip: &Address, trusted: bool)
    requires
        host::in_contract(*old(env)),
    ensures
        set_drip_post(*old(env), *final(env), *drip, trusted),
{
    bump_instance(env);
    save_drip(env, drip, trusted);
    bump_persistent(env, PersistentKey::Drip(drip));
}

/// Whether `drip` is exempt from the daily cap. Not exempt unless stored so.
pub fn is_trusted_drip(env: &Env, drip: &Address) -> (r: bool)
    requires
        host::in_contract(*env),
    ensures
        r == is_exempt(*env, *drip),
{
    match load_drip(env, drip) {
        Some(b) => b,
        None => false,
    }
}

/// Change `drip`'s exemption, on behalf of the stored admin.
///
/// The admin's authorisation is the host's to check, against the address that
/// [`admin`] returns; this refuses a registry that has no admin, so that an
/// uninitialised registry does not accept writes.
pub fn admin_set_trusted_drip(env: &mut Env, drip: &Address, trusted: bool) -> (r: Result<(), Error>)
    requires
        host::in_contract(*old(env)),
    ensures
        admin_set_drip_post(*old(env), *final(env), *drip, trusted, r),
{
    if !admin_present(env) {
        return Err(Error::NotInitialised);
    }
    set_trusted_drip(env, drip, trusted);
    Ok(())
}

} // verus!
