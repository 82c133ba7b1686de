//! The first suite: the three contracts one at a time.

use soroban_sdk::testutils::Address as _;
use soroban_sdk::testutils::{ContractFunctionSet, EnvTestConfig};
use soroban_sdk::{Address, Env, IntoVal, TryFromVal, Val};
use stellar_shield::{AuthContract, Error, GuardContract, RegistryContract, TransferError};

/// A test host that writes no snapshot files.
fn fresh_env() -> Env {
    Env::new_with_config(EnvTestConfig {
        capture_snapshot_at_drop: false,
    })
}

/// A deployed contract: answers `is_trusted_drip` from its own storage as the
/// registry does; the other entrypoints are run with `as_contract`.
struct Deployed;

impl ContractFunctionSet for Deployed {
    fn call(&self, func: &str, env: Env, args: &[Val]) -> Option<Val> {
        match func {
            "is_trusted_drip" => {
                let drip = Address::try_from_val(&env, &args[0]).ok()?;
                Some(RegistryContract::is_trusted_drip(&env, &drip).into_val(&env))
            }
            _ => None,
        }
    }
}

fn contract(env: &Env) -> Address {
    env.register(Deployed, ())
}

fn run<T>(env: &Env, id: &Address, f: impl FnOnce(&mut Env) -> T) -> T {
    let mut e = env.clone();
    env.as_contract(id, || f(&mut e))
}

// -- Guard tests -------------------------------------------------------------

#[test]
fn test_set_and_enforce_limit() {
    let env = fresh_env();
    env.mock_all_auths();
    let id = contract(&env);

    let registry = contract(&env);

    let user = Address::generate(&env);
    let recipient = Address::generate(&env);

    assert_eq!(run(&env, &id, |e| GuardContract::set_limit(e, &user, 500)), Ok(()));
    // Transfer within limit: succeeds.
    assert_eq!(
        run(&env, &id, |e| GuardContract::execute_transfer(e, &user, &registry, &recipient, 300)),
        Ok(())
    );
}

#[test]
fn test_limit_exceeded_panics() {
    let env = fresh_env();
    env.mock_all_auths();
    let id = contract(&env);

    let registry = contract(&env);

    let user = Address::generate(&env);
    let recipient = Address::generate(&env);

    assert_eq!(run(&env, &id, |e| GuardContract::set_limit(e, &user, 100)), Ok(()));
    // First transfer OK.
    assert_eq!(
        run(&env, &id, |e| GuardContract::execute_transfer(e, &user, &registry, &recipient, 80)),
        Ok(())
    );
    // Second transfer pushes the daily total over the limit.
    assert_eq!(
        run(&env, &id, |e| GuardContract::execute_transfer(e, &user, &registry, &recipient, 30)),
        Err(TransferError::Refused(Error::LimitExceeded))
    );
}

// -- Registry tests ----------------------------------------------------------

#[test]
fn test_drip_whitelist() {
    let env = fresh_env();
    env.mock_all_auths();
    let id = contract(&env);

    let admin = Address::generate(&env);
    let drip = Address::generate(&env);

    assert_eq!(run(&env, &id, |e| RegistryContract::init(e, &admin)), Ok(()));
    assert!(!run(&env, &id, |e| RegistryContract::is_trusted_drip(e, &drip)));
    assert_eq!(run(&env, &id, |e| RegistryContract::add_trusted_drip(e, &drip)), Ok(()));
    assert!(run(&env, &id, |e| RegistryContract::is_trusted_drip(e, &drip)));
}

#[test]
fn test_drip_bypasses_velocity_limit() {
    let env = fresh_env();
    env.mock_all_auths();
    let id = contract(&env);

    let admin = Address::generate(&env);
    let user = Address::generate(&env);
    let drip = Address::generate(&env);

    let registry = contract(&env);

    assert_eq!(run(&env, &id, |e| GuardContract::set_limit(e, &user, 10)), Ok(()));
    assert_eq!(run(&env, &registry, |e| RegistryContract::init(e, &admin)), Ok(()));
    assert_eq!(run(&env, &registry, |e| RegistryContract::add_trusted_drip(e, &drip)), Ok(()));

    assert!(run(&env, &registry, |e| RegistryContract::is_trusted_drip(e, &drip)));
    // And the guard, asking that registry, lets a transfer to it through.
    assert_eq!(
        run(&env, &id, |e| GuardContract::execute_transfer(e, &user, &registry, &drip, 1_000)),
        Ok(())
    );
    assert_eq!(run(&env, &id, |e| GuardContract::spent_today(e, &user)), 0);
}

// -- Auth tests --------------------------------------------------------------

#[test]
fn test_register_key_and_threshold() {
    let env = fresh_env();
    env.mock_all_auths();
    let id = contract(&env);

    let user = Address::generate(&env);
    // 65-byte uncompressed P-256 public key placeholder.
    let pubkey = [4u8; 65];

    run(&env, &id, |e| AuthContract::register_key(e, &user, &pubkey));
    assert_eq!(run(&env, &id, |e| AuthContract::set_threshold(e, &user, 2)), Ok(()));
    assert!(run(&env, &id, |e| AuthContract::has_key(e, &user)));
    assert_eq!(run(&env, &id, |e| AuthContract::threshold_of(e, &user)), 2);
}
