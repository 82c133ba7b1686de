//! Who is allowed to do what in the registry.

use soroban_sdk::testutils::Address as _;
use soroban_sdk::testutils::{ContractFunctionSet, EnvTestConfig};
use soroban_sdk::{Address, Env, Val};
use stellar_shield::{Error, RegistryContract};

/// A test host that writes no snapshot files.
fn fresh_env() -> Env {
    Env::new_with_config(EnvTestConfig {
        capture_snapshot_at_drop: false,
    })
}

/// A deployed contract whose entrypoints are run with `as_contract`.
struct Deployed;

impl ContractFunctionSet for Deployed {
    fn call(&self, _func: &str, _env: Env, _args: &[Val]) -> Option<Val> {
        None
    }
}

fn registry(env: &Env) -> Address {
    env.register(Deployed, ())
}

fn run<T>(env: &Env, id: &Address, f: impl FnOnce(&mut Env) -> T) -> T {
    let mut e = env.clone();
    env.as_contract(id, || f(&mut e))
}

#[test]
fn the_admin_can_whitelist_and_withdraw_again() {
    let env = fresh_env();
    let id = registry(&env);
    env.mock_all_auths();

    let admin = Address::generate(&env);
    let drip = Address::generate(&env);

    assert_eq!(run(&env, &id, |e| RegistryContract::init(e, &admin)), Ok(()));
    assert_eq!(run(&env, &id, |e| RegistryContract::admin(e)), Ok(admin.clone()));

    assert!(!run(&env, &id, |e| RegistryContract::is_trusted_drip(e, &drip)));
    assert_eq!(run(&env, &id, |e| RegistryContract::add_trusted_drip(e, &drip)), Ok(()));
    assert!(run(&env, &id, |e| RegistryContract::is_trusted_drip(e, &drip)));

    // A whitelist you cannot remove from is not a whitelist.
    assert_eq!(run(&env, &id, |e| RegistryContract::remove_trusted_drip(e, &drip)), Ok(()));
    assert!(!run(&env, &id, |e| RegistryContract::is_trusted_drip(e, &drip)));
}

#[test]
fn a_registry_with_no_admin_refuses_rather_than_allows() {
    let env = fresh_env();
    let id = registry(&env);
    env.mock_all_auths();

    let drip = Address::generate(&env);
    // Fail closed.
    assert_eq!(
        run(&env, &id, |e| RegistryContract::add_trusted_drip(e, &drip)),
        Err(Error::NotInitialised)
    );
    assert_eq!(Error::NotInitialised.code(), 1);
    assert_eq!(run(&env, &id, |e| RegistryContract::admin(e)), Err(Error::NotInitialised));
    assert!(!run(&env, &id, |e| RegistryContract::is_trusted_drip(e, &drip)));
}

#[test]
fn the_admin_cannot_be_quietly_replaced() {
    let env = fresh_env();
    let id = registry(&env);
    env.mock_all_auths();

    let first = Address::generate(&env);
    let second = Address::generate(&env);
    assert_eq!(run(&env, &id, |e| RegistryContract::init(e, &first)), Ok(()));
    assert_eq!(
        run(&env, &id, |e| RegistryContract::init(e, &second)),
        Err(Error::AlreadyInitialised)
    );
    assert_eq!(Error::AlreadyInitialised.code(), 2);
    assert_eq!(run(&env, &id, |e| RegistryContract::admin(e)), Ok(first));
}

#[test]
fn a_registry_with_no_admin_refuses_withdrawals_too() {
    let env = fresh_env();
    let id = registry(&env);
    let drip = Address::generate(&env);
    assert_eq!(
        run(&env, &id, |e| RegistryContract::remove_trusted_drip(e, &drip)),
        Err(Error::NotInitialised)
    );
}

#[test]
fn the_admin_stays_whatever_calls_follow() {
    let env = fresh_env();
    let id = registry(&env);
    env.mock_all_auths();

    let admin = Address::generate(&env);
    let intruder = Address::generate(&env);
    let drip = Address::generate(&env);

    assert_eq!(run(&env, &id, |e| RegistryContract::init(e, &admin)), Ok(()));
    assert_eq!(run(&env, &id, |e| RegistryContract::add_trusted_drip(e, &drip)), Ok(()));
    assert_eq!(
        run(&env, &id, |e| RegistryContract::init(e, &intruder)),
        Err(Error::AlreadyInitialised)
    );
    assert_eq!(run(&env, &id, |e| RegistryContract::remove_trusted_drip(e, &drip)), Ok(()));
    assert_eq!(run(&env, &id, |e| RegistryContract::admin(e)), Ok(admin.clone()));
}
