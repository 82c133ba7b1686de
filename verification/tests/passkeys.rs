//! Passkeys, thresholds and the preparation of signature checks.

use soroban_sdk::testutils::Address as _;
use soroban_sdk::testutils::{ContractFunctionSet, EnvTestConfig};
use soroban_sdk::{Address, Env, Val};
use stellar_shield::auth;
use stellar_shield::{AuthContract, Error};

/// A test host that writes no snapshot files.
fn fresh_env() -> Env {
    Env::new_with_config(EnvTestConfig {
        capture_snapshot_at_drop: false,
    })
}

/// A deployed contract whose entrypoints are run with `as_contract`.
struct Deployed;

impl ContractFunctionSet for Deployed {
    fn call(&self, _func: &str, _env: Env, _args: &[Val]) -> Option<Val> {
        None
    }
}

fn contract(env: &Env) -> Address {
    env.register(Deployed, ())
}

fn run<T>(env: &Env, id: &Address, f: impl FnOnce(&mut Env) -> T) -> T {
    let mut e = env.clone();
    env.as_contract(id, || f(&mut e))
}

#[test]
fn a_threshold_defaults_to_one_and_must_be_at_least_one() {
    let env = fresh_env();
    let id = contract(&env);
    let user = Address::generate(&env);

    assert_eq!(run(&env, &id, |e| AuthContract::threshold_of(e, &user)), 1);
    assert_eq!(run(&env, &id, |e| AuthContract::set_threshold(e, &user, 0)), Err(Error::BadThreshold));
    assert_eq!(Error::BadThreshold.code(), 7);
    assert_eq!(run(&env, &id, |e| AuthContract::threshold_of(e, &user)), 1);
    assert_eq!(run(&env, &id, |e| AuthContract::set_threshold(e, &user, 3)), Ok(()));
    assert_eq!(run(&env, &id, |e| AuthContract::set_threshold(e, &user, 2)), Ok(()));
    assert_eq!(run(&env, &id, |e| AuthContract::threshold_of(e, &user)), 2);
}

#[test]
fn a_signature_check_needs_a_registered_key() {
    let env = fresh_env();
    let id = contract(&env);
    let user = Address::generate(&env);

    assert!(!run(&env, &id, |e| AuthContract::has_key(e, &user)));
    let r = run(&env, &id, |e| AuthContract::verify_sig(e, &user, b"abc", &[7u8; 64]));
    assert!(matches!(r, Err(Error::NoKey)));
    assert_eq!(Error::NoKey.code(), 6);
}

#[test]
fn a_signature_check_uses_the_registered_key_and_the_sha256_of_the_message() {
    let env = fresh_env();
    let id = contract(&env);
    let user = Address::generate(&env);

    let mut pubkey = [0u8; 65];
    pubkey[0] = 4;
    for (i, b) in pubkey.iter_mut().enumerate().skip(1) {
        *b = i as u8;
    }
    run(&env, &id, |e| AuthContract::register_key(e, &user, &pubkey));
    assert_eq!(run(&env, &id, |e| auth::key_of(e, &user)), Some(pubkey));

    let signature = [9u8; 64];
    let check = run(&env, &id, |e| AuthContract::verify_sig(e, &user, b"abc", &signature));
    let check = match check {
        Ok(c) => c,
        Err(e) => panic!("unexpected {:?}", e),
    };
    assert_eq!(check.public_key, pubkey);
    assert_eq!(check.signature, signature);
    // SHA-256("abc")
    let expected: [u8; 32] = [
        0xba, 0x78, 0x16, 0xbf, 0x8f, 0x01, 0xcf, 0xea, 0x41, 0x41, 0x40, 0xde, 0x5d, 0xae, 0x22,
        0x23, 0xb0, 0x03, 0x61, 0xa3, 0x96, 0x17, 0x7a, 0x9c, 0xb4, 0x10, 0xff, 0x61, 0xf2, 0x00,
        0x15, 0xad,
    ];
    assert_eq!(check.digest, expected);
}

#[test]
fn a_second_registration_replaces_the_key() {
    let env = fresh_env();
    let id = contract(&env);
    let user = Address::generate(&env);

    run(&env, &id, |e| AuthContract::register_key(e, &user, &[4u8; 65]));
    run(&env, &id, |e| AuthContract::register_key(e, &user, &[5u8; 65]));
    assert_eq!(run(&env, &id, |e| auth::key_of(e, &user)), Some([5u8; 65]));
}
