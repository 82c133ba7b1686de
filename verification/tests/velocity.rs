//! The daily spending cap, which is the product.

use soroban_sdk::testutils::{Address as _, Ledger as _};
use soroban_sdk::testutils::storage::{Instance as _, Persistent as _, Temporary as _};
use soroban_sdk::testutils::{ContractFunctionSet, EnvTestConfig};
use soroban_sdk::address_payload::AddressPayload;
use soroban_sdk::{Address, BytesN, Env, IntoVal, Symbol, TryFromVal, Val};
use stellar_shield::guard;
use stellar_shield::{Error, GuardContract, RegistryContract, TransferError};

/// A test host that writes no snapshot files.
fn fresh_env() -> Env {
    Env::new_with_config(EnvTestConfig {
        capture_snapshot_at_drop: false,
    })
}

const LEDGERS_PER_DAY: u32 = 17_280;

/// A deployed registry: answers `is_trusted_drip` from its own storage.
struct Registry;

impl ContractFunctionSet for Registry {
    fn call(&self, func: &str, env: Env, args: &[Val]) -> Option<Val> {
        match func {
            "is_trusted_drip" => {
                let drip = Address::try_from_val(&env, &args[0]).ok()?;
                Some(RegistryContract::is_trusted_drip(&env, &drip).into_val(&env))
            }
            _ => None,
        }
    }
}

/// A deployed guard; its entrypoints are run with `as_contract`.
struct Guard;

impl ContractFunctionSet for Guard {
    fn call(&self, _func: &str, _env: Env, _args: &[Val]) -> Option<Val> {
        None
    }
}

struct World {
    env: Env,
    guard: Address,
    registry: Address,
    user: Address,
    to: Address,
}

fn world() -> World {
    let env = fresh_env();
    env.mock_all_auths();
    // Fix the network's maximum entry lifetime at 90 days, above every TTL
    // these contracts ask for, before anything is written.
    env.ledger().with_mut(|li| {
        li.max_entry_ttl = LEDGERS_PER_DAY * 90;
    });
    let guard = env.register(Guard, ());
    let registry = env.register(Registry, ());
    let admin = Address::generate(&env);
    let user = Address::generate(&env);
    let to = Address::generate(&env);
    let w = World { env, guard, registry, user, to };
    assert_eq!(w.in_registry(|e| RegistryContract::init(e, &admin)), Ok(()));
    w
}

impl World {
    /// Run `f` as the guard.
    fn run<T>(&self, f: impl FnOnce(&mut Env) -> T) -> T {
        let mut e = self.env.clone();
        self.env.as_contract(&self.guard, || f(&mut e))
    }

    /// Run `f` as the registry.
    fn in_registry<T>(&self, f: impl FnOnce(&mut Env) -> T) -> T {
        let mut e = self.env.clone();
        self.env.as_contract(&self.registry, || f(&mut e))
    }

    fn set_limit(&self, limit: i128) -> Result<(), Error> {
        self.run(|e| GuardContract::set_limit(e, &self.user, limit))
    }

    /// A transfer to `self.to`, the guard asking the registry.
    fn transfer(&self, amount: i128) -> Result<(), TransferError> {
        self.run(|e| GuardContract::execute_transfer(e, &self.user, &self.registry, &self.to, amount))
    }

    fn spent_today(&self) -> i128 {
        self.run(|e| GuardContract::spent_today(e, &self.user))
    }

    fn limit_of(&self) -> Option<i128> {
        self.run(|e| GuardContract::limit_of(e, &self.user))
    }
}

#[test]
fn a_spend_inside_the_limit_is_recorded() {
    let w = world();
    assert_eq!(w.set_limit(500), Ok(()));
    assert_eq!(w.transfer(300), Ok(()));
    assert_eq!(w.spent_today(), 300);
    assert_eq!(w.limit_of(), Some(500));
}

#[test]
fn the_limit_is_a_running_daily_total_not_a_per_spend_cap() {
    let w = world();
    assert_eq!(w.set_limit(100), Ok(()));
    assert_eq!(w.transfer(80), Ok(()));
    assert_eq!(w.transfer(30), Err(TransferError::Refused(Error::LimitExceeded)));
    assert_eq!(Error::LimitExceeded.code(), 4);
    // The refused spend was not counted.
    assert_eq!(w.spent_today(), 80);
}

#[test]
fn a_negative_spend_cannot_buy_back_budget() {
    let w = world();
    assert_eq!(w.set_limit(100), Ok(()));
    assert_eq!(w.transfer(90), Ok(()));
    assert_eq!(w.transfer(-1000), Err(TransferError::Refused(Error::BadAmount)));
    assert_eq!(Error::BadAmount.code(), 3);
    assert_eq!(w.spent_today(), 90);
}

#[test]
fn a_zero_spend_is_refused_rather_than_silently_recorded() {
    let w = world();
    assert_eq!(w.set_limit(100), Ok(()));
    assert_eq!(w.transfer(0), Err(TransferError::Refused(Error::BadAmount)));
    assert_eq!(w.spent_today(), 0);
}

#[test]
fn a_limit_must_be_positive() {
    let w = world();
    assert_eq!(w.set_limit(-1), Err(Error::BadAmount));
    assert_eq!(w.set_limit(0), Err(Error::BadAmount));
    assert_eq!(w.limit_of(), None);
}

#[test]
fn a_user_who_set_no_limit_is_unguarded_and_that_is_deliberate() {
    let w = world();
    assert_eq!(w.limit_of(), None);
    assert_eq!(w.transfer(1_000_000), Ok(()));
    // Nothing recorded, because nothing was being enforced.
    assert_eq!(w.spent_today(), 0);
}

#[test]
fn the_budget_refills_the_next_day() {
    let w = world();
    assert_eq!(w.set_limit(100), Ok(()));
    assert_eq!(w.transfer(100), Ok(()));
    assert_eq!(w.spent_today(), 100);

    // Move to tomorrow.
    w.env
        .ledger()
        .with_mut(|li| li.sequence_number = LEDGERS_PER_DAY + 1);
    assert_eq!(w.spent_today(), 0, "yesterday's total is not today's");
    assert_eq!(w.transfer(100), Ok(()));
}

#[test]
fn a_running_total_that_would_overflow_is_refused_not_wrapped() {
    let w = world();
    assert_eq!(w.set_limit(i128::MAX), Ok(()));
    assert_eq!(w.transfer(i128::MAX), Ok(()));
    assert_eq!(w.transfer(1), Err(TransferError::Refused(Error::Overflow)));
    assert_eq!(Error::Overflow.code(), 5);
    assert_eq!(w.spent_today(), i128::MAX);
}

/// The registry's flag is what decides whether the guard counts a spend.
#[test]
fn a_whitelisted_destination_really_does_bypass_the_cap() {
    let w = world();
    assert_eq!(w.set_limit(10), Ok(()));
    assert_eq!(w.in_registry(|e| RegistryContract::add_trusted_drip(e, &w.to)), Ok(()));

    // Far over the limit, straight through.
    assert_eq!(w.transfer(10_000), Ok(()));
    assert_eq!(w.spent_today(), 0, "an exempt spend is not counted");
}

#[test]
fn withdrawing_an_exemption_puts_the_cap_back() {
    let w = world();
    assert_eq!(w.set_limit(10), Ok(()));
    assert_eq!(w.in_registry(|e| RegistryContract::add_trusted_drip(e, &w.to)), Ok(()));
    assert_eq!(w.transfer(10_000), Ok(()));

    assert_eq!(w.in_registry(|e| RegistryContract::remove_trusted_drip(e, &w.to)), Ok(()));
    assert_eq!(w.transfer(10_000), Err(TransferError::Refused(Error::LimitExceeded)));
}

#[test]
fn spends_accumulate_up_to_the_limit_exactly() {
    let w = world();
    assert_eq!(w.set_limit(100), Ok(()));
    assert_eq!(w.transfer(40), Ok(()));
    assert_eq!(w.transfer(60), Ok(()));
    assert_eq!(w.spent_today(), 100);
    assert_eq!(w.transfer(1), Err(TransferError::Refused(Error::LimitExceeded)));
}

#[test]
fn a_lowered_limit_applies_to_the_next_spend() {
    let w = world();
    assert_eq!(w.set_limit(100), Ok(()));
    assert_eq!(w.transfer(50), Ok(()));
    assert_eq!(w.set_limit(60), Ok(()));
    assert_eq!(w.limit_of(), Some(60));
    assert_eq!(w.transfer(20), Err(TransferError::Refused(Error::LimitExceeded)));
    assert_eq!(w.transfer(10), Ok(()));
    assert_eq!(w.spent_today(), 60);
}

#[test]
fn an_amount_to_an_exempt_destination_must_still_be_positive() {
    // Amounts must be greater than zero, whatever the destination.
    let w = world();
    assert_eq!(w.set_limit(10), Ok(()));
    assert_eq!(w.in_registry(|e| RegistryContract::add_trusted_drip(e, &w.to)), Ok(()));
    assert_eq!(w.transfer(-5), Err(TransferError::Refused(Error::BadAmount)));
    assert_eq!(w.transfer(0), Err(TransferError::Refused(Error::BadAmount)));
    assert_eq!(w.transfer(5), Ok(()));
    assert_eq!(w.spent_today(), 0);
}

#[test]
fn a_registry_address_that_is_not_a_contract_is_refused() {
    let w = world();
    assert_eq!(w.set_limit(100), Ok(()));
    assert_eq!(w.transfer(40), Ok(()));
    let account = Address::from_payload(
        &w.env,
        AddressPayload::AccountIdPublicKeyEd25519(BytesN::from_array(&w.env, &[7u8; 32])),
    );
    let r = w.run(|e| GuardContract::execute_transfer(e, &w.user, &account, &w.to, 10));
    assert_eq!(r, Err(TransferError::RegistryNotAContract));
    // The amount is checked first.
    let r = w.run(|e| GuardContract::execute_transfer(e, &w.user, &account, &w.to, 0));
    assert_eq!(r, Err(TransferError::Refused(Error::BadAmount)));
    assert_eq!(w.spent_today(), 40);
}

#[test]
fn a_registry_that_cannot_answer_changes_nothing() {
    let w = world();
    assert_eq!(w.set_limit(100), Ok(()));
    assert_eq!(w.transfer(40), Ok(()));
    // The guard itself has no `is_trusted_drip`.
    let r = w.run(|e| GuardContract::execute_transfer(e, &w.user, &w.guard, &w.to, 10));
    assert!(matches!(r, Err(TransferError::RegistryFailed(_))));
    let stranger = Address::generate(&w.env);
    let r = w.run(|e| GuardContract::execute_transfer(e, &w.user, &stranger, &w.to, 10));
    assert!(matches!(r, Err(TransferError::RegistryFailed(_))));
    assert_eq!(w.spent_today(), 40);
}

#[test]
fn one_users_spending_is_not_counted_against_another() {
    let w = world();
    let other = Address::generate(&w.env);
    assert_eq!(w.set_limit(100), Ok(()));
    assert_eq!(w.run(|e| GuardContract::set_limit(e, &other, 50)), Ok(()));
    assert_eq!(w.transfer(90), Ok(()));
    assert_eq!(w.run(|e| GuardContract::spent_today(e, &other)), 0);
    assert_eq!(
        w.run(|e| GuardContract::execute_transfer(e, &other, &w.registry, &w.to, 50)),
        Ok(())
    );
    assert_eq!(w.spent_today(), 90);
    assert_eq!(w.run(|e| GuardContract::limit_of(e, &other)), Some(50));
    assert_eq!(w.limit_of(), Some(100));
}

/// The TTLs of the user's limit and day entries and of the guard's instance.
fn lifetimes(w: &World) -> (u32, u32, u32, u32) {
    w.env.as_contract(&w.guard, || {
        let s = w.env.storage();
        let limit = s.persistent().get_ttl(&(Symbol::new(&w.env, "limit"), w.user.clone()));
        let day = s.temporary().get_ttl(&(Symbol::new(&w.env, "day"), w.user.clone()));
        let spent = s.temporary().get_ttl(&(Symbol::new(&w.env, "spent"), w.user.clone()));
        (limit, day, spent, s.instance().get_ttl())
    })
}

#[test]
fn a_recorded_day_outlives_the_day_and_the_limit_stays_alive() {
    let w = world();
    assert_eq!(w.set_limit(100), Ok(()));
    assert_eq!(w.transfer(10), Ok(()));
    let (limit, day, spent, instance) = lifetimes(&w);
    assert_eq!(day, 2 * LEDGERS_PER_DAY);
    assert_eq!(spent, 2 * LEDGERS_PER_DAY);
    assert_eq!(limit, 30 * LEDGERS_PER_DAY);
    assert_eq!(instance, 30 * LEDGERS_PER_DAY);

    // Three weeks on, reading the limit tops it up again.
    w.env
        .ledger()
        .with_mut(|li| li.sequence_number = 24 * LEDGERS_PER_DAY);
    assert_eq!(w.limit_of(), Some(100));
    let limit = w.env.as_contract(&w.guard, || {
        w.env
            .storage()
            .persistent()
            .get_ttl(&(Symbol::new(&w.env, "limit"), w.user.clone()))
    });
    assert_eq!(limit, 30 * LEDGERS_PER_DAY);
}

#[test]
fn a_network_lifetime_shorter_than_the_day_book_refuses_the_spend() {
    let w = world();
    assert_eq!(w.set_limit(100), Ok(()));
    w.env.ledger().with_mut(|li| li.max_entry_ttl = LEDGERS_PER_DAY);
    let max = w.env.as_contract(&w.guard, || w.env.storage().max_ttl());
    assert!(max < 2 * LEDGERS_PER_DAY);
    // The day entries could not be kept for two days: nothing is recorded.
    assert_eq!(w.transfer(10), Err(TransferError::NoRoomForDayBook));
    assert_eq!(w.spent_today(), 0);
    // A spend that is refused anyway is refused as before.
    assert_eq!(w.transfer(1_000), Err(TransferError::Refused(Error::LimitExceeded)));
    assert_eq!(w.transfer(0), Err(TransferError::Refused(Error::BadAmount)));
    // An exempt destination needs no day book.
    assert_eq!(w.in_registry(|e| RegistryContract::add_trusted_drip(e, &w.to)), Ok(()));
    assert_eq!(w.transfer(10), Ok(()));
    assert_eq!(w.limit_of(), Some(100));
}

#[test]
fn the_last_limit_set_is_read_back_whatever_spends_follow() {
    let w = world();
    let other = Address::generate(&w.env);
    assert_eq!(w.set_limit(100), Ok(()));
    assert_eq!(w.transfer(30), Ok(()));
    assert_eq!(w.set_limit(70), Ok(()));
    assert_eq!(w.transfer(10), Ok(()));
    assert_eq!(w.transfer(100), Err(TransferError::Refused(Error::LimitExceeded)));
    assert_eq!(w.run(|e| GuardContract::set_limit(e, &other, 5)), Ok(()));
    // A later invocation, the next day.
    w.env
        .ledger()
        .with_mut(|li| li.sequence_number = LEDGERS_PER_DAY + 7);
    assert_eq!(w.transfer(20), Ok(()));
    assert_eq!(w.limit_of(), Some(70));
    // A user who never set a limit reads none.
    let stranger = Address::generate(&w.env);
    assert_eq!(w.run(|e| GuardContract::limit_of(e, &stranger)), None);
}

#[test]
fn spends_over_several_invocations_of_one_day_add_up_under_the_limit() {
    let w = world();
    assert_eq!(w.set_limit(100), Ok(()));
    assert_eq!(w.transfer(25), Ok(()));
    w.env.ledger().with_mut(|li| li.sequence_number = 100);
    assert_eq!(w.transfer(25), Ok(()));
    assert_eq!(w.transfer(60), Err(TransferError::Refused(Error::LimitExceeded)));
    w.env
        .ledger()
        .with_mut(|li| li.sequence_number = LEDGERS_PER_DAY - 1);
    assert_eq!(w.transfer(50), Ok(()));
    assert_eq!(w.spent_today(), 100);
    assert_eq!(w.transfer(1), Err(TransferError::Refused(Error::LimitExceeded)));
    assert_eq!(w.spent_today(), 100);
}

#[test]
fn a_transfer_that_is_not_exempt_does_what_check_and_record_does() {
    // The same spends, once as transfers and once as guarded spends.
    let by_transfer = world();
    let by_spend = world();
    assert_eq!(by_transfer.set_limit(100), Ok(()));
    assert_eq!(by_spend.set_limit(100), Ok(()));
    for amount in [40i128, 70, 60, -3, 0] {
        let t = by_transfer.transfer(amount);
        let g = by_spend.run(|e| guard::check_and_record(e, &by_spend.user, amount));
        assert_eq!(t, g.map_err(TransferError::Refused));
        assert_eq!(by_transfer.spent_today(), by_spend.spent_today());
    }
    assert_eq!(by_transfer.spent_today(), 100);
}
