//! The daily spending cap.
//!
//! A user's limit lives in persistent storage; what they have spent today
//! lives in temporary storage as a pair: the day bucket the total belongs to
//! and the total itself. A total whose bucket is not today's counts as zero,
//! so the budget refills by itself when the day turns.
use crate::error::Error;
use crate::host;
use crate::host::{
    ask_registry, extend_day_mark_ttl, extend_day_total_ttl, extend_drip_ttl, extend_instance_ttl,
    extend_limit_ttl, extend_pubkey_ttl, is_contract_address, ledger_sequence, load_day_mark, load_day_total,
    load_limit, save_day_mark, save_day_total, save_limit, storage_max_ttl, Family,
};
use soroban_sdk::{Address, Env, InvokeError};
use vstd::prelude::*;

verus! {

/// Ledger sequences per day (about 5 s per ledger).
pub const LEDGERS_PER_DAY: u32 = 17_280;

/// How long a day's running total is kept alive: two days, so a total written
/// just before midnight is still readable for the whole of the next day.
pub const TTL: u32 = LEDGERS_PER_DAY * 2;

/// How long the contract instance and its persistent entries are kept alive.
pub const INSTANCE_TTL: u32 = LEDGERS_PER_DAY * 30;

/// The remaining lifetime below which an entry is topped up.
pub const INSTANCE_BUMP_AT: u32 = LEDGERS_PER_DAY * 7;

// -- the model --------------------------------------------------------------

/// The day a ledger sequence falls in.
pub open spec fn day_of(sequence: u32) -> u32 {
    sequence / LEDGERS_PER_DAY
}

/// What was spent on `today`, given the stored day bucket and running total.
/// A missing bucket reads as day 0 and a missing total as 0; a total from
/// another day counts for nothing.
pub open spec fn spent_on(today: u32, mark: Option<u32>, total: Option<i128>) -> i128 {
    let stored_day = match mark {
        Some(d) => d,
        None => 0,
    };
    if stored_day == today {
        match total {
            Some(t) => t,
            None => 0,
        }
    } else {
        0
    }
}

/// What a guarded spend of `amount` does, given the user's limit and what
/// they already spent today:
///   - `Err(BadAmount)` when `amount` is not positive;
///   - `Ok(None)` when the user set no limit: nothing is enforced or recorded;
///   - `Err(Overflow)` when the running total would leave `i128`;
///   - `Err(LimitExceeded)` when it would pass the limit;
///   - otherwise `Ok(Some(total))`, the new running total.
pub open spec fn spend_decision(amount: i128, limit: Option<i128>, spent: i128) -> Result<
    Option<i128>,
    Error,
> {
    if amount <= 0 {
        Err(Error::BadAmount)
    } else {
        match limit {
            None => Ok(None),
            Some(l) => {
                let total = spent + amount;
                if total < i128::MIN || total > i128::MAX {
                    Err(Error::Overflow)
                } else if total > l {
                    Err(Error::LimitExceeded)
                } else {
                    Ok(Some(total as i128))
                }
            },
        }
    }
}

/// What `user` spent on `today` in the storage of `env`.
pub open spec fn spent_in(env: Env, user: Address, today: u32) -> i128 {
    spent_on(today, host::day_marks(env).get(user), host::day_totals(env).get(user))
}

/// Nothing but the day book (day buckets and running totals) differs, in one
/// invocation.
pub open spec fn only_day_book_changed(a: Env, b: Env) -> bool {
    &&& host::same_invocation(a, b)
    &&& host::limits(a) == host::limits(b)
    &&& host::drips(a) == host::drips(b)
    &&& host::pubkeys(a) == host::pubkeys(b)
    &&& host::thresholds(a) == host::thresholds(b)
    &&& host::admin_of(a) == host::admin_of(b)
}

/// Whether the day book has room for a spend of `amount` by `user` on day
/// `today`: a spend that would be recorded needs the network to allow the two
/// days ([`TTL`]) that its day entries are kept for. Where it does not, the
/// host refuses to extend them and the invocation traps.
pub open spec fn room_for_day_book(env: Env, user: Address, amount: i128, today: u32) -> bool {
    spend_decision(amount, host::limits(env).get(user), spent_in(env, user, today)) is Ok
        && spend_decision(amount, host::limits(env).get(user), spent_in(env, user, today))->Ok_0 is Some
        ==> TTL <= host::max_ttl(env)
}

/// What keeping an entry alive guarantees of its TTL afterwards, whatever it
/// was: more than the bump threshold, or the full lifetime (capped by the
/// network's maximum `max`).
pub open spec fn kept_alive(ttl: u32, max: u32) -> bool {
    ttl > INSTANCE_BUMP_AT || ttl >= host::extended(0, INSTANCE_BUMP_AT, INSTANCE_TTL, max)
}

/// From `a` to `b` only the instance's TTL was kept alive.
pub open spec fn instance_bumped(a: Env, b: Env) -> bool {
    &&& host::values_unchanged(a, b)
    &&& host::entry_ttls_unchanged(a, b)
    &&& host::max_ttl(b) == host::max_ttl(a)
    &&& host::instance_ttl(b) == host::extended(
        host::instance_ttl(a),
        INSTANCE_BUMP_AT,
        INSTANCE_TTL,
        host::max_ttl(a),
    )
}

/// The TTL of `user`'s limit entry was kept alive from `a` to `b`, and no
/// other entry's TTL changed.
pub open spec fn limit_refreshed(a: Env, b: Env, user: Address) -> bool {
    &&& host::entry_ttls_unchanged_except(a, b, Family::Limit, user)
    &&& host::limit_ttls(b) == host::limit_ttls(a).insert(
        user,
        host::extended(host::limit_ttls(a)[user], INSTANCE_BUMP_AT, INSTANCE_TTL, host::max_ttl(a)),
    )
}

/// The effect of `set_limit(user, new_limit)` taking `a` to `b` with result
/// `r`: a limit that is not positive is refused and changes nothing; any
/// other is stored, and it and the instance are kept alive.
pub open spec fn set_limit_post(a: Env, b: Env, user: Address, new_limit: i128, r: Result<(), Error>) -> bool {
    if new_limit <= 0 {
        r == Err::<(), Error>(Error::BadAmount) && b == a
    } else {
        &&& r == Ok::<(), Error>(())
        &&& host::limits(b) == host::limits(a).insert(user, new_limit)
        &&& host::unchanged_except(a, b, Family::Limit)
        &&& host::entry_ttls_unchanged_except(a, b, Family::Limit, user)
        &&& host::limit_ttls(b).contains_key(user)
        &&& kept_alive(host::limit_ttls(b)[user], host::max_ttl(a))
        &&& host::instance_ttl(b) == host::extended(
            host::instance_ttl(a),
            INSTANCE_BUMP_AT,
            INSTANCE_TTL,
            host::max_ttl(a),
        )
        &&& host::max_ttl(b) == host::max_ttl(a)
    }
}

/// The effect of `limit_of(user)` taking `a` to `b` with result `r`: it reads
/// the limit, and keeps a limit that it finds alive.
pub open spec fn limit_of_post(a: Env, b: Env, user: Address, r: Option<i128>) -> bool {
    &&& r == host::limits(a).get(user)
    &&& host::values_unchanged(a, b)
    &&& host::instance_ttl(b) == host::instance_ttl(a)
    &&& host::max_ttl(b) == host::max_ttl(a)
    &&& match r {
        None => host::entry_ttls_unchanged(a, b),
        Some(_) => limit_refreshed(a, b, user),
    }
}

/// The effect of a guarded spend of `amount` by `user` on day `today`, taking
/// storage `a` to `b` with result `r`:
///   - a refused spend changes nothing;
///   - an unguarded one only keeps the instance alive;
///   - an accepted one records today's bucket and the new total, touches no
///     other value, keeps the instance and the limit alive, and leaves both
///     day entries live for at least two days ([`TTL`]).
pub open spec fn record_spend_post(
    a: Env,
    b: Env,
    user: Address,
    amount: i128,
    today: u32,
    r: Result<(), Error>,
) -> bool {
    match spend_decision(amount, host::limits(a).get(user), spent_in(a, user, today)) {
        Err(e) => r == Err::<(), Error>(e) && b == a,
        Ok(None) => r == Ok::<(), Error>(()) && instance_bumped(a, b),
        Ok(Some(total)) => {
            &&& r == Ok::<(), Error>(())
            &&& host::day_marks(b) == host::day_marks(a).insert(user, today)
            &&& host::day_totals(b) == host::day_totals(a).insert(user, total)
            &&& only_day_book_changed(a, b)
            &&& host::instance_ttl(b) == host::extended(
                host::instance_ttl(a),
                INSTANCE_BUMP_AT,
                INSTANCE_TTL,
                host::max_ttl(a),
            )
            &&& host::max_ttl(b) == host::max_ttl(a)
            &&& host::limit_ttls(b) == host::limit_ttls(a).insert(
                user,
                host::extended(host::limit_ttls(a)[user], INSTANCE_BUMP_AT, INSTANCE_TTL, host::max_ttl(a)),
            )
            &&& host::drip_ttls(b) == host::drip_ttls(a)
            &&& host::pubkey_ttls(b) == host::pubkey_ttls(a)
            &&& host::day_mark_ttls(b).remove(user) == host::day_mark_ttls(a).remove(user)
            &&& host::day_total_ttls(b).remove(user) == host::day_total_ttls(a).remove(user)
            &&& host::day_mark_ttls(b).contains_key(user)
            &&& host::day_total_ttls(b).contains_key(user)
            &&& host::day_mark_ttls(b)[user] >= TTL
            &&& host::day_total_ttls(b)[user] >= TTL
        },
    }
}

// -- pure steps -------------------------------------------------------------

/// The day a ledger sequence falls in.
pub fn day_of_sequence(sequence: u32) -> (r: u32)
    ensures
        r == day_of(sequence),
{
    sequence / LEDGERS_PER_DAY
}

/// What was spent on `today`, given the stored bucket and running total.
pub fn spent_on_day(today: u32, mark: Option<u32>, total: Option<i128>) -> (r: i128)
    ensures
        r == spent_on(today, mark, total),
{
    let stored_day: u32 = match mark {
        Some(d) => d,
        None => 0,
    };
    if stored_day == today {
        match total {
            Some(t) => t,
            None => 0,
        }
    } else {
        0
    }
}

/// Decide a guarded spend: see [`spend_decision`].
pub fn decide_spend(amount: i128, limit: Option<i128>, spent: i128) -> (r: Result<Option<i128>, Error>)
    ensures
        r == spend_decision(amount, limit, spent),
{
    // A negative amount would SUBTRACT from the running total and buy back
    // budget, so this check comes first.
    if amount <= 0 {
        return Err(Error::BadAmount);
    }
    // No limit set means no limit enforced: the guard is opt-in.
    let l = match limit {
        Some(l) => l,
        None => return Ok(None),
    };
    let total = match spent.checked_add(amount) {
        Some(t) => t,
        None => return Err(Error::Overflow),
    };
    if total > l {
        return Err(Error::LimitExceeded);
    }
    Ok(Some(total))
}

// -- storage ----------------------------------------------------------------

/// Keep the contract instance alive: top it up to `INSTANCE_TTL` once it
/// has `INSTANCE_BUMP_AT` ledgers or fewer left.
pub fn bump_instance(env: &mut Env)
    requires
        host::in_contract(*old(env)),
    ensures
        instance_bumped(*old(env), *final(env)),
{
    extend_instance_ttl(env, INSTANCE_BUMP_AT, INSTANCE_TTL);
}

/// A persistent entry that is kept alive on use.
pub enum PersistentKey<'a> {
    Limit(&'a Address),
    Drip(&'a Address),
    PubKey(&'a Address),
}

/// Whether the entry `key` is present, with its TTL, in the storage of `env`.
pub open spec fn is_stored(env: Env, key: PersistentKey) -> bool {
    match key {
        PersistentKey::Limit(user) => host::limits(env).contains_key(*user) && host::limit_ttls(
            env,
        ).contains_key(*user),
        PersistentKey::Drip(drip) => host::drips(env).contains_key(*drip) && host::drip_ttls(
            env,
        ).contains_key(*drip),
        PersistentKey::PubKey(user) => host::pubkeys(env).contains_key(*user)
            && host::pubkey_ttls(env).contains_key(*user),
    }
}

/// From `a` to `b` only the TTL of the entry `key` was kept alive: topped up
/// to `INSTANCE_TTL` (capped by the network's maximum) if it had
/// `INSTANCE_BUMP_AT` ledgers or fewer left.
pub open spec fn persistent_bumped(a: Env, b: Env, key: PersistentKey) -> bool {
    &&& host::values_unchanged(a, b)
    &&& host::instance_ttl(b) == host::instance_ttl(a)
    &&& host::max_ttl(b) == host::max_ttl(a)
    &&& match key {
        PersistentKey::Limit(user) => limit_refreshed(a, b, *user),
        PersistentKey::Drip(drip) => {
            &&& host::entry_ttls_unchanged_except(a, b, Family::Drip, *drip)
            &&& host::drip_ttls(b) == host::drip_ttls(a).insert(
                *drip,
                host::extended(host::drip_ttls(a)[*drip], INSTANCE_BUMP_AT, INSTANCE_TTL, host::max_ttl(a)),
            )
        },
        PersistentKey::PubKey(user) => {
            &&& host::entry_ttls_unchanged_except(a, b, Family::PubKey, *user)
            &&& host::pubkey_ttls(b) == host::pubkey_ttls(a).insert(
                *user,
                host::extended(host::pubkey_ttls(a)[*user], INSTANCE_BUMP_AT, INSTANCE_TTL, host::max_ttl(a)),
            )
        },
    }
}

/// Keep a persistent entry alive.
///
/// A limit that nothing extends would eventually be archived, and a missing
/// limit reads as "no limit": the guard would quietly stop guarding.
pub fn bump_persistent(env: &mut Env, key: PersistentKey)
    requires
        host::in_contract(*old(env)),
        is_stored(*old(env), key),
    ensures
        persistent_bumped(*old(env), *final(env), key),
{
    match key {
        PersistentKey::Limit(user) => extend_limit_ttl(env, user, INSTANCE_BUMP_AT, INSTANCE_TTL),
        PersistentKey::Drip(drip) => extend_drip_ttl(env, drip, INSTANCE_BUMP_AT, INSTANCE_TTL),
        PersistentKey::PubKey(user) => extend_pubkey_ttl(env, user, INSTANCE_BUMP_AT, INSTANCE_TTL),
    }
}

/// Set `user`'s daily spending limit. It must be positive: a negative limit
/// would make every spend fail and a zero one is a freeze.
pub fn set_limit(env: &mut Env, user: &Address, new_limit: i128) -> (r: Result<(), Error>)
    requires
        host::in_contract(*old(env)),
    ensures
        set_limit_post(*old(env), *final(env), *user, new_limit, r),
{
    if new_limit <= 0 {
        return Err(Error::BadAmount);
    }
    bump_instance(env);
    save_limit(env, user, new_limit);
    bump_persistent(env, PersistentKey::Limit(user));
    Ok(())
}

/// `user`'s limit, if they have set one. `None` means unguarded.
///
/// Reading is also using: a limit that is found is kept alive.
pub fn limit_of(env: &mut Env, user: &Address) -> (r: Option<i128>)
    requires
        host::in_contract(*old(env)),
    ensures
        limit_of_post(*old(env), *final(env), *user, r),
{
    let found = load_limit(env, user);
    if found.is_some() {
        bump_persistent(env, PersistentKey::Limit(user));
    }
    found
}

/// What `user` has spent against the budget of day `today`, ignoring a total
/// left over from another day.
pub fn spent_today_on(env: &Env, user: &Address, today: u32) -> (r: i128)
    requires
        host::in_contract(*env),
    ensures
        r == spent_in(*env, *user, today),
{
    let mark = load_day_mark(env, user);
    let total = load_day_total(env, user);
    spent_on_day(today, mark, total)
}

/// What `user` has spent against today's budget.
pub fn spent_today(env: &Env, user: &Address) -> (r: i128)
    requires
        host::in_contract(*env),
    ensures
        r == spent_in(*env, *user, day_of(host::ledger_seq(*env))),
{
    let sequence = ledger_sequence(env);
    let today = day_of_sequence(sequence);
    spent_today_on(env, user, today)
}

/// Whether the day book has room for a spend of `amount` by `user` on day
/// `today`: see [`room_for_day_book`].
pub fn day_book_fits(env: &Env, user: &Address, amount: i128, today: u32) -> (r: bool)
    requires
        host::in_contract(*env),
    ensures
        r == room_for_day_book(*env, *user, amount, today),
{
    let limit = load_limit(env, user);
    let spent = spent_today_on(env, user, today);
    match decide_spend(amount, limit, spent) {
        Ok(Some(_)) => TTL <= storage_max_ttl(env),
        _ => true,
    }
}

/// Record a guarded spend of `amount` by `user` on day `today`, enforcing the
/// daily limit: see [`record_spend_post`]. A spend that would be recorded
/// needs the network to allow its day entries two days
/// ([`room_for_day_book`]): the host traps otherwise.
pub fn check_and_record_on(env: &mut Env, user: &Address, amount: i128, today: u32) -> (r: Result<(), Error>)
    requires
        host::in_contract(*old(env)),
        room_for_day_book(*old(env), *user, amount, today),
    ensures
        record_spend_post(*old(env), *final(env), *user, amount, today, r),
{
    let limit = load_limit(env, user);
    let spent = spent_today_on(env, user, today);
    let decision = decide_spend(amount, limit, spent);
    let total = match decision {
        Err(e) => return Err(e),
        Ok(None) => {
            bump_instance(env);
            return Ok(());
        },
        Ok(Some(t)) => t,
    };
    bump_instance(env);
    // A found limit is being enforced, so it is kept alive.
    bump_persistent(env, PersistentKey::Limit(user));
    // Two days, so a total written just before midnight is still readable for
    // the whole of the next day.
    save_day_mark(env, user, today);
    extend_day_mark_ttl(env, user, TTL, TTL);
    save_day_total(env, user, total);
    extend_day_total_ttl(env, user, TTL, TTL);
    Ok(())
}

/// Record a guarded spend of `amount` by `user` today, enforcing the daily
/// limit: [`check_and_record_on`] for the day the ledger is in.
pub fn check_and_record(env: &mut Env, user: &Address, amount: i128) -> (r: Result<(), Error>)
    requires
        host::in_contract(*old(env)),
        room_for_day_book(*old(env), *user, amount, day_of(host::ledger_seq(*old(env)))),
    ensures
        record_spend_post(*old(env), *final(env), *user, amount, day_of(host::ledger_seq(*old(env))), r),
{
    let sequence = ledger_sequence(env);
    let today = day_of_sequence(sequence);
    check_and_record_on(env, user, amount, today)
}

/// How a transfer can fail: refused by the guard, or the registry could not
/// be asked.
#[derive(Clone, Copy, Debug, PartialEq, Eq)]
pub enum TransferError {
    /// The guard refused the spend.
    Refused(Error),
    /// The registry's address is not a contract's, so there is no one to ask.
    RegistryNotAContract,
    /// The call to the registry failed; the host's report of how.
    RegistryFailed(InvokeError),
    /// The spend would be recorded, but the network does not allow its day
    /// entries the two days they are kept for.
    NoRoomForDayBook,
}

/// The effect of a transfer of `amount` by `user` on day `today`, given
/// whether its destination is `exempt`: an amount that is not positive is
/// refused and changes nothing; a spend to an exempt destination is not
/// counted; any other is a guarded spend.
pub open spec fn transfer_post(
    a: Env,
    b: Env,
    user: Address,
    exempt: bool,
    amount: i128,
    today: u32,
    r: Result<(), Error>,
) -> bool {
    if amount <= 0 {
        r == Err::<(), Error>(Error::BadAmount) && b == a
    } else if exempt {
        r == Ok::<(), Error>(()) && b == a
    } else {
        record_spend_post(a, b, user, amount, today, r)
    }
}

/// The guard's result as a transfer's result.
pub open spec fn as_transfer_result(g: Result<(), Error>) -> Result<(), TransferError> {
    match g {
        Ok(_) => Ok(()),
        Err(e) => Err(TransferError::Refused(e)),
    }
}

/// What a transfer of `amount` by `user` on day `today` does once the registry
/// has answered whether its destination is `exempt`, taking `a` to `b` with
/// result `r`: a guarded spend without room in the day book is refused with
/// `NoRoomForDayBook` and changes nothing; anything else is
/// [`transfer_post`].
pub open spec fn transfer_outcome(
    a: Env,
    b: Env,
    user: Address,
    exempt: bool,
    amount: i128,
    today: u32,
    r: Result<(), TransferError>,
) -> bool {
    if amount > 0 && !exempt && !room_for_day_book(a, user, amount, today) {
        r == Err::<(), TransferError>(TransferError::NoRoomForDayBook) && b == a
    } else {
        match r {
            Ok(()) => transfer_post(a, b, user, exempt, amount, today, Ok(())),
            Err(TransferError::Refused(e)) => transfer_post(a, b, user, exempt, amount, today, Err(e)),
            _ => false,
        }
    }
}

/// The effect of `execute_transfer(user, registry, to, amount)` taking `a` to
/// `b` with result `r`:
///   - an amount that is not positive is refused with `BadAmount`, and
///     nothing changes;
///   - so is a `registry` that is not a contract's address;
///   - if the call to the registry fails, the result is that failure, and
///     nothing of this contract changes but, possibly, its instance's TTL;
///   - otherwise the registry replied whether `to` is exempt, and the transfer
///     is [`transfer_outcome`] from the state after that call, on the day of
///     the ledger.
pub open spec fn execute_transfer_post(
    a: Env,
    b: Env,
    user: Address,
    registry: Address,
    to: Address,
    amount: i128,
    r: Result<(), TransferError>,
) -> bool {
    if amount <= 0 {
        r == Err::<(), TransferError>(TransferError::Refused(Error::BadAmount)) && b == a
    } else if !host::names_contract(registry) {
        r == Err::<(), TransferError>(TransferError::RegistryNotAContract) && b == a
    } else {
        match r {
            Err(TransferError::RegistryFailed(e)) => host::only_instance_extended(a, b)
                && host::registry_replies(a, registry, to, Err(e)),
            _ => exists|mid: Env, exempt: bool|
                #[trigger] transfer_outcome(mid, b, user, exempt, amount, day_of(host::ledger_seq(a)), r)
                    && host::only_instance_extended(a, mid)
                    && host::registry_replies(a, registry, to, Ok(exempt)),
        }
    }
}

/// A transfer by `user` of `amount` on day `today` to a destination that the
/// registry does (`exempt`) or does not exempt: see [`transfer_post`].
pub fn execute_transfer_on(env: &mut Env, user: &Address, exempt: bool, amount: i128, today: u32) -> (r: Result<(), Error>)
    requires
        host::in_contract(*old(env)),
        !exempt ==> room_for_day_book(*old(env), *user, amount, today),
    ensures
        transfer_post(*old(env), *final(env), *user, exempt, amount, today, r),
{
    // A negative amount would buy back budget; it is refused whatever the
    // destination.
    if amount <= 0 {
        return Err(Error::BadAmount);
    }
    if exempt {
        return Ok(());
    }
    check_and_record_on(env, user, amount, today)
}

/// A transfer by `user` of `amount` today, to a destination that the registry
/// does (`exempt`) or does not exempt.
pub fn execute_transfer_given(env: &mut Env, user: &Address, exempt: bool, amount: i128) -> (r: Result<(), TransferError>)
    requires
        host::in_contract(*old(env)),
    ensures
        transfer_outcome(*old(env), *final(env), *user, exempt, amount, day_of(host::ledger_seq(*old(env))), r),
{
    let sequence = ledger_sequence(env);
    let today = day_of_sequence(sequence);
    if amount > 0 && !exempt && !day_book_fits(env, user, amount, today) {
        return Err(TransferError::NoRoomForDayBook);
    }
    match execute_transfer_on(env, user, exempt, amount, today) {
        Ok(()) => Ok(()),
        Err(e) => Err(TransferError::Refused(e)),
    }
}

/// A transfer by `user` of `amount` to `to`: refuses an amount that is not
/// positive, asks the registry at `registry` whether `to` is exempt, then
/// records it as [`execute_transfer_given`] does. See
/// [`execute_transfer_post`].
pub fn execute_transfer(env: &mut Env, user: &Address, registry: &Address, to: &Address, amount: i128) -> (r: Result<(), TransferError>)
    requires
        host::in_contract(*old(env)),
    ensures
        execute_transfer_post(*old(env), *final(env), *user, *registry, *to, amount, r),
{
    if amount <= 0 {
        return Err(TransferError::Refused(Error::BadAmount));
    }
    if !is_contract_address(registry) {
        return Err(TransferError::RegistryNotAContract);
    }
    let ghost before = *env;
    let exempt = match ask_registry(env, registry, to) {
        Ok(answer) => answer,
        Err(failure) => return Err(TransferError::RegistryFailed(failure)),
    };
    let ghost mid = *env;
    let r = execute_transfer_given(env, user, exempt, amount);
    assert(transfer_outcome(mid, *env, *user, exempt, amount, day_of(host::ledger_seq(before)), r));
    r
}

} // verus!
