//! What holds of the contracts across calls, stated over the effects that the
//! entrypoints' own contracts give.
use crate::auth;
use crate::error::Error;
use crate::guard;
use crate::guard::TransferError;
use crate::history;
use crate::history::{run, valid, Call};
use crate::host;
use crate::registry;
use soroban_sdk::{Address, Env, InvokeError};
use vstd::prelude::*;

verus! {

// -- the cap ----------------------------------------------------------------

/// A limit that `set_limit` accepted is the limit that `limit_of` then reads;
/// a refused one (not positive) changes nothing.
pub proof fn a_set_limit_is_read_back(a: Env, b: Env, user: Address, new_limit: i128, r: Result<(), Error>)
    requires
        guard::set_limit_post(a, b, user, new_limit, r),
    ensures
        r is Ok <==> new_limit > 0,
        r is Ok ==> host::limits(b).get(user) == Some(new_limit),
        r is Err ==> b == a,
{
}

/// Setting one user's limit leaves every other user's limit as it was.
pub proof fn a_limit_is_per_user(a: Env, b: Env, user: Address, other: Address, new_limit: i128, r: Result<(), Error>)
    requires
        guard::set_limit_post(a, b, user, new_limit, r),
        other != user,
    ensures
        host::limits(b).get(other) == host::limits(a).get(other),
{
}

/// One user's spend leaves every other user's running total as it was.
pub proof fn a_spend_is_counted_against_its_spender_only(
    a: Env,
    b: Env,
    user: Address,
    other: Address,
    amount: i128,
    today: u32,
    day: u32,
    r: Result<(), Error>,
)
    requires
        guard::record_spend_post(a, b, user, amount, today, r),
        other != user,
    ensures
        guard::spent_in(b, other, day) == guard::spent_in(a, other, day),
{
}

/// A spend that is not positive is refused with `BadAmount` and changes
/// nothing: a negative amount cannot buy back budget.
pub proof fn a_non_positive_spend_is_refused(
    a: Env,
    b: Env,
    user: Address,
    amount: i128,
    today: u32,
    r: Result<(), Error>,
)
    requires
        guard::record_spend_post(a, b, user, amount, today, r),
        amount <= 0,
    ensures
        r == Err::<(), Error>(Error::BadAmount),
        b == a,
{
}

/// Any refused spend changes nothing at all.
pub proof fn a_refused_spend_changes_nothing(
    a: Env,
    b: Env,
    user: Address,
    amount: i128,
    today: u32,
    r: Result<(), Error>,
)
    requires
        guard::record_spend_post(a, b, user, amount, today, r),
        r is Err,
    ensures
        b == a,
{
}

/// A user who set no limit is unguarded: a positive spend goes through,
/// nothing is recorded, and only the instance is kept alive.
pub proof fn an_unguarded_spend_is_not_recorded(
    a: Env,
    b: Env,
    user: Address,
    amount: i128,
    today: u32,
    r: Result<(), Error>,
)
    requires
        guard::record_spend_post(a, b, user, amount, today, r),
        host::limits(a).get(user) == None::<i128>,
        amount > 0,
    ensures
        r == Ok::<(), Error>(()),
        host::values_unchanged(a, b),
        guard::spent_in(b, user, today) == guard::spent_in(a, user, today),
        guard::instance_bumped(a, b),
{
}

/// An accepted guarded spend adds exactly its amount to the day's running
/// total, and leaves that total within the limit.
pub proof fn an_accepted_spend_stays_within_the_limit(
    a: Env,
    b: Env,
    user: Address,
    amount: i128,
    today: u32,
    limit: i128,
)
    requires
        guard::record_spend_post(a, b, user, amount, today, Ok(())),
        host::limits(a).get(user) == Some(limit),
    ensures
        guard::spent_in(b, user, today) == guard::spent_in(a, user, today) + amount,
        guard::spent_in(b, user, today) > guard::spent_in(a, user, today),
        guard::spent_in(b, user, today) <= limit,
        host::limits(b).get(user) == Some(limit),
{
}

/// The limit is a running daily total, not a per-spend cap: after an accepted
/// spend, a second spend on the same day that would take the total past the
/// limit is refused (or, past `i128`, refused as an overflow) and changes
/// nothing.
pub proof fn the_limit_caps_the_running_total(
    a: Env,
    b: Env,
    c: Env,
    user: Address,
    first: i128,
    second: i128,
    today: u32,
    limit: i128,
    r: Result<(), Error>,
)
    requires
        host::limits(a).get(user) == Some(limit),
        guard::record_spend_post(a, b, user, first, today, Ok(())),
        guard::record_spend_post(b, c, user, second, today, r),
        second > 0,
        guard::spent_in(a, user, today) + first + second > limit,
    ensures
        r == Err::<(), Error>(Error::LimitExceeded) || r == Err::<(), Error>(Error::Overflow),
        c == b,
{
    an_accepted_spend_stays_within_the_limit(a, b, user, first, today, limit);
}

/// Two accepted spends on one day add up in the running total.
pub proof fn spends_on_one_day_accumulate(
    a: Env,
    b: Env,
    c: Env,
    user: Address,
    first: i128,
    second: i128,
    today: u32,
    limit: i128,
)
    requires
        host::limits(a).get(user) == Some(limit),
        guard::record_spend_post(a, b, user, first, today, Ok(())),
        guard::record_spend_post(b, c, user, second, today, Ok(())),
    ensures
        guard::spent_in(c, user, today) == guard::spent_in(a, user, today) + first + second,
        guard::spent_in(c, user, today) <= limit,
{
    an_accepted_spend_stays_within_the_limit(a, b, user, first, today, limit);
    an_accepted_spend_stays_within_the_limit(b, c, user, second, today, limit);
}

/// The day book outlives the day: after an accepted spend, today's bucket and
/// running total stay live for at least two days, so a total written just
/// before midnight is still readable for the whole of the next day.
pub proof fn the_day_book_outlives_the_day(
    a: Env,
    b: Env,
    user: Address,
    amount: i128,
    today: u32,
    limit: i128,
)
    requires
        host::limits(a).get(user) == Some(limit),
        guard::record_spend_post(a, b, user, amount, today, Ok(())),
    ensures
        host::day_mark_ttls(b)[user] >= guard::TTL,
        host::day_total_ttls(b)[user] >= guard::TTL,
{
}

/// An enforced limit is kept alive: a limit that is set, read, or enforced by
/// an accepted spend has more than seven days left afterwards, or the full
/// thirty (capped by the network's maximum), so it is not archived out from
/// under its user.
pub proof fn an_enforced_limit_is_kept_alive(
    a: Env,
    b: Env,
    c: Env,
    d: Env,
    user: Address,
    new_limit: i128,
    read: Option<i128>,
    amount: i128,
    today: u32,
    limit: i128,
)
    requires
        guard::set_limit_post(a, b, user, new_limit, Ok(())),
        guard::limit_of_post(b, c, user, read),
        host::limits(c).get(user) == Some(limit),
        guard::record_spend_post(c, d, user, amount, today, Ok(())),
    ensures
        guard::kept_alive(host::limit_ttls(b)[user], host::max_ttl(a)),
        read == Some(new_limit),
        guard::kept_alive(host::limit_ttls(c)[user], host::max_ttl(b)),
        guard::kept_alive(host::limit_ttls(d)[user], host::max_ttl(c)),
{
}

/// The budget refills the next day: a total recorded on one day counts for
/// nothing on any other day.
pub proof fn the_budget_refills_on_another_day(
    a: Env,
    b: Env,
    user: Address,
    amount: i128,
    today: u32,
    limit: i128,
    other_day: u32,
)
    requires
        host::limits(a).get(user) == Some(limit),
        guard::record_spend_post(a, b, user, amount, today, Ok(())),
        other_day != today,
    ensures
        guard::spent_in(b, user, other_day) == 0,
{
}

/// A guarded spend touches nothing but the day book: no limit, exemption,
/// passkey, threshold or admin changes.
pub proof fn a_spend_touches_only_the_day_book(
    a: Env,
    b: Env,
    user: Address,
    amount: i128,
    today: u32,
    r: Result<(), Error>,
)
    requires
        guard::record_spend_post(a, b, user, amount, today, r),
    ensures
        guard::only_day_book_changed(a, b),
{
}

/// An exempt destination really does bypass the cap: a transfer of a positive
/// amount to it is accepted whatever the limit, and nothing is counted.
pub proof fn an_exempt_transfer_is_not_counted(
    a: Env,
    b: Env,
    user: Address,
    amount: i128,
    today: u32,
    r: Result<(), Error>,
)
    requires
        guard::transfer_post(a, b, user, true, amount, today, r),
        amount > 0,
    ensures
        r == Ok::<(), Error>(()),
        b == a,
{
}

/// Amounts must be positive whatever the destination: a transfer of a zero or
/// negative amount is refused with `BadAmount` before the registry is asked,
/// and changes nothing.
pub proof fn a_non_positive_transfer_is_refused(
    a: Env,
    b: Env,
    user: Address,
    registry: Address,
    to: Address,
    amount: i128,
    r: Result<(), TransferError>,
)
    requires
        guard::execute_transfer_post(a, b, user, registry, to, amount, r),
        amount <= 0,
    ensures
        r == Err::<(), TransferError>(TransferError::Refused(Error::BadAmount)),
        b == a,
{
}

/// A transfer to a destination that is not exempt is a guarded spend.
pub proof fn a_transfer_that_is_not_exempt_is_guarded(
    a: Env,
    b: Env,
    user: Address,
    amount: i128,
    today: u32,
    r: Result<(), Error>,
)
    requires
        guard::transfer_post(a, b, user, false, amount, today, r),
    ensures
        guard::record_spend_post(a, b, user, amount, today, r),
{
}

// -- the registry -----------------------------------------------------------

/// What an admin-only change of an exemption stores is what
/// `is_trusted_drip` then reads, and it changes nothing but exemptions.
pub proof fn an_exemption_is_read_back(
    a: Env,
    b: Env,
    drip: Address,
    trusted: bool,
    r: Result<(), Error>,
)
    requires
        registry::admin_set_drip_post(a, b, drip, trusted, r),
        host::admin_of(a) is Some,
    ensures
        r == Ok::<(), Error>(()),
        registry::is_exempt(b, drip) == trusted,
        host::limits(b) == host::limits(a),
        host::day_marks(b) == host::day_marks(a),
        host::day_totals(b) == host::day_totals(a),
{
}

/// Changing one destination's exemption leaves every other destination's as
/// it was.
pub proof fn an_exemption_is_per_destination(
    a: Env,
    b: Env,
    drip: Address,
    other: Address,
    trusted: bool,
    r: Result<(), Error>,
)
    requires
        registry::admin_set_drip_post(a, b, drip, trusted, r),
        other != drip,
    ensures
        registry::is_exempt(b, other) == registry::is_exempt(a, other),
{
}

/// A whitelist you can remove from: adding an exemption and then withdrawing
/// it leaves the destination not exempt, so the cap applies to it again.
pub proof fn withdrawing_an_exemption_puts_the_cap_back(
    a: Env,
    b: Env,
    c: Env,
    drip: Address,
    r1: Result<(), Error>,
    r2: Result<(), Error>,
)
    requires
        host::admin_of(a) is Some,
        registry::admin_set_drip_post(a, b, drip, true, r1),
        registry::admin_set_drip_post(b, c, drip, false, r2),
    ensures
        registry::is_exempt(b, drip),
        !registry::is_exempt(c, drip),
        host::limits(c) == host::limits(a),
{
}

/// A registry with no admin refuses every exemption change rather than
/// allowing it: fail closed.
pub proof fn a_registry_with_no_admin_refuses(
    a: Env,
    b: Env,
    drip: Address,
    trusted: bool,
    r: Result<(), Error>,
)
    requires
        registry::admin_set_drip_post(a, b, drip, trusted, r),
        host::admin_of(a) is None,
    ensures
        r == Err::<(), Error>(Error::NotInitialised),
        b == a,
{
}

/// The admin cannot be quietly replaced: once `init` has run, every later
/// `init` is refused and changes nothing, and `admin` still gives the address
/// the first `init` recorded.
pub proof fn the_admin_cannot_be_replaced(
    a: Env,
    b: Env,
    c: Env,
    first: Address,
    second: Address,
    r1: Result<(), Error>,
    r2: Result<(), Error>,
)
    requires
        host::admin_of(a) is None,
        registry::init_post(a, b, first, r1),
        registry::init_post(b, c, second, r2),
    ensures
        r1 == Ok::<(), Error>(()),
        r2 == Err::<(), Error>(Error::AlreadyInitialised),
        c == b,
        registry::admin_result(c) == Ok::<Address, Error>(first),
{
}

/// Whatever state `init` finds, it leaves an admin recorded, and a second
/// `init` is refused.
pub proof fn init_leaves_an_admin(a: Env, b: Env, admin: Address, r: Result<(), Error>)
    requires
        registry::init_post(a, b, admin, r),
    ensures
        registry::admin_result(b) is Ok,
        r is Err ==> r == Err::<(), Error>(Error::AlreadyInitialised) && b == a,
{
}

// -- passkeys and thresholds ------------------------------------------------

/// A registered passkey is the one a signature check then uses, over the
/// SHA-256 of the message.
pub proof fn a_registered_key_is_the_one_checked(
    a: Env,
    b: Env,
    user: Address,
    pubkey: Seq<u8>,
    message: Seq<u8>,
    signature: Seq<u8>,
    r: Result<auth::SignatureCheck, Error>,
)
    requires
        auth::register_key_post(a, b, user, pubkey),
        auth::verify_sig_post(b, user, message, signature, r),
    ensures
        host::pubkeys(b).contains_key(user),
        r is Ok,
        r->Ok_0.public_key@ == pubkey,
        r->Ok_0.digest@ == host::sha256_digest(message),
{
}

/// A threshold that `set_threshold` accepted is at least 1 and is what
/// `threshold_of` then reads; with none set, `threshold_of` reads 1.
pub proof fn a_threshold_is_at_least_one(
    a: Env,
    b: Env,
    user: Address,
    threshold: u32,
    r: Result<(), Error>,
)
    requires
        auth::set_threshold_post(a, b, user, threshold, r),
    ensures
        r is Ok <==> threshold >= 1,
        r is Ok ==> auth::threshold_or_default(host::thresholds(b).get(user)) == threshold,
        auth::threshold_or_default(None) == 1,
{
}

// -- runs of calls ----------------------------------------------------------

/// A guarded spend from a valid state leaves a valid state: the running total
/// it records is what was spent today (never negative) plus a positive amount.
proof fn spend_keeps_valid(a: Env, b: Env, user: Address, amount: i128, today: u32, r: Result<(), Error>)
    requires
        guard::record_spend_post(a, b, user, amount, today, r),
        valid(a),
    ensures
        valid(b),
{
    if host::day_totals(a).contains_key(user) {
        assert(host::day_totals(a)[user] > 0);
    }
    assert(guard::spent_in(a, user, today) >= 0);
    match guard::spend_decision(amount, host::limits(a).get(user), guard::spent_in(a, user, today)) {
        Ok(Some(total)) => {
            assert(total > 0);
            assert forall|u: Address| #[trigger] host::day_totals(b).contains_key(u) implies host::day_totals(b)[u] > 0 by {
                if u != user {
                    assert(host::day_totals(a).contains_key(u));
                }
            }
        },
        _ => {},
    }
}

/// Any call from a valid state leaves a valid state.
proof fn call_keeps_valid(a: Env, b: Env, c: Call)
    requires
        history::call_post(a, b, c),
        valid(a),
    ensures
        valid(b),
{
    match c {
        Call::SetLimit { user, new_limit, r } => {
            if new_limit > 0 {
                assert forall|u: Address| #[trigger] host::limits(b).contains_key(u) implies host::limits(b)[u] > 0 by {
                    if u != user {
                        assert(host::limits(a).contains_key(u));
                    }
                }
            }
        },
        Call::Spend { user, amount, r } => {
            spend_keeps_valid(a, b, user, amount, guard::day_of(host::ledger_seq(a)), r);
        },
        Call::Transfer { user, registry, to, amount, outcome: r } => {
            if amount > 0 && host::names_contract(registry) && !(r matches Err(TransferError::RegistryFailed(_))) {
                let today = guard::day_of(host::ledger_seq(a));
                let (mid, exempt) = transfer_step(a, b, user, registry, to, amount, r);
                assert(valid(mid));
                if !exempt && r != Err::<(), TransferError>(TransferError::NoRoomForDayBook) {
                    spend_keeps_valid(mid, b, user, amount, today, guard_part(r));
                }
            }
        },
        Call::SetThreshold { user, threshold, r } => {
            if threshold >= 1 {
                assert forall|u: Address| #[trigger] host::thresholds(b).contains_key(u) implies host::thresholds(b)[u] >= 1 by {
                    if u != user {
                        assert(host::thresholds(a).contains_key(u));
                    }
                }
            }
        },
        Call::NextInvocation => {
            assert forall|u: Address| #[trigger] host::day_totals(b).contains_key(u) implies host::day_totals(b)[u] > 0 by {
                assert(host::day_totals(a).contains_key(u));
            }
        },
        _ => {},
    }
}

proof fn valid_along(states: Seq<Env>, calls: Seq<Call>, k: int)
    requires
        run(states, calls),
        valid(states[0]),
        0 <= k < states.len(),
    ensures
        valid(states[k]),
    decreases k,
{
    if k > 0 {
        valid_along(states, calls, k - 1);
        let c = calls[k - 1];
        call_keeps_valid(states[k - 1], states[k], c);
    }
}

/// Storage with nothing in it (as a freshly deployed contract has) is valid.
pub proof fn empty_storage_is_valid(env: Env)
    requires
        host::limits(env) == Map::<Address, i128>::empty(),
        host::day_totals(env) == Map::<Address, i128>::empty(),
        host::thresholds(env) == Map::<Address, u32>::empty(),
    ensures
        valid(env),
{
}

/// Whatever calls follow, in one invocation or many, storage that was valid
/// stays valid: no limit that is not positive and no running total that is
/// not positive is ever stored, so what a user has spent on any day is never
/// negative; and no threshold below 1 is stored, so `threshold_of` never reads
/// below 1.
pub proof fn storage_stays_valid(states: Seq<Env>, calls: Seq<Call>)
    requires
        run(states, calls),
        valid(states[0]),
    ensures
        forall|k: int| 0 <= k < states.len() ==> valid(#[trigger] states[k]),
        forall|k: int, u: Address, day: u32|
            0 <= k < states.len() ==> #[trigger] guard::spent_in(states[k], u, day) >= 0,
        forall|k: int, u: Address|
            0 <= k < states.len() ==> #[trigger] auth::threshold_or_default(host::thresholds(states[k]).get(u)) >= 1,
{
    assert forall|k: int| 0 <= k < states.len() implies valid(#[trigger] states[k]) by {
        valid_along(states, calls, k);
    }
    assert forall|k: int, u: Address, day: u32| 0 <= k < states.len() implies #[trigger] guard::spent_in(states[k], u, day) >= 0 by {
        valid_along(states, calls, k);
        if host::day_totals(states[k]).contains_key(u) {
            assert(host::day_totals(states[k])[u] > 0);
        }
    }
    assert forall|k: int, u: Address| 0 <= k < states.len() implies #[trigger] auth::threshold_or_default(host::thresholds(states[k]).get(u)) >= 1 by {
        valid_along(states, calls, k);
        if host::thresholds(states[k]).contains_key(u) {
            assert(host::thresholds(states[k])[u] >= 1);
        }
    }
}

/// The guard's part of a transfer's result: its refusal, or acceptance.
spec fn guard_part(r: Result<(), TransferError>) -> Result<(), Error> {
    match r {
        Err(TransferError::Refused(e)) => Err(e),
        _ => Ok(()),
    }
}

/// The state a transfer's call to the registry left, and what the registry
/// answered, where it was asked and answered.
proof fn transfer_step(a: Env, b: Env, user: Address, registry: Address, to: Address, amount: i128, r: Result<(), TransferError>) -> (w: (Env, bool))
    requires
        guard::execute_transfer_post(a, b, user, registry, to, amount, r),
        amount > 0,
        host::names_contract(registry),
        !(r matches Err(TransferError::RegistryFailed(_))),
    ensures
        guard::transfer_outcome(w.0, b, user, w.1, amount, guard::day_of(host::ledger_seq(a)), r),
        host::only_instance_extended(a, w.0),
        host::registry_replies(a, registry, to, Ok(w.1)),
        r == Err::<(), TransferError>(TransferError::NoRoomForDayBook) ==> b == w.0,
        r != Err::<(), TransferError>(TransferError::NoRoomForDayBook) ==> guard::transfer_post(
            w.0,
            b,
            user,
            w.1,
            amount,
            guard::day_of(host::ledger_seq(a)),
            guard_part(r),
        ),
{
    let today = guard::day_of(host::ledger_seq(a));
    choose|mid: Env, exempt: bool|
        #[trigger] guard::transfer_outcome(mid, b, user, exempt, amount, today, r)
            && host::only_instance_extended(a, mid)
            && host::registry_replies(a, registry, to, Ok(exempt))
}

/// A transfer to a destination that the registry does not exempt is the
/// guarded spend: from a state where `check_and_record` may be called, it has
/// the outcome that `check_and_record` has (the same refusal, or acceptance),
/// and it leaves the same stored values.
pub proof fn a_transfer_the_registry_does_not_exempt_is_a_guarded_spend(
    a: Env,
    b: Env,
    c: Env,
    user: Address,
    registry: Address,
    to: Address,
    amount: i128,
    r: Result<(), TransferError>,
    g: Result<(), Error>,
)
    requires
        guard::execute_transfer_post(a, b, user, registry, to, amount, r),
        guard::record_spend_post(a, c, user, amount, guard::day_of(host::ledger_seq(a)), g),
        guard::room_for_day_book(a, user, amount, guard::day_of(host::ledger_seq(a))),
        host::names_contract(registry),
        !(r matches Err(TransferError::RegistryFailed(_))),
        forall|exempt: bool| #[trigger] host::registry_replies(a, registry, to, Ok(exempt)) ==> !exempt,
    ensures
        r == guard::as_transfer_result(g),
        host::values_unchanged(b, c),
{
    if amount > 0 {
        let (mid, exempt) = transfer_step(a, b, user, registry, to, amount, r);
        let today = guard::day_of(host::ledger_seq(a));
        assert(guard::spent_in(mid, user, today) == guard::spent_in(a, user, today));
        assert(guard::room_for_day_book(mid, user, amount, today));
        if r is Ok {
            // `()` has one value.
            assert(r->Ok_0 == ());
        }
    }
}

proof fn call_keeps_limit(a: Env, b: Env, c: Call, user: Address)
    requires
        history::call_post(a, b, c),
        !history::sets_limit_of(c, user),
    ensures
        host::limits(b).get(user) == host::limits(a).get(user),
        history::limit_read_as(c, user, host::limits(a).get(user)),
{
    match c {
        Call::Transfer { user: spender, registry, to, amount, outcome: r } => {
            if amount > 0 && host::names_contract(registry) && !(r matches Err(TransferError::RegistryFailed(_))) {
                let (mid, exempt) = transfer_step(a, b, spender, registry, to, amount, r);
            }
        },
        _ => {},
    }
}

proof fn limit_kept_along(states: Seq<Env>, calls: Seq<Call>, user: Address, from: int, k: int)
    requires
        run(states, calls),
        0 <= from <= k < states.len(),
        forall|i: int| from <= i < calls.len() ==> !history::sets_limit_of(#[trigger] calls[i], user),
    ensures
        host::limits(states[k]).get(user) == host::limits(states[from]).get(user),
    decreases k - from,
{
    if k > from {
        limit_kept_along(states, calls, user, from, k - 1);
        let c = calls[k - 1];
        call_keeps_limit(states[k - 1], states[k], c, user);
    }
}

/// A limit changes only by its owner's `set_limit`: over any run of calls, in
/// one invocation or many, in which `user` sets no limit, `user`'s stored
/// limit stays what it was and every `limit_of(user)` reads it. So a user who
/// never set a limit reads `None` throughout a run from empty storage.
pub proof fn a_limit_changes_only_by_set_limit(states: Seq<Env>, calls: Seq<Call>, user: Address)
    requires
        run(states, calls),
        forall|i: int| 0 <= i < calls.len() ==> !history::sets_limit_of(#[trigger] calls[i], user),
    ensures
        forall|k: int| 0 <= k < states.len() ==> #[trigger] host::limits(states[k]).get(user) == host::limits(states[0]).get(user),
        forall|i: int| 0 <= i < calls.len() ==> history::limit_read_as(#[trigger] calls[i], user, host::limits(states[0]).get(user)),
{
    assert forall|k: int| 0 <= k < states.len() implies #[trigger] host::limits(states[k]).get(user) == host::limits(states[0]).get(user) by {
        limit_kept_along(states, calls, user, 0, k);
    }
    assert forall|i: int| 0 <= i < calls.len() implies history::limit_read_as(#[trigger] calls[i], user, host::limits(states[0]).get(user)) by {
        limit_kept_along(states, calls, user, 0, i);
        call_keeps_limit(states[i], states[i + 1], calls[i], user);
    }
}

/// The last limit a user set is the one in force: after an accepted
/// `set_limit(user, new_limit)`, whatever calls follow that set no other limit
/// for `user` (spends, transfers, reads, other users' calls, later
/// invocations), `user`'s limit is `new_limit`, and every `limit_of(user)`
/// reads `Some(new_limit)`.
pub proof fn the_last_limit_set_is_read_back(states: Seq<Env>, calls: Seq<Call>, user: Address, k: int, new_limit: i128)
    requires
        run(states, calls),
        0 <= k < calls.len(),
        calls[k] == (Call::SetLimit { user, new_limit, r: Ok(()) }),
        forall|i: int| k < i < calls.len() ==> !history::sets_limit_of(#[trigger] calls[i], user),
    ensures
        forall|j: int| k < j < states.len() ==> #[trigger] host::limits(states[j]).get(user) == Some(new_limit),
        forall|i: int| k < i < calls.len() ==> history::limit_read_as(#[trigger] calls[i], user, Some(new_limit)),
{
    let c = calls[k];
    assert(guard::set_limit_post(states[k], states[k + 1], user, new_limit, Ok(())));
    assert(host::limits(states[k + 1]).get(user) == Some(new_limit));
    assert forall|j: int| k < j < states.len() implies #[trigger] host::limits(states[j]).get(user) == Some(new_limit) by {
        limit_kept_along(states, calls, user, k + 1, j);
    }
    assert forall|i: int| k < i < calls.len() implies history::limit_read_as(#[trigger] calls[i], user, Some(new_limit)) by {
        limit_kept_along(states, calls, user, k + 1, i);
        call_keeps_limit(states[i], states[i + 1], calls[i], user);
    }
}

proof fn call_keeps_admin(a: Env, b: Env, c: Call)
    requires
        history::call_post(a, b, c),
        host::admin_of(a) is Some,
    ensures
        host::admin_of(b) == host::admin_of(a),
{
    match c {
        Call::Transfer { user, registry, to, amount, outcome: r } => {
            if amount > 0 && host::names_contract(registry) && !(r matches Err(TransferError::RegistryFailed(_))) {
                let (mid, exempt) = transfer_step(a, b, user, registry, to, amount, r);
            }
        },
        _ => {},
    }
}

proof fn admin_kept_along(states: Seq<Env>, calls: Seq<Call>, k: int)
    requires
        run(states, calls),
        host::admin_of(states[0]) is Some,
        0 <= k < states.len(),
    ensures
        host::admin_of(states[k]) == host::admin_of(states[0]),
    decreases k,
{
    if k > 0 {
        admin_kept_along(states, calls, k - 1);
        let c = calls[k - 1];
        call_keeps_admin(states[k - 1], states[k], c);
    }
}

/// Once recorded, the admin is never replaced or cleared: whatever calls
/// follow, in one invocation or many (further `init`s included), the admin
/// stays the one recorded and `admin` gives it.
pub proof fn the_admin_is_permanent(states: Seq<Env>, calls: Seq<Call>, admin: Address)
    requires
        run(states, calls),
        host::admin_of(states[0]) == Some(admin),
    ensures
        forall|k: int| 0 <= k < states.len() ==> #[trigger] host::admin_of(states[k]) == Some(admin),
        forall|k: int| 0 <= k < states.len() ==> #[trigger] registry::admin_result(states[k]) == Ok::<Address, Error>(admin),
{
    assert forall|k: int| 0 <= k < states.len() implies #[trigger] host::admin_of(states[k]) == Some(admin) by {
        admin_kept_along(states, calls, k);
    }
    assert forall|k: int| 0 <= k < states.len() implies #[trigger] registry::admin_result(states[k]) == Ok::<Address, Error>(admin) by {
        admin_kept_along(states, calls, k);
    }
}

proof fn call_keeps_key(a: Env, b: Env, c: Call, user: Address)
    requires
        history::call_post(a, b, c),
        !history::registers_key_of(c, user),
    ensures
        host::pubkeys(b).get(user) == host::pubkeys(a).get(user),
        history::has_key_read_as(c, user, host::pubkeys(a).contains_key(user)),
        host::pubkeys(a).contains_key(user) ==> history::checked_against(c, user, host::pubkeys(a)[user]),
{
    match c {
        Call::Transfer { user: spender, registry, to, amount, outcome: r } => {
            if amount > 0 && host::names_contract(registry) && !(r matches Err(TransferError::RegistryFailed(_))) {
                let (mid, exempt) = transfer_step(a, b, spender, registry, to, amount, r);
            }
        },
        _ => {},
    }
}

proof fn key_kept_along(states: Seq<Env>, calls: Seq<Call>, user: Address, from: int, k: int)
    requires
        run(states, calls),
        0 <= from <= k < states.len(),
        forall|i: int| from <= i < calls.len() ==> !history::registers_key_of(#[trigger] calls[i], user),
    ensures
        host::pubkeys(states[k]).get(user) == host::pubkeys(states[from]).get(user),
    decreases k - from,
{
    if k > from {
        key_kept_along(states, calls, user, from, k - 1);
        let c = calls[k - 1];
        call_keeps_key(states[k - 1], states[k], c, user);
    }
}

/// A passkey changes only by its owner's `register_key`: over any run of
/// calls, in one invocation or many, in which no key is registered for
/// `user`, `user`'s stored key stays what it was and every `has_key(user)`
/// reads whether there is one. So a user who never registered a key has none
/// throughout a run from empty storage.
pub proof fn a_key_changes_only_by_register_key(states: Seq<Env>, calls: Seq<Call>, user: Address)
    requires
        run(states, calls),
        forall|i: int| 0 <= i < calls.len() ==> !history::registers_key_of(#[trigger] calls[i], user),
    ensures
        forall|k: int| 0 <= k < states.len() ==> #[trigger] host::pubkeys(states[k]).get(user) == host::pubkeys(states[0]).get(user),
        forall|i: int| 0 <= i < calls.len() ==> history::has_key_read_as(#[trigger] calls[i], user, host::pubkeys(states[0]).contains_key(user)),
{
    assert forall|k: int| 0 <= k < states.len() implies #[trigger] host::pubkeys(states[k]).get(user) == host::pubkeys(states[0]).get(user) by {
        key_kept_along(states, calls, user, 0, k);
    }
    assert forall|i: int| 0 <= i < calls.len() implies history::has_key_read_as(#[trigger] calls[i], user, host::pubkeys(states[0]).contains_key(user)) by {
        key_kept_along(states, calls, user, 0, i);
        call_keeps_key(states[i], states[i + 1], calls[i], user);
    }
}

/// The last passkey registered is the one in force: after
/// `register_key(user, pubkey)`, whatever calls follow that register no other
/// key for `user`, `user`'s key is `pubkey`, every `has_key(user)` reads
/// `true`, and every `verify_sig` for `user` prepares a check against
/// `pubkey`.
pub proof fn the_last_key_registered_is_read_back(states: Seq<Env>, calls: Seq<Call>, user: Address, k: int, pubkey: [u8; 65])
    requires
        run(states, calls),
        0 <= k < calls.len(),
        calls[k] == (Call::RegisterKey { user, pubkey }),
        forall|i: int| k < i < calls.len() ==> !history::registers_key_of(#[trigger] calls[i], user),
    ensures
        forall|j: int| k < j < states.len() ==> #[trigger] host::pubkeys(states[j]).get(user) == Some(pubkey@),
        forall|i: int| k < i < calls.len() ==> history::has_key_read_as(#[trigger] calls[i], user, true),
        forall|i: int| k < i < calls.len() ==> history::checked_against(#[trigger] calls[i], user, pubkey@),
{
    let c = calls[k];
    assert(auth::register_key_post(states[k], states[k + 1], user, pubkey@));
    assert(host::pubkeys(states[k + 1]).get(user) == Some(pubkey@));
    assert forall|j: int| k < j < states.len() implies #[trigger] host::pubkeys(states[j]).get(user) == Some(pubkey@) by {
        key_kept_along(states, calls, user, k + 1, j);
    }
    assert forall|i: int| k < i < calls.len() implies history::has_key_read_as(#[trigger] calls[i], user, true)
        && history::checked_against(calls[i], user, pubkey@) by {
        key_kept_along(states, calls, user, k + 1, i);
        call_keeps_key(states[i], states[i + 1], calls[i], user);
    }
}

/// The limit caps the day's running total, not each spend: over any run of
/// guarded spends by `user` on one day, in one invocation or across several
/// that `user`'s day entries survive, what `user` has spent that day grows by
/// exactly the amounts of the accepted spends, the limit stays, and a total
/// that started within the limit ends within it.
pub proof fn spends_on_one_day_add_up(states: Seq<Env>, calls: Seq<Call>, user: Address, day: u32, limit: i128)
    requires
        run(states, calls),
        forall|i: int| 0 <= i < calls.len() ==> history::spends_of(#[trigger] calls[i], user) || calls[i] is NextInvocation,
        forall|i: int| 0 <= i < calls.len() && (#[trigger] calls[i] is NextInvocation) ==> {
            &&& host::day_marks(states[i + 1]).get(user) == host::day_marks(states[i]).get(user)
            &&& host::day_totals(states[i + 1]).get(user) == host::day_totals(states[i]).get(user)
        },
        forall|k: int| 0 <= k < states.len() ==> guard::day_of(host::ledger_seq(#[trigger] states[k])) == day,
        host::limits(states[0]).get(user) == Some(limit),
    ensures
        guard::spent_in(states.last(), user, day) == guard::spent_in(states[0], user, day) + history::accepted_total(calls),
        host::limits(states.last()).get(user) == Some(limit),
        guard::spent_in(states[0], user, day) <= limit ==> guard::spent_in(states.last(), user, day) <= limit,
    decreases calls.len(),
{
    if calls.len() > 0 {
        let n = calls.len() - 1;
        let prefix = states.drop_last();
        let earlier = calls.drop_last();
        assert forall|i: int| 0 <= i < earlier.len() implies history::call_post(prefix[i], prefix[i + 1], #[trigger] earlier[i]) by {
            assert(history::call_post(states[i], states[i + 1], calls[i]));
        }
        assert forall|i: int| 0 <= i < earlier.len() implies history::spends_of(#[trigger] earlier[i], user) || earlier[i] is NextInvocation by {
            assert(history::spends_of(calls[i], user) || calls[i] is NextInvocation);
        }
        assert forall|k: int| 0 <= k < prefix.len() implies guard::day_of(host::ledger_seq(#[trigger] prefix[k])) == day by {
            assert(guard::day_of(host::ledger_seq(states[k])) == day);
        }
        assert forall|i: int| 0 <= i < earlier.len() && (#[trigger] earlier[i] is NextInvocation) implies {
            &&& host::day_marks(prefix[i + 1]).get(user) == host::day_marks(prefix[i]).get(user)
            &&& host::day_totals(prefix[i + 1]).get(user) == host::day_totals(prefix[i]).get(user)
        } by {
            assert(calls[i] is NextInvocation);
        }
        spends_on_one_day_add_up(prefix, earlier, user, day, limit);
        assert(prefix.last() == states[n]);
        let c = calls[n];
        assert(history::call_post(states[n], states[n + 1], c));
        assert(guard::day_of(host::ledger_seq(states[n])) == day);
        assert(calls.last() == c);
        assert(history::accepted_total(calls) == history::accepted_total(earlier) + history::accepted_amount(c));
    }
}

// -- what each operation decides ---------------------------------------------

/// What a guarded spend of `amount` decides, given the user's limit and what
/// they already spent today: an amount that is not positive is refused; with
/// no limit nothing is enforced; a running total that stays within `i128` and
/// within the limit is accepted and becomes `spent + amount`; one past the
/// limit is refused as such, and one past `i128` as an overflow.
pub proof fn what_a_guarded_spend_decides(amount: i128, limit: Option<i128>, spent: i128)
    ensures
        amount <= 0 ==> guard::spend_decision(amount, limit, spent) == Err::<Option<i128>, Error>(Error::BadAmount),
        amount > 0 && limit is None ==> guard::spend_decision(amount, limit, spent) == Ok::<Option<i128>, Error>(None),
        amount > 0 && limit is Some && spent + amount <= limit->0 ==> guard::spend_decision(amount, limit, spent)
            == Ok::<Option<i128>, Error>(Some((spent + amount) as i128)),
        amount > 0 && limit is Some && limit->0 < spent + amount <= i128::MAX ==> guard::spend_decision(amount, limit, spent)
            == Err::<Option<i128>, Error>(Error::LimitExceeded),
        amount > 0 && limit is Some && spent + amount > i128::MAX ==> guard::spend_decision(amount, limit, spent)
            == Err::<Option<i128>, Error>(Error::Overflow),
{
}

/// A spend within the limit is accepted and counted: for a user with a limit,
/// a positive amount that keeps the day's total within it is accepted, and
/// what they spent that day grows by exactly that amount. A spend is refused
/// as over the limit only when the total would pass it.
pub proof fn a_spend_within_the_limit_is_recorded(
    a: Env,
    b: Env,
    user: Address,
    amount: i128,
    today: u32,
    limit: i128,
    r: Result<(), Error>,
)
    requires
        guard::record_spend_post(a, b, user, amount, today, r),
        host::limits(a).get(user) == Some(limit),
    ensures
        amount > 0 && guard::spent_in(a, user, today) + amount <= limit ==> r == Ok::<(), Error>(())
            && guard::spent_in(b, user, today) == guard::spent_in(a, user, today) + amount,
        r == Err::<(), Error>(Error::LimitExceeded) ==> guard::spent_in(a, user, today) + amount > limit,
{
}

/// The day book has room on any network that allows entries to live two days:
/// only the network's maximum TTL can leave a spend without room.
pub proof fn the_day_book_has_room_where_two_days_are_allowed(env: Env, user: Address, amount: i128, today: u32)
    requires
        guard::TTL <= host::max_ttl(env),
    ensures
        guard::room_for_day_book(env, user, amount, today),
{
}

/// A transfer within the limit to a destination that the registry does not
/// exempt goes through: on a network that allows two days, a positive amount
/// that keeps the user's total for the day within the limit is accepted, and
/// what `spent_today` reads grows by exactly that amount.
pub proof fn a_transfer_within_the_limit_is_accepted(
    a: Env,
    b: Env,
    user: Address,
    registry: Address,
    to: Address,
    amount: i128,
    limit: i128,
    r: Result<(), TransferError>,
)
    requires
        guard::execute_transfer_post(a, b, user, registry, to, amount, r),
        amount > 0,
        host::names_contract(registry),
        forall|reply: Result<bool, InvokeError>| #[trigger] host::registry_replies(a, registry, to, reply) ==> reply == Ok::<bool, InvokeError>(false),
        host::limits(a).get(user) == Some(limit),
        guard::spent_in(a, user, guard::day_of(host::ledger_seq(a))) + amount <= limit,
        guard::TTL <= host::max_ttl(a),
    ensures
        r == Ok::<(), TransferError>(()),
        host::ledger_seq(b) == host::ledger_seq(a),
        guard::spent_in(b, user, guard::day_of(host::ledger_seq(b))) == guard::spent_in(
            a,
            user,
            guard::day_of(host::ledger_seq(a)),
        ) + amount,
{
    let today = guard::day_of(host::ledger_seq(a));
    match r {
        Err(TransferError::RegistryFailed(e)) => {
            assert(host::registry_replies(a, registry, to, Err(e)));
        },
        _ => {
            let (mid, exempt) = transfer_step(a, b, user, registry, to, amount, r);
            assert(host::registry_replies(a, registry, to, Ok(exempt)));
            assert(guard::spent_in(mid, user, today) == guard::spent_in(a, user, today));
            assert(guard::room_for_day_book(mid, user, amount, today));
            if r is Ok {
                assert(r->Ok_0 == ());
            }
        },
    }
}

/// A transfer follows the registry's reply to `is_trusted_drip(to)`: once the
/// amount is positive and the registry is a contract, the registry was asked,
/// and if the call failed the transfer reports that very failure (nothing
/// but the instance's TTL changed); if it answered that `to` is exempt, the
/// transfer is accepted, nothing is counted and no stored value changes; if it
/// answered that `to` is not, the transfer is the guarded spend.
pub proof fn a_transfer_follows_the_registry_s_reply(
    a: Env,
    b: Env,
    user: Address,
    registry: Address,
    to: Address,
    amount: i128,
    r: Result<(), TransferError>,
)
    requires
        guard::execute_transfer_post(a, b, user, registry, to, amount, r),
        amount > 0,
        host::names_contract(registry),
    ensures
        exists|reply: Result<bool, InvokeError>| #[trigger] host::registry_replies(a, registry, to, reply) && {
            &&& reply matches Err(e) ==> r == Err::<(), TransferError>(TransferError::RegistryFailed(e))
                && host::only_instance_extended(a, b)
            &&& reply == Ok::<bool, InvokeError>(true) ==> r == Ok::<(), TransferError>(())
                && host::values_unchanged(a, b)
            &&& reply == Ok::<bool, InvokeError>(false) ==> !(r matches Err(TransferError::RegistryFailed(_)))
        },
{
    match r {
        Err(TransferError::RegistryFailed(e)) => {
            assert(host::registry_replies(a, registry, to, Err(e)));
        },
        _ => {
            let (mid, exempt) = transfer_step(a, b, user, registry, to, amount, r);
            assert(host::registry_replies(a, registry, to, Ok(exempt)));
            if exempt {
                assert(r->Ok_0 == ());
            }
        },
    }
}

/// A day is a window of 17,280 consecutive ledgers: the day of a sequence is
/// the one whose window holds it.
pub proof fn a_day_is_a_window_of_ledgers(sequence: u32)
    ensures
        guard::day_of(sequence) * guard::LEDGERS_PER_DAY <= sequence,
        sequence < (guard::day_of(sequence) + 1) * guard::LEDGERS_PER_DAY,
{
}

/// Sequences a day or more apart fall on different days, and sequences in one
/// window on the same day: the budget refills once per 17,280 ledgers.
pub proof fn a_new_day_starts_every_17280_ledgers(s1: u32, s2: u32)
    ensures
        s1 + guard::LEDGERS_PER_DAY <= s2 ==> guard::day_of(s1) < guard::day_of(s2),
        s1 <= s2 && s1 / guard::LEDGERS_PER_DAY == s2 / guard::LEDGERS_PER_DAY ==> guard::day_of(s1) == guard::day_of(s2),
{
    a_day_is_a_window_of_ledgers(s1);
    a_day_is_a_window_of_ledgers(s2);
}

/// What a user has spent on a day is the running total stored for that day,
/// and nothing when the stored bucket is another day's or no total is stored.
/// A missing bucket reads as day 0.
pub proof fn what_was_spent_on_a_day(env: Env, user: Address, day: u32)
    ensures
        host::day_marks(env).get(user) == Some(day) && host::day_totals(env).contains_key(user)
            ==> guard::spent_in(env, user, day) == host::day_totals(env)[user],
        host::day_marks(env).get(user) matches Some(d) && d != day ==> guard::spent_in(env, user, day) == 0,
        !host::day_totals(env).contains_key(user) ==> guard::spent_in(env, user, day) == 0,
        !host::day_marks(env).contains_key(user) && day != 0 ==> guard::spent_in(env, user, day) == 0,
        !host::day_marks(env).contains_key(user) && day == 0 && host::day_totals(env).contains_key(user)
            ==> guard::spent_in(env, user, day) == host::day_totals(env)[user],
{
}

/// Only a stored `true` exempts: a destination with no stored flag, whatever
/// kind of address it is, is not exempt, and neither is one whose flag was
/// withdrawn.
pub proof fn only_a_stored_flag_exempts(env: Env, drip: Address)
    ensures
        registry::is_exempt(env, drip) <==> host::drips(env).get(drip) == Some(true),
        !host::drips(env).contains_key(drip) ==> !registry::is_exempt(env, drip),
{
}

/// What the reads give: a stored threshold, or 1; the recorded admin, or
/// `NotInitialised`; for a user with a passkey, a check against it, and
/// `NoKey` for one without.
pub proof fn what_the_reads_give(
    env: Env,
    user: Address,
    message: Seq<u8>,
    signature: Seq<u8>,
    r: Result<auth::SignatureCheck, Error>,
)
    requires
        auth::verify_sig_post(env, user, message, signature, r),
    ensures
        host::thresholds(env).get(user) matches Some(t) ==> auth::threshold_or_default(host::thresholds(env).get(user)) == t,
        !host::thresholds(env).contains_key(user) ==> auth::threshold_or_default(host::thresholds(env).get(user)) == 1,
        host::admin_of(env) matches Some(admin) ==> registry::admin_result(env) == Ok::<Address, Error>(admin),
        host::admin_of(env) is None ==> registry::admin_result(env) == Err::<Address, Error>(Error::NotInitialised),
        host::pubkeys(env).contains_key(user) ==> r is Ok && r->Ok_0.public_key@ == host::pubkeys(env)[user]
            && r->Ok_0.digest@ == host::sha256_digest(message) && r->Ok_0.signature@ == signature,
        !host::pubkeys(env).contains_key(user) ==> r == Err::<auth::SignatureCheck, Error>(Error::NoKey),
{
}

} // verus!
