//! Runs of calls: what a deployed contract's storage goes through when its
//! entrypoints are called one after another, within an invocation and across
//! invocations. The laws over runs stand in `laws`.
use crate::auth;
use crate::auth::SignatureCheck;
use crate::error::Error;
use crate::guard;
use crate::guard::TransferError;
use crate::host;
use crate::registry;
use soroban_sdk::{Address, Env};
use vstd::prelude::*;

verus! {

/// One call of an entrypoint of the contracts, with its arguments and what it
/// returned; or the end of one invocation and the start of a later one.
pub enum Call {
    /// `GuardContract::set_limit`.
    SetLimit { user: Address, new_limit: i128, r: Result<(), Error> },
    /// `GuardContract::limit_of`.
    LimitOf { user: Address, read: Option<i128> },
    /// `GuardContract::spent_today`.
    SpentToday { user: Address, spent: i128 },
    /// A guarded spend, `guard::check_and_record`.
    Spend { user: Address, amount: i128, r: Result<(), Error> },
    /// `GuardContract::execute_transfer`.
    Transfer { user: Address, registry: Address, to: Address, amount: i128, outcome: Result<(), TransferError> },
    /// `RegistryContract::init`.
    Init { admin: Address, r: Result<(), Error> },
    /// `RegistryContract::admin`.
    Admin { found: Result<Address, Error> },
    /// `RegistryContract::add_trusted_drip`.
    AddDrip { drip: Address, r: Result<(), Error> },
    /// `RegistryContract::remove_trusted_drip`.
    RemoveDrip { drip: Address, r: Result<(), Error> },
    /// `RegistryContract::is_trusted_drip`.
    IsTrustedDrip { drip: Address, answer: bool },
    /// `AuthContract::register_key`.
    RegisterKey { user: Address, pubkey: [u8; 65] },
    /// `AuthContract::has_key`.
    HasKey { user: Address, answer: bool },
    /// `AuthContract::set_threshold`.
    SetThreshold { user: Address, threshold: u32, r: Result<(), Error> },
    /// `AuthContract::threshold_of`.
    ThresholdOf { user: Address, value: u32 },
    /// `AuthContract::verify_sig`.
    VerifySig { user: Address, message: Vec<u8>, signature: [u8; 64], check: Result<SignatureCheck, Error> },
    /// One invocation ended and a later one began: see [`next_invocation`].
    NextInvocation,
}

/// From `a` to `b` one invocation ended and a later one began, with no call of
/// the contract in between (each call is a step of its own). The ledger may
/// have advanced. Persistent and instance values stay: an entry whose TTL ran
/// out is archived with its value, and restored with it. A temporary entry
/// whose TTL ran out is gone; one that was live long enough is still there.
pub open spec fn next_invocation(a: Env, b: Env) -> bool {
    &&& host::ledger_seq(b) >= host::ledger_seq(a)
    &&& host::limits(b) == host::limits(a)
    &&& host::drips(b) == host::drips(a)
    &&& host::pubkeys(b) == host::pubkeys(a)
    &&& host::thresholds(b) == host::thresholds(a)
    &&& host::admin_of(b) == host::admin_of(a)
    &&& host::day_marks(b).submap_of(host::day_marks(a))
    &&& host::day_totals(b).submap_of(host::day_totals(a))
    &&& forall|u: Address|
        #![trigger host::day_marks(a).get(u)]
        host::day_marks(a).contains_key(u) && host::day_mark_ttls(a).contains_key(u)
            && host::ledger_seq(b) - host::ledger_seq(a) <= host::day_mark_ttls(a)[u]
            ==> host::day_marks(b).get(u) == host::day_marks(a).get(u)
    &&& forall|u: Address|
        #![trigger host::day_totals(a).get(u)]
        host::day_totals(a).contains_key(u) && host::day_total_ttls(a).contains_key(u)
            && host::ledger_seq(b) - host::ledger_seq(a) <= host::day_total_ttls(a)[u]
            ==> host::day_totals(b).get(u) == host::day_totals(a).get(u)
}

/// The call `c` took storage `a` to `b`: each entrypoint's own contract, or
/// [`next_invocation`].
pub open spec fn call_post(a: Env, b: Env, c: Call) -> bool {
    match c {
        Call::SetLimit { user, new_limit, r } => guard::set_limit_post(a, b, user, new_limit, r),
        Call::LimitOf { user, read: r } => guard::limit_of_post(a, b, user, r),
        Call::SpentToday { user, spent: r } => b == a && r == guard::spent_in(
            a,
            user,
            guard::day_of(host::ledger_seq(a)),
        ),
        Call::Spend { user, amount, r } => guard::record_spend_post(
            a,
            b,
            user,
            amount,
            guard::day_of(host::ledger_seq(a)),
            r,
        ),
        Call::Transfer { user, registry, to, amount, outcome: r } => guard::execute_transfer_post(
            a,
            b,
            user,
            registry,
            to,
            amount,
            r,
        ),
        Call::Init { admin, r } => registry::init_post(a, b, admin, r),
        Call::Admin { found: r } => b == a && r == registry::admin_result(a),
        Call::AddDrip { drip, r } => registry::admin_set_drip_post(a, b, drip, true, r),
        Call::RemoveDrip { drip, r } => registry::admin_set_drip_post(a, b, drip, false, r),
        Call::IsTrustedDrip { drip, answer: r } => b == a && r == registry::is_exempt(a, drip),
        Call::RegisterKey { user, pubkey } => auth::register_key_post(a, b, user, pubkey@),
        Call::HasKey { user, answer: r } => b == a && r == host::pubkeys(a).contains_key(user),
        Call::SetThreshold { user, threshold, r } => auth::set_threshold_post(a, b, user, threshold, r),
        Call::ThresholdOf { user, value: r } => b == a && r == auth::threshold_or_default(
            host::thresholds(a).get(user),
        ),
        Call::VerifySig { user, message, signature, check: r } => b == a && auth::verify_sig_post(
            a,
            user,
            message@,
            signature@,
            r,
        ),
        Call::NextInvocation => next_invocation(a, b),
    }
}

/// `states` is what a deployed contract's storage went through under `calls`,
/// every call it received in order: each call took the state before it to the
/// one after it.
pub open spec fn run(states: Seq<Env>, calls: Seq<Call>) -> bool {
    &&& states.len() == calls.len() + 1
    &&& forall|i: int| 0 <= i < calls.len() ==> call_post(states[i], states[i + 1], #[trigger] calls[i])
}

/// What the contracts never store: a limit that is not positive, a running
/// total that is not positive, a threshold below 1.
pub open spec fn valid(env: Env) -> bool {
    &&& forall|u: Address| #[trigger] host::limits(env).contains_key(u) ==> host::limits(env)[u] > 0
    &&& forall|u: Address| #[trigger] host::day_totals(env).contains_key(u) ==> host::day_totals(env)[u] > 0
    &&& forall|u: Address| #[trigger] host::thresholds(env).contains_key(u) ==> host::thresholds(env)[u] >= 1
}

/// Whether `c` is a `set_limit` for `user`.
pub open spec fn sets_limit_of(c: Call, user: Address) -> bool {
    match c {
        Call::SetLimit { user: u, .. } => u == user,
        _ => false,
    }
}

/// If `c` is a `limit_of(user)`, it read `value`.
pub open spec fn limit_read_as(c: Call, user: Address, value: Option<i128>) -> bool {
    match c {
        Call::LimitOf { user: u, read: r } => u == user ==> r == value,
        _ => true,
    }
}

/// Whether `c` registers a passkey for `user`.
pub open spec fn registers_key_of(c: Call, user: Address) -> bool {
    match c {
        Call::RegisterKey { user: u, .. } => u == user,
        _ => false,
    }
}

/// If `c` is a `has_key(user)`, it read `value`.
pub open spec fn has_key_read_as(c: Call, user: Address, value: bool) -> bool {
    match c {
        Call::HasKey { user: u, answer: r } => u == user ==> r == value,
        _ => true,
    }
}

/// If `c` is a `verify_sig` for `user`, it prepared a check against `key`.
pub open spec fn checked_against(c: Call, user: Address, key: Seq<u8>) -> bool {
    match c {
        Call::VerifySig { user: u, check: r, .. } => u == user ==> (r is Ok && r->Ok_0.public_key@ == key),
        _ => true,
    }
}

/// Whether `c` is a guarded spend by `user`.
pub open spec fn spends_of(c: Call, user: Address) -> bool {
    match c {
        Call::Spend { user: u, .. } => u == user,
        _ => false,
    }
}

/// The amount that `c` added to its spender's running total if it is an
/// accepted guarded spend; 0 otherwise.
pub open spec fn accepted_amount(c: Call) -> int {
    match c {
        Call::Spend { amount, r, .. } => if r is Ok {
            amount as int
        } else {
            0
        },
        _ => 0,
    }
}

/// The sum of the amounts of the accepted guarded spends among `calls`.
pub open spec fn accepted_total(calls: Seq<Call>) -> int
    decreases calls.len(),
{
    if calls.len() == 0 {
        0
    } else {
        accepted_total(calls.drop_last()) + accepted_amount(calls.last())
    }
}

} // verus!
