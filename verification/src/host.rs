//! The boundary to the Soroban host.
//!
//! Every call into `soroban_sdk` that the contracts make stands here, behind a
//! trusted item whose contract is stated over a small model of the contract's
//! own storage:
//!
//!   - one map per storage family (the `Symbol` that starts the key), from the
//!     account in the key to the value stored under it;
//!   - the registry's admin in instance storage, if recorded;
//!   - the time-to-live (TTL) of each extended entry and of the contract
//!     instance: the ledgers it stays live after the current one
//!     (`live_until - sequence`), and the largest TTL the network allows now;
//!   - the ledger's sequence number, whether a contract is executing, whether
//!     an address is a contract's;
//!   - a name for SHA-256, and what the registry replied.
//!
//! The storage model is a function of the `Env` value. The host mutates its
//! storage through `&Env`; the items here that write, or that call another
//! contract, take `&mut Env` so that a change shows up as a new `Env` value
//! whose model differs from the old one. The items that take `&Env` only read:
//! nothing they do changes what the model holds.
//! Storage is only changed by the writes below while a contract runs, and by a
//! contract it calls, which may extend its instance's TTL: entries expire only
//! as the ledger advances, and the ledger does not advance during an
//! invocation. The ledger's sequence number and the network's limits are part
//! of the state too, fixed for the invocation.
//!
//! An `Address` is taken here by the account it names, as the host compares
//! addresses and keys storage by them: two `Address` handles to one account
//! are one value. So a write of `user`'s entry is an `insert` at `user` in its
//! family's map, and an `Address` read back from storage is the one written.
//!
//! The model holds while an invocation uses one `Env` handle: the SDK writes
//! through any clone of it. Verified code here never clones an `Env`.
//!
//! Every storage access traps (panics) when no contract is executing, so the
//! items that touch storage require [`in_contract`]: the entrypoints of the
//! contracts run inside an invocation, and the library is only called from
//! them. Like every host call, any of these also traps when the invocation
//! runs out of its resource budget; that is a limit of the machine, not of
//! the arguments, and is not modelled.
use soroban_sdk::address_payload::AddressPayload;
use soroban_sdk::{Address, Bytes, BytesN, Env, InvokeError, Symbol, Vec};
use vstd::prelude::*;

verus! {

#[verifier::external_type_specification]
#[verifier::external_body]
pub struct ExEnv(Env);

#[verifier::external_type_specification]
#[verifier::external_body]
pub struct ExAddress(Address);

#[verifier::external_type_specification]
#[verifier::external_body]
pub struct ExInvokeError(InvokeError);

/// The velocity limits in persistent storage: key `("limit", user)`.
pub uninterp spec fn limits(env: Env) -> Map<Address, i128>;

/// The exemption flags in persistent storage: key `("drip", address)`.
pub uninterp spec fn drips(env: Env) -> Map<Address, bool>;

/// The passkeys (65 bytes each) in persistent storage: key `("pubkey", user)`.
pub uninterp spec fn pubkeys(env: Env) -> Map<Address, Seq<u8>>;

/// The multi-sig thresholds in persistent storage: key `("thresh", user)`.
pub uninterp spec fn thresholds(env: Env) -> Map<Address, u32>;

/// The day bucket of each running total in temporary storage: key `("day", user)`.
pub uninterp spec fn day_marks(env: Env) -> Map<Address, u32>;

/// The running daily totals in temporary storage: key `("spent", user)`.
pub uninterp spec fn day_totals(env: Env) -> Map<Address, i128>;

/// The registry's admin in instance storage, if recorded: key `"admin"`.
pub uninterp spec fn admin_of(env: Env) -> Option<Address>;

/// The TTL of each `("limit", user)` entry. Every stored entry has one.
pub uninterp spec fn limit_ttls(env: Env) -> Map<Address, u32>;

/// The TTL of each `("drip", address)` entry.
pub uninterp spec fn drip_ttls(env: Env) -> Map<Address, u32>;

/// The TTL of each `("pubkey", user)` entry.
pub uninterp spec fn pubkey_ttls(env: Env) -> Map<Address, u32>;

/// The TTL of each temporary `("day", user)` entry.
pub uninterp spec fn day_mark_ttls(env: Env) -> Map<Address, u32>;

/// The TTL of each temporary `("spent", user)` entry.
pub uninterp spec fn day_total_ttls(env: Env) -> Map<Address, u32>;

/// The TTL of the running contract's instance.
pub uninterp spec fn instance_ttl(env: Env) -> u32;

/// The largest TTL the network allows now (`Storage::max_ttl`). A network
/// setting read in the current ledger: it does not change during an
/// invocation.
pub uninterp spec fn max_ttl(env: Env) -> u32;

/// The sequence number of the ledger the invocation runs in
/// (`Ledger::sequence`). It does not change during an invocation.
pub uninterp spec fn ledger_seq(env: Env) -> u32;

/// Whether a contract is executing in `env`, so that it has storage to reach.
pub uninterp spec fn in_contract(env: Env) -> bool;

/// Whether `address` is a contract address (`C...`), as opposed to an account
/// address (`G...`) or a kind the SDK does not know.
pub uninterp spec fn names_contract(address: Address) -> bool;

/// SHA-256 of a byte string.
pub uninterp spec fn sha256_digest(data: Seq<u8>) -> Seq<u8>;

/// Whether the contract at `registry`, asked `is_trusted_drip(to)` in the
/// ledger state of `env`, gave `reply`: its answer, or how the call failed.
pub uninterp spec fn registry_replies(env: Env, registry: Address, to: Address, reply: Result<bool, InvokeError>) -> bool;

/// The storage families, one per key prefix.
pub enum Family {
    Limit,
    Drip,
    PubKey,
    Threshold,
    DayMark,
    DayTotal,
    Admin,
}

/// `a` and `b` are states of one invocation: the same contract is (or is not)
/// running, in the same ledger, under the same network limit.
pub open spec fn same_invocation(a: Env, b: Env) -> bool {
    &&& in_contract(b) == in_contract(a)
    &&& ledger_seq(b) == ledger_seq(a)
    &&& max_ttl(b) == max_ttl(a)
}

/// No stored value differs between `a` and `b`, which are states of one
/// invocation.
pub open spec fn values_unchanged(a: Env, b: Env) -> bool {
    &&& same_invocation(a, b)
    &&& limits(a) == limits(b)
    &&& drips(a) == drips(b)
    &&& pubkeys(a) == pubkeys(b)
    &&& thresholds(a) == thresholds(b)
    &&& day_marks(a) == day_marks(b)
    &&& day_totals(a) == day_totals(b)
    &&& admin_of(a) == admin_of(b)
}

/// What `extend_ttl(threshold, extend_to)` leaves as the TTL of an entry whose
/// TTL was `ttl`, where the network allows at most `max`: an entry with more
/// than `threshold` ledgers left is untouched; any other is extended to
/// `extend_to` ledgers, clamped to `max`, and never shortened.
pub open spec fn extended(ttl: u32, threshold: u32, extend_to: u32, max: u32) -> u32 {
    if ttl <= threshold {
        let target = if extend_to <= max {
            extend_to
        } else {
            max
        };
        if target > ttl {
            target
        } else {
            ttl
        }
    } else {
        ttl
    }
}

/// The entry TTLs of every family other than `f`, and of every key of `f`
/// other than `key`, are the same in `a` and `b`.
pub open spec fn entry_ttls_unchanged_except(a: Env, b: Env, f: Family, key: Address) -> bool {
    &&& (f is Limit ==> limit_ttls(b).remove(key) == limit_ttls(a).remove(key))
    &&& (!(f is Limit) ==> limit_ttls(b) == limit_ttls(a))
    &&& (f is Drip ==> drip_ttls(b).remove(key) == drip_ttls(a).remove(key))
    &&& (!(f is Drip) ==> drip_ttls(b) == drip_ttls(a))
    &&& (f is PubKey ==> pubkey_ttls(b).remove(key) == pubkey_ttls(a).remove(key))
    &&& (!(f is PubKey) ==> pubkey_ttls(b) == pubkey_ttls(a))
    &&& (f is DayMark ==> day_mark_ttls(b).remove(key) == day_mark_ttls(a).remove(key))
    &&& (!(f is DayMark) ==> day_mark_ttls(b) == day_mark_ttls(a))
    &&& (f is DayTotal ==> day_total_ttls(b).remove(key) == day_total_ttls(a).remove(key))
    &&& (!(f is DayTotal) ==> day_total_ttls(b) == day_total_ttls(a))
}

/// As [`entry_ttls_unchanged_except`], and the instance's TTL and the network
/// maximum are the same too.
pub open spec fn ttls_unchanged_except(a: Env, b: Env, f: Family, key: Address) -> bool {
    &&& entry_ttls_unchanged_except(a, b, f, key)
    &&& instance_ttl(b) == instance_ttl(a)
    &&& max_ttl(b) == max_ttl(a)
}

/// No entry TTL differs between `a` and `b` (the instance's may).
pub open spec fn entry_ttls_unchanged(a: Env, b: Env) -> bool {
    &&& limit_ttls(b) == limit_ttls(a)
    &&& drip_ttls(b) == drip_ttls(a)
    &&& pubkey_ttls(b) == pubkey_ttls(a)
    &&& day_mark_ttls(b) == day_mark_ttls(a)
    &&& day_total_ttls(b) == day_total_ttls(a)
}

/// Every family other than `f` holds the same entries in `a` and `b`, which
/// are states of one invocation.
pub open spec fn unchanged_except(a: Env, b: Env, f: Family) -> bool {
    &&& same_invocation(a, b)
    &&& (!(f is Limit) ==> limits(a) == limits(b))
    &&& (!(f is Drip) ==> drips(a) == drips(b))
    &&& (!(f is PubKey) ==> pubkeys(a) == pubkeys(b))
    &&& (!(f is Threshold) ==> thresholds(a) == thresholds(b))
    &&& (!(f is DayMark) ==> day_marks(a) == day_marks(b))
    &&& (!(f is DayTotal) ==> day_totals(a) == day_totals(b))
    &&& (!(f is Admin) ==> admin_of(a) == admin_of(b))
}

// -- persistent: limits -----------------------------------------------------

/// `Persistent::get` of `("limit", user)`: the value stored there, if any.
/// Storage is only reachable while a contract is executing, hence the `requires`.
#[verifier::external_body]
pub(crate) fn load_limit(env: &Env, user: &Address) -> (r: Option<i128>)
    requires
        in_contract(*env),
    ensures
        r == limits(*env).get(*user),
        r is Some ==> limit_ttls(*env).contains_key(*user),
{
    env.storage().persistent().get(&(Symbol::new(env, "limit"), user.clone()))
}

/// `Persistent::set` of `("limit", user)`: afterwards `value` is stored there. A new
/// entry gets some TTL; an existing one keeps its TTL. No other value or TTL
/// changes.
/// Storage is only reachable while a contract is executing, hence the `requires`.
#[verifier::external_body]
pub(crate) fn save_limit(env: &mut Env, user: &Address, value: i128)
    requires
        in_contract(*old(env)),
    ensures
        limits(*final(env)) == limits(*old(env)).insert(*user, value),
        unchanged_except(*old(env), *final(env), Family::Limit),
        ttls_unchanged_except(*old(env), *final(env), Family::Limit, *user),
        limit_ttls(*final(env)).contains_key(*user),
{
    env.storage().persistent().set(&(Symbol::new(env, "limit"), user.clone()), &value);
}

/// `Persistent::extend_ttl` of `("limit", user)`: see [`extended`]; the host
/// clamps a persistent entry to the network's maximum TTL. It refuses a
/// missing entry and `threshold > extend_to`, and storage is only reachable
/// while a contract is executing; hence the `requires`. No value and no other
/// TTL changes.
#[verifier::external_body]
pub(crate) fn extend_limit_ttl(env: &mut Env, user: &Address, threshold: u32, extend_to: u32)
    requires
        in_contract(*old(env)),
        limits(*old(env)).contains_key(*user),
        limit_ttls(*old(env)).contains_key(*user),
        threshold <= extend_to,
    ensures
        values_unchanged(*old(env), *final(env)),
        ttls_unchanged_except(*old(env), *final(env), Family::Limit, *user),
        limit_ttls(*final(env)) == limit_ttls(*old(env)).insert(
            *user,
            extended(limit_ttls(*old(env))[*user], threshold, extend_to, max_ttl(*old(env))),
        ),
{
    env.storage().persistent().extend_ttl(&(Symbol::new(env, "limit"), user.clone()), threshold, extend_to);
}

// -- persistent: drips ------------------------------------------------------

/// `Persistent::get` of `("drip", drip)`: the value stored there, if any.
/// Storage is only reachable while a contract is executing, hence the `requires`.
#[verifier::external_body]
pub(crate) fn load_drip(env: &Env, drip: &Address) -> (r: Option<bool>)
    requires
        in_contract(*env),
    ensures
        r == drips(*env).get(*drip),
        r is Some ==> drip_ttls(*env).contains_key(*drip),
{
    env.storage().persistent().get(&(Symbol::new(env, "drip"), drip.clone()))
}

/// `Persistent::set` of `("drip", drip)`: afterwards `value` is stored there. A new
/// entry gets some TTL; an existing one keeps its TTL. No other value or TTL
/// changes.
/// Storage is only reachable while a contract is executing, hence the `requires`.
#[verifier::external_body]
pub(crate) fn save_drip(env: &mut Env, drip: &Address, value: bool)
    requires
        in_contract(*old(env)),
    ensures
        drips(*final(env)) == drips(*old(env)).insert(*drip, value),
        unchanged_except(*old(env), *final(env), Family::Drip),
        ttls_unchanged_except(*old(env), *final(env), Family::Drip, *drip),
        drip_ttls(*final(env)).contains_key(*drip),
{
    env.storage().persistent().set(&(Symbol::new(env, "drip"), drip.clone()), &value);
}

/// `Persistent::extend_ttl` of `("drip", drip)`: see [`extended`]; the host
/// clamps a persistent entry to the network's maximum TTL. It refuses a
/// missing entry and `threshold > extend_to`, and storage is only reachable
/// while a contract is executing; hence the `requires`. No value and no other
/// TTL changes.
#[verifier::external_body]
pub(crate) fn extend_drip_ttl(env: &mut Env, drip: &Address, threshold: u32, extend_to: u32)
    requires
        in_contract(*old(env)),
        drips(*old(env)).contains_key(*drip),
        drip_ttls(*old(env)).contains_key(*drip),
        threshold <= extend_to,
    ensures
        values_unchanged(*old(env), *final(env)),
        ttls_unchanged_except(*old(env), *final(env), Family::Drip, *drip),
        drip_ttls(*final(env)) == drip_ttls(*old(env)).insert(
            *drip,
            extended(drip_ttls(*old(env))[*drip], threshold, extend_to, max_ttl(*old(env))),
        ),
{
    env.storage().persistent().extend_ttl(&(Symbol::new(env, "drip"), drip.clone()), threshold, extend_to);
}

// -- persistent: passkeys ---------------------------------------------------

/// `Persistent::get` of `("pubkey", user)`, a `BytesN<65>` handed out as its
/// 65 bytes (`BytesN::to_array`).
/// Storage is only reachable while a contract is executing, hence the `requires`.
#[verifier::external_body]
pub(crate) fn load_pubkey(env: &Env, user: &Address) -> (r: Option<[u8; 65]>)
    requires
        in_contract(*env),
    ensures
        r is Some <==> pubkeys(*env).contains_key(*user),
        r matches Some(k) ==> k@ == pubkeys(*env)[*user],
        r is Some ==> pubkey_ttls(*env).contains_key(*user),
{
    let stored: Option<BytesN<65>> = env.storage().persistent().get(&(Symbol::new(env, "pubkey"), user.clone()));
    match stored {
        Some(k) => Some(k.to_array()),
        None => None,
    }
}

/// `Persistent::set` of `("pubkey", user)`, storing `key` as a `BytesN<65>`
/// (`BytesN::from_array`). A new entry gets some TTL; an existing one keeps
/// its TTL. No other value or TTL changes.
/// Storage is only reachable while a contract is executing, hence the `requires`.
#[verifier::external_body]
pub(crate) fn save_pubkey(env: &mut Env, user: &Address, key: &[u8; 65])
    requires
        in_contract(*old(env)),
    ensures
        pubkeys(*final(env)) == pubkeys(*old(env)).insert(*user, key@),
        unchanged_except(*old(env), *final(env), Family::PubKey),
        ttls_unchanged_except(*old(env), *final(env), Family::PubKey, *user),
        pubkey_ttls(*final(env)).contains_key(*user),
{
    let value = BytesN::from_array(env, key);
    env.storage().persistent().set(&(Symbol::new(env, "pubkey"), user.clone()), &value);
}

/// `Persistent::extend_ttl` of `("pubkey", user)`: see [`extended`]; the host
/// clamps a persistent entry to the network's maximum TTL. It refuses a
/// missing entry and `threshold > extend_to`, and storage is only reachable
/// while a contract is executing; hence the `requires`. No value and no other
/// TTL changes.
#[verifier::external_body]
pub(crate) fn extend_pubkey_ttl(env: &mut Env, user: &Address, threshold: u32, extend_to: u32)
    requires
        in_contract(*old(env)),
        pubkeys(*old(env)).contains_key(*user),
        pubkey_ttls(*old(env)).contains_key(*user),
        threshold <= extend_to,
    ensures
        values_unchanged(*old(env), *final(env)),
        ttls_unchanged_except(*old(env), *final(env), Family::PubKey, *user),
        pubkey_ttls(*final(env)) == pubkey_ttls(*old(env)).insert(
            *user,
            extended(pubkey_ttls(*old(env))[*user], threshold, extend_to, max_ttl(*old(env))),
        ),
{
    env.storage().persistent().extend_ttl(&(Symbol::new(env, "pubkey"), user.clone()), threshold, extend_to);
}

// -- persistent: thresholds -------------------------------------------------

/// `Persistent::get` of `("thresh", user)`: the value stored there, if any.
/// Storage is only reachable while a contract is executing, hence the `requires`.
#[verifier::external_body]
pub(crate) fn load_threshold(env: &Env, user: &Address) -> (r: Option<u32>)
    requires
        in_contract(*env),
    ensures
        r == thresholds(*env).get(*user),
{
    env.storage().persistent().get(&(Symbol::new(env, "thresh"), user.clone()))
}

/// `Persistent::set` of `("thresh", user)`: afterwards `value` is stored there. A new
/// entry gets some TTL; an existing one keeps its TTL. No other value or TTL
/// changes.
/// Storage is only reachable while a contract is executing, hence the `requires`.
#[verifier::external_body]
pub(crate) fn save_threshold(env: &mut Env, user: &Address, value: u32)
    requires
        in_contract(*old(env)),
    ensures
        thresholds(*final(env)) == thresholds(*old(env)).insert(*user, value),
        unchanged_except(*old(env), *final(env), Family::Threshold),
        ttls_unchanged_except(*old(env), *final(env), Family::Threshold, *user),
{
    env.storage().persistent().set(&(Symbol::new(env, "thresh"), user.clone()), &value);
}

// -- temporary: the day book ------------------------------------------------

/// `Temporary::get` of `("day", user)`: the value stored there, if any.
/// Storage is only reachable while a contract is executing, hence the `requires`.
#[verifier::external_body]
pub(crate) fn load_day_mark(env: &Env, user: &Address) -> (r: Option<u32>)
    requires
        in_contract(*env),
    ensures
        r == day_marks(*env).get(*user),
        r is Some ==> day_mark_ttls(*env).contains_key(*user),
{
    env.storage().temporary().get(&(Symbol::new(env, "day"), user.clone()))
}

/// `Temporary::set` of `("day", user)`: afterwards `value` is stored there. A new
/// entry gets some TTL; an existing one keeps its TTL. No other value or TTL
/// changes.
/// Storage is only reachable while a contract is executing, hence the `requires`.
#[verifier::external_body]
pub(crate) fn save_day_mark(env: &mut Env, user: &Address, value: u32)
    requires
        in_contract(*old(env)),
    ensures
        day_marks(*final(env)) == day_marks(*old(env)).insert(*user, value),
        unchanged_except(*old(env), *final(env), Family::DayMark),
        ttls_unchanged_except(*old(env), *final(env), Family::DayMark, *user),
        day_mark_ttls(*final(env)).contains_key(*user),
{
    env.storage().temporary().set(&(Symbol::new(env, "day"), user.clone()), &value);
}

/// `Temporary::extend_ttl` of `("day", user)`: see [`extended`]. The host refuses
/// a missing entry, `threshold > extend_to`, and, for a temporary entry, an
/// `extend_to` past the network's maximum TTL, and storage is only reachable
/// while a contract is executing; hence the `requires`. No value and no other
/// TTL changes.
#[verifier::external_body]
pub(crate) fn extend_day_mark_ttl(env: &mut Env, user: &Address, threshold: u32, extend_to: u32)
    requires
        in_contract(*old(env)),
        day_marks(*old(env)).contains_key(*user),
        day_mark_ttls(*old(env)).contains_key(*user),
        threshold <= extend_to,
        extend_to <= max_ttl(*old(env)),
    ensures
        values_unchanged(*old(env), *final(env)),
        ttls_unchanged_except(*old(env), *final(env), Family::DayMark, *user),
        day_mark_ttls(*final(env)) == day_mark_ttls(*old(env)).insert(
            *user,
            extended(day_mark_ttls(*old(env))[*user], threshold, extend_to, max_ttl(*old(env))),
        ),
{
    env.storage().temporary().extend_ttl(&(Symbol::new(env, "day"), user.clone()), threshold, extend_to);
}

/// `Temporary::get` of `("spent", user)`: the value stored there, if any.
/// Storage is only reachable while a contract is executing, hence the `requires`.
#[verifier::external_body]
pub(crate) fn load_day_total(env: &Env, user: &Address) -> (r: Option<i128>)
    requires
        in_contract(*env),
    ensures
        r == day_totals(*env).get(*user),
        r is Some ==> day_total_ttls(*env).contains_key(*user),
{
    env.storage().temporary().get(&(Symbol::new(env, "spent"), user.clone()))
}

/// `Temporary::set` of `("spent", user)`: afterwards `value` is stored there. A new
/// entry gets some TTL; an existing one keeps its TTL. No other value or TTL
/// changes.
/// Storage is only reachable while a contract is executing, hence the `requires`.
#[verifier::external_body]
pub(crate) fn save_day_total(env: &mut Env, user: &Address, value: i128)
    requires
        in_contract(*old(env)),
    ensures
        day_totals(*final(env)) == day_totals(*old(env)).insert(*user, value),
        unchanged_except(*old(env), *final(env), Family::DayTotal),
        ttls_unchanged_except(*old(env), *final(env), Family::DayTotal, *user),
        day_total_ttls(*final(env)).contains_key(*user),
{
    env.storage().temporary().set(&(Symbol::new(env, "spent"), user.clone()), &value);
}

/// `Temporary::extend_ttl` of `("spent", user)`: see [`extended`]. The host refuses
/// a missing entry, `threshold > extend_to`, and, for a temporary entry, an
/// `extend_to` past the network's maximum TTL, and storage is only reachable
/// while a contract is executing; hence the `requires`. No value and no other
/// TTL changes.
#[verifier::external_body]
pub(crate) fn extend_day_total_ttl(env: &mut Env, user: &Address, threshold: u32, extend_to: u32)
    requires
        in_contract(*old(env)),
        day_totals(*old(env)).contains_key(*user),
        day_total_ttls(*old(env)).contains_key(*user),
        threshold <= extend_to,
        extend_to <= max_ttl(*old(env)),
    ensures
        values_unchanged(*old(env), *final(env)),
        ttls_unchanged_except(*old(env), *final(env), Family::DayTotal, *user),
        day_total_ttls(*final(env)) == day_total_ttls(*old(env)).insert(
            *user,
            extended(day_total_ttls(*old(env))[*user], threshold, extend_to, max_ttl(*old(env))),
        ),
{
    env.storage().temporary().extend_ttl(&(Symbol::new(env, "spent"), user.clone()), threshold, extend_to);
}

// -- instance: the registry's admin -----------------------------------------

/// `Instance::has` of `"admin"`.
/// Storage is only reachable while a contract is executing, hence the `requires`.
#[verifier::external_body]
pub(crate) fn admin_present(env: &Env) -> (r: bool)
    requires
        in_contract(*env),
    ensures
        r == admin_of(*env) is Some,
{
    env.storage().instance().has(&Symbol::new(env, "admin"))
}

/// `Instance::get` of `"admin"`.
/// Storage is only reachable while a contract is executing, hence the `requires`.
#[verifier::external_body]
pub(crate) fn load_admin(env: &Env) -> (r: Option<Address>)
    requires
        in_contract(*env),
    ensures
        r == admin_of(*env),
{
    env.storage().instance().get(&Symbol::new(env, "admin"))
}

/// `Instance::set` of `"admin"`. The instance keeps its TTL; no other value or
/// TTL changes.
/// Storage is only reachable while a contract is executing, hence the `requires`.
#[verifier::external_body]
pub(crate) fn save_admin(env: &mut Env, admin: &Address)
    requires
        in_contract(*old(env)),
    ensures
        admin_of(*final(env)) == Some(*admin),
        unchanged_except(*old(env), *final(env), Family::Admin),
        ttls_unchanged_except(*old(env), *final(env), Family::Admin, *admin),
{
    env.storage().instance().set(&Symbol::new(env, "admin"), admin);
}

/// `Instance::extend_ttl`: extends the running contract's instance (see
/// [`extended`]; the host clamps it to the network's maximum TTL) and its code,
/// whose TTL is not modelled. No value and no entry TTL changes.
/// Storage is only reachable while a contract is executing, hence the `requires`.
#[verifier::external_body]
pub(crate) fn extend_instance_ttl(env: &mut Env, threshold: u32, extend_to: u32)
    requires
        in_contract(*old(env)),
        threshold <= extend_to,
    ensures
        values_unchanged(*old(env), *final(env)),
        entry_ttls_unchanged(*old(env), *final(env)),
        max_ttl(*final(env)) == max_ttl(*old(env)),
        instance_ttl(*final(env)) == extended(instance_ttl(*old(env)), threshold, extend_to, max_ttl(*old(env))),
{
    env.storage().instance().extend_ttl(threshold, extend_to);
}

/// `Storage::max_ttl`: the largest TTL the network allows now.
#[verifier::external_body]
pub(crate) fn storage_max_ttl(env: &Env) -> (r: u32)
    ensures
        r == max_ttl(*env),
{
    env.storage().max_ttl()
}

// -- other contracts ---------------------------------------------------------

/// From `a` to `b` another contract was called: no stored value and no entry
/// TTL of this contract changed, and its instance's TTL may only have grown.
///
/// The host forbids re-entering a contract, and a contract reaches only its
/// own storage; but any contract may extend the TTL of another's instance
/// (`Deployer::extend_ttl`), and the one called may do so.
pub open spec fn only_instance_extended(a: Env, b: Env) -> bool {
    &&& values_unchanged(a, b)
    &&& entry_ttls_unchanged(a, b)
    &&& instance_ttl(b) >= instance_ttl(a)
}

/// `Address::to_payload`: whether `address` is a contract address. The SDK
/// reads the address's kind from its XDR, which depends on the address alone.
#[verifier::external_body]
pub(crate) fn is_contract_address(address: &Address) -> (r: bool)
    ensures
        r == names_contract(*address),
{
    match address.to_payload() {
        Some(AddressPayload::ContractIdHash(_)) => true,
        Some(AddressPayload::AccountIdPublicKeyEd25519(_)) => false,
        None => false,
    }
}

/// `Env::try_invoke_contract` of `is_trusted_drip(to)` on the contract at
/// `registry`: its answer, or how the call failed. A reply that is not a
/// `bool` is reported as `InvokeError::Abort`, as the host reports a trap.
///
/// The host turns `registry` into a contract id before it can recover from a
/// failure, so an address that is not a contract's traps; hence the
/// `requires`. Any other failure of the call (no contract there, a trap or an
/// error inside it) comes back as `Err`.
///
/// Which answer, or which failure, comes back depends on the other contract
/// and its storage; it is stated only to be that contract's reply to this
/// question. The call
/// changes nothing of this contract but, possibly, its instance's TTL: see
/// [`only_instance_extended`].
#[verifier::external_body]
pub(crate) fn ask_registry(env: &mut Env, registry: &Address, to: &Address) -> (r: Result<bool, InvokeError>)
    requires
        names_contract(*registry),
    ensures
        in_contract(*final(env)) == in_contract(*old(env)),
        only_instance_extended(*old(env), *final(env)),
        registry_replies(*old(env), *registry, *to, r),
{
    let args = Vec::from_array(env, [to.to_val()]);
    match env.try_invoke_contract::<bool, InvokeError>(registry, &Symbol::new(env, "is_trusted_drip"), args) {
        Ok(Ok(answer)) => Ok(answer),
        Ok(Err(_)) => Err(InvokeError::Abort),
        Err(Ok(failure)) => Err(failure),
        Err(Err(failure)) => Err(failure),
    }
}

// -- ledger and crypto ------------------------------------------------------

/// `Ledger::sequence`: the sequence number of the ledger the invocation runs
/// in.
#[verifier::external_body]
pub(crate) fn ledger_sequence(env: &Env) -> (r: u32)
    ensures
        r == ledger_seq(*env),
{
    env.ledger().sequence()
}

/// `Crypto::sha256` of `data` (copied into a `Bytes` with `Bytes::from_slice`),
/// handed out as its 32 bytes (`Hash::to_array`).
#[verifier::external_body]
pub(crate) fn sha256(env: &Env, data: &[u8]) -> (r: [u8; 32])
    ensures
        r@ == sha256_digest(data@),
{
    env.crypto().sha256(&Bytes::from_slice(env, data)).to_array()
}

} // verus!
