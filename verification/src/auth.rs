//! Passkey (P-256) registration, multi-sig thresholds and the preparation of
//! a signature check.
use crate::error::Error;
use crate::guard::{bump_instance, bump_persistent, PersistentKey, INSTANCE_BUMP_AT, INSTANCE_TTL};
use crate::guard;
use crate::host;
use crate::host::{load_pubkey, load_threshold, save_pubkey, save_threshold, sha256, Family};
use soroban_sdk::{Address, Env};
use vstd::prelude::*;

verus! {

/// What the host must check for a signature to verify: a SECP256R1 (P-256)
/// signature by `public_key` over the SHA-256 `digest` of the message.
pub struct SignatureCheck {
    /// The 65-byte uncompressed P-256 key (0x04 || x || y).
    pub public_key: [u8; 65],
    /// SHA-256 of the signed message.
    pub digest: [u8; 32],
    /// The signature in compact (r || s) form.
    pub signature: [u8; 64],
}

/// A stored threshold, or 1 (single-key) when none is stored.
pub open spec fn threshold_or_default(stored: Option<u32>) -> u32 {
    match stored {
        Some(t) => t,
        None => 1,
    }
}

/// The effect of `register_key(user, pubkey)` taking `a` to `b`: the key is
/// stored, and it and the instance are kept alive.
pub open spec fn register_key_post(a: Env, b: Env, user: Address, pubkey: Seq<u8>) -> bool {
    &&& host::pubkeys(b) == host::pubkeys(a).insert(user, pubkey)
    &&& host::unchanged_except(a, b, Family::PubKey)
    &&& host::entry_ttls_unchanged_except(a, b, Family::PubKey, user)
    &&& host::pubkey_ttls(b).contains_key(user)
    &&& guard::kept_alive(host::pubkey_ttls(b)[user], host::max_ttl(a))
    &&& host::instance_ttl(b) == host::extended(
        host::instance_ttl(a),
        INSTANCE_BUMP_AT,
        INSTANCE_TTL,
        host::max_ttl(a),
    )
    &&& host::max_ttl(b) == host::max_ttl(a)
}

/// The effect of `set_threshold(user, threshold)` taking `a` to `b` with
/// result `r`: a threshold below 1 is refused and changes nothing.
pub open spec fn set_threshold_post(a: Env, b: Env, user: Address, threshold: u32, r: Result<(), Error>) -> bool {
    if threshold < 1 {
        r == Err::<(), Error>(Error::BadThreshold) && b == a
    } else {
        &&& r == Ok::<(), Error>(())
        &&& host::thresholds(b) == host::thresholds(a).insert(user, threshold)
        &&& host::unchanged_except(a, b, Family::Threshold)
        &&& host::ttls_unchanged_except(a, b, Family::Threshold, user)
    }
}

/// What `verify_sig(user, message, signature)` gives in storage `env`: `NoKey`
/// when `user` has no passkey, else the check of `signature` by that key over
/// the SHA-256 of `message`.
pub open spec fn verify_sig_post(env: Env, user: Address, message: Seq<u8>, signature: Seq<u8>, r: Result<SignatureCheck, Error>) -> bool {
    if !host::pubkeys(env).contains_key(user) {
        r == Err::<SignatureCheck, Error>(Error::NoKey)
    } else {
        &&& r is Ok
        &&& r->Ok_0.public_key@ == host::pubkeys(env)[user]
        &&& r->Ok_0.digest@ == host::sha256_digest(message)
        &&& r->Ok_0.signature@ == signature
    }
}

/// Register `user`'s passkey public key (65-byte uncompressed P-256).
pub fn register_key(env: &mut Env, user: &Address, pubkey: &[u8; 65])
    requires
        host::in_contract(*old(env)),
    ensures
        register_key_post(*old(env), *final(env), *user, pubkey@),
{
    bump_instance(env);
    save_pubkey(env, user, pubkey);
    bump_persistent(env, PersistentKey::PubKey(user));
}

/// `user`'s passkey, if one is registered.
pub fn key_of(env: &Env, user: &Address) -> (r: Option<[u8; 65]>)
    requires
        host::in_contract(*env),
    ensures
        r is Some <==> host::pubkeys(*env).contains_key(*user),
        r matches Some(k) ==> k@ == host::pubkeys(*env)[*user],
{
    load_pubkey(env, user)
}

/// Set `user`'s multi-sig threshold. It must be at least 1.
pub fn set_threshold(env: &mut Env, user: &Address, threshold: u32) -> (r: Result<(), Error>)
    requires
        host::in_contract(*old(env)),
    ensures
        set_threshold_post(*old(env), *final(env), *user, threshold, r),
{
    if threshold < 1 {
        return Err(Error::BadThreshold);
    }
    save_threshold(env, user, threshold);
    Ok(())
}

/// `user`'s multi-sig threshold; 1 when none is set.
pub fn threshold_of(env: &Env, user: &Address) -> (r: u32)
    requires
        host::in_contract(*env),
    ensures
        r == threshold_or_default(host::thresholds(*env).get(*user)),
{
    match load_threshold(env, user) {
        Some(t) => t,
        None => 1,
    }
}

/// Prepare the verification of a P-256 `signature` by `user` over `message`:
/// `NoKey` when no passkey is registered, else the key, the SHA-256 of the
/// message and the signature, for the host to check.
///
/// The host's check traps on a signature that does not verify; there is no
/// `false` to return. That check is the caller's to make with what this hands
/// back.
pub fn verify_sig(env: &Env, user: &Address, message: &[u8], signature: &[u8; 64]) -> (r: Result<SignatureCheck, Error>)
    requires
        host::in_contract(*env),
    ensures
        verify_sig_post(*env, *user, message@, signature@, r),
{
    let public_key = match key_of(env, user) {
        Some(k) => k,
        None => return Err(Error::NoKey),
    };
    let digest = sha256(env, message);
    Ok(SignatureCheck { public_key, digest, signature: *signature })
}

} // verus!
