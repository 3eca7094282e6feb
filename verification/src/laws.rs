use crate::contract::{
    after_change_val, after_use_sig, change_val_result, current_owner, read, sig_step_of,
    use_sig_result, SigStep,
};
use crate::env::EnvView;
use crate::error::GateError;
use crate::identity::IdentityView;
use crate::signature::SignatureView;
use vstd::prelude::*;

verus! {

/// A key without an entry can always be claimed: whoever the invoker is and
/// whatever identity is written, the write succeeds and a read of the key
/// then gives that identity.
pub proof fn claim_of_unclaimed_key(env: EnvView, key: Seq<u8>, value: IdentityView)
    requires
        !env.data.contains_key(key),
    ensures
        change_val_result(env, key) == Ok::<(), GateError>(()),
        read(after_change_val(env, key, value), key) == Ok::<IdentityView, GateError>(value),
{
}

/// A key that is owned by someone other than the contract itself cannot be
/// written by an invoker who is not its owner: the write fails with
/// `NotAuthorized`, and nothing changes, so a read gives what it gave.
pub proof fn write_by_other_is_refused(env: EnvView, key: Seq<u8>, value: IdentityView)
    requires
        env.data.contains_key(key),
        env.data[key] != env.contract,
        env.data[key] != env.invoker,
    ensures
        change_val_result(env, key) == Err::<(), GateError>(GateError::NotAuthorized),
        after_change_val(env, key, value) == env,
        read(after_change_val(env, key, value), key) == read(env, key),
{
}

/// The owner of a key may overwrite it: the write succeeds, and a read of
/// the key then gives the new owner.
pub proof fn write_by_owner_goes_through(env: EnvView, key: Seq<u8>, value: IdentityView)
    requires
        env.data.contains_key(key),
        env.data[key] == env.invoker,
    ensures
        change_val_result(env, key) == Ok::<(), GateError>(()),
        read(after_change_val(env, key, value), key) == Ok::<IdentityView, GateError>(value),
{
}

/// A signed assertion that names the key's owner as its signer, and that
/// the verifier did not accept, is refused with `InvalidSignature`, and
/// nothing changes. This holds of every key owned by someone other than
/// the contract itself.
pub proof fn unverified_signature_is_refused(
    env: EnvView,
    signer: IdentityView,
    key: Seq<u8>,
    value: IdentityView,
)
    requires
        env.data.contains_key(key),
        env.data[key] != env.contract,
        env.data[key] == signer,
    ensures
        use_sig_result(env, SignatureView::Signed(signer), key, false) == Err::<(), GateError>(
            GateError::InvalidSignature,
        ),
        after_use_sig(env, SignatureView::Signed(signer), key, value, false) == env,
{
}

/// A signer who does not own the key is refused before any verification:
/// the outcome is `NotAuthorized` whatever the verifier would say.
pub proof fn owner_is_compared_before_verification(
    env: EnvView,
    signature: SignatureView,
    key: Seq<u8>,
    value: IdentityView,
    verified: bool,
)
    requires
        sig_step_of(env, signature, key) == SigStep::Deny,
    ensures
        use_sig_result(env, signature, key, verified) == Err::<(), GateError>(
            GateError::NotAuthorized,
        ),
        after_use_sig(env, signature, key, value, verified) == env,
{
}

/// A write under the invoker's own signature is a write by the invoker: the
/// same outcome and the same environment afterwards, whatever is passed for
/// the verifier's answer.
pub proof fn invoker_signature_is_change_val(
    env: EnvView,
    key: Seq<u8>,
    value: IdentityView,
    verified: bool,
)
    ensures
        use_sig_result(env, SignatureView::Invoker, key, verified) == change_val_result(env, key),
        after_use_sig(env, SignatureView::Invoker, key, value, verified) == after_change_val(
            env,
            key,
            value,
        ),
{
}

/// Writing the same identity twice in a row changes nothing the second
/// time: after a write of `value` that went through, a second write of
/// `value` by the key's owner, which is now `value`, goes through as well
/// and leaves the environment as the first write left it.
pub proof fn second_write_changes_nothing(env: EnvView, key: Seq<u8>, value: IdentityView)
    requires
        change_val_result(env, key).is_ok(),
    ensures
        ({
            let first = after_change_val(env, key, value);
            let second = EnvView { invoker: value, ..first };
            &&& current_owner(second, key) == value
            &&& change_val_result(second, key) == Ok::<(), GateError>(())
            &&& after_change_val(second, key, value) == second
            &&& read(after_change_val(second, key, value), key) == read(first, key)
        }),
{
    let first = after_change_val(env, key, value);
    let second = EnvView { invoker: value, ..first };
    assert(second.data.insert(key, value) =~= second.data);
}

/// An address written as text and the identity that it names hold the same
/// bytes, and two texts name the same identity only if they are the same.
pub proof fn text_names_one_identity(first: Seq<u8>, second: Seq<u8>)
    ensures
        IdentityView::of_text(first).address() == first,
        IdentityView::of_text(first) == IdentityView::of_text(second) <==> first == second,
{
}

/// A write either goes through in full or changes nothing, and it never
/// touches another key, the contract's identity or the invoker.
pub proof fn write_is_all_or_nothing(
    env: EnvView,
    signature: SignatureView,
    key: Seq<u8>,
    value: IdentityView,
    verified: bool,
    other: Seq<u8>,
)
    requires
        other != key,
    ensures
        ({
            let after = after_use_sig(env, signature, key, value, verified);
            &&& after.contract == env.contract
            &&& after.invoker == env.invoker
            &&& read(after, other) == read(env, other)
            &&& use_sig_result(env, signature, key, verified).is_ok() ==> read(after, key) == Ok::<
                IdentityView,
                GateError,
            >(value)
            &&& use_sig_result(env, signature, key, verified).is_err() ==> after == env
        }),
{
}

} // verus!
