use crate::env::{Env, EnvView};
use crate::error::GateError;
use crate::identity::{Identity, IdentityView};
use crate::signature::{signer_of, Signature, SignatureView};
use vstd::prelude::*;

verus! {

/// How a key stands to an identity that wants to write it.
#[derive(Clone, Copy, Debug, PartialEq, Eq, Structural)]
pub enum Ownership {
    /// The key's owner is the contract itself: nobody has claimed it.
    Unclaimed,
    /// The key is owned by the identity that wants to write.
    ClaimedByCaller,
    /// The key is owned by someone else.
    ClaimedByOther,
}

/// What the contract decides on a write by signature before any signature is
/// verified.
#[derive(Clone, Copy, Debug, PartialEq, Eq, Structural)]
pub enum SigStep {
    /// The write goes ahead and no verification is called for.
    Write,
    /// The signer owns the key: the write goes ahead if and only if the
    /// signature is verified.
    Verify,
    /// The signer does not own the key: the write is refused, and no
    /// verification is paid for.
    Deny,
}

/// The owner that `key` is taken to have: the recorded one, or the contract
/// itself where none is recorded.
pub open spec fn current_owner(env: EnvView, key: Seq<u8>) -> IdentityView {
    if env.data.contains_key(key) {
        env.data[key]
    } else {
        env.contract
    }
}

/// How `key` stands to `claimant`.
pub open spec fn ownership_of(env: EnvView, key: Seq<u8>, claimant: IdentityView) -> Ownership {
    if current_owner(env, key) == env.contract {
        Ownership::Unclaimed
    } else if current_owner(env, key) == claimant {
        Ownership::ClaimedByCaller
    } else {
        Ownership::ClaimedByOther
    }
}

/// `env` with `owner` recorded for `key`.
pub open spec fn written(env: EnvView, key: Seq<u8>, owner: IdentityView) -> EnvView {
    EnvView { data: env.data.insert(key, owner), ..env }
}

/// What a read of `key` gives.
pub open spec fn read(env: EnvView, key: Seq<u8>) -> Result<IdentityView, GateError> {
    if env.data.contains_key(key) {
        Ok(env.data[key])
    } else {
        Err(GateError::KeyNotFound)
    }
}

/// Whether a write of `key` by the invoker is let through.
pub open spec fn change_val_result(env: EnvView, key: Seq<u8>) -> Result<(), GateError> {
    match ownership_of(env, key, env.invoker) {
        Ownership::ClaimedByOther => Err(GateError::NotAuthorized),
        _ => Ok(()),
    }
}

/// The environment after the invoker's attempt to record `owner` for `key`.
pub open spec fn after_change_val(env: EnvView, key: Seq<u8>, owner: IdentityView) -> EnvView {
    if change_val_result(env, key).is_ok() {
        written(env, key, owner)
    } else {
        env
    }
}

/// What the contract decides on a write of `key` under `signature` before any
/// verification.
pub open spec fn sig_step_of(env: EnvView, signature: SignatureView, key: Seq<u8>) -> SigStep {
    match ownership_of(env, key, signer_of(signature, env)) {
        Ownership::Unclaimed => SigStep::Write,
        Ownership::ClaimedByOther => SigStep::Deny,
        Ownership::ClaimedByCaller => match signature {
            SignatureView::Invoker => SigStep::Write,
            SignatureView::Signed(_) => SigStep::Verify,
        },
    }
}

/// Whether a write of `key` under `signature` is let through, where
/// `verified` says whether the verifier accepted the signature.
pub open spec fn use_sig_result(
    env: EnvView,
    signature: SignatureView,
    key: Seq<u8>,
    verified: bool,
) -> Result<(), GateError> {
    match sig_step_of(env, signature, key) {
        SigStep::Write => Ok(()),
        SigStep::Deny => Err(GateError::NotAuthorized),
        SigStep::Verify => if verified {
            Ok(())
        } else {
            Err(GateError::InvalidSignature)
        },
    }
}

/// The environment after the attempt to record `owner` for `key` under
/// `signature`.
pub open spec fn after_use_sig(
    env: EnvView,
    signature: SignatureView,
    key: Seq<u8>,
    owner: IdentityView,
    verified: bool,
) -> EnvView {
    if use_sig_result(env, signature, key, verified).is_ok() {
        written(env, key, owner)
    } else {
        env
    }
}

/// The contract that guards the store: every write passes through it.
pub struct ExampleContract;

impl ExampleContract {
    /// The tag of the operation that a signature must have been made for,
    /// together with the key and the new owner.
    pub fn operation_tag() -> (tag: &'static str)
        ensures
            tag@ == "change"@,
    {
        "change"
    }

    /// How `key` stands to `claimant`: unclaimed, claimed by `claimant`, or
    /// claimed by another.
    pub fn ownership(env: &Env, key: &Vec<u8>, claimant: &Identity) -> (state: Ownership)
        requires
            env.wf(),
        ensures
            state == ownership_of(env@, key@, claimant@),
    {
        match env.data().get(key) {
            None => Ownership::Unclaimed,
            Some(owner) => {
                if owner.same(env.current_contract()) {
                    Ownership::Unclaimed
                } else if owner.same(claimant) {
                    Ownership::ClaimedByCaller
                } else {
                    Ownership::ClaimedByOther
                }
            },
        }
    }

    /// Records `value` as the owner of `key` on behalf of the invoker.
    ///
    /// The write is made when the key is unclaimed or owned by the invoker.
    /// When it is owned by another, the call fails with `NotAuthorized` and
    /// the environment stays as it was.
    pub fn change_val(env: &mut Env, key: Vec<u8>, value: Identity) -> (result: Result<
        (),
        GateError,
    >)
        requires
            old(env).wf(),
        ensures
            final(env).wf(),
            result == change_val_result(old(env)@, key@),
            final(env)@ == after_change_val(old(env)@, key@, value@),
    {
        match Self::ownership(env, &key, env.invoker()) {
            Ownership::ClaimedByOther => Err(GateError::NotAuthorized),
            _ => {
                env.set_owner(key, value);
                Ok(())
            },
        }
    }

    /// What a write of `key` under `signature` comes to before any
    /// verification: it goes ahead, it is refused, or it hangs on the
    /// verifier's answer. The owner is compared before any verification, so
    /// that a signer who does not own the key is refused without one.
    pub fn sig_step(env: &Env, signature: &Signature, key: &Vec<u8>) -> (step: SigStep)
        requires
            env.wf(),
        ensures
            step == sig_step_of(env@, signature@, key@),
    {
        match Self::ownership(env, key, signature.identifier(env)) {
            Ownership::Unclaimed => SigStep::Write,
            Ownership::ClaimedByOther => SigStep::Deny,
            Ownership::ClaimedByCaller => match signature {
                Signature::Invoker => SigStep::Write,
                Signature::Signed(_) => SigStep::Verify,
            },
        }
    }

    /// Records `value` as the owner of `key` in the name of the signer of
    /// `sig`.
    ///
    /// `verified` is the verifier's answer on `sig` over the operation tag,
    /// `key` and `value`. It is read only where [`ExampleContract::sig_step`]
    /// gives `Verify`; a caller that has not asked the verifier passes
    /// `false`. An unclaimed key is written whatever the signature. A signer
    /// who does not own the key is refused with `NotAuthorized`; one who does
    /// and whose signature was not accepted, with `InvalidSignature`. On
    /// either error the environment stays as it was.
    pub fn use_sig(
        env: &mut Env,
        sig: Signature,
        key: Vec<u8>,
        value: Identity,
        verified: bool,
    ) -> (result: Result<(), GateError>)
        requires
            old(env).wf(),
        ensures
            final(env).wf(),
            result == use_sig_result(old(env)@, sig@, key@, verified),
            final(env)@ == after_use_sig(old(env)@, sig@, key@, value@, verified),
    {
        match Self::sig_step(env, &sig, &key) {
            SigStep::Deny => Err(GateError::NotAuthorized),
            SigStep::Verify => {
                if verified {
                    env.set_owner(key, value);
                    Ok(())
                } else {
                    Err(GateError::InvalidSignature)
                }
            },
            SigStep::Write => {
                env.set_owner(key, value);
                Ok(())
            },
        }
    }

    /// The owner recorded for `key`; `KeyNotFound` where the key has no
    /// entry, which is not the same as an entry that names the contract.
    pub fn get(env: &Env, key: Vec<u8>) -> (result: Result<Identity, GateError>)
        requires
            env.wf(),
        ensures
            match result {
                Ok(owner) => read(env@, key@) == Ok::<IdentityView, GateError>(owner@),
                Err(error) => read(env@, key@) == Err::<IdentityView, GateError>(error),
            },
    {
        match env.data().get(&key) {
            Some(owner) => Ok(owner.clone()),
            None => Err(GateError::KeyNotFound),
        }
    }
}

} // verus!
