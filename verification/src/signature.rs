use crate::env::{Env, EnvView};
use crate::identity::{Identity, IdentityView};
use vstd::prelude::*;

verus! {

/// The mathematical value of a [`Signature`].
pub enum SignatureView {
    Invoker,
    Signed(IdentityView),
}

/// What a caller presents to authorize a write in someone's name.
#[derive(Debug)]
pub enum Signature {
    /// No signature: the write is made in the name of the invoker.
    Invoker,
    /// A signed assertion, held here as the identity that it claims to be
    /// signed by. Whether the claim is true is for a verifier of signatures
    /// to say, which has the signed bytes.
    Signed(Identity),
}

impl View for Signature {
    type V = SignatureView;

    open spec fn view(&self) -> SignatureView {
        match self {
            Signature::Invoker => SignatureView::Invoker,
            Signature::Signed(signer) => SignatureView::Signed(signer@),
        }
    }
}

/// The identity in whose name `signature` speaks when it is presented in `env`.
pub open spec fn signer_of(signature: SignatureView, env: EnvView) -> IdentityView {
    match signature {
        SignatureView::Invoker => env.invoker,
        SignatureView::Signed(signer) => signer,
    }
}

impl Signature {
    /// The identity in whose name this signature speaks: the invoker of
    /// `env`, or the signer that a signed assertion names.
    pub fn identifier<'a>(&'a self, env: &'a Env) -> (signer: &'a Identity)
        ensures
            signer@ == signer_of(self@, env@),
    {
        match self {
            Signature::Invoker => env.invoker(),
            Signature::Signed(signer) => signer,
        }
    }
}

} // verus!
