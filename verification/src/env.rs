use crate::identity::{Identity, IdentityView};
use crate::store::Store;
use vstd::prelude::*;

verus! {

/// The mathematical value of an [`Env`].
pub struct EnvView {
    /// The identity of the contract that runs the store. It is the owner
    /// that a key without an entry is taken to have.
    pub contract: IdentityView,
    /// The identity that triggered the operation at hand.
    pub invoker: IdentityView,
    /// The owner of each key that has an entry.
    pub data: Map<Seq<u8>, IdentityView>,
}

/// What an operation of the contract runs in: the contract's own identity, the
/// identity of whoever invoked it, and the store.
pub struct Env {
    contract: Identity,
    invoker: Identity,
    data: Store,
}

impl View for Env {
    type V = EnvView;

    closed spec fn view(&self) -> EnvView {
        EnvView { contract: self.contract@, invoker: self.invoker@, data: self.data@ }
    }
}

impl Env {
    /// The environment's invariant: its store is well formed.
    pub closed spec fn wf(&self) -> bool {
        self.data.wf()
    }

    /// An environment of the contract `contract`, invoked by `invoker`, with
    /// no key claimed yet.
    pub fn new(contract: Identity, invoker: Identity) -> (env: Env)
        ensures
            env.wf(),
            env@ == (EnvView {
                contract: contract@,
                invoker: invoker@,
                data: Map::<Seq<u8>, IdentityView>::empty(),
            }),
    {
        Env { contract, invoker, data: Store::new() }
    }

    /// The contract's own identity.
    pub fn current_contract(&self) -> (contract: &Identity)
        ensures
            contract@ == self@.contract,
    {
        &self.contract
    }

    /// The identity that triggered the operation at hand.
    pub fn invoker(&self) -> (invoker: &Identity)
        ensures
            invoker@ == self@.invoker,
    {
        &self.invoker
    }

    /// Makes `invoker` the identity on whose behalf the next operations run.
    /// The store and the contract's identity stay as they are.
    pub fn set_invoker(&mut self, invoker: Identity)
        ensures
            final(self).wf() == old(self).wf(),
            final(self)@ == (EnvView { invoker: invoker@, ..old(self)@ }),
    {
        self.invoker = invoker;
    }

    /// The store.
    pub fn data(&self) -> (data: &Store)
        requires
            self.wf(),
        ensures
            data.wf(),
            data@ == self@.data,
    {
        &self.data
    }

    /// Records `owner` for `key` without asking who may: the raw write that
    /// the contract performs once it has agreed to one.
    pub fn set_owner(&mut self, key: Vec<u8>, owner: Identity)
        requires
            old(self).wf(),
        ensures
            final(self).wf(),
            final(self)@ == (EnvView {
                data: old(self)@.data.insert(key@, owner@),
                ..old(self)@
            }),
    {
        self.data.set(key, owner);
    }
}

} // verus!
