use vstd::prelude::*;

verus! {

/// The mathematical value of an [`Identity`]: its tag and the bytes of its
/// address.
pub enum IdentityView {
    Account(Seq<u8>),
    Contract(Seq<u8>),
}

impl IdentityView {
    /// The bytes of the address, whatever the tag.
    pub open spec fn address(self) -> Seq<u8> {
        match self {
            IdentityView::Account(address) => address,
            IdentityView::Contract(address) => address,
        }
    }

    /// The identity that an address written as text names: a contract
    /// where the text begins with the letter `C`, an account otherwise.
    pub open spec fn of_text(text: Seq<u8>) -> IdentityView {
        if text.len() > 0 && text[0] == CONTRACT_MARK {
            IdentityView::Contract(text)
        } else {
            IdentityView::Account(text)
        }
    }
}

/// The letter `C`, with which the text of a contract's address begins.
pub const CONTRACT_MARK: u8 = 67;

/// A principal that can own a key: an account or a contract, each named by
/// the bytes of its address. Two identities are the same when both the tag
/// and the address agree.
#[derive(Debug)]
pub enum Identity {
    Account(Vec<u8>),
    Contract(Vec<u8>),
}

impl View for Identity {
    type V = IdentityView;

    open spec fn view(&self) -> IdentityView {
        match self {
            Identity::Account(address) => IdentityView::Account(address@),
            Identity::Contract(address) => IdentityView::Contract(address@),
        }
    }
}

/// Whether two byte strings hold the same bytes.
pub fn bytes_equal(a: &Vec<u8>, b: &Vec<u8>) -> (same: bool)
    ensures
        same == (a@ == b@),
{
    if a.len() != b.len() {
        return false;
    }
    let mut i: usize = 0;
    while i < a.len()
        invariant
            a@.len() == b@.len(),
            i <= a@.len(),
            forall|j: int| 0 <= j < i ==> a@[j] == b@[j],
        decreases a@.len() - i,
    {
        if a[i] != b[i] {
            return false;
        }
        i += 1;
    }
    assert(a@ =~= b@);
    true
}

impl Identity {
    /// The identity that an address written as text names. The text is kept
    /// whole as the identity's address.
    pub fn from_text(text: Vec<u8>) -> (identity: Identity)
        ensures
            identity@ == IdentityView::of_text(text@),
    {
        if text.len() > 0 && text[0] == CONTRACT_MARK {
            Identity::Contract(text)
        } else {
            Identity::Account(text)
        }
    }

    /// The bytes of the address, whatever the tag.
    pub fn address(&self) -> (address: &Vec<u8>)
        ensures
            address@ == self@.address(),
    {
        match self {
            Identity::Account(address) => address,
            Identity::Contract(address) => address,
        }
    }

    /// Whether `self` and `other` name the same principal.
    pub fn same(&self, other: &Identity) -> (same: bool)
        ensures
            same == (self@ == other@),
    {
        match (self, other) {
            (Identity::Account(a), Identity::Account(b)) => bytes_equal(a, b),
            (Identity::Contract(a), Identity::Contract(b)) => bytes_equal(a, b),
            _ => false,
        }
    }
}

impl Clone for Identity {
    fn clone(&self) -> (copy: Identity)
        ensures
            copy@ == self@,
    {
        match self {
            Identity::Account(address) => Identity::Account(address.clone()),
            Identity::Contract(address) => Identity::Contract(address.clone()),
        }
    }
}

impl PartialEq for Identity {
    fn eq(&self, other: &Identity) -> (same: bool) {
        self.same(other)
    }
}

impl Eq for Identity {}

impl vstd::std_specs::cmp::PartialEqSpecImpl for Identity {
    open spec fn obeys_eq_spec() -> bool {
        true
    }

    open spec fn eq_spec(&self, other: &Identity) -> bool {
        self@ == other@
    }
}

} // verus!
