//! Account identities: the bytes of a principal, and its textual form.

use candid::Principal;
use vstd::prelude::*;
use vstd::std_specs::cmp::PartialEqSpecImpl;

verus! {

/// Longest byte string that identifies an account.
pub const MAX_ID_BYTES: usize = 29;

/// The opaque identity of a caller: the bytes of its principal. It serves as
/// a key and carries no other meaning.
#[derive(Debug)]
pub struct AccountId {
    bytes: Vec<u8>,
}

/// The textual form that `candid::Principal::to_text` gives to the principal
/// made of these bytes.
pub uninterp spec fn principal_text(bytes: Seq<u8>) -> Seq<char>;

/// Calls `candid::Principal::to_text` on the principal built from `bytes` by
/// `Principal::from_slice`, which accepts at most 29 bytes. The contract only
/// names the result.
#[verifier::external_body]
fn principal_to_text(bytes: &[u8]) -> (text: String)
    requires
        bytes@.len() <= MAX_ID_BYTES,
    ensures
        text@ == principal_text(bytes@),
{
    Principal::from_slice(bytes).to_text()
}

impl View for AccountId {
    type V = Seq<u8>;

    closed spec fn view(&self) -> Seq<u8> {
        self.bytes@
    }
}

/// The bytes of the anonymous identity.
pub open spec fn anonymous_bytes() -> Seq<u8> {
    seq![4u8]
}

impl AccountId {
    #[verifier::type_invariant]
    spec fn well_formed(self) -> bool {
        self.bytes@.len() <= MAX_ID_BYTES
    }

    /// The identity made of `bytes`, or nothing when there are more than 29.
    pub fn from_bytes(bytes: Vec<u8>) -> (r: Option<AccountId>)
        ensures
            bytes@.len() <= MAX_ID_BYTES ==> r.is_some() && r.unwrap()@ == bytes@,
            bytes@.len() > MAX_ID_BYTES ==> r.is_none(),
    {
        if bytes.len() <= MAX_ID_BYTES {
            Some(AccountId { bytes })
        } else {
            None
        }
    }

    /// The identity that stands for an unauthenticated caller.
    pub fn anonymous() -> (r: AccountId)
        ensures
            r@ == anonymous_bytes(),
    {
        let mut bytes: Vec<u8> = Vec::new();
        bytes.push(4u8);
        AccountId { bytes }
    }

    /// The bytes of this identity.
    pub fn as_bytes(&self) -> (r: &Vec<u8>)
        ensures
            r@ == self@,
            r@.len() <= MAX_ID_BYTES,
    {
        proof {
            use_type_invariant(self);
        }
        &self.bytes
    }

    /// Whether both values are the same identity.
    pub fn same(&self, other: &AccountId) -> (r: bool)
        ensures
            r == (self@ == other@),
    {
        if self.bytes.len() != other.bytes.len() {
            return false;
        }
        let mut i: usize = 0;
        while i < self.bytes.len()
            invariant
                i <= self.bytes.len(),
                self.bytes.len() == other.bytes.len(),
                self.bytes@.take(i as int) == other.bytes@.take(i as int),
            decreases self.bytes.len() - i,
        {
            if self.bytes[i] != other.bytes[i] {
                return false;
            }
            assert(self.bytes@.take(i + 1) == self.bytes@.take(i as int).push(self.bytes@[i as int]));
            assert(other.bytes@.take(i + 1) == other.bytes@.take(i as int).push(
                other.bytes@[i as int],
            ));
            i += 1;
        }
        assert(self.bytes@.take(self.bytes.len() as int) == self.bytes@);
        assert(other.bytes@.take(other.bytes.len() as int) == other.bytes@);
        true
    }

    /// Whether this is the identity of an unauthenticated caller.
    pub fn is_anonymous(&self) -> (r: bool)
        ensures
            r == (self@ == anonymous_bytes()),
    {
        let r = self.bytes.len() == 1 && self.bytes[0] == 4u8;
        assert(r ==> self.bytes@ =~= anonymous_bytes());
        r
    }

    /// The textual form of the identity.
    pub fn to_text(&self) -> (text: String)
        ensures
            text@ == principal_text(self@),
    {
        proof {
            use_type_invariant(self);
        }
        principal_to_text(self.bytes.as_slice())
    }
}

impl Clone for AccountId {
    fn clone(&self) -> (r: AccountId)
        ensures
            r@ == self@,
    {
        proof {
            use_type_invariant(self);
        }
        let mut bytes: Vec<u8> = Vec::new();
        let mut i: usize = 0;
        while i < self.bytes.len()
            invariant
                i <= self.bytes.len(),
                bytes@ == self.bytes@.take(i as int),
            decreases self.bytes.len() - i,
        {
            bytes.push(self.bytes[i]);
            i += 1;
        }
        AccountId { bytes }
    }
}

impl PartialEq for AccountId {
    fn eq(&self, other: &AccountId) -> (r: bool) {
        self.same(other)
    }
}

impl PartialEqSpecImpl for AccountId {
    open spec fn obeys_eq_spec() -> bool {
        true
    }

    open spec fn eq_spec(&self, other: &AccountId) -> bool {
        self@ == other@
    }
}

} // verus!
