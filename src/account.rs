use vstd::prelude::*;

verus! {

/// Number of bytes in an account identity.
pub const ID_LEN: usize = 32;

/// An opaque, comparable principal: a caller or a payee.
#[derive(Clone, Copy, Debug, PartialEq, Eq, Hash)]
pub struct AccountId {
    pub bytes: [u8; 32],
}

impl View for AccountId {
    type V = Seq<u8>;

    open spec fn view(&self) -> Seq<u8> {
        self.bytes@
    }
}

impl AccountId {
    /// The identity made of the given bytes.
    pub fn new(bytes: [u8; 32]) -> (r: AccountId)
        ensures
            r == (AccountId { bytes }),
            r@ == bytes@,
    {
        AccountId { bytes }
    }

    /// The bytes of this identity.
    pub fn to_bytes(&self) -> (r: [u8; 32])
        ensures
            r@ == self@,
    {
        self.bytes
    }

    /// Whether two identities are the same principal.
    pub fn same(&self, other: &AccountId) -> (r: bool)
        ensures
            r == (self@ == other@),
    {
        let mut i: usize = 0;
        while i < ID_LEN
            invariant
                i <= ID_LEN,
                self@.len() == ID_LEN,
                other@.len() == ID_LEN,
                forall|j: int| 0 <= j < i ==> self@[j] == other@[j],
            decreases ID_LEN - i,
        {
            if self.bytes[i] != other.bytes[i] {
                return false;
            }
            i = i + 1;
        }
        assert(self@ =~= other@);
        true
    }
}

impl From<[u8; 32]> for AccountId {
    fn from(bytes: [u8; 32]) -> (r: AccountId) {
        AccountId::new(bytes)
    }
}

impl vstd::std_specs::convert::FromSpecImpl<[u8; 32]> for AccountId {
    open spec fn obeys_from_spec() -> bool {
        true
    }

    open spec fn from_spec(bytes: [u8; 32]) -> AccountId {
        AccountId { bytes }
    }
}

} // verus!
