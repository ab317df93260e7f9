//! Account identifiers.

use vstd::prelude::*;

verus! {

/// The identity of a ledger participant: a handle of 32 bytes. Two accounts
/// are the same exactly when their bytes are equal.
#[derive(Clone, Copy, Debug)]
pub struct Account {
    pub bytes: [u8; 32],
}

impl Account {
    /// The account with the given bytes.
    pub fn new(bytes: [u8; 32]) -> (account: Account)
        ensures
            account.bytes == bytes,
    {
        Account { bytes }
    }

    /// The bytes of this account.
    pub fn to_bytes(&self) -> (bytes: [u8; 32])
        ensures
            bytes == self.bytes,
    {
        self.bytes
    }
}

impl PartialEq for Account {
    fn eq(&self, other: &Account) -> (same: bool) {
        let mut i: usize = 0;
        while i < 32
            invariant
                i <= 32,
                forall|j: int| 0 <= j < i ==> self.bytes[j] == other.bytes[j],
            decreases 32 - i,
        {
            if self.bytes[i] != other.bytes[i] {
                return false;
            }
            i += 1;
        }
        proof {
            assert(self.bytes =~= other.bytes);
        }
        true
    }
}

impl Eq for Account {

}

impl vstd::std_specs::cmp::PartialEqSpecImpl for Account {
    open spec fn obeys_eq_spec() -> bool {
        true
    }

    open spec fn eq_spec(&self, other: &Account) -> bool {
        self.bytes == other.bytes
    }
}

} // verus!
