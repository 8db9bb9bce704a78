//! Accounts of the Ethereum state trie, keyed by their 20-byte address.
use vstd::prelude::*;

verus! {

/// Number of bytes of an account's address.
pub const ADDRESS_SIZE: usize = 20;

/// An account of the Ethereum state trie; `address` holds the bytes of its
/// 160-bit address.
#[derive(Debug, Default, PartialEq, Eq, PartialOrd, Ord, Copy, Clone)]
pub struct Account {
    pub address: [u8; 20],
}

impl Account {
    /// The bytes of the account's address.
    pub fn as_bytes(&self) -> (r: &[u8])
        ensures
            r@ == self.address@,
            r@.len() == ADDRESS_SIZE,
    {
        self.address.as_slice()
    }
}

} // verus!
