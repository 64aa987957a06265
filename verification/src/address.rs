//! Ledger addresses, modeled as plain 32-byte values.

use vstd::prelude::*;

verus! {

/// Number of bytes in a ledger address.
pub const ADDRESS_LEN: usize = 32;

/// A ledger address: the identity of an account, a mint, or a module.
///
/// The host represents these as an opaque public-key type; this library
/// models one as its 32 raw bytes, which is all the logic ever reads.
#[derive(Debug, PartialEq, Eq, Hash)]
pub struct Address {
    bytes: Vec<u8>,
}

impl View for Address {
    type V = Seq<u8>;

    closed spec fn view(&self) -> Seq<u8> {
        self.bytes@
    }
}

impl Address {
    /// A well-formed address holds exactly 32 bytes.
    pub open spec fn wf(&self) -> bool {
        self@.len() == ADDRESS_LEN
    }

    /// Builds an address from its raw bytes; rejects any other length.
    pub fn from_bytes(bytes: Vec<u8>) -> (r: Option<Address>)
        ensures
            r is Some <==> bytes@.len() == ADDRESS_LEN,
            r is Some ==> r->0@ == bytes@ && r->0.wf(),
    {
        if bytes.len() == ADDRESS_LEN {
            Some(Address { bytes })
        } else {
            None
        }
    }

    /// The raw bytes of the address.
    pub fn as_bytes(&self) -> (r: &Vec<u8>)
        ensures
            r@ == self@,
    {
        &self.bytes
    }

    /// Byte-for-byte equality of two addresses.
    pub fn eq_addr(&self, other: &Address) -> (r: bool)
        ensures
            r == (self@ == other@),
    {
        let r = self.bytes == other.bytes;
        proof {
            if r {
                assert(self@ =~= other@);
            }
        }
        r
    }

    /// A copy of the address.
    pub fn dup(&self) -> (r: Address)
        ensures
            r@ == self@,
    {
        let bytes = self.bytes.clone();
        proof {
            assert(bytes@ =~= self.bytes@);
        }
        Address { bytes }
    }
}

} // verus!
