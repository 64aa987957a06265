//! Persisted market state and its fixed-width wire format.

use vstd::prelude::*;
use vstd::bytes::{
    lemma_auto_spec_u64_to_from_le_bytes, spec_u64_from_le_bytes, spec_u64_to_le_bytes,
    u64_from_le_bytes, u64_to_le_bytes,
};
use vstd::slice::{slice_index_get, slice_subrange, slice_to_vec};
use crate::address::{Address, ADDRESS_LEN};
use crate::error::PredictChainError;

verus! {

/// Length in bytes of a serialized market-state entry:
/// `bump_seed:1 || resolve_authority:32 || yes_mint:32 || no_mint:32 || volume:8`.
pub const EVENT_ACCOUNT_LEN: usize = 105;

/// Mathematical content of one market-state entry.
pub ghost struct EventRec {
    /// Bump value fixed at market creation; rederives the signing authority.
    pub bump_seed: u8,
    /// Identity of the designated resolver.
    pub resolve_authority: Seq<u8>,
    /// Identity of the "yes" outcome-token mint.
    pub yes_mint_address: Seq<u8>,
    /// Identity of the "no" outcome-token mint.
    pub no_mint_address: Seq<u8>,
    /// Cumulative payment currency collected by the market.
    pub volume: u64,
}

impl EventRec {
    /// The three stored identities hold 32 bytes each.
    pub open spec fn wf(self) -> bool {
        &&& self.resolve_authority.len() == ADDRESS_LEN
        &&& self.yes_mint_address.len() == ADDRESS_LEN
        &&& self.no_mint_address.len() == ADDRESS_LEN
    }

    /// The same entry with its volume replaced.
    pub open spec fn with_volume(self, v: u64) -> EventRec {
        EventRec {
            bump_seed: self.bump_seed,
            resolve_authority: self.resolve_authority,
            yes_mint_address: self.yes_mint_address,
            no_mint_address: self.no_mint_address,
            volume: v,
        }
    }

    /// The fixed 105-byte little-endian encoding of the entry.
    pub open spec fn to_bytes(self) -> Seq<u8> {
        seq![self.bump_seed] + self.resolve_authority + self.yes_mint_address
            + self.no_mint_address + spec_u64_to_le_bytes(self.volume)
    }
}

/// Decodes a serialized market-state entry; any 105-byte string decodes,
/// every other length is rejected.
pub open spec fn parse_event(data: Seq<u8>) -> Option<EventRec> {
    if data.len() == EVENT_ACCOUNT_LEN {
        Some(
            EventRec {
                bump_seed: data[0],
                resolve_authority: data.subrange(1, 33),
                yes_mint_address: data.subrange(33, 65),
                no_mint_address: data.subrange(65, 97),
                volume: spec_u64_from_le_bytes(data.subrange(97, 105)),
            },
        )
    } else {
        None
    }
}

/// Encoding then decoding a well-formed entry gives the entry back.
pub proof fn lemma_event_encode_decode(e: EventRec)
    requires
        e.wf(),
    ensures
        parse_event(e.to_bytes()) == Some(e),
{
    lemma_auto_spec_u64_to_from_le_bytes();
    let b = e.to_bytes();
    assert(b.len() == EVENT_ACCOUNT_LEN);
    assert(b.subrange(1, 33) =~= e.resolve_authority);
    assert(b.subrange(33, 65) =~= e.yes_mint_address);
    assert(b.subrange(65, 97) =~= e.no_mint_address);
    assert(b.subrange(97, 105) =~= spec_u64_to_le_bytes(e.volume));
}

/// Decoding then re-encoding gives the input bytes back: the encoding is
/// canonical, with no slack in the wire format.
pub proof fn lemma_event_decode_encode(data: Seq<u8>)
    requires
        parse_event(data) is Some,
    ensures
        parse_event(data)->0.wf(),
        parse_event(data)->0.to_bytes() == data,
{
    lemma_auto_spec_u64_to_from_le_bytes();
    let e = parse_event(data)->0;
    assert(spec_u64_to_le_bytes(spec_u64_from_le_bytes(data.subrange(97, 105))) == data.subrange(
        97,
        105,
    ));
    assert(e.to_bytes() =~= data);
}

/// One persisted market-state entry, as the module works with it.
#[derive(Debug, PartialEq, Eq)]
pub struct EventAccount {
    /// Bump value fixed at market creation; rederives the signing authority.
    pub bump_seed: u8,
    /// Identity of the designated resolver.
    pub resolve_authority: Address,
    /// Identity of the "yes" outcome-token mint.
    pub yes_mint_address: Address,
    /// Identity of the "no" outcome-token mint.
    pub no_mint_address: Address,
    /// Cumulative payment currency collected by the market.
    pub volume: u64,
}

impl View for EventAccount {
    type V = EventRec;

    open spec fn view(&self) -> EventRec {
        EventRec {
            bump_seed: self.bump_seed,
            resolve_authority: self.resolve_authority@,
            yes_mint_address: self.yes_mint_address@,
            no_mint_address: self.no_mint_address@,
            volume: self.volume,
        }
    }
}

impl EventAccount {
    /// The stored addresses are well-formed.
    pub open spec fn wf(&self) -> bool {
        self@.wf()
    }

    /// Decodes an entry from its serialized bytes.
    pub fn unpack(data: &[u8]) -> (r: Result<EventAccount, PredictChainError>)
        ensures
            r is Ok <==> parse_event(data@) is Some,
            r is Ok ==> r->Ok_0@ == parse_event(data@)->0 && r->Ok_0.wf(),
            r is Err ==> r->Err_0 == PredictChainError::GenericError,
    {
        if data.len() != EVENT_ACCOUNT_LEN {
            return Err(PredictChainError::GenericError);
        }
        let bump_seed = *slice_index_get(data, 0);
        let resolve_authority = match Address::from_bytes(
            slice_to_vec(slice_subrange(data, 1, 33)),
        ) {
            Some(a) => a,
            None => {
                return Err(PredictChainError::GenericError);
            },
        };
        let yes_mint_address = match Address::from_bytes(
            slice_to_vec(slice_subrange(data, 33, 65)),
        ) {
            Some(a) => a,
            None => {
                return Err(PredictChainError::GenericError);
            },
        };
        let no_mint_address = match Address::from_bytes(
            slice_to_vec(slice_subrange(data, 65, 97)),
        ) {
            Some(a) => a,
            None => {
                return Err(PredictChainError::GenericError);
            },
        };
        let volume = u64_from_le_bytes(slice_subrange(data, 97, 105));
        Ok(
            EventAccount {
                bump_seed,
                resolve_authority,
                yes_mint_address,
                no_mint_address,
                volume,
            },
        )
    }

    /// Encodes the entry into its fixed 105-byte form.
    pub fn pack(&self) -> (r: Vec<u8>)
        requires
            self.wf(),
        ensures
            r@ == self@.to_bytes(),
            r@.len() == EVENT_ACCOUNT_LEN,
    {
        let mut out: Vec<u8> = Vec::new();
        out.push(self.bump_seed);
        push_address(&mut out, &self.resolve_authority);
        push_address(&mut out, &self.yes_mint_address);
        push_address(&mut out, &self.no_mint_address);
        let mut vol = u64_to_le_bytes(self.volume);
        out.append(&mut vol);
        proof {
            lemma_auto_spec_u64_to_from_le_bytes();
            assert(out@ =~= self@.to_bytes());
        }
        out
    }

    /// A copy of the entry.
    pub fn dup(&self) -> (r: EventAccount)
        ensures
            r@ == self@,
    {
        EventAccount {
            bump_seed: self.bump_seed,
            resolve_authority: self.resolve_authority.dup(),
            yes_mint_address: self.yes_mint_address.dup(),
            no_mint_address: self.no_mint_address.dup(),
            volume: self.volume,
        }
    }
}

/// Appends the 32 bytes of an address to a byte buffer.
fn push_address(out: &mut Vec<u8>, a: &Address)
    requires
        a.wf(),
        old(out)@.len() + ADDRESS_LEN <= usize::MAX,
    ensures
        final(out)@ == old(out)@ + a@,
{
    let bytes = a.as_bytes();
    let mut i: usize = 0;
    while i < bytes.len()
        invariant
            bytes@ == a@,
            a.wf(),
            i <= bytes@.len(),
            out@ == old(out)@ + a@.subrange(0, i as int),
        decreases bytes@.len() - i,
    {
        out.push(bytes[i]);
        i = i + 1;
        proof {
            assert(out@ =~= old(out)@ + a@.subrange(0, i as int));
        }
    }
    proof {
        assert(out@ =~= old(out)@ + a@);
    }
}

} // verus!
