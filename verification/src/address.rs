//! Ledger identities and the derivation of order identities.

use vstd::prelude::*;

verus! {

/// A 32-byte identity on the ledger: an owner, an asset, an order record or
/// the program that runs the engine.
#[derive(Clone, Copy, Debug, PartialEq, Eq, Hash)]
pub struct Address {
    pub bytes: [u8; 32],
}

impl View for Address {
    type V = Seq<u8>;

    open spec fn view(&self) -> Seq<u8> {
        self.bytes@
    }
}

impl Address {
    pub fn new(bytes: [u8; 32]) -> (address: Address)
        ensures
            address.bytes == bytes,
    {
        Address { bytes }
    }

    /// Two identities are the same when all their bytes agree.
    pub fn same_as(&self, other: &Address) -> (same: bool)
        ensures
            same == (*self == *other),
            same == (self@ == other@),
    {
        let mut i: usize = 0;
        while i < 32
            invariant
                i <= 32,
                forall|k: int| 0 <= k < i ==> self.bytes[k] == other.bytes[k],
            decreases 32 - i,
        {
            if self.bytes[i] != other.bytes[i] {
                assert(self@[i as int] != other@[i as int]);
                return false;
            }
            i += 1;
        }
        assert(self.bytes =~= other.bytes);
        true
    }

    /// The identity that `bytes` spell out, where there are 32 of them.
    pub fn from_slice(bytes: &[u8]) -> (address: Option<Address>)
        ensures
            match address {
                Some(address) => address@ == bytes@,
                None => bytes@.len() != 32,
            },
    {
        if bytes.len() != 32 {
            return None;
        }
        let mut out = [0u8; 32];
        let mut i: usize = 0;
        while i < 32
            invariant
                i <= 32,
                bytes@.len() == 32,
                forall|k: int| 0 <= k < i ==> out@[k] == bytes@[k],
            decreases 32 - i,
        {
            out[i] = bytes[i];
            i += 1;
        }
        assert(out@ =~= bytes@);
        Some(Address { bytes: out })
    }

    /// The bytes of the identity, in order.
    pub fn to_vec(&self) -> (out: Vec<u8>)
        ensures
            out@ == self@,
    {
        let mut out: Vec<u8> = Vec::new();
        let mut i: usize = 0;
        while i < 32
            invariant
                i <= 32,
                out@ == self@.take(i as int),
            decreases 32 - i,
        {
            out.push(self.bytes[i]);
            i += 1;
        }
        out
    }
}

/// The first seed of every order identity: the bytes of "order".
pub open spec fn order_tag() -> Seq<u8> {
    seq![111u8, 114u8, 100u8, 101u8, 114u8]
}

/// The seeds that stand for one order of `owner`: the tag, the owner, the
/// listed asset and the nonce, in this order.
pub open spec fn order_seeds(owner: Address, asset: Address, nonce: u8) -> Seq<Seq<u8>> {
    seq![order_tag(), owner@, asset@, seq![nonce]]
}

/// The identity that the ledger derives for `program` from `seeds`, with the
/// bump that completed the search; `None` where the search finds none.
pub uninterp spec fn program_address(seeds: Seq<Seq<u8>>, program: Seq<u8>) -> Option<(Seq<u8>, u8)>;

/// A derived identity and its bump, as bytes.
pub open spec fn derived_view(derived: Option<(Address, u8)>) -> Option<(Seq<u8>, u8)> {
    match derived {
        Some((address, bump)) => Some((address@, bump)),
        None => None,
    }
}

/// The identity whose bytes are `bytes`.
pub open spec fn address_of(bytes: Seq<u8>) -> Address {
    choose|address: Address| address@ == bytes
}

/// The identity of the order that `owner` opens for `asset` under `nonce`,
/// and the bump that proves it, where the ledger can derive one.
pub open spec fn order_identity(program: Address, owner: Address, asset: Address, nonce: u8) -> Option<(Address, u8)> {
    match program_address(order_seeds(owner, asset, nonce), program@) {
        Some((bytes, bump)) => Some((address_of(bytes), bump)),
        None => None,
    }
}

/// An identity is its bytes and nothing else.
pub proof fn lemma_address_is_its_bytes(a: Address, b: Address)
    ensures
        (a@ == b@) == (a == b),
{
    if a@ == b@ {
        assert(a.bytes =~= b.bytes);
    }
}

/// Calls `anchor_lang::prelude::Pubkey::try_find_program_address`, which
/// off the ledger computes the address itself: for the bumps from 255
/// downwards it hashes the seeds, the bump, the program's identity and a
/// fixed marker with SHA-256, and returns the first hash that is no point
/// of the ed25519 curve, with its bump. It returns `None` where no bump
/// gives such a hash, a seed is longer than 32 bytes or there are more
/// than 15 seeds; it does not panic.
///
/// The contract claims one thing: the result depends on the seeds and the
/// program alone, so it is what `program_address` names for them. It says
/// nothing of which address that is.
#[verifier::external_body]
fn try_find_program_address(seeds: &Vec<Vec<u8>>, program: &Address) -> (found: Option<(Address, u8)>)
    ensures
        derived_view(found) == program_address(seeds.deep_view(), program@),
{
    let parts: Vec<&[u8]> = seeds.iter().map(|seed| seed.as_slice()).collect();
    let program_id = anchor_lang::prelude::Pubkey::new_from_array(program.bytes);
    match anchor_lang::prelude::Pubkey::try_find_program_address(&parts, &program_id) {
        Some((address, bump)) => Some((Address { bytes: address.to_bytes() }, bump)),
        None => None,
    }
}

/// Derives the identity of the order that `owner` opens for `asset` under
/// `nonce`. The same inputs always give the same identity; the nonce lets one
/// owner hold several orders for one asset.
pub fn derive_order_address(program: &Address, owner: &Address, asset: &Address, nonce: u8) -> (derived: Option<(Address, u8)>)
    ensures
        derived == order_identity(*program, *owner, *asset, nonce),
{
    // The tag spells "order".
    let mut tag: Vec<u8> = Vec::new();
    tag.push(111u8);
    tag.push(114u8);
    tag.push(100u8);
    tag.push(101u8);
    tag.push(114u8);
    let mut last: Vec<u8> = Vec::new();
    last.push(nonce);
    let mut seeds: Vec<Vec<u8>> = Vec::new();
    seeds.push(tag);
    seeds.push(owner.to_vec());
    seeds.push(asset.to_vec());
    seeds.push(last);
    proof {
        let deep = seeds.deep_view();
        let want = order_seeds(*owner, *asset, nonce);
        assert(deep.len() == 4);
        assert(deep[0] =~= want[0]);
        assert(deep[1] =~= want[1]);
        assert(deep[2] =~= want[2]);
        assert(deep[3] =~= want[3]);
        assert(deep =~= want);
    }
    let found = try_find_program_address(&seeds, program);
    proof {
        if let Some((address, bump)) = found {
            lemma_address_is_its_bytes(address, address_of(address@));
        }
    }
    found
}

/// Whether `identity` is `address` with `bump`.
pub fn is_identity(identity: Option<(Address, u8)>, address: &Address, bump: u8) -> (same: bool)
    ensures
        same == (identity == Some((*address, bump))),
{
    match identity {
        Some((found, found_bump)) => found.same_as(address) && found_bump == bump,
        None => false,
    }
}

} // verus!
