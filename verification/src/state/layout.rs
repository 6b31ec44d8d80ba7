//! The fixed-size layout in which the ledger keeps an order record: the
//! creator, the listed asset, the listed amount, the price, the accepting
//! asset, the filled amount, the tags of kind and status, the seed and the
//! bump. Amounts are little-endian; there is no field of variable length.

use vstd::prelude::*;
use vstd::bytes::*;
use vstd::slice::*;
use crate::address::{lemma_address_is_its_bytes, Address};
use crate::state::order::{Order, OrderStatus, OrderType};

verus! {

/// The number of bytes of a record.
pub const ORDER_SPACE: usize = 124;

impl OrderType {
    /// The byte that stands for the kind.
    pub open spec fn tag(self) -> u8 {
        match self {
            OrderType::Buy => 0,
            OrderType::Sell => 1,
        }
    }

    pub fn to_tag(&self) -> (tag: u8)
        ensures
            tag == self.tag(),
    {
        match self {
            OrderType::Buy => 0,
            OrderType::Sell => 1,
        }
    }

    /// The kind that `tag` stands for, if it stands for one.
    pub fn from_tag(tag: u8) -> (kind: Option<OrderType>)
        ensures
            match kind {
                Some(kind) => kind.tag() == tag,
                None => forall|kind: OrderType| kind.tag() != tag,
            },
    {
        if tag == 0 {
            Some(OrderType::Buy)
        } else if tag == 1 {
            Some(OrderType::Sell)
        } else {
            None
        }
    }
}

impl OrderStatus {
    /// The byte that stands for the status.
    pub open spec fn tag(self) -> u8 {
        match self {
            OrderStatus::Open => 0,
            OrderStatus::Filled => 1,
            OrderStatus::PartiallyFilled => 2,
        }
    }

    pub fn to_tag(&self) -> (tag: u8)
        ensures
            tag == self.tag(),
    {
        match self {
            OrderStatus::Open => 0,
            OrderStatus::Filled => 1,
            OrderStatus::PartiallyFilled => 2,
        }
    }

    /// The status that `tag` stands for, if it stands for one.
    pub fn from_tag(tag: u8) -> (status: Option<OrderStatus>)
        ensures
            match status {
                Some(status) => status.tag() == tag,
                None => forall|status: OrderStatus| status.tag() != tag,
            },
    {
        if tag == 0 {
            Some(OrderStatus::Open)
        } else if tag == 1 {
            Some(OrderStatus::Filled)
        } else if tag == 2 {
            Some(OrderStatus::PartiallyFilled)
        } else {
            None
        }
    }
}

impl Order {
    /// The bytes of the record, field after field.
    pub open spec fn layout(self) -> Seq<u8> {
        self.creator@ + self.listed_token_mint@ + spec_u64_to_le_bytes(self.listed_token_amount)
            + spec_u64_to_le_bytes(self.listed_token_price) + self.accepting_token_mint@
            + spec_u64_to_le_bytes(self.filled_amount) + seq![
            self.order_type.tag(),
            self.order_status.tag(),
            self.seed,
            self.bump,
        ]
    }

    /// Writes the record out in its layout.
    pub fn to_bytes(&self) -> (out: Vec<u8>)
        ensures
            out@ == self.layout(),
            out@.len() == ORDER_SPACE,
    {
        proof {
            lemma_auto_spec_u64_to_from_le_bytes();
        }
        let mut out = self.creator.to_vec();
        let mut part = self.listed_token_mint.to_vec();
        out.append(&mut part);
        let mut part = u64_to_le_bytes(self.listed_token_amount);
        out.append(&mut part);
        let mut part = u64_to_le_bytes(self.listed_token_price);
        out.append(&mut part);
        let mut part = self.accepting_token_mint.to_vec();
        out.append(&mut part);
        let mut part = u64_to_le_bytes(self.filled_amount);
        out.append(&mut part);
        let ghost fields = out@;
        out.push(self.order_type.to_tag());
        out.push(self.order_status.to_tag());
        out.push(self.seed);
        out.push(self.bump);
        assert(out@ =~= fields + seq![
            self.order_type.tag(),
            self.order_status.tag(),
            self.seed,
            self.bump,
        ]);
        out
    }

    /// Reads a record from its layout: the one record whose layout `bytes`
    /// is, or none where `bytes` is the layout of no record.
    pub fn from_bytes(bytes: &[u8]) -> (order: Option<Order>)
        ensures
            match order {
                Some(order) => order.layout() == bytes@,
                None => forall|any: Order| any.layout() != bytes@,
            },
    {
        proof {
            lemma_auto_spec_u64_to_from_le_bytes();
            assert forall|any: Order| #[trigger] any.layout().len() == ORDER_SPACE by {
                lemma_layout_fields(any);
            }
        }
        if bytes.len() != ORDER_SPACE {
            return None;
        }
        let order_type = match OrderType::from_tag(bytes[120]) {
            Some(order_type) => order_type,
            None => {
                assert forall|any: Order| any.layout() != bytes@ by {
                    lemma_layout_fields(any);
                }
                return None;
            },
        };
        let order_status = match OrderStatus::from_tag(bytes[121]) {
            Some(order_status) => order_status,
            None => {
                assert forall|any: Order| any.layout() != bytes@ by {
                    lemma_layout_fields(any);
                }
                return None;
            },
        };
        let creator = match Address::from_slice(slice_subrange(bytes, 0, 32)) {
            Some(creator) => creator,
            None => return None,
        };
        let listed_token_mint = match Address::from_slice(slice_subrange(bytes, 32, 64)) {
            Some(listed_token_mint) => listed_token_mint,
            None => return None,
        };
        let accepting_token_mint = match Address::from_slice(slice_subrange(bytes, 80, 112)) {
            Some(accepting_token_mint) => accepting_token_mint,
            None => return None,
        };
        let order = Order {
            creator,
            listed_token_mint,
            listed_token_amount: u64_from_le_bytes(slice_subrange(bytes, 64, 72)),
            listed_token_price: u64_from_le_bytes(slice_subrange(bytes, 72, 80)),
            accepting_token_mint,
            filled_amount: u64_from_le_bytes(slice_subrange(bytes, 112, 120)),
            order_type,
            order_status,
            seed: bytes[122],
            bump: bytes[123],
        };
        proof {
            lemma_layout_fields(order);
            assert(order.layout() =~= bytes@);
        }
        Some(order)
    }
}

/// Where each field stands in the layout of a record.
pub proof fn lemma_layout_fields(order: Order)
    ensures
        order.layout().len() == ORDER_SPACE,
        order.layout().subrange(0, 32) == order.creator@,
        order.layout().subrange(32, 64) == order.listed_token_mint@,
        order.layout().subrange(64, 72) == spec_u64_to_le_bytes(order.listed_token_amount),
        order.layout().subrange(72, 80) == spec_u64_to_le_bytes(order.listed_token_price),
        order.layout().subrange(80, 112) == order.accepting_token_mint@,
        order.layout().subrange(112, 120) == spec_u64_to_le_bytes(order.filled_amount),
        order.layout()[120] == order.order_type.tag(),
        order.layout()[121] == order.order_status.tag(),
        order.layout()[122] == order.seed,
        order.layout()[123] == order.bump,
{
    lemma_auto_spec_u64_to_from_le_bytes();
    let bytes = order.layout();
    assert(bytes.subrange(0, 32) =~= order.creator@);
    assert(bytes.subrange(32, 64) =~= order.listed_token_mint@);
    assert(bytes.subrange(64, 72) =~= spec_u64_to_le_bytes(order.listed_token_amount));
    assert(bytes.subrange(72, 80) =~= spec_u64_to_le_bytes(order.listed_token_price));
    assert(bytes.subrange(80, 112) =~= order.accepting_token_mint@);
    assert(bytes.subrange(112, 120) =~= spec_u64_to_le_bytes(order.filled_amount));
}

/// A layout holds all of its record: two records with the same layout are
/// the same record. So what `to_bytes` writes, `from_bytes` reads back.
pub proof fn lemma_layout_holds_the_record(a: Order, b: Order)
    requires
        a.layout() == b.layout(),
    ensures
        a == b,
{
    lemma_layout_fields(a);
    lemma_layout_fields(b);
    lemma_auto_spec_u64_to_from_le_bytes();
    lemma_address_is_its_bytes(a.creator, b.creator);
    lemma_address_is_its_bytes(a.listed_token_mint, b.listed_token_mint);
    lemma_address_is_its_bytes(a.accepting_token_mint, b.accepting_token_mint);
    assert(spec_u64_from_le_bytes(spec_u64_to_le_bytes(a.listed_token_amount)) == spec_u64_from_le_bytes(
        spec_u64_to_le_bytes(b.listed_token_amount),
    ));
    assert(spec_u64_from_le_bytes(spec_u64_to_le_bytes(a.listed_token_price)) == spec_u64_from_le_bytes(
        spec_u64_to_le_bytes(b.listed_token_price),
    ));
    assert(spec_u64_from_le_bytes(spec_u64_to_le_bytes(a.filled_amount)) == spec_u64_from_le_bytes(
        spec_u64_to_le_bytes(b.filled_amount),
    ));
}

} // verus!
