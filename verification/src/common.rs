//! Value types shared by requests, bids and orders.

use crate::order::OrderId;
use std::collections::HashMap;
use vstd::prelude::*;
use vstd::string::StringExecFns;

verus! {

/// A signed amount of currency. A balance may be negative.
#[derive(Clone, Copy)]
pub struct Tokens(i32);

impl View for Tokens {
    type V = int;

    closed spec fn view(&self) -> int {
        self.0 as int
    }
}

impl Tokens {
    /// The amount `val`.
    pub fn new(val: i32) -> (tokens: Self)
        ensures
            tokens@ == val,
    {
        Tokens(val)
    }

    /// The amount as a number.
    pub fn value(&self) -> (val: i32)
        ensures
            val == self@,
    {
        self.0
    }

    /// Adds `tokens` in place. The sum has to fit the machine integer.
    pub fn add(&mut self, tokens: Tokens)
        requires
            i32::MIN <= old(self)@ + tokens@ <= i32::MAX,
        ensures
            final(self)@ == old(self)@ + tokens@,
    {
        self.0 = self.0 + tokens.0;
    }

    /// Subtracts `tokens` in place. The difference has to fit the machine integer.
    pub fn sub(&mut self, tokens: Tokens)
        requires
            i32::MIN <= old(self)@ - tokens@ <= i32::MAX,
        ensures
            final(self)@ == old(self)@ - tokens@,
    {
        self.0 = self.0 - tokens.0;
    }
}

/// Identifier of a product category.
#[derive(Clone, Copy, PartialEq, Eq, Structural, Debug)]
pub struct Product(pub u32);

/// Identifier of a resource category. Maps of parts and of requirements are
/// keyed by the number inside.
#[derive(Clone, Copy, Hash, PartialEq, Eq, Structural, Debug)]
pub struct CapacityType(pub u32);

/// An amount of one capacity type.
#[derive(Clone, Copy, PartialEq, Eq, Structural, Debug)]
pub struct Capacity(pub i32);

/// Identifier of a customer, as the customer chose it.
#[derive(PartialEq, Eq, Debug)]
pub struct CustomerId(pub String);

impl View for CustomerId {
    type V = Seq<char>;

    open spec fn view(&self) -> Seq<char> {
        self.0@
    }
}

impl Clone for CustomerId {
    fn clone(&self) -> (id: Self)
        ensures
            id == *self,
    {
        CustomerId(self.0.clone())
    }
}

/// Identifier of a producer, as the producer chose it.
#[derive(PartialEq, Eq, Debug)]
pub struct ProducerId(pub String);

impl View for ProducerId {
    type V = Seq<char>;

    open spec fn view(&self) -> Seq<char> {
        self.0@
    }
}

impl Clone for ProducerId {
    fn clone(&self) -> (id: Self)
        ensures
            id == *self,
    {
        ProducerId(self.0.clone())
    }
}

/// A price per unit of capacity, held as the bit pattern of an IEEE 754
/// single-precision number. The kernel carries the price and never computes
/// with it.
#[derive(Clone, Copy)]
pub struct CapacityUnitPrice(pub u32);

/// How an order's cycle went: 0 completed, 1 still processing, 3 rejected.
#[derive(Clone, Copy, Debug, PartialEq, Eq, Structural)]
pub struct Score(pub u32);

/// The name under which a customer orders: `c`, then the customer's id.
pub open spec fn customer_agent(id: Seq<char>) -> Seq<char> {
    seq!['c'] + id
}

/// The name under which a producer orders: `p`, then the producer's id.
pub open spec fn producer_agent(id: Seq<char>) -> Seq<char> {
    seq!['p'] + id
}

/// The identity of an ordering agent across both roles.
#[derive(Hash, PartialEq, Eq, Debug)]
pub struct OrderingAgentId(String);

impl View for OrderingAgentId {
    type V = Seq<char>;

    closed spec fn view(&self) -> Seq<char> {
        self.0@
    }
}

impl Clone for OrderingAgentId {
    fn clone(&self) -> (id: Self)
        ensures
            id@ == self@,
    {
        OrderingAgentId(self.0.clone())
    }
}

impl OrderingAgentId {
    /// The agent that a producer is when it orders.
    pub fn from_producer(id: ProducerId) -> (agent: Self)
        ensures
            agent@ == producer_agent(id@),
    {
        let mut name = String::from_str("p");
        name.append(id.0.as_str());
        proof {
            reveal_strlit("p");
            assert("p"@ =~= seq!['p']);
        }
        OrderingAgentId(name)
    }

    /// The agent that a customer is when it orders.
    pub fn from_customer(id: CustomerId) -> (agent: Self)
        ensures
            agent@ == customer_agent(id@),
    {
        let mut name = String::from_str("c");
        name.append(id.0.as_str());
        proof {
            reveal_strlit("c");
            assert("c"@ =~= seq!['c']);
        }
        OrderingAgentId(name)
    }

    /// The role-prefixed name.
    pub fn as_str(&self) -> (name: &str)
        ensures
            name@ == self@,
    {
        self.0.as_str()
    }
}

/// The recipe of a product: how much of each capacity type it takes. The map
/// is keyed by the capacity type's number.
pub struct ProcessSheet {
    pub product: Product,
    pub require: HashMap<u32, Capacity>,
}

/// A process sheet as mathematics.
pub struct ProcessSheetView {
    pub product: Product,
    pub require: Map<u32, Capacity>,
}

impl View for ProcessSheet {
    type V = ProcessSheetView;

    open spec fn view(&self) -> ProcessSheetView {
        ProcessSheetView { product: self.product, require: self.require@ }
    }
}

/// An offer of capacity of one type to one order, at a cost in tokens.
pub struct Bid {
    pub capacity_type: CapacityType,
    pub capacity: Capacity,
    pub tokens: Tokens,
    pub order_id: OrderId,
}

/// A bid as mathematics.
pub struct BidView {
    pub capacity_type: CapacityType,
    pub capacity: Capacity,
    pub tokens: int,
    pub order_id: Seq<char>,
}

impl View for Bid {
    type V = BidView;

    open spec fn view(&self) -> BidView {
        BidView {
            capacity_type: self.capacity_type,
            capacity: self.capacity,
            tokens: self.tokens@,
            order_id: self.order_id@,
        }
    }
}

impl Clone for Bid {
    fn clone(&self) -> (bid: Self)
        ensures
            bid@ == self@,
    {
        Bid {
            capacity_type: self.capacity_type,
            capacity: self.capacity,
            tokens: self.tokens,
            order_id: self.order_id.clone(),
        }
    }
}

} // verus!
