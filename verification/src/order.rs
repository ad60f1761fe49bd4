//! Orders and what surrounds them: requests, events and errors.

use crate::common::{
    Bid, Capacity, CapacityType, CapacityUnitPrice, CustomerId, OrderingAgentId, ProcessSheet,
    ProducerId, Product, Score, Tokens,
};
use crate::model::{
    untouched_parts, CustomerRequestView, OrderEventView, OrderInfoView, OrderView,
    ProducerRequestView, RequestView,
};
use crate::part::{Mark, Part, PartStatus, Settlement};
use std::collections::HashMap;
use vstd::prelude::*;
use vstd::std_specs::iter::IteratorSpec;
use vstd::string::StringExecFns;

verus! {

broadcast use vstd::std_specs::hash::group_hash_axioms;

/// Why an operation on an order was refused. Each of these is a mistake of
/// the caller; an order that cannot be satisfied is no error but a rejection
/// at the end of a cycle.
#[derive(Clone, Copy, PartialEq, Eq, Structural, Debug)]
pub enum OrderError {
    /// The bid names another order.
    WrongOrder,
    /// The order has no part for the bid's capacity type.
    NotFound,
    /// The part's status does not take the mark.
    WrongState,
    /// The order was funded although its balance is not zero.
    NotAwaitingFunding,
    /// A cut-off price was asked of a customer's order.
    WrongRequestKind,
}

/// What a producer's investment is for.
#[derive(Clone, Copy, PartialEq, Eq, Structural, Debug)]
pub enum Investment {
    Restoration,
    Upgrade,
}

/// A customer's request for a finished product.
pub struct CustomerRequest {
    pub customer_id: CustomerId,
    pub product: Product,
    pub tokens: Tokens,
}

impl View for CustomerRequest {
    type V = CustomerRequestView;

    open spec fn view(&self) -> CustomerRequestView {
        CustomerRequestView {
            customer_id: self.customer_id@,
            product: self.product,
            tokens: self.tokens@,
        }
    }
}

impl Clone for CustomerRequest {
    fn clone(&self) -> (request: Self)
        ensures
            request@ == self@,
    {
        CustomerRequest {
            customer_id: self.customer_id.clone(),
            product: self.product,
            tokens: self.tokens,
        }
    }
}

/// A producer's request for investment.
pub struct ProducerRequest {
    pub producer_id: ProducerId,
    pub product: Product,
    pub tokens: Tokens,
    pub cut_off_price: CapacityUnitPrice,
    pub investment_type: Investment,
}

impl View for ProducerRequest {
    type V = ProducerRequestView;

    open spec fn view(&self) -> ProducerRequestView {
        ProducerRequestView {
            producer_id: self.producer_id@,
            product: self.product,
            tokens: self.tokens@,
            cut_off_price: self.cut_off_price,
            investment_type: self.investment_type,
        }
    }
}

impl Clone for ProducerRequest {
    fn clone(&self) -> (request: Self)
        ensures
            request@ == self@,
    {
        ProducerRequest {
            producer_id: self.producer_id.clone(),
            product: self.product,
            tokens: self.tokens,
            cut_off_price: self.cut_off_price,
            investment_type: self.investment_type,
        }
    }
}

/// The request behind an order: a customer's or a producer's.
pub enum Request {
    FromCustomer(CustomerRequest),
    FromProducer(ProducerRequest),
}

impl View for Request {
    type V = RequestView;

    open spec fn view(&self) -> RequestView {
        match self {
            Request::FromCustomer(r) => RequestView::FromCustomer(r@),
            Request::FromProducer(r) => RequestView::FromProducer(r@),
        }
    }
}

impl Clone for Request {
    fn clone(&self) -> (request: Self)
        ensures
            request@ == self@,
    {
        match self {
            Request::FromCustomer(r) => Request::FromCustomer(r.clone()),
            Request::FromProducer(r) => Request::FromProducer(r.clone()),
        }
    }
}

/// Identifier of an order.
#[derive(Hash, PartialEq, Eq, Debug)]
pub struct OrderId(String);

impl View for OrderId {
    type V = Seq<char>;

    closed spec fn view(&self) -> Seq<char> {
        self.0@
    }
}

impl Clone for OrderId {
    fn clone(&self) -> (id: Self)
        ensures
            id@ == self@,
    {
        OrderId(self.0.clone())
    }
}

impl OrderId {
    /// The id with the given text.
    pub fn new(val: &str) -> (id: Self)
        ensures
            id@ == val@,
    {
        OrderId(String::from_str(val))
    }

    /// The text of the id.
    pub fn as_str(&self) -> (val: &str)
        ensures
            val@ == self@,
    {
        self.0.as_str()
    }
}

/// What an order reports at the end of a cycle. A rejection carries the
/// tokens to hand back to the ordering agent.
pub enum OrderEvent {
    CustomerRequestCompleted(CustomerRequest),
    ProducerRequestCompleted(ProducerRequest),
    CustomerRequestRejected(Tokens, CustomerRequest),
    ProducerRequestRejected(Tokens, ProducerRequest),
    StillProcessing,
}

impl View for OrderEvent {
    type V = OrderEventView;

    open spec fn view(&self) -> OrderEventView {
        match self {
            OrderEvent::CustomerRequestCompleted(r) => OrderEventView::CustomerRequestCompleted(r@),
            OrderEvent::ProducerRequestCompleted(r) => OrderEventView::ProducerRequestCompleted(r@),
            OrderEvent::CustomerRequestRejected(t, r) => OrderEventView::CustomerRequestRejected(t@, r@),
            OrderEvent::ProducerRequestRejected(t, r) => OrderEventView::ProducerRequestRejected(t@, r@),
            OrderEvent::StillProcessing => OrderEventView::StillProcessing,
        }
    }
}

/// The open requirements of an order: what remains to bid on. The map is
/// keyed by the capacity type's number.
pub struct OrderInfo {
    id: OrderId,
    tokens: Tokens,
    required: HashMap<u32, Capacity>,
}

impl View for OrderInfo {
    type V = OrderInfoView;

    closed spec fn view(&self) -> OrderInfoView {
        OrderInfoView { id: self.id@, tokens: self.tokens@, required: self.required@ }
    }
}

impl OrderInfo {
    /// The order that the requirements belong to.
    pub fn id(&self) -> (id: &OrderId)
        ensures
            id@ == self@.id,
    {
        &self.id
    }

    /// The order's balance when the requirements were read.
    pub fn tokens(&self) -> (tokens: Tokens)
        ensures
            tokens@ == self@.tokens,
    {
        self.tokens
    }

    /// The capacity still to bid on, by capacity type.
    pub fn required(&self) -> (required: &HashMap<u32, Capacity>)
        ensures
            required@ == self@.required,
    {
        &self.required
    }
}

/// The cycles that an order has been through: never more than three.
struct Cycles {
    passed: u8,
}

impl View for Cycles {
    type V = nat;

    closed spec fn view(&self) -> nat {
        self.passed as nat
    }
}

impl Cycles {
    #[verifier::type_invariant]
    spec fn bounded(self) -> bool {
        self.passed <= 3
    }

    /// No cycle yet.
    fn none() -> (cycles: Self)
        ensures
            cycles@ == 0,
    {
        Cycles { passed: 0 }
    }

    /// The number of cycles.
    fn passed(&self) -> (passed: u8)
        ensures
            passed == self@,
            passed <= 3,
    {
        proof {
            use_type_invariant(self);
        }
        self.passed
    }

    /// One cycle more, where the third has not passed yet.
    fn next(&self) -> (cycles: Self)
        requires
            self@ < 3,
        ensures
            cycles@ == self@ + 1,
    {
        Cycles { passed: self.passed + 1 }
    }
}

/// One request under fulfilment: its parts, its balance, and the cycles it
/// has been through.
pub struct Order {
    id: OrderId,
    tokens: Tokens,
    parts: HashMap<u32, Part>,
    request: Request,
    cycle: Cycles,
}

impl View for Order {
    type V = OrderView;

    closed spec fn view(&self) -> OrderView {
        OrderView {
            id: self.id@,
            tokens: self.tokens@,
            parts: self.parts@,
            request: self.request@,
            cycle: self.cycle@,
        }
    }
}

impl Order {
    /// A new order for the request: one untouched part for each requirement
    /// of the process sheet, the balance that the request declares, and no
    /// cycle behind it. The sheet is taken as it is; it is for the caller to
    /// hand in the sheet of the request's product.
    pub fn new(id: OrderId, ps: &ProcessSheet, request: Request) -> (order: Self)
        ensures
            order@ == OrderView::create(id@, ps@, request@),
    {
        let mut parts: HashMap<u32, Part> = HashMap::new();
        for (capacity_type, capacity) in it: ps.require.iter()
            invariant
                forall|j: int|
                    0 <= j < it.index() ==> parts@.contains_key(*(#[trigger] it.seq()[j]).0),
                forall|t: u32| #[trigger]
                    parts@.contains_key(t) ==> ps.require@.contains_key(t) && parts@[t] == (Part {
                        capacity: ps.require@[t],
                        status: PartStatus::Unknown,
                    }),
        {
            parts.insert(*capacity_type, Part { capacity: *capacity, status: PartStatus::Unknown });
        }
        assert(parts@ =~= untouched_parts(ps.require@));
        let tokens = match &request {
            Request::FromCustomer(r) => r.tokens,
            Request::FromProducer(r) => r.tokens,
        };
        Self { id, tokens, parts, request, cycle: Cycles::none() }
    }

    /// Whether the order waits for funding: its balance is exactly zero.
    pub fn requires_funding(&self) -> (waiting: bool)
        ensures
            waiting == self@.requires_funding(),
    {
        self.tokens.value() == 0
    }

    /// Sets the balance of an order that waits for funding. The tokens are
    /// not added to the balance, they become it. An order that does not wait
    /// for funding refuses them and keeps its balance.
    pub fn fund(&mut self, tokens: Tokens) -> (result: Result<(), OrderError>)
        ensures
            (final(self)@, result) == old(self)@.fund(tokens@),
    {
        if !self.requires_funding() {
            return Err(OrderError::NotAwaitingFunding);
        }
        self.tokens = tokens;
        Ok(())
    }

    /// What remains to bid on: the capacity of every part that is neither in
    /// production nor completed, with the balance as it is.
    pub fn info(&self) -> (info: OrderInfo)
        ensures
            info@ == self@.info(),
    {
        let mut required: HashMap<u32, Capacity> = HashMap::new();
        for (capacity_type, part) in it: self.parts.iter()
            invariant
                forall|j: int|
                    0 <= j < it.index() && (#[trigger] it.seq()[j]).1.status.is_open()
                        ==> required@.contains_key(*it.seq()[j].0),
                forall|t: u32| #[trigger]
                    required@.contains_key(t) ==> self.parts@.contains_key(t)
                        && self.parts@[t].status.is_open() && required@[t]
                        == self.parts@[t].capacity,
        {
            match part.status {
                PartStatus::Processing | PartStatus::Completed => {},
                PartStatus::Rejected | PartStatus::Unknown => {
                    required.insert(*capacity_type, part.capacity);
                },
            }
        }
        assert(required@ =~= self@.open_demand());
        OrderInfo { id: self.id.clone(), tokens: self.tokens, required }
    }

    /// The ordering agent: the customer or the producer behind the request,
    /// under the name of its role.
    pub fn agent_id(&self) -> (agent: OrderingAgentId)
        ensures
            agent@ == self@.request.agent(),
    {
        match &self.request {
            Request::FromCustomer(r) => OrderingAgentId::from_customer(r.customer_id.clone()),
            Request::FromProducer(r) => OrderingAgentId::from_producer(r.producer_id.clone()),
        }
    }

    /// The cut-off price of a producer's order. A customer's order has none.
    pub fn cut_off_price(&self) -> (price: Result<CapacityUnitPrice, OrderError>)
        ensures
            price == self@.request.cut_off_price(),
    {
        match &self.request {
            Request::FromProducer(r) => Ok(r.cut_off_price),
            Request::FromCustomer(_) => Err(OrderError::WrongRequestKind),
        }
    }

    /// The part that the bid speaks of, if the bid names this order and a
    /// capacity type that the order has a part for.
    fn get_part(&self, bid: &Bid) -> (part: Result<Part, OrderError>)
        ensures
            part == self@.part_for(bid@),
    {
        if !(bid.order_id.0 == self.id.0) {
            return Err(OrderError::WrongOrder);
        }
        match self.parts.get(&bid.capacity_type.0) {
            Some(part) => Ok(*part),
            None => Err(OrderError::NotFound),
        }
    }

    /// Applies a mark to the part that the bid speaks of, by the transition
    /// table.
    fn apply(&mut self, bid: &Bid, mark: Mark) -> (result: Result<(), OrderError>)
        requires
            old(self)@.settles(bid@, mark) ==> i32::MIN <= old(self)@.mark(bid@, mark).0.tokens
                <= i32::MAX,
        ensures
            (final(self)@, result) == old(self)@.mark(bid@, mark),
    {
        let part = match self.get_part(bid) {
            Ok(part) => part,
            Err(e) => { return Err(e); },
        };
        let (status, settlement) = match part.status.step(mark) {
            Some(next) => next,
            None => { return Err(OrderError::WrongState); },
        };
        match settlement {
            Settlement::Untouched => {},
            Settlement::Escrow => self.tokens.add(bid.tokens),
            Settlement::Payment => self.tokens.sub(bid.tokens),
        }
        self.parts.insert(bid.capacity_type.0, Part { capacity: part.capacity, status });
        Ok(())
    }

    /// Production for the bid begins: an untouched part goes into production
    /// and the bid's tokens are held in the order's balance. Marking a part in
    /// production once more changes nothing. A completed or rejected part
    /// refuses the mark. Where tokens are held, the new balance has to fit
    /// the machine integer.
    pub fn mark_processing(&mut self, bid: &Bid) -> (result: Result<(), OrderError>)
        requires
            old(self)@.settles(bid@, Mark::Processing) ==> i32::MIN <= old(self)@.tokens
                + bid@.tokens <= i32::MAX,
        ensures
            (final(self)@, result) == old(self)@.mark(bid@, Mark::Processing),
    {
        self.apply(bid, Mark::Processing)
    }

    /// The capacity of the bid is delivered. A part in production was paid
    /// for when production began; an untouched part is paid for now, out of
    /// the balance. A completed or rejected part refuses the mark. Where
    /// tokens are paid, the new balance has to fit the machine integer.
    pub fn mark_completed(&mut self, bid: &Bid) -> (result: Result<(), OrderError>)
        requires
            old(self)@.settles(bid@, Mark::Completed) ==> i32::MIN <= old(self)@.tokens
                - bid@.tokens <= i32::MAX,
        ensures
            (final(self)@, result) == old(self)@.mark(bid@, Mark::Completed),
    {
        self.apply(bid, Mark::Completed)
    }

    /// The bid is refused: an untouched part is marked rejected, for good.
    /// No tokens move. A part in any other status refuses the mark.
    pub fn makr_rejected(&mut self, bid: &Bid) -> (result: Result<(), OrderError>)
        ensures
            (final(self)@, result) == old(self)@.mark(bid@, Mark::Rejected),
    {
        self.apply(bid, Mark::Rejected)
    }

    /// Whether every part has the given status.
    fn every_part_is(&self, status: PartStatus) -> (all: bool)
        ensures
            all == self@.all_parts(status),
    {
        let mut all = true;
        let ghost walk = self.parts.iter().remaining();
        for (_, part) in it: self.parts.iter()
            invariant
                it.seq() == walk,
                all <==> forall|j: int| 0 <= j < it.index() ==> (#[trigger] walk[j]).1.status == status,
        {
            if part.status != status {
                all = false;
            }
        }
        proof {
            // The walk meets every part, and nothing else.
            assert forall|t: u32| #[trigger] self.parts@.contains_key(t) implies exists|j: int|
                0 <= j < walk.len() && *(#[trigger] walk[j]).1 == self.parts@[t] by {
                assert(walk.contains((&t, &self.parts@[t])));
            }
            assert forall|j: int| 0 <= j < walk.len() implies self.parts@.contains_key(
                *(#[trigger] walk[j]).0,
            ) && self.parts@[*walk[j].0] == *walk[j].1 by {
                assert(self.parts@.contains_key(*walk[j].0));
            }
        }
        all
    }

    /// Ends the cycle and gives the verdict. The score is 0 exactly when every
    /// part is completed; short of that it is 3 exactly when every part is
    /// rejected or the third cycle has passed; otherwise it is 1, and one
    /// more cycle has passed. Only a score of 1 changes the order, and no
    /// order counts more than three cycles.
    pub fn end_cycle(&mut self) -> (out: (Score, OrderEvent))
        ensures
            (final(self)@, out.0, out.1@) == old(self)@.end_cycle(),
            out.0 == Score(0) <==> old(self)@.all_parts(PartStatus::Completed),
            out.0 == Score(3) <==> !old(self)@.all_parts(PartStatus::Completed) && (old(self)@.all_parts(
                PartStatus::Rejected,
            ) || old(self)@.cycle == 3),
            old(self)@.cycle <= 3,
            final(self)@.cycle <= 3,
            out.0 == Score(1) <==> out.0 != Score(0) && out.0 != Score(3),
            out.0 == Score(1) ==> final(self)@.cycle == old(self)@.cycle + 1,
            out.0 != Score(1) ==> final(self)@ == old(self)@,
    {
        let passed = self.cycle.passed();
        let all_completed = self.every_part_is(PartStatus::Completed);
        let all_rejected = self.every_part_is(PartStatus::Rejected);
        if all_completed {
            let event = match &self.request {
                Request::FromCustomer(r) => OrderEvent::CustomerRequestCompleted(r.clone()),
                Request::FromProducer(r) => OrderEvent::ProducerRequestCompleted(r.clone()),
            };
            return (Score(0), event);
        }
        if all_rejected || passed == 3 {
            let event = match &self.request {
                Request::FromCustomer(r) => OrderEvent::CustomerRequestRejected(self.tokens, r.clone()),
                Request::FromProducer(r) => OrderEvent::ProducerRequestRejected(self.tokens, r.clone()),
            };
            return (Score(3), event);
        }
        self.cycle = self.cycle.next();
        (Score(1), OrderEvent::StillProcessing)
    }

    /// The id of the order.
    pub fn id(&self) -> (id: &OrderId)
        ensures
            id@ == self@.id,
    {
        &self.id
    }

    /// The balance.
    pub fn tokens(&self) -> (tokens: Tokens)
        ensures
            tokens@ == self@.tokens,
    {
        self.tokens
    }

    /// The cycles that have passed: never more than three.
    pub fn cycle(&self) -> (cycle: u8)
        ensures
            cycle == self@.cycle,
            cycle <= 3,
    {
        self.cycle.passed()
    }

    /// The status of the part for a capacity type, if the order has one.
    pub fn part_status(&self, capacity_type: CapacityType) -> (status: Option<PartStatus>)
        ensures
            status == (if self@.parts.contains_key(capacity_type.0) {
                Some(self@.parts[capacity_type.0].status)
            } else {
                None
            }),
    {
        match self.parts.get(&capacity_type.0) {
            Some(part) => Some(part.status),
            None => None,
        }
    }
}

} // verus!
