//! The mathematical model of requests, events and orders.
//!
//! An order is a state machine. Its state is an [`OrderView`]; each operation
//! of [`crate::order::Order`] is a function here from the state before, and
//! the operation's input, to the state after and what the operation returns.

use crate::common::{
    customer_agent, producer_agent, BidView, Capacity, CapacityUnitPrice, ProcessSheetView,
    Product, Score,
};
use crate::order::{Investment, OrderError};
use crate::part::{Mark, Part, PartStatus, Settlement};
use vstd::prelude::*;

verus! {

/// A customer's request for a finished product.
pub struct CustomerRequestView {
    pub customer_id: Seq<char>,
    pub product: Product,
    pub tokens: int,
}

/// A producer's request for investment.
pub struct ProducerRequestView {
    pub producer_id: Seq<char>,
    pub product: Product,
    pub tokens: int,
    pub cut_off_price: CapacityUnitPrice,
    pub investment_type: Investment,
}

/// The request behind an order.
pub enum RequestView {
    FromCustomer(CustomerRequestView),
    FromProducer(ProducerRequestView),
}

/// What an order reports at the end of a cycle.
pub enum OrderEventView {
    CustomerRequestCompleted(CustomerRequestView),
    ProducerRequestCompleted(ProducerRequestView),
    CustomerRequestRejected(int, CustomerRequestView),
    ProducerRequestRejected(int, ProducerRequestView),
    StillProcessing,
}

/// What of an order is still to bid on.
pub struct OrderInfoView {
    pub id: Seq<char>,
    pub tokens: int,
    pub required: Map<u32, Capacity>,
}

/// The state of an order. Parts are keyed by the number of their capacity
/// type.
pub struct OrderView {
    pub id: Seq<char>,
    pub tokens: int,
    pub parts: Map<u32, Part>,
    pub request: RequestView,
    pub cycle: nat,
}

impl RequestView {
    /// The tokens that the request declares.
    pub open spec fn tokens(self) -> int {
        match self {
            RequestView::FromCustomer(r) => r.tokens,
            RequestView::FromProducer(r) => r.tokens,
        }
    }

    /// The name of the ordering agent, with its role in front.
    pub open spec fn agent(self) -> Seq<char> {
        match self {
            RequestView::FromCustomer(r) => customer_agent(r.customer_id),
            RequestView::FromProducer(r) => producer_agent(r.producer_id),
        }
    }

    /// The cut-off price of a producer's request; a customer's request has
    /// none.
    pub open spec fn cut_off_price(self) -> Result<CapacityUnitPrice, OrderError> {
        match self {
            RequestView::FromCustomer(_) => Err(OrderError::WrongRequestKind),
            RequestView::FromProducer(r) => Ok(r.cut_off_price),
        }
    }

    /// The event that reports this request as fulfilled.
    pub open spec fn completed(self) -> OrderEventView {
        match self {
            RequestView::FromCustomer(r) => OrderEventView::CustomerRequestCompleted(r),
            RequestView::FromProducer(r) => OrderEventView::ProducerRequestCompleted(r),
        }
    }

    /// The event that reports this request as given up, with the tokens to
    /// hand back.
    pub open spec fn rejected(self, refund: int) -> OrderEventView {
        match self {
            RequestView::FromCustomer(r) => OrderEventView::CustomerRequestRejected(refund, r),
            RequestView::FromProducer(r) => OrderEventView::ProducerRequestRejected(refund, r),
        }
    }
}

/// The parts of a new order: one for each requirement of the sheet, none of
/// them touched yet.
pub open spec fn untouched_parts(require: Map<u32, Capacity>) -> Map<u32, Part> {
    Map::new(
        |t: u32| require.contains_key(t),
        |t: u32| Part { capacity: require[t], status: PartStatus::Unknown },
    )
}

impl OrderView {
    /// The order as it is created: the balance is what the request declares,
    /// and no cycle has passed.
    pub open spec fn create(id: Seq<char>, sheet: ProcessSheetView, request: RequestView) -> OrderView {
        OrderView {
            id,
            tokens: request.tokens(),
            parts: untouched_parts(sheet.require),
            request,
            cycle: 0,
        }
    }

    /// The capacity of each part that is neither in production nor completed.
    pub open spec fn open_demand(self) -> Map<u32, Capacity> {
        Map::new(
            |t: u32| self.parts.contains_key(t) && self.parts[t].status.is_open(),
            |t: u32| self.parts[t].capacity,
        )
    }

    /// The order's open requirements, with its balance as it is.
    pub open spec fn info(self) -> OrderInfoView {
        OrderInfoView { id: self.id, tokens: self.tokens, required: self.open_demand() }
    }

    /// An order waits for funding exactly while its balance is zero.
    pub open spec fn requires_funding(self) -> bool {
        self.tokens == 0
    }

    /// Funding sets the balance of an order that waits for funding, and is
    /// refused otherwise.
    pub open spec fn fund(self, tokens: int) -> (OrderView, Result<(), OrderError>) {
        if self.requires_funding() {
            (OrderView { tokens, ..self }, Ok(()))
        } else {
            (self, Err(OrderError::NotAwaitingFunding))
        }
    }

    /// The part that a bid speaks of: the bid has to name this order, and a
    /// capacity type that the order has a part for.
    pub open spec fn part_for(self, bid: BidView) -> Result<Part, OrderError> {
        if bid.order_id != self.id {
            Err(OrderError::WrongOrder)
        } else if !self.parts.contains_key(bid.capacity_type.0) {
            Err(OrderError::NotFound)
        } else {
            Ok(self.parts[bid.capacity_type.0])
        }
    }

    /// Whether applying the mark moves the bid's tokens into or out of the
    /// balance.
    pub open spec fn settles(self, bid: BidView, mark: Mark) -> bool {
        self.part_for(bid) matches Ok(part) && part.status.allows(mark) && part.status.settlement(
            mark,
        ) != Settlement::Untouched
    }

    /// Applying a mark: where the bid finds its part and the part takes the
    /// mark, the part gets its new status and the bid's tokens are settled;
    /// otherwise the order stays as it is and the call fails.
    pub open spec fn mark(self, bid: BidView, mark: Mark) -> (OrderView, Result<(), OrderError>) {
        match self.part_for(bid) {
            Err(e) => (self, Err(e)),
            Ok(part) => if part.status.allows(mark) {
                (
                    OrderView {
                        tokens: self.tokens + part.status.settlement(mark).delta(bid.tokens),
                        parts: self.parts.insert(
                            bid.capacity_type.0,
                            Part { capacity: part.capacity, status: mark.target() },
                        ),
                        ..self
                    },
                    Ok(()),
                )
            } else {
                (self, Err(OrderError::WrongState))
            },
        }
    }

    /// Whether every part has the given status.
    pub open spec fn all_parts(self, status: PartStatus) -> bool {
        forall|t: u32| #[trigger] self.parts.contains_key(t) ==> self.parts[t].status == status
    }

    /// The score of the cycle that ends now. Completion is looked at first:
    /// an order whose parts are all completed has succeeded, however late.
    pub open spec fn score(self) -> Score {
        if self.all_parts(PartStatus::Completed) {
            Score(0)
        } else if self.all_parts(PartStatus::Rejected) || self.cycle >= 3 {
            Score(3)
        } else {
            Score(1)
        }
    }

    /// The end of a cycle: the order as it goes on, the score, and the event
    /// for the ordering agent. A rejection hands back the balance.
    pub open spec fn end_cycle(self) -> (OrderView, Score, OrderEventView) {
        let score = self.score();
        if score == Score(0) {
            (self, score, self.request.completed())
        } else if score == Score(3) {
            (self, score, self.request.rejected(self.tokens))
        } else {
            (OrderView { cycle: self.cycle + 1, ..self }, score, OrderEventView::StillProcessing)
        }
    }
}

} // verus!
