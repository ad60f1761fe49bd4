//! Laws of the order state machine, proved over the model of [`crate::model`].

use crate::common::{customer_agent, producer_agent, BidView};
use crate::model::OrderView;
use crate::order::OrderError;
use crate::part::{Mark, PartStatus};
use vstd::prelude::*;

verus! {

/// After funding with an amount other than zero, an order does not wait for
/// funding. This holds where the funding was refused too: only an order with
/// a balance other than zero refuses it.
pub proof fn lemma_funded_order_needs_no_funding(order: OrderView, tokens: int)
    requires
        tokens != 0,
    ensures
        !order.fund(tokens).0.requires_funding(),
{
}

/// Marking a part as in production twice is the same as marking it once: the
/// second bid for the part, whatever it offers, finds the part in production,
/// succeeds, and changes neither the part nor the balance.
pub proof fn lemma_mark_processing_is_idempotent(order: OrderView, first: BidView, second: BidView)
    requires
        second.order_id == first.order_id,
        second.capacity_type == first.capacity_type,
        order.mark(first, Mark::Processing).1 is Ok,
    ensures
        ({
            let started = order.mark(first, Mark::Processing).0;
            started.mark(second, Mark::Processing) == (started, Ok::<(), OrderError>(()))
        }),
{
    let started = order.mark(first, Mark::Processing).0;
    let again = started.mark(second, Mark::Processing).0;
    assert(again.parts =~= started.parts);
}

/// A bid that starts production and then completes it is paid for once, when
/// production starts: completion moves no tokens, so that the tokens held at
/// the start are the whole change of the balance.
pub proof fn lemma_completion_after_escrow_moves_no_tokens(order: OrderView, bid: BidView)
    requires
        order.mark(bid, Mark::Processing).1 is Ok,
    ensures
        ({
            let started = order.mark(bid, Mark::Processing).0;
            let (done, finish) = started.mark(bid, Mark::Completed);
            &&& finish is Ok
            &&& done.tokens == started.tokens
            &&& done.parts[bid.capacity_type.0].status == PartStatus::Completed
            &&& order.settles(bid, Mark::Processing) ==> done.tokens == order.tokens + bid.tokens
            &&& !order.settles(bid, Mark::Processing) ==> done.tokens == order.tokens
        }),
{
}

/// A bid that completes an untouched part at once is paid for on completion:
/// its tokens leave the balance once.
pub proof fn lemma_direct_completion_pays_once(order: OrderView, bid: BidView)
    requires
        order.part_for(bid) matches Ok(part) && part.status == PartStatus::Unknown,
    ensures
        ({
            let (done, finish) = order.mark(bid, Mark::Completed);
            &&& finish is Ok
            &&& done.tokens == order.tokens - bid.tokens
            &&& done.parts[bid.capacity_type.0].status == PartStatus::Completed
        }),
{
}

/// A part that was started or completed cannot be rejected afterwards: the
/// rejection fails, and leaves the order, and so the part's status, as it
/// was.
pub proof fn lemma_no_rejection_once_started(
    order: OrderView,
    bid: BidView,
    mark: Mark,
    refusal: BidView,
)
    requires
        mark == Mark::Processing || mark == Mark::Completed,
        order.mark(bid, mark).1 is Ok,
        refusal.order_id == bid.order_id,
        refusal.capacity_type == bid.capacity_type,
    ensures
        ({
            let started = order.mark(bid, mark).0;
            started.mark(refusal, Mark::Rejected) == (started, Err::<(), OrderError>(OrderError::WrongState))
        }),
{
}

/// A completed part and a rejected part take no mark at all: the call fails
/// and the order stays as it was.
pub proof fn lemma_closed_part_takes_no_mark(order: OrderView, bid: BidView, mark: Mark)
    requires
        order.part_for(bid) matches Ok(part) && (part.status == PartStatus::Completed || part.status
            == PartStatus::Rejected),
    ensures
        order.mark(bid, mark) == (order, Err::<(), OrderError>(OrderError::WrongState)),
{
}

/// Tokens move only on a bid for an untouched part.
pub proof fn lemma_only_untouched_parts_settle(order: OrderView, bid: BidView, mark: Mark)
    requires
        order.settles(bid, mark),
    ensures
        order.part_for(bid) matches Ok(part) && part.status == PartStatus::Unknown,
        mark != Mark::Rejected,
{
}

/// No operation but the end of a cycle moves the cycle counter, and the end
/// of a cycle never moves it past three.
pub proof fn lemma_cycles_are_bounded(order: OrderView, bid: BidView, mark: Mark, tokens: int)
    requires
        order.cycle <= 3,
    ensures
        order.end_cycle().0.cycle <= 3,
        order.mark(bid, mark).0.cycle == order.cycle,
        order.fund(tokens).0.cycle == order.cycle,
{
}

/// A customer and a producer never order under the same name, whatever their
/// ids are.
pub proof fn lemma_roles_never_share_a_name(customer: Seq<char>, producer: Seq<char>)
    ensures
        customer_agent(customer) != producer_agent(producer),
{
    assert(customer_agent(customer)[0] == 'c');
    assert(producer_agent(producer)[0] == 'p');
}

/// Within one role, different ids give different names.
pub proof fn lemma_names_tell_ids_apart(a: Seq<char>, b: Seq<char>)
    ensures
        customer_agent(a) == customer_agent(b) ==> a == b,
        producer_agent(a) == producer_agent(b) ==> a == b,
{
    assert(customer_agent(a).drop_first() =~= a);
    assert(customer_agent(b).drop_first() =~= b);
    assert(producer_agent(a).drop_first() =~= a);
    assert(producer_agent(b).drop_first() =~= b);
}

} // verus!
