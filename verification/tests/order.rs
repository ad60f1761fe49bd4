use emulator::common::{
    Bid, Capacity, CapacityType, CapacityUnitPrice, CustomerId, OrderingAgentId, ProcessSheet, ProducerId, Product,
    Score, Tokens,
};
use emulator::order::{
    CustomerRequest, Investment, Order, OrderError, OrderEvent, OrderId, ProducerRequest, Request,
};
use emulator::part::PartStatus;
use std::collections::HashMap;

fn customer_request(id: &str, tokens: i32) -> CustomerRequest {
    CustomerRequest { customer_id: CustomerId(id.to_owned()), product: Product(1), tokens: Tokens::new(tokens) }
}

fn producer_request(id: &str, tokens: i32, price: f32) -> ProducerRequest {
    ProducerRequest {
        producer_id: ProducerId(id.to_owned()),
        product: Product(1),
        tokens: Tokens::new(tokens),
        cut_off_price: CapacityUnitPrice(price.to_bits()),
        investment_type: Investment::Upgrade,
    }
}

fn sheet(require: &[(u32, i32)]) -> ProcessSheet {
    let mut map = HashMap::new();
    for (capacity_type, capacity) in require {
        map.insert(*capacity_type, Capacity(*capacity));
    }
    ProcessSheet { product: Product(1), require: map }
}

fn customer_order(id: &str, require: &[(u32, i32)], tokens: i32) -> Order {
    Order::new(OrderId::new(id), &sheet(require), Request::FromCustomer(customer_request("a", tokens)))
}

fn bid(order: &str, capacity_type: u32, capacity: i32, tokens: i32) -> Bid {
    Bid {
        capacity_type: CapacityType(capacity_type),
        capacity: Capacity(capacity),
        tokens: Tokens::new(tokens),
        order_id: OrderId::new(order),
    }
}

#[test]
fn smoke() {
    let product = Product(1);
    let request = CustomerRequest {
        customer_id: CustomerId("a".to_owned()),
        product: product,
        tokens: Tokens::new(100),
    };
    let ps = ProcessSheet {
        product: product,
        require: HashMap::from([(1, Capacity(100))]),
    };
    let order_id = OrderId::new("abc");
    let mut order = Order::new(order_id.clone(), &ps, Request::FromCustomer(request.clone()));
    assert!(!order.requires_funding());
    let bid = Bid {
        capacity_type: CapacityType(1),
        capacity: Capacity(100),
        tokens: Tokens::new(100),
        order_id: order_id.clone(),
    };
    order.mark_completed(&bid).unwrap();
    let (score, event) = order.end_cycle();
    assert_eq!(Score(0), score);
    assert!(matches!(event,
                OrderEvent::CustomerRequestCompleted(CustomerRequest { customer_id, .. })
                if customer_id == request.customer_id));
}

#[test]
fn new_order_has_one_untouched_part_per_requirement() {
    let order = customer_order("abc", &[(1, 100), (2, 40), (7, 5)], 250);
    assert_eq!(order.id().as_str(), "abc");
    assert_eq!(order.tokens().value(), 250);
    assert_eq!(order.cycle(), 0);
    assert_eq!(order.part_status(CapacityType(1)), Some(PartStatus::Unknown));
    assert_eq!(order.part_status(CapacityType(2)), Some(PartStatus::Unknown));
    assert_eq!(order.part_status(CapacityType(7)), Some(PartStatus::Unknown));
    assert_eq!(order.part_status(CapacityType(3)), None);
    let info = order.info();
    assert_eq!(info.required().len(), 3);
    assert_eq!(info.required().get(&2), Some(&Capacity(40)));
}

#[test]
fn new_order_takes_its_balance_from_a_producer_request() {
    let order = Order::new(
        OrderId::new("inv"),
        &sheet(&[(1, 10)]),
        Request::FromProducer(producer_request("mill", 75, 1.5)),
    );
    assert_eq!(order.tokens().value(), 75);
    assert!(!order.requires_funding());
}

#[test]
fn completed_order_reports_completion_with_the_request() {
    let mut order = customer_order("abc", &[(1, 100)], 100);
    assert_eq!(order.mark_completed(&bid("abc", 1, 100, 100)), Ok(()));
    let (score, event) = order.end_cycle();
    assert_eq!(score, Score(0));
    match event {
        OrderEvent::CustomerRequestCompleted(request) => {
            assert_eq!(request.customer_id, CustomerId("a".to_owned()));
            assert_eq!(request.product, Product(1));
            assert_eq!(request.tokens.value(), 100);
        },
        _ => panic!("expected the completion of a customer's request"),
    }
    assert_eq!(order.cycle(), 0);
}

#[test]
fn rejected_order_hands_back_the_untouched_balance() {
    let mut order = customer_order("abc", &[(1, 100)], 100);
    assert_eq!(order.makr_rejected(&bid("abc", 1, 100, 100)), Ok(()));
    assert_eq!(order.tokens().value(), 100);
    let (score, event) = order.end_cycle();
    assert_eq!(score, Score(3));
    match event {
        OrderEvent::CustomerRequestRejected(refund, request) => {
            assert_eq!(refund.value(), 100);
            assert_eq!(request.customer_id, CustomerId("a".to_owned()));
            assert_eq!(request.tokens.value(), 100);
        },
        _ => panic!("expected the rejection of a customer's request"),
    }
    assert_eq!(order.cycle(), 0);
}

#[test]
fn order_is_rejected_once_three_cycles_have_passed() {
    let mut order = customer_order("abc", &[(1, 100), (2, 50)], 100);
    assert_eq!(order.mark_processing(&bid("abc", 1, 100, 30)), Ok(()));
    for passed in 0u8..3 {
        assert_eq!(order.cycle(), passed);
        let (score, event) = order.end_cycle();
        assert_eq!(score, Score(1));
        assert!(matches!(event, OrderEvent::StillProcessing));
        assert_eq!(order.cycle(), passed + 1);
    }
    assert_eq!(order.cycle(), 3);
    let (score, event) = order.end_cycle();
    assert_eq!(score, Score(3));
    match event {
        OrderEvent::CustomerRequestRejected(refund, request) => {
            assert_eq!(refund.value(), 130);
            assert_eq!(request.customer_id, CustomerId("a".to_owned()));
        },
        _ => panic!("expected the rejection of a customer's request"),
    }
    assert_eq!(order.cycle(), 3);
    assert_eq!(order.part_status(CapacityType(1)), Some(PartStatus::Processing));
    assert_eq!(order.part_status(CapacityType(2)), Some(PartStatus::Unknown));
}

#[test]
fn completion_on_the_last_cycle_counts_as_completion() {
    let mut order = customer_order("abc", &[(1, 100)], 100);
    for _ in 0..3 {
        assert_eq!(order.end_cycle().0, Score(1));
    }
    assert_eq!(order.cycle(), 3);
    assert_eq!(order.mark_completed(&bid("abc", 1, 100, 100)), Ok(()));
    let (score, event) = order.end_cycle();
    assert_eq!(score, Score(0));
    assert!(matches!(event, OrderEvent::CustomerRequestCompleted(_)));
}

#[test]
fn mixed_parts_keep_the_order_going() {
    let mut order = customer_order("abc", &[(1, 10), (2, 20), (3, 30)], 100);
    assert_eq!(order.mark_completed(&bid("abc", 1, 10, 5)), Ok(()));
    assert_eq!(order.makr_rejected(&bid("abc", 2, 20, 5)), Ok(()));
    let (score, event) = order.end_cycle();
    assert_eq!(score, Score(1));
    assert!(matches!(event, OrderEvent::StillProcessing));
    assert_eq!(order.cycle(), 1);
    assert_eq!(order.tokens().value(), 95);
}

#[test]
fn every_part_rejected_ends_the_order_at_once() {
    let mut order = customer_order("abc", &[(1, 10), (2, 20)], 60);
    assert_eq!(order.makr_rejected(&bid("abc", 1, 10, 5)), Ok(()));
    assert_eq!(order.end_cycle().0, Score(1));
    assert_eq!(order.makr_rejected(&bid("abc", 2, 20, 5)), Ok(()));
    let (score, event) = order.end_cycle();
    assert_eq!(score, Score(3));
    assert!(matches!(event, OrderEvent::CustomerRequestRejected(refund, _) if refund.value() == 60));
    assert_eq!(order.cycle(), 1);
}

#[test]
fn order_without_parts_is_complete() {
    let mut order = customer_order("abc", &[], 10);
    let (score, event) = order.end_cycle();
    assert_eq!(score, Score(0));
    assert!(matches!(event, OrderEvent::CustomerRequestCompleted(_)));
}

#[test]
fn producer_order_reports_with_the_producer_events() {
    let request = producer_request("mill", 40, 2.25);
    let mut order = Order::new(OrderId::new("inv"), &sheet(&[(4, 10)]), Request::FromProducer(request.clone()));
    assert_eq!(order.makr_rejected(&bid("inv", 4, 10, 5)), Ok(()));
    let (score, event) = order.end_cycle();
    assert_eq!(score, Score(3));
    match event {
        OrderEvent::ProducerRequestRejected(refund, rejected) => {
            assert_eq!(refund.value(), 40);
            assert_eq!(rejected.producer_id, ProducerId("mill".to_owned()));
            assert_eq!(f32::from_bits(rejected.cut_off_price.0), 2.25);
            assert_eq!(rejected.investment_type, Investment::Upgrade);
        },
        _ => panic!("expected the rejection of a producer's request"),
    }
    let mut served = Order::new(OrderId::new("inv2"), &sheet(&[(4, 10)]), Request::FromProducer(request.clone()));
    assert_eq!(served.mark_completed(&bid("inv2", 4, 10, 5)), Ok(()));
    let (score, event) = served.end_cycle();
    assert_eq!(score, Score(0));
    assert!(matches!(event,
        OrderEvent::ProducerRequestCompleted(ProducerRequest { producer_id, .. })
        if producer_id == request.producer_id));
}

#[test]
fn funding_sets_the_balance_of_an_unfunded_order() {
    let mut order = customer_order("abc", &[(1, 100)], 0);
    assert!(order.requires_funding());
    assert_eq!(order.fund(Tokens::new(70)), Ok(()));
    assert_eq!(order.tokens().value(), 70);
    assert!(!order.requires_funding());
}

#[test]
fn funding_a_funded_order_is_refused() {
    let mut order = customer_order("abc", &[(1, 100)], 100);
    assert_eq!(order.fund(Tokens::new(70)), Err(OrderError::NotAwaitingFunding));
    assert_eq!(order.tokens().value(), 100);
    assert!(!order.requires_funding());
}

#[test]
fn funding_replaces_and_does_not_add() {
    let mut order = customer_order("abc", &[(1, 100)], 0);
    assert_eq!(order.fund(Tokens::new(-8)), Ok(()));
    assert_eq!(order.tokens().value(), -8);
    assert!(!order.requires_funding());
    assert_eq!(order.mark_processing(&bid("abc", 1, 100, 8)), Ok(()));
    assert!(order.requires_funding());
    assert_eq!(order.fund(Tokens::new(3)), Ok(()));
    assert_eq!(order.tokens().value(), 3);
}

#[test]
fn funding_with_nothing_leaves_the_order_waiting() {
    let mut order = customer_order("abc", &[(1, 100)], 0);
    assert_eq!(order.fund(Tokens::new(0)), Ok(()));
    assert!(order.requires_funding());
}

#[test]
fn mark_processing_holds_the_tokens_of_the_bid() {
    let mut order = customer_order("abc", &[(1, 100)], 100);
    assert_eq!(order.mark_processing(&bid("abc", 1, 100, 30)), Ok(()));
    assert_eq!(order.tokens().value(), 130);
    assert_eq!(order.part_status(CapacityType(1)), Some(PartStatus::Processing));
}

#[test]
fn mark_processing_twice_holds_the_tokens_once() {
    let mut order = customer_order("abc", &[(1, 100)], 100);
    let offer = bid("abc", 1, 100, 30);
    assert_eq!(order.mark_processing(&offer), Ok(()));
    assert_eq!(order.mark_processing(&offer.clone()), Ok(()));
    assert_eq!(order.tokens().value(), 130);
    assert_eq!(order.part_status(CapacityType(1)), Some(PartStatus::Processing));
}

#[test]
fn completion_after_processing_moves_no_tokens() {
    let mut order = customer_order("abc", &[(1, 100)], 100);
    let offer = bid("abc", 1, 100, 30);
    assert_eq!(order.mark_processing(&offer), Ok(()));
    assert_eq!(order.mark_completed(&offer), Ok(()));
    assert_eq!(order.tokens().value(), 130);
    assert_eq!(order.part_status(CapacityType(1)), Some(PartStatus::Completed));
}

#[test]
fn completion_without_processing_pays_the_bid_once() {
    let mut order = customer_order("abc", &[(1, 100)], 100);
    assert_eq!(order.mark_completed(&bid("abc", 1, 100, 30)), Ok(()));
    assert_eq!(order.tokens().value(), 70);
    assert_eq!(order.part_status(CapacityType(1)), Some(PartStatus::Completed));
}

#[test]
fn balance_may_go_below_zero() {
    let mut order = customer_order("abc", &[(1, 100)], 10);
    assert_eq!(order.mark_completed(&bid("abc", 1, 100, 30)), Ok(()));
    assert_eq!(order.tokens().value(), -20);
}

#[test]
fn completing_twice_is_refused() {
    let mut order = customer_order("abc", &[(1, 100)], 100);
    let offer = bid("abc", 1, 100, 30);
    assert_eq!(order.mark_completed(&offer), Ok(()));
    assert_eq!(order.mark_completed(&offer), Err(OrderError::WrongState));
    assert_eq!(order.mark_processing(&offer), Err(OrderError::WrongState));
    assert_eq!(order.tokens().value(), 70);
    assert_eq!(order.part_status(CapacityType(1)), Some(PartStatus::Completed));
}

#[test]
fn rejection_after_processing_is_refused() {
    let mut order = customer_order("abc", &[(1, 100)], 100);
    let offer = bid("abc", 1, 100, 30);
    assert_eq!(order.mark_processing(&offer), Ok(()));
    assert_eq!(order.makr_rejected(&offer), Err(OrderError::WrongState));
    assert_eq!(order.part_status(CapacityType(1)), Some(PartStatus::Processing));
    assert_eq!(order.tokens().value(), 130);
}

#[test]
fn rejection_after_completion_is_refused() {
    let mut order = customer_order("abc", &[(1, 100)], 100);
    let offer = bid("abc", 1, 100, 30);
    assert_eq!(order.mark_completed(&offer), Ok(()));
    assert_eq!(order.makr_rejected(&offer), Err(OrderError::WrongState));
    assert_eq!(order.part_status(CapacityType(1)), Some(PartStatus::Completed));
    assert_eq!(order.tokens().value(), 70);
}

#[test]
fn rejection_moves_no_tokens() {
    let mut order = customer_order("abc", &[(1, 100)], 100);
    assert_eq!(order.makr_rejected(&bid("abc", 1, 100, 30)), Ok(()));
    assert_eq!(order.tokens().value(), 100);
    assert_eq!(order.part_status(CapacityType(1)), Some(PartStatus::Rejected));
}

#[test]
fn rejecting_twice_is_refused() {
    let mut order = customer_order("abc", &[(1, 100)], 100);
    let offer = bid("abc", 1, 100, 30);
    assert_eq!(order.makr_rejected(&offer), Ok(()));
    assert_eq!(order.makr_rejected(&offer), Err(OrderError::WrongState));
    assert_eq!(order.tokens().value(), 100);
    assert_eq!(order.part_status(CapacityType(1)), Some(PartStatus::Rejected));
}

#[test]
fn rejected_part_takes_no_further_bid() {
    let mut order = customer_order("abc", &[(1, 100), (2, 50)], 100);
    assert_eq!(order.makr_rejected(&bid("abc", 1, 100, 30)), Ok(()));
    assert_eq!(order.makr_rejected(&bid("abc", 2, 50, 20)), Ok(()));
    assert_eq!(order.mark_processing(&bid("abc", 1, 100, 25)), Err(OrderError::WrongState));
    assert_eq!(order.tokens().value(), 100);
    assert_eq!(order.part_status(CapacityType(1)), Some(PartStatus::Rejected));
    assert_eq!(order.mark_completed(&bid("abc", 2, 50, 20)), Err(OrderError::WrongState));
    assert_eq!(order.tokens().value(), 100);
    assert_eq!(order.part_status(CapacityType(2)), Some(PartStatus::Rejected));
}

#[test]
fn rejected_part_needs_no_room_in_the_balance() {
    let mut order = customer_order("abc", &[(1, 100)], i32::MAX);
    assert_eq!(order.makr_rejected(&bid("abc", 1, 100, 1)), Ok(()));
    assert_eq!(order.mark_processing(&bid("abc", 1, 100, i32::MAX)), Err(OrderError::WrongState));
    assert_eq!(order.mark_completed(&bid("abc", 1, 100, -1)), Err(OrderError::WrongState));
    assert_eq!(order.tokens().value(), i32::MAX);
}

#[test]
fn bid_for_another_order_is_refused() {
    let mut order = customer_order("abc", &[(1, 100)], 100);
    let stray = bid("abd", 1, 100, 30);
    assert_eq!(order.mark_processing(&stray), Err(OrderError::WrongOrder));
    assert_eq!(order.mark_completed(&stray), Err(OrderError::WrongOrder));
    assert_eq!(order.makr_rejected(&stray), Err(OrderError::WrongOrder));
    assert_eq!(order.tokens().value(), 100);
    assert_eq!(order.part_status(CapacityType(1)), Some(PartStatus::Unknown));
}

#[test]
fn bid_for_a_missing_capacity_type_is_refused() {
    let mut order = customer_order("abc", &[(1, 100)], 100);
    let stray = bid("abc", 2, 100, 30);
    assert_eq!(order.mark_processing(&stray), Err(OrderError::NotFound));
    assert_eq!(order.mark_completed(&stray), Err(OrderError::NotFound));
    assert_eq!(order.makr_rejected(&stray), Err(OrderError::NotFound));
    assert_eq!(order.tokens().value(), 100);
    assert_eq!(order.part_status(CapacityType(2)), None);
}

#[test]
fn wrong_order_is_reported_before_a_missing_part() {
    let mut order = customer_order("abc", &[(1, 100)], 100);
    assert_eq!(order.mark_processing(&bid("xyz", 9, 100, 30)), Err(OrderError::WrongOrder));
}

#[test]
fn info_lists_what_is_still_open() {
    let mut order = customer_order("abc", &[(1, 10), (2, 20), (3, 30), (4, 40)], 100);
    assert_eq!(order.mark_processing(&bid("abc", 1, 10, 5)), Ok(()));
    assert_eq!(order.mark_completed(&bid("abc", 2, 20, 7)), Ok(()));
    assert_eq!(order.makr_rejected(&bid("abc", 3, 30, 9)), Ok(()));
    let info = order.info();
    assert_eq!(info.id(), &OrderId::new("abc"));
    assert_eq!(info.tokens().value(), 98);
    let required = info.required();
    assert_eq!(required.len(), 2);
    assert_eq!(required.get(&3), Some(&Capacity(30)));
    assert_eq!(required.get(&4), Some(&Capacity(40)));
    assert_eq!(required.get(&1), None);
    assert_eq!(required.get(&2), None);
}

#[test]
fn agent_id_carries_the_role_of_the_request() {
    let customer = customer_order("abc", &[(1, 100)], 100);
    assert_eq!(customer.agent_id().as_str(), "ca");
    let producer = Order::new(
        OrderId::new("inv"),
        &sheet(&[(1, 10)]),
        Request::FromProducer(producer_request("a", 75, 1.5)),
    );
    assert_eq!(producer.agent_id().as_str(), "pa");
    assert_ne!(customer.agent_id(), producer.agent_id());
    assert_eq!(customer.agent_id(), OrderingAgentId::from_customer(CustomerId("a".to_owned())));
}

#[test]
fn cut_off_price_belongs_to_producer_orders() {
    let producer = Order::new(
        OrderId::new("inv"),
        &sheet(&[(1, 10)]),
        Request::FromProducer(producer_request("mill", 75, 1.5)),
    );
    let price = producer.cut_off_price().unwrap();
    assert_eq!(f32::from_bits(price.0), 1.5);
    let customer = customer_order("abc", &[(1, 100)], 100);
    assert!(matches!(customer.cut_off_price(), Err(OrderError::WrongRequestKind)));
}
