//! Consumers: agents that ask for a product and pay on delivery.

use crate::common::{Product, Tokens};
use vstd::prelude::*;

verus! {

/// Identifier of a consumer.
pub struct ConsumerId(String);

/// What a consumer asks for: a product, and the tokens offered for it.
pub struct ConsumerRequest {
    consumer_id: ConsumerId,
    product: Product,
    tokens: Tokens,
}

} // verus!
