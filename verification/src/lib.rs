//! Order fulfilment kernel of a capacity marketplace.
//!
//! An [`order::Order`] tracks one request through its parts, one per required
//! capacity type. Bids move the parts through their statuses and move tokens in
//! and out of the order's balance; at the end of every cycle the order gives
//! its verdict. Every operation is specified over the mathematical model in
//! [`model`], and the laws that connect the operations are proved in [`laws`].

pub mod common;
pub mod consumer;
pub mod laws;
pub mod model;
pub mod order;
pub mod part;
