//! Drives a bank-payment authorization flow: the server names the next action,
//! the operator answers it at a terminal, and the answer is submitted until no
//! action remains. This crate holds the decisions of that negotiation as a
//! transition function with proved contracts; prompting and networking are
//! left to the caller.

use vstd::prelude::*;

pub mod auth_flow;
pub mod config;
pub mod decimal;
pub mod error;
pub mod flow;
pub mod flow_laws;
pub mod inputs;
pub mod model;
pub mod payment;
pub mod picture;
pub mod providers;
pub mod submission;

verus! {

/// The client's side of a payment: what it declares to the service and how
/// it answers the service's actions.
#[derive(Clone, Debug)]
pub struct QuickPayClient {
    /// Where the bank sends the payer back to after a redirect.
    pub redirect_uri: String,
}

} // verus!
