//! A connection/probe pipeline: a connector that keeps opening connections
//! to one endpoint, a bounded first-in first-out queue that hands them over,
//! and a dispatcher that writes a fixed handshake, status request and ping
//! on each one without reading anything back.
//!
//! The transport and the wire encoder live outside this library; what is
//! here is every decision the pipeline makes, each with its contract.
use vstd::prelude::*;

pub mod connector;
pub mod dispatch;
pub mod message;
pub mod queue;

verus! {

} // verus!
