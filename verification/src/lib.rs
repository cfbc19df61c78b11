//! A minimal HTTP gateway core: a per-client admission ledger that enforces a
//! fixed request ceiling, and a dispatcher that routes admitted requests to a
//! small static route table. The surrounding listener (socket handling, HTTP
//! framing) lives outside this crate and calls in once per request.

pub mod dispatcher;
pub mod identity;
pub mod ledger;
