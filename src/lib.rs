//! Per-request tracing core: trace and span identities, the `traceparent`
//! propagation header, a span ledger scoped to one trace, and the decisions
//! made at the boundary of a request.

pub mod codec;
pub mod ids;
pub mod span;
pub mod ledger;
pub mod context;
pub mod lifecycle;
