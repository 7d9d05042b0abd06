//! Verified core of a request-tracing instrumentor: every inbound request
//! gets one backend transaction, named after its matched route, promoted
//! from provisional to actively traced the first time a handler asks for
//! it, and always terminated exactly once — reported, discarded, or (when
//! the backend could not open it) left alone.

pub mod laws;
pub mod lifecycle;
pub mod model;
pub mod naming;

pub use lifecycle::ErrorNote;
pub use lifecycle::FinalizeAction;
pub use lifecycle::ResponseStatus;
pub use lifecycle::Transaction;
pub use naming::RouteInfo;
pub use naming::transaction_name;
