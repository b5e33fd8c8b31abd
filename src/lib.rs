//! The signaling core of a conferencing service: routes each envelope that
//! arrives from the broker to its handler, turns the handler's decision into
//! the envelopes to publish, and carries the state needed to answer a
//! request later inside the correlation token of the request it sends on.
pub mod agent;
pub mod context;
pub mod dispatch;
pub mod endpoint;
pub mod envelope;
pub mod error;
pub mod guarantees;
pub mod ids;
pub mod presence;
pub mod text;
pub mod timestamps;
pub mod timing;
pub mod token;
pub mod topics;
