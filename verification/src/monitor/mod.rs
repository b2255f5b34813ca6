//! Probing the endpoints, tracking the connectivity state and tracing the
//! path when the endpoints cannot be reached.

pub mod machine;
pub mod ping;
pub mod state;
pub mod traceroute;
