//! What the command line shows and accepts, as far as it is computed.

pub mod helpers;
pub mod outage_detail;
pub mod outages;
pub mod service;
pub mod status;
