//! What the operations are for, told of their inputs and results.
//!
//! The contracts elsewhere say what each function returns, over spec functions that stand beside
//! it. The laws here say what must then hold, without these functions in what they conclude: which
//! header arrives, which body, which subdomain, which bytes.

pub mod accounts;
pub mod frames;
pub mod http;
pub mod journeys;
pub mod objects;
pub mod reports;
pub mod sockets;
pub mod texts;
pub mod tunnels;
