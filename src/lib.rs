//! A DNS responder core that answers every A query with an address drawn
//! from a configured IPv4 block.

pub mod error;
pub mod pool;
pub mod message;
pub mod responder;
