//! A client core for invoking and querying smart-contract functions on a
//! remote ledger.
//!
//! The pipeline is: validate the address and identifier, encode the call or
//! query into a binary payload, hand the payload to a transport (which is the
//! caller's business: it alone performs I/O), and decode the node's response
//! into a typed result.  Every stage here is a pure, verified transform; a
//! request either passes through all stages or terminates early with a typed
//! error.

pub mod errors;
pub mod validate;
pub mod params;
pub mod codec;
pub mod response;
pub mod transport;
pub mod client;
