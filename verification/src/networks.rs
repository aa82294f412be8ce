//! Looking up where an address is: the requests to send and what to make of
//! the answers.

pub mod http;
pub mod ip;
