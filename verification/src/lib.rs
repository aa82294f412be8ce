//! A small toolbox: string predicates, sample records with their JSON line
//! framing, and helpers that describe an IP address and the requests used to
//! look one up.

pub mod data;
pub mod networks;
pub mod strings;
