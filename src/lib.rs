//! Serverless peer discovery over multicast name-service queries, with a
//! tamper-evident, signed, hash-chained event log.

pub mod bytes;
pub mod crypto;
pub mod log;
pub mod discovery;
pub mod dns;
pub mod prompt;
