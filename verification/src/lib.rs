//! Data structures of the SimpleFIN v2 protocol: accounts, transactions,
//! connections, errors and the account set that a SimpleFIN server answers with,
//! together with the conversions of their fields to and from the wire format.

pub mod account;
pub mod accountset;
pub mod connection;
pub mod date;
pub mod error;
pub mod text;
pub mod transaction;
