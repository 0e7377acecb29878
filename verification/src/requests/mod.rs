//! The bodies of create and update requests: their validation rules, the
//! relationships a JSON:API payload sets on them, and the records they turn
//! into.
pub mod account;
pub mod contact;
pub mod organization;
pub mod user;
