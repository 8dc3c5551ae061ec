//! Client library for a cryptocurrency exchange's REST API.
//!
//! The verified core turns a logical API call (endpoint path plus an ordered
//! parameter list) into a fully assembled, signed HTTP request: credentials
//! are checked at construction, parameters are encoded in caller order, the
//! canonical string is signed with HMAC-SHA256, and the resulting request
//! carries the exact same byte string that was signed. Dispatching the
//! request over the network is left to an unverified outer layer.

pub mod client;
pub mod market;
pub mod params;
pub mod signer;
pub mod wallet;
