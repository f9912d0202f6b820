//! Request-handling logic of a small prompt server: account sign-up and
//! login with bcrypt-hashed passwords, HS256 bearer tokens, the request
//! guard that authenticates a user from the `Authorization` header, the
//! per-user request history, the CORS policy and the route table.
//!
//! Everything here is plain data in and plain data out; the database, the
//! clock and the HTTP framework stay with the caller, which hands the
//! results of its queries to these functions.
use vstd::prelude::*;

pub mod bearer;
pub mod cors;
pub mod crypto;
pub mod error_types;
pub mod handlers;
pub mod jwt_verification;
pub mod status;
pub mod structs;
pub mod tables;
pub mod token_response;

verus! {

} // verus!
