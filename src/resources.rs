//! The resources of the API: the records that the server returns, the
//! parameters that requests carry, and the calls that fetch and change them.

use vstd::prelude::*;

pub mod account;
pub mod balance;
pub mod bank_account;
pub mod source;
pub mod transfer;

verus! {

/// A three-letter lower-case ISO currency code, as the server writes it.
pub type Currency = String;

/// Seconds since the Unix epoch, UTC.
pub type Timestamp = u64;

} // verus!
