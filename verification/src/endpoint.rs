//! The base addresses of the exchange's two APIs.

use vstd::prelude::*;

verus! {

/// The base address of the public, unauthenticated API.
pub const PUBLIC_API: &'static str = "https://api.coin.z.com/public";

/// The base address of the private, signed API.
pub const PRIVATE_API: &'static str = "https://api.coin.z.com/private";

} // verus!
