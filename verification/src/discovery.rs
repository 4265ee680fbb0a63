//! The decision half of the discovery/connection manager: picking the bridge
//! address out of what network discovery returned. Running the discovery
//! protocol itself, and connecting, happen outside the library.

use crate::error::Error;
use vstd::prelude::*;

verus! {

/// Selects the bridge address from the candidates discovery returned: the
/// last one in the returned ordering, with no further disambiguation —
/// single-bridge networks are the assumed deployment. No candidates at all
/// is a discovery error; the caller waits and retries, forever.
pub fn select_bridge_address(addresses: Vec<String>) -> (r: Result<String, Error>)
    ensures
        match r {
            Ok(a) => addresses@.len() > 0 && a == addresses@.last(),
            Err(e) => addresses@.len() == 0 && e == Error::Discovery,
        },
{
    let mut addrs = addresses;
    match addrs.pop() {
        Some(a) => Ok(a),
        None => Err(Error::Discovery),
    }
}

} // verus!
