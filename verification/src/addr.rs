//! Dial-address validation.
//!
//! A dial request names a peer by a multiaddress string (network
//! protocol, transport, optionally peer identity).  A string the
//! parser rejects yields [`AddressParseError`] and no connection
//! attempt; the engine itself is untouched either way.

use vstd::prelude::*;

use crate::engine::Action;
use crate::errors::AddressParseError;

verus! {

/// Whether the multiaddress grammar accepts the string.
pub uninterp spec fn is_multiaddr(s: Seq<char>) -> bool;

/// Relies on `multiaddr::Multiaddr::from_str` (the parser behind
/// `str::parse::<Multiaddr>()`): whether a string is a well-formed
/// multiaddress depends on the characters alone.
#[verifier::external_body]
fn multiaddr_parses(s: &str) -> (r: bool)
    ensures
        r == is_multiaddr(s@),
{
    s.parse::<multiaddr::Multiaddr>().is_ok()
}

/// Decide a dial request.  Exactly the well-formed multiaddress
/// strings yield a dial action carrying the same address; a malformed
/// string yields a parse error and no connection attempt.
pub fn request_dial(addr: String) -> (r: Result<Action, AddressParseError>)
    ensures
        r is Ok <==> is_multiaddr(addr@),
        r matches Ok(a) ==> (a matches Action::Dial { dial_addr } && dial_addr@ == addr@),
{
    if multiaddr_parses(addr.as_str()) {
        Ok(Action::Dial { dial_addr: addr })
    } else {
        Err(AddressParseError)
    }
}

} // verus!
