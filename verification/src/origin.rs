//! Which WebSocket handshakes the local event socket admits.
//!
//! A WebSocket handshake is exempt from the same-origin policy, so without this gate any page
//! in any open tab could drive the socket.

use crate::log_target::starts_with;
use vstd::prelude::*;
use vstd::string::StringSliceAdditionalSpecFns;

verus! {

/// `http://`
pub open spec fn http_scheme() -> Seq<u8> {
    seq![104u8, 116u8, 116u8, 112u8, 58u8, 47u8, 47u8]
}

/// `https://`
pub open spec fn https_scheme() -> Seq<u8> {
    seq![104u8, 116u8, 116u8, 112u8, 115u8, 58u8, 47u8, 47u8]
}

/// Whether a handshake carrying this `Origin` may connect: no origin (a native client), or any
/// origin that is not an `http` or `https` page (in practice `chrome-extension://<id>`).
pub open spec fn admits(origin: Option<Seq<u8>>) -> bool {
    match origin {
        None => true,
        Some(o) => !starts_with(o, http_scheme()) && !starts_with(o, https_scheme()),
    }
}

fn has_prefix_bytes(s: &[u8], prefix: &Vec<u8>) -> (r: bool)
    ensures
        r == starts_with(s@, prefix@),
{
    let n = prefix.len();
    if n > s.len() {
        return false;
    }
    let mut i: usize = 0;
    while i < n
        invariant
            n == prefix@.len(),
            n <= s@.len(),
            i <= n,
            forall|k: int| 0 <= k < i ==> s@[k] == prefix@[k],
        decreases n - i,
    {
        if s[i] != prefix[i] {
            proof {
                assert(s@.subrange(0, n as int)[i as int] != prefix@[i as int]);
            }
            return false;
        }
        i = i + 1;
    }
    proof {
        assert(s@.subrange(0, n as int) =~= prefix@);
    }
    true
}

/// Native clients send no origin, so absent connects. `http`/`https` does not, loopback
/// included. Anything else connects.
pub fn origin_allowed(origin: Option<&str>) -> (r: bool)
    ensures
        r == admits(match origin {
            None => None,
            Some(o) => Some(o.spec_bytes()),
        }),
{
    match origin {
        None => true,
        Some(o) => {
            let b = o.as_bytes();
            let http = vec![104u8, 116u8, 116u8, 112u8, 58u8, 47u8, 47u8];
            let https = vec![104u8, 116u8, 116u8, 112u8, 115u8, 58u8, 47u8, 47u8];
            proof {
                assert(http@ =~= http_scheme());
                assert(https@ =~= https_scheme());
            }
            !has_prefix_bytes(b, &http) && !has_prefix_bytes(b, &https)
        },
    }
}

} // verus!
