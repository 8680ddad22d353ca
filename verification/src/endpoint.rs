//! The daemon's well-known endpoint: one stream-socket path per user,
//! derived deterministically from the user id.  There is no discovery and no
//! fallback path.

use vstd::prelude::*;
use vstd::string::StringSliceAdditionalSpecFns;

verus! {

/// The decimal digits of a number, as ASCII bytes.
pub open spec fn spec_decimal(n: nat) -> Seq<u8>
    decreases n,
{
    if n < 10 {
        seq![(48 + n) as u8]
    } else {
        spec_decimal(n / 10).push((48 + n % 10) as u8)
    }
}

/// Formats a number in decimal, exactly as [`spec_decimal`] states.
pub fn format_u32(n: u32) -> (r: Vec<u8>)
    ensures
        r@ == spec_decimal(n as nat),
    decreases n,
{
    if n < 10 {
        let mut r: Vec<u8> = Vec::new();
        r.push(48 + (n as u8));
        proof {
            assert(r@ =~= spec_decimal(n as nat));
        }
        r
    } else {
        let mut r = format_u32(n / 10);
        r.push(48 + ((n % 10) as u8));
        proof {
            assert(48 + (n % 10) as u8 == (48 + (n as nat) % 10) as u8);
            assert(r@ =~= spec_decimal(n as nat));
        }
        r
    }
}

/// The per-user socket path, as bytes of its textual form.
pub open spec fn spec_socket_path(uid: u32) -> Seq<u8> {
    "/run/user/".spec_bytes() + spec_decimal(uid as nat) + "/gdrivexp.sock".spec_bytes()
}

/// Builds the socket path for one user id, exactly as [`spec_socket_path`]
/// states.
pub fn socket_path_for_uid(uid: u32) -> (r: Vec<u8>)
    ensures
        r@ == spec_socket_path(uid),
{
    let mut r: Vec<u8> = Vec::new();
    r.extend_from_slice("/run/user/".as_bytes());
    let mut digits = format_u32(uid);
    r.append(&mut digits);
    r.extend_from_slice("/gdrivexp.sock".as_bytes());
    proof {
        assert(r@ =~= spec_socket_path(uid));
    }
    r
}

} // verus!
