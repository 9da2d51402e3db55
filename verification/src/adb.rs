//! Protocol constants: the closed set of command magic values, the protocol
//! version constants, and the advertised maximum payload size.

use vstd::prelude::*;

verus! {

/// Maximum payload size advertised in the connect request and enforced as a
/// hard cap when receiving a frame.
pub const MAX_PAYLOAD: u32 = 1024 * 1024;

pub const A_SYNC: u32 = 0x434e5953;
pub const A_CNXN: u32 = 0x4e584e43;
pub const A_OPEN: u32 = 0x4e45504f;
pub const A_OKAY: u32 = 0x59414b4f;
pub const A_CLSE: u32 = 0x45534c43;
pub const A_WRTE: u32 = 0x45545257;
pub const A_AUTH: u32 = 0x48545541;
pub const A_STLS: u32 = 0x534C5453;

/// Protocol version sent as `arg0` of the connect request.
pub const A_VERSION: u32 = 0x01000001;

/// Version of the plaintext-to-encrypted upgrade, sent as `arg0` of the
/// upgrade acknowledgement.
pub const A_STLS_VERSION: u32 = 0x01000000;

/// The closed set of command values; any received command outside this set is
/// a decode error.
pub open spec fn is_known_command(c: u32) -> bool {
    ||| c == A_SYNC
    ||| c == A_CNXN
    ||| c == A_OPEN
    ||| c == A_OKAY
    ||| c == A_CLSE
    ||| c == A_WRTE
    ||| c == A_AUTH
    ||| c == A_STLS
}

/// Runtime test for membership in the closed command set.
pub fn known_command(c: u32) -> (r: bool)
    ensures
        r == is_known_command(c),
{
    c == A_SYNC || c == A_CNXN || c == A_OPEN || c == A_OKAY || c == A_CLSE || c == A_WRTE
        || c == A_AUTH || c == A_STLS
}

} // verus!
