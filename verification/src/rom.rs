//! Host-facing ROM helpers that need no platform services.

use vstd::prelude::*;

verus! {

/// The bundled boot overlay. This build ships none: the machine starts at
/// the post-boot fingerprint instead.
pub fn load_boot_rom() -> (r: Option<Vec<u8>>)
    ensures
        r is None,
{
    None
}

} // verus!
