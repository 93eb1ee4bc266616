//! The ownership triple — owner id, group id and permission bits — read
//! from a reference file, and the strings it contributes to the installer
//! command line.

use vstd::prelude::*;
use crate::numfmt::decimal_of;
use crate::numfmt::format_decimal;
use crate::numfmt::format_octal;
use crate::numfmt::octal_of;

verus! {

/// The permission bits that matter: set-id, sticky and the rwx bits,
/// with any file-type or other high bits dropped.
pub open spec fn masked_mode(m: u32) -> u32 {
    m & 0o7777
}

/// The octal permission string computed from raw mode bits: the bits are
/// masked to the low twelve before formatting.
pub open spec fn mode_string_of(m: u32) -> Seq<char> {
    octal_of(masked_mode(m) as nat)
}

/// Owner id, group id and permission bits of a reference file.  The mode
/// holds only the low twelve bits.
pub struct OwnershipTriple {
    pub uid: u32,
    pub gid: u32,
    pub mode: u32,
}

impl OwnershipTriple {
    /// The triple is well formed when its mode fits in twelve bits.
    pub open spec fn wf(self) -> bool {
        self.mode == masked_mode(self.mode)
    }

    /// Builds the triple from raw stat results, masking the mode bits.
    pub fn new(uid: u32, gid: u32, raw_mode: u32) -> (r: Self)
        ensures
            r.uid == uid,
            r.gid == gid,
            r.mode == masked_mode(raw_mode),
            r.wf(),
    {
        proof {
            assert((raw_mode & 0o7777) & 0o7777 == raw_mode & 0o7777) by (bit_vector);
        }
        OwnershipTriple { uid, gid, mode: raw_mode & 0o7777 }
    }

    /// The decimal owner id, as handed to the installer's `-o`.
    pub fn uid_string(&self) -> (r: String)
        ensures
            r@ == decimal_of(self.uid as nat),
    {
        format_decimal(self.uid)
    }

    /// The decimal group id, as handed to the installer's `-g`.
    pub fn gid_string(&self) -> (r: String)
        ensures
            r@ == decimal_of(self.gid as nat),
    {
        format_decimal(self.gid)
    }

    /// The octal permission string, as handed to the installer's `-m`.
    pub fn mode_string(&self) -> (r: String)
        ensures
            r@ == mode_string_of(self.mode),
    {
        format_octal(self.mode & 0o7777)
    }
}

/// Masking is absorbed by mode formatting: raw mode bits, extraneous high
/// bits included, yield the same permission string as the same value
/// already masked to the low twelve bits.
pub proof fn lemma_mode_mask_absorbed(m: u32)
    ensures
        mode_string_of(m) == mode_string_of(masked_mode(m)),
{
    assert((m & 0o7777) & 0o7777 == m & 0o7777) by (bit_vector);
}

} // verus!
