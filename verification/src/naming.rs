//! The rule that the names of record files follow.

use vstd::prelude::*;

verus! {

/// Whether the bytes of a file name extension, taken without the dot, start
/// with the letters `STD`. Case matters, and what follows the three letters
/// does not.
pub open spec fn is_compliant_extension(extension: Seq<u8>) -> bool {
    &&& extension.len() >= 3
    &&& extension[0] == 0x53
    &&& extension[1] == 0x54
    &&& extension[2] == 0x44
}

/// Whether a file name extension, given without the dot and as bytes, meets
/// the naming rule.
pub fn extension_is_compliant(extension: &[u8]) -> (compliant: bool)
    ensures
        compliant == is_compliant_extension(extension@),
{
    extension.len() >= 3 && extension[0] == 0x53 && extension[1] == 0x54 && extension[2] == 0x44
}

} // verus!
