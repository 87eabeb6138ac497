//! The fixed layout of the ephemeral EFI System Partition directory.
//!
//! The boot executable is staged at `EFI/BOOT/BOOTX64.EFI` inside a fresh
//! temporary directory; the caller creates the directories and copies the
//! file, using exactly the names pinned here.

use vstd::prelude::*;
use crate::config::views_of;

verus! {

/// The directory components under which the boot executable lives:
/// `EFI`, then `BOOT`.
pub fn boot_dir_components() -> (r: Vec<String>)
    ensures
        views_of(r@) == seq!["EFI"@, "BOOT"@],
{
    let mut r: Vec<String> = Vec::new();
    r.push(String::from_str("EFI"));
    r.push(String::from_str("BOOT"));
    proof {
        assert(views_of(r@) =~= seq!["EFI"@, "BOOT"@]);
    }
    r
}

/// The file name of the staged boot executable.
pub fn boot_file_name() -> (r: String)
    ensures
        r@ == "BOOTX64.EFI"@,
{
    String::from_str("BOOTX64.EFI")
}

} // verus!
