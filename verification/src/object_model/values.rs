//! Special values written to standard objects.
use vstd::prelude::*;

verus! {

/// Written to object 0x1010 to command that objects be saved
pub const SAVE_CMD: u32 = 0x73617665;
/// Written to object 0x5500 to reset into the bootloader
pub const BOOTLOADER_RESET_CMD: u32 = 0x544F4F42;
/// Written to objects 0x5510-0x551f to erase a bootloader section
pub const BOOTLOADER_ERASE_CMD: u32 = 0x53415245;

} // verus!
