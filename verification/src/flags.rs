//! Flag bitmasks attached to each notification, and the cursor sentinel.
//!
//! The values mirror the OS notification facility's public event-flag
//! constants; each event carries a `u32` bitmask combining any of them.

use vstd::prelude::*;

verus! {

pub const FLAG_NONE: u32 = 0x0000_0000;
pub const FLAG_MUST_SCAN_SUB_DIRS: u32 = 0x0000_0001;
pub const FLAG_USER_DROPPED: u32 = 0x0000_0002;
pub const FLAG_KERNEL_DROPPED: u32 = 0x0000_0004;
pub const FLAG_EVENT_IDS_WRAPPED: u32 = 0x0000_0008;
pub const FLAG_HISTORY_DONE: u32 = 0x0000_0010;
pub const FLAG_ROOT_CHANGED: u32 = 0x0000_0020;
pub const FLAG_MOUNT: u32 = 0x0000_0040;
pub const FLAG_UNMOUNT: u32 = 0x0000_0080;
pub const FLAG_ITEM_CREATED: u32 = 0x0000_0100;
pub const FLAG_ITEM_REMOVED: u32 = 0x0000_0200;
pub const FLAG_ITEM_INODE_META_MOD: u32 = 0x0000_0400;
pub const FLAG_ITEM_RENAMED: u32 = 0x0000_0800;
pub const FLAG_ITEM_MODIFIED: u32 = 0x0000_1000;
pub const FLAG_ITEM_FINDER_INFO_MOD: u32 = 0x0000_2000;
pub const FLAG_ITEM_CHANGE_OWNER: u32 = 0x0000_4000;
pub const FLAG_ITEM_XATTR_MOD: u32 = 0x0000_8000;
pub const FLAG_ITEM_IS_FILE: u32 = 0x0001_0000;
pub const FLAG_ITEM_IS_DIR: u32 = 0x0002_0000;
pub const FLAG_ITEM_IS_SYMLINK: u32 = 0x0004_0000;
pub const FLAG_OWN_EVENT: u32 = 0x0008_0000;
pub const FLAG_ITEM_IS_HARDLINK: u32 = 0x0010_0000;
pub const FLAG_ITEM_IS_LAST_HARDLINK: u32 = 0x0020_0000;
pub const FLAG_ITEM_CLONED: u32 = 0x0040_0000;

/// The "watch from now on" sentinel for a watch's starting cursor: the
/// facility's all-ones 64-bit id, read as a signed integer.
pub const SINCE_NOW: i64 = -1;

/// A bitmask `flags` carries `bit` when every bit of `bit` is set in it.
pub open spec fn has_flag(flags: u32, bit: u32) -> bool {
    flags & bit == bit
}

/// True exactly when `flags` carries every bit of `bit`.
pub fn flag_is_set(flags: u32, bit: u32) -> (r: bool)
    ensures
        r == has_flag(flags, bit),
{
    flags & bit == bit
}

} // verus!
