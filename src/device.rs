//! Rules for finding the touchpad and opening its device files.

use vstd::prelude::*;
use crate::text::same_text;

verus! {

/// The `O_WRONLY` bit of open flags.
pub const OPEN_WRITE_ONLY: i32 = 1;

/// The `O_RDWR` bit of open flags.
pub const OPEN_READ_WRITE: i32 = 2;

/// Whether a device file opened with `flags` is opened for reading, and
/// whether for writing.
pub open spec fn access_of(flags: i32) -> (bool, bool) {
    (
        flags & OPEN_READ_WRITE != 0 || flags & (OPEN_WRITE_ONLY | OPEN_READ_WRITE) == 0,
        flags & OPEN_WRITE_ONLY != 0 || flags & OPEN_READ_WRITE != 0,
    )
}

/// The read and write access that the open flags `flags` ask for: reading
/// unless the file is opened write-only, writing if it is opened write-only
/// or read-write.
pub fn open_access(flags: i32) -> (r: (bool, bool))
    ensures
        r == access_of(flags),
{
    let read = flags & OPEN_READ_WRITE != 0 || flags & (OPEN_WRITE_ONLY | OPEN_READ_WRITE) == 0;
    let write = flags & OPEN_WRITE_ONLY != 0 || flags & OPEN_READ_WRITE != 0;
    (read, write)
}

/// A device is a real touchpad when it both points and reports gestures;
/// the virtual pointer only points, so it is never taken for one.
pub fn is_real_trackpad(has_pointer: bool, has_gesture: bool) -> (r: bool)
    ensures
        r == (has_pointer && has_gesture),
{
    has_pointer && has_gesture
}

/// The group whose members may read the input devices.
pub open spec fn input_group_name() -> Seq<char> {
    "input"@
}

/// Whether one of the user's groups, named by `groups`, is `input`.
pub fn in_input_group(groups: &Vec<String>) -> (r: bool)
    ensures
        r == exists|i: int| 0 <= i < groups@.len() && (#[trigger] groups@[i])@ == input_group_name(),
{
    let mut i: usize = 0;
    while i < groups.len()
        invariant
            i <= groups@.len(),
            forall|k: int| 0 <= k < i ==> (#[trigger] groups@[k])@ != input_group_name(),
        decreases groups@.len() - i,
    {
        if same_text(groups[i].as_str(), "input") {
            return true;
        }
        i = i + 1;
    }
    false
}

/// Why no touchpad was found.
#[derive(Clone, Copy, Debug, PartialEq, Eq, Structural)]
pub enum DiscoveryError {
    /// The user running the program is not in the user database.
    UserMissing,
    /// The user belongs to no group at all.
    NoGroups,
    /// No device events could be read, or the user is not in `input`.
    NoPermission,
    /// Devices were readable, yet none was a touchpad.
    NotDiscoverable,
}

/// What the user's account says, as far as finding the touchpad goes.
#[derive(Clone, Copy, Debug, PartialEq, Eq, Structural)]
pub enum Account {
    /// The running user is not in the user database.
    Unknown,
    /// The user is known, with no groups.
    NoGroups,
    /// The user is known; carries whether one of the groups is `input`.
    Groups { in_input_group: bool },
}

pub open spec fn diagnosis_of(devices_added: u8, account: Account) -> DiscoveryError {
    match account {
        Account::Unknown => DiscoveryError::UserMissing,
        Account::NoGroups => DiscoveryError::NoGroups,
        Account::Groups { in_input_group } => {
            if devices_added == 0 || !in_input_group {
                DiscoveryError::NoPermission
            } else {
                DiscoveryError::NotDiscoverable
            }
        },
    }
}

/// Tells why no touchpad was found after `devices_added` device events were
/// seen, from what the user's account says.
pub fn diagnose_missing_trackpad(devices_added: u8, account: Account) -> (r: DiscoveryError)
    ensures
        r == diagnosis_of(devices_added, account),
{
    match account {
        Account::Unknown => DiscoveryError::UserMissing,
        Account::NoGroups => DiscoveryError::NoGroups,
        Account::Groups { in_input_group } => {
            if devices_added == 0 || !in_input_group {
                DiscoveryError::NoPermission
            } else {
                DiscoveryError::NotDiscoverable
            }
        },
    }
}

} // verus!
