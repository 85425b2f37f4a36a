//! Security-access levels and the two-step seed/key handshake rules.

use vstd::prelude::*;

verus! {

/// Security-access sub-functions: seed requests and key submissions
/// for the two supported levels.
#[derive(Debug, Clone, Copy, PartialEq, Eq, Ord, PartialOrd, Structural)]
pub enum SecurityLevelAccess {
    /// No security level held.
    Locked,
    /// Request the seed for level one.
    Level1RequestSeed,
    /// Submit the key for level one.
    Level1SendKey,
    /// Request the seed for level two.
    Level2RequestSeed,
    /// Submit the key for level two.
    Level2SendKey,
}

/// The wire byte of each security-access sub-function.
pub open spec fn security_byte(s: SecurityLevelAccess) -> u8 {
    match s {
        SecurityLevelAccess::Locked => 0x01,
        SecurityLevelAccess::Level1RequestSeed => 0x03,
        SecurityLevelAccess::Level1SendKey => 0x04,
        SecurityLevelAccess::Level2RequestSeed => 0x05,
        SecurityLevelAccess::Level2SendKey => 0x06,
    }
}

/// The security-access sub-function a wire byte names; unknown bytes
/// fall back to no access.
pub open spec fn security_level_of_byte(b: u8) -> SecurityLevelAccess {
    if b == 0x03 {
        SecurityLevelAccess::Level1RequestSeed
    } else if b == 0x04 {
        SecurityLevelAccess::Level1SendKey
    } else if b == 0x05 {
        SecurityLevelAccess::Level2RequestSeed
    } else if b == 0x06 {
        SecurityLevelAccess::Level2SendKey
    } else {
        SecurityLevelAccess::Locked
    }
}

/// Whether a sub-function byte submits a key.
pub open spec fn is_send_key_byte(b: u8) -> bool {
    b == 0x04 || b == 0x06
}

/// The seed-request byte whose key submission a byte names: level one's
/// key answers level one's seed, level two's likewise.
pub open spec fn matching_seed_byte(send_key: u8) -> u8 {
    (send_key - 1) as u8
}

impl SecurityLevelAccess {
    /// The wire byte of this sub-function.
    pub fn to_byte(&self) -> (r: u8)
        ensures
            r == security_byte(*self),
    {
        match *self {
            SecurityLevelAccess::Locked => 0x01,
            SecurityLevelAccess::Level1RequestSeed => 0x03,
            SecurityLevelAccess::Level1SendKey => 0x04,
            SecurityLevelAccess::Level2RequestSeed => 0x05,
            SecurityLevelAccess::Level2SendKey => 0x06,
        }
    }

    /// Decodes a sub-function byte; unknown bytes yield no access.
    pub fn from_byte(byte_value: u8) -> (r: Self)
        ensures
            r == security_level_of_byte(byte_value),
    {
        match byte_value {
            0x03 => SecurityLevelAccess::Level1RequestSeed,
            0x04 => SecurityLevelAccess::Level1SendKey,
            0x05 => SecurityLevelAccess::Level2RequestSeed,
            0x06 => SecurityLevelAccess::Level2SendKey,
            _ => SecurityLevelAccess::Locked,
        }
    }
}

} // verus!
