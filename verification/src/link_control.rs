//! The link-control service: baud-rate transition commands.

use vstd::prelude::*;

use crate::uds::UDSClientSession;

verus! {

/// Link-control sub-functions.
#[derive(Debug, Clone, Copy, PartialEq, Eq, Structural)]
pub enum LinkControlMode {
    /// Verify a transition with a fixed baud-rate parameter.
    VerifyModeTransitionWithFixedParameter,
    /// Verify a transition with an explicit baud-rate parameter.
    VerifyModeTransitionWithSpecificParameter,
    /// Perform the verified transition.
    TransitionMode,
}

/// The wire byte of each link-control sub-function.
pub open spec fn link_control_byte(m: LinkControlMode) -> u8 {
    match m {
        LinkControlMode::VerifyModeTransitionWithFixedParameter => 0x01,
        LinkControlMode::VerifyModeTransitionWithSpecificParameter => 0x02,
        LinkControlMode::TransitionMode => 0x03,
    }
}

impl LinkControlMode {
    /// The wire byte of this sub-function.
    pub fn to_byte(&self) -> (r: u8)
        ensures
            r == link_control_byte(*self),
    {
        match *self {
            LinkControlMode::VerifyModeTransitionWithFixedParameter => 0x01,
            LinkControlMode::VerifyModeTransitionWithSpecificParameter => 0x02,
            LinkControlMode::TransitionMode => 0x03,
        }
    }
}

impl UDSClientSession {
    /// The request bytes of a link-control command: the sub-function,
    /// a reserved byte, then up to four parameter bytes — what a
    /// single-frame request can carry.
    pub fn uds_link_control(&self, mode: LinkControlMode, param: &[u8]) -> (r: Vec<u8>)
        ensures
            r@ == seq![0x87u8, link_control_byte(mode), 0u8] + param@.take(
                if param@.len() <= 4 {
                    param@.len() as int
                } else {
                    4
                },
            ),
    {
        let take = if param.len() <= 4 {
            param.len()
        } else {
            4
        };
        let mut v: Vec<u8> = Vec::new();
        v.push(0x87);
        v.push(mode.to_byte());
        v.push(0);
        crate::isotp::extend_from_slice_range(&mut v, param, 0, take);
        proof {
            assert(v@ =~= seq![0x87u8, link_control_byte(mode), 0u8] + param@.take(
                if param@.len() <= 4 {
                    param@.len() as int
                } else {
                    4
                },
            ));
        }
        v
    }
}

} // verus!
