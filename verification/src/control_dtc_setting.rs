//! The control-DTC-setting service: turns trouble-code recording on
//! or off.

use vstd::prelude::*;

use crate::uds::UDSClientSession;

verus! {

/// Sub-functions of the control-DTC-setting service.
#[derive(Debug, Clone, Copy, PartialEq, Eq, Structural)]
pub enum DTCSettingSubfcn {
    /// Resume recording of diagnostic trouble codes.
    On,
    /// Suspend recording of diagnostic trouble codes.
    Off,
}

/// The wire byte of each setting sub-function.
pub open spec fn dtc_setting_byte(s: DTCSettingSubfcn) -> u8 {
    match s {
        DTCSettingSubfcn::On => 0x01,
        DTCSettingSubfcn::Off => 0x02,
    }
}

impl DTCSettingSubfcn {
    /// The wire byte of this sub-function.
    pub fn to_byte(&self) -> (r: u8)
        ensures
            r == dtc_setting_byte(*self),
    {
        match *self {
            DTCSettingSubfcn::On => 0x01,
            DTCSettingSubfcn::Off => 0x02,
        }
    }
}

impl UDSClientSession {
    /// The request bytes of a control-DTC-setting command.
    pub fn uds_control_dtc_setting(&self, sub_fcn: DTCSettingSubfcn) -> (r: Vec<u8>)
        ensures
            r@ == seq![0x85u8, dtc_setting_byte(sub_fcn)],
    {
        let mut v: Vec<u8> = Vec::new();
        v.push(0x85);
        v.push(sub_fcn.to_byte());
        proof {
            assert(v@ =~= seq![0x85u8, dtc_setting_byte(sub_fcn)]);
        }
        v
    }
}

} // verus!
