//! The ECU-reset service and its reset targets.

use vstd::prelude::*;

use crate::api::UdsServiceResponse;
use crate::security_access::SecurityLevelAccess;
use crate::uds::UDSClientSession;

verus! {

/// Reset targets the ECU understands.
#[derive(Debug, Clone, Copy, PartialEq, Eq, Structural)]
pub enum ResetType {
    /// Full hardware reset.
    HardReset,
    /// Reset equivalent to an ignition cycle.
    KeyOffReset,
    /// Software-only restart.
    SoftReset,
    /// Arm the rapid power shutdown.
    EnableRapidPowerShutDown,
    /// Disarm the rapid power shutdown.
    DisableRapidPowerShutDown,
    /// Restart the realtime processor.
    RealtimeReset,
    /// Restart the telematics processor.
    TelematicReset,
    /// Restart the applications processor.
    ImxReset,
    /// Restart the Wi-Fi controller.
    Esp32WifiReset,
    /// Restart the BLE controller.
    Esp32BleReset,
    /// Restart the cellular modem.
    QuectelReset,
    /// Restart the lizard co-processor.
    LizardReset,
    /// Restart the cendric co-processor.
    CendricReset,
}

/// The wire byte of each reset target.
pub open spec fn reset_byte(t: ResetType) -> u8 {
    match t {
        ResetType::HardReset => 0x01,
        ResetType::KeyOffReset => 0x02,
        ResetType::SoftReset => 0x03,
        ResetType::EnableRapidPowerShutDown => 0x04,
        ResetType::DisableRapidPowerShutDown => 0x05,
        ResetType::RealtimeReset => 0x40,
        ResetType::TelematicReset => 0x41,
        ResetType::ImxReset => 0x42,
        ResetType::Esp32WifiReset => 0x43,
        ResetType::Esp32BleReset => 0x44,
        ResetType::QuectelReset => 0x45,
        ResetType::LizardReset => 0x46,
        ResetType::CendricReset => 0x47,
    }
}

impl ResetType {
    /// The wire byte of this reset target.
    pub fn to_byte(&self) -> (r: u8)
        ensures
            r == reset_byte(*self),
    {
        match *self {
            ResetType::HardReset => 0x01,
            ResetType::KeyOffReset => 0x02,
            ResetType::SoftReset => 0x03,
            ResetType::EnableRapidPowerShutDown => 0x04,
            ResetType::DisableRapidPowerShutDown => 0x05,
            ResetType::RealtimeReset => 0x40,
            ResetType::TelematicReset => 0x41,
            ResetType::ImxReset => 0x42,
            ResetType::Esp32WifiReset => 0x43,
            ResetType::Esp32BleReset => 0x44,
            ResetType::QuectelReset => 0x45,
            ResetType::LizardReset => 0x46,
            ResetType::CendricReset => 0x47,
        }
    }
}

impl UDSClientSession {
    /// The request bytes of an ECU-reset command.
    pub fn ecu_reset_request(&self, reset_mode: ResetType) -> (r: Vec<u8>)
        ensures
            r@ == seq![0x11u8, reset_byte(reset_mode)],
    {
        let mut v: Vec<u8> = Vec::new();
        v.push(0x11);
        v.push(reset_mode.to_byte());
        proof {
            assert(v@ =~= seq![0x11u8, reset_byte(reset_mode)]);
        }
        v
    }

    /// Reports the outcome of an ECU reset. The reset is fired without
    /// awaiting a reply — the ECU restarts — so issuing it always
    /// reports success and leaves the session state alone.
    pub fn uds_ecu_reset(&mut self, reset_mode: ResetType) -> (r: UdsServiceResponse)
        ensures
            *final(self) == *old(self),
            r matches UdsServiceResponse::Success(d) && d.console_output@ == "SUCCESS"@,
    {
        let _ = reset_mode;
        UdsServiceResponse::success(String::from_str("SUCCESS"))
    }

    /// Whether the reset service still needs the security handshake
    /// before it can be issued: true exactly when no level is held.
    pub fn uds_ecu_reset_setup(&self) -> (r: bool)
        ensures
            r == (self.current_diag_mode.sec_level == SecurityLevelAccess::Locked),
    {
        self.current_diag_mode.sec_level == SecurityLevelAccess::Locked
    }
}

} // verus!
