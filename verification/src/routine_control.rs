//! The routine-control service: routine identifiers, the split
//! between routines driven over the diagnostic link and connectivity
//! routines relayed to the gateway agent, and the request encodings.

use vstd::prelude::*;

use crate::diagnostic_session_control::UdsSessionType;
use crate::security_access::SecurityLevelAccess;
use crate::uds::UDSClientSession;

verus! {

/// Sub-functions of the routine-control service.
#[derive(Debug, Clone, Copy, PartialEq, Eq, Structural)]
pub enum RoutineControlSubfcn {
    /// Start the routine.
    StartRoutine,
    /// Stop the routine.
    StopRoutine,
    /// Fetch the routine's results.
    RequestRoutineResults,
}

/// The wire byte of each routine-control sub-function.
pub open spec fn routine_subfcn_byte(s: RoutineControlSubfcn) -> u8 {
    match s {
        RoutineControlSubfcn::StartRoutine => 0x01,
        RoutineControlSubfcn::StopRoutine => 0x02,
        RoutineControlSubfcn::RequestRoutineResults => 0x03,
    }
}

impl RoutineControlSubfcn {
    /// The wire byte of this sub-function.
    pub fn to_byte(&self) -> (r: u8)
        ensures
            r == routine_subfcn_byte(*self),
    {
        match *self {
            RoutineControlSubfcn::StartRoutine => 0x01,
            RoutineControlSubfcn::StopRoutine => 0x02,
            RoutineControlSubfcn::RequestRoutineResults => 0x03,
        }
    }
}

/// Routines the ECU and the gateway agent understand.
#[derive(Debug, Clone, Copy, PartialEq, Eq, Structural)]
pub enum RoutineId {
    /// Routine 0x0200.
    EnableImxLte,
    /// Routine 0x0201.
    DisableImxLte,
    /// Routine 0x0202.
    EnableImxHmi,
    /// Routine 0x0203.
    DisableImxHmi,
    /// Routine 0x0204.
    SimulateInput,
    /// Routine 0x0205.
    SwitchUsbOtgUsbHost,
    /// Routine 0x0206.
    TriggerOutput,
    /// Routine 0x0207.
    OpenDebugScreen,
    /// Routine 0x0208.
    CloseDebugScreen,
    /// Routine 0x0209.
    ToggleOffBMSVoltage,
    /// Routine 0x020A.
    ToggleOnBMSVoltage,
    /// Routine 0x020B.
    BikeForceUnlock,
    /// Routine 0x020C.
    BikeForceLock,
    /// Routine 0x020D.
    WifiScan,
    /// Routine 0x020E.
    WifiCheckIp,
    /// Routine 0x020F.
    WifiRestartApp,
    /// Routine 0x0210.
    GpsCheckLog,
    /// Routine 0x0211.
    LteCheckIp,
    /// Routine 0x0212.
    LteCheckPing,
    /// Routine 0x0213.
    LteCheckEnableSignal,
    /// Routine 0x0214.
    LteGetModemInfo,
    /// Routine 0x0215.
    BleRestartApp,
    /// Routine 0x0216.
    BleCheckPair,
    /// Routine 0x0217.
    ImxCheckServiceStatus,
    /// Routine 0x0218.
    LteGetSignalStrength,
}

/// The 16-bit identifier of each routine.
pub open spec fn rid_value(r: RoutineId) -> u16 {
    match r {
        RoutineId::EnableImxLte => 0x0200,
        RoutineId::DisableImxLte => 0x0201,
        RoutineId::EnableImxHmi => 0x0202,
        RoutineId::DisableImxHmi => 0x0203,
        RoutineId::SimulateInput => 0x0204,
        RoutineId::SwitchUsbOtgUsbHost => 0x0205,
        RoutineId::TriggerOutput => 0x0206,
        RoutineId::OpenDebugScreen => 0x0207,
        RoutineId::CloseDebugScreen => 0x0208,
        RoutineId::ToggleOffBMSVoltage => 0x0209,
        RoutineId::ToggleOnBMSVoltage => 0x020A,
        RoutineId::BikeForceUnlock => 0x020B,
        RoutineId::BikeForceLock => 0x020C,
        RoutineId::WifiScan => 0x020D,
        RoutineId::WifiCheckIp => 0x020E,
        RoutineId::WifiRestartApp => 0x020F,
        RoutineId::GpsCheckLog => 0x0210,
        RoutineId::LteCheckIp => 0x0211,
        RoutineId::LteCheckPing => 0x0212,
        RoutineId::LteCheckEnableSignal => 0x0213,
        RoutineId::LteGetModemInfo => 0x0214,
        RoutineId::BleRestartApp => 0x0215,
        RoutineId::BleCheckPair => 0x0216,
        RoutineId::ImxCheckServiceStatus => 0x0217,
        RoutineId::LteGetSignalStrength => 0x0218,
    }
}

impl RoutineId {
    /// The big-endian wire bytes of this routine identifier.
    pub fn to_bytes(&self) -> (r: Vec<u8>)
        ensures
            r@ == seq![(rid_value(*self) / 0x100) as u8, (rid_value(*self) % 0x100) as u8],
    {
        let v: u16 = match *self {
            RoutineId::EnableImxLte => 0x0200,
            RoutineId::DisableImxLte => 0x0201,
            RoutineId::EnableImxHmi => 0x0202,
            RoutineId::DisableImxHmi => 0x0203,
            RoutineId::SimulateInput => 0x0204,
            RoutineId::SwitchUsbOtgUsbHost => 0x0205,
            RoutineId::TriggerOutput => 0x0206,
            RoutineId::OpenDebugScreen => 0x0207,
            RoutineId::CloseDebugScreen => 0x0208,
            RoutineId::ToggleOffBMSVoltage => 0x0209,
            RoutineId::ToggleOnBMSVoltage => 0x020A,
            RoutineId::BikeForceUnlock => 0x020B,
            RoutineId::BikeForceLock => 0x020C,
            RoutineId::WifiScan => 0x020D,
            RoutineId::WifiCheckIp => 0x020E,
            RoutineId::WifiRestartApp => 0x020F,
            RoutineId::GpsCheckLog => 0x0210,
            RoutineId::LteCheckIp => 0x0211,
            RoutineId::LteCheckPing => 0x0212,
            RoutineId::LteCheckEnableSignal => 0x0213,
            RoutineId::LteGetModemInfo => 0x0214,
            RoutineId::BleRestartApp => 0x0215,
            RoutineId::BleCheckPair => 0x0216,
            RoutineId::ImxCheckServiceStatus => 0x0217,
            RoutineId::LteGetSignalStrength => 0x0218,
        };
        let mut r: Vec<u8> = Vec::new();
        r.push((v / 0x100) as u8);
        r.push((v % 0x100) as u8);
        proof {
            assert(r@ =~= seq![(rid_value(*self) / 0x100) as u8, (rid_value(*self) % 0x100) as u8]);
        }
        r
    }
}

/// Gateway domains a connectivity routine can belong to.
#[derive(Debug, Clone, Copy, PartialEq, Eq, Structural)]
pub enum Domain {
    /// No known domain.
    InvalidDomain,
    /// The Wi-Fi subsystem.
    Wifi,
    /// The positioning subsystem.
    Gps,
    /// The cellular subsystem.
    Lte,
    /// The Bluetooth subsystem.
    Ble,
    /// The applications processor.
    Imx,
}

/// The name of each domain as it travels in the gateway protocol.
pub open spec fn domain_name(d: Domain) -> Seq<char> {
    match d {
        Domain::InvalidDomain => "InvalidDomain"@,
        Domain::Wifi => "Wifi"@,
        Domain::Gps => "Gps"@,
        Domain::Lte => "Lte"@,
        Domain::Ble => "Ble"@,
        Domain::Imx => "Imx"@,
    }
}

/// The domain a name denotes; unknown names denote no domain.
pub open spec fn domain_of_name(s: Seq<char>) -> Domain {
    if s == "Wifi"@ {
        Domain::Wifi
    } else if s == "Gps"@ {
        Domain::Gps
    } else if s == "Lte"@ {
        Domain::Lte
    } else if s == "Ble"@ {
        Domain::Ble
    } else if s == "Imx"@ {
        Domain::Imx
    } else {
        Domain::InvalidDomain
    }
}

impl Domain {
    /// The wire name of this domain.
    pub fn name(&self) -> (r: &'static str)
        ensures
            r@ == domain_name(*self),
    {
        match *self {
            Domain::InvalidDomain => "InvalidDomain",
            Domain::Wifi => "Wifi",
            Domain::Gps => "Gps",
            Domain::Lte => "Lte",
            Domain::Ble => "Ble",
            Domain::Imx => "Imx",
        }
    }

    /// Decodes a domain name; unknown names yield no domain.
    pub fn from_name(input: &str) -> (r: Domain)
        ensures
            r == domain_of_name(input@),
    {
        if crate::bytes::str_eq(input, "Wifi") {
            Domain::Wifi
        } else if crate::bytes::str_eq(input, "Gps") {
            Domain::Gps
        } else if crate::bytes::str_eq(input, "Lte") {
            Domain::Lte
        } else if crate::bytes::str_eq(input, "Ble") {
            Domain::Ble
        } else if crate::bytes::str_eq(input, "Imx") {
            Domain::Imx
        } else {
            Domain::InvalidDomain
        }
    }
}

/// A command relayed to the gateway agent.
#[derive(Debug, Clone, Copy, PartialEq, Eq, Structural)]
pub struct ServiceRequest {
    /// The subsystem addressed.
    pub domain: Domain,
    /// The command within the subsystem.
    pub command: u8,
}

/// An asynchronous answer from the gateway agent.
#[derive(Debug)]
pub struct ServiceResponse {
    /// The subsystem that answered.
    pub domain: Domain,
    /// The command answered.
    pub command: u8,
    /// The answer's text.
    pub response: String,
}

/// The gateway command a connectivity routine maps to; routines that
/// run on the ECU itself map to none.
pub open spec fn connectivity_of(value: u16) -> Option<ServiceRequest> {
    if value == 0x020D {
        Some(ServiceRequest { domain: Domain::Wifi, command: 0x01 })
    } else if value == 0x020E {
        Some(ServiceRequest { domain: Domain::Wifi, command: 0x02 })
    } else if value == 0x020F {
        Some(ServiceRequest { domain: Domain::Wifi, command: 0x03 })
    } else if value == 0x0210 {
        Some(ServiceRequest { domain: Domain::Gps, command: 0x01 })
    } else if value == 0x0211 {
        Some(ServiceRequest { domain: Domain::Lte, command: 0x01 })
    } else if value == 0x0212 {
        Some(ServiceRequest { domain: Domain::Lte, command: 0x02 })
    } else if value == 0x0213 {
        Some(ServiceRequest { domain: Domain::Lte, command: 0x03 })
    } else if value == 0x0214 {
        Some(ServiceRequest { domain: Domain::Lte, command: 0x04 })
    } else if value == 0x0218 {
        Some(ServiceRequest { domain: Domain::Lte, command: 0x05 })
    } else if value == 0x0215 {
        Some(ServiceRequest { domain: Domain::Ble, command: 0x01 })
    } else if value == 0x0216 {
        Some(ServiceRequest { domain: Domain::Ble, command: 0x02 })
    } else if value == 0x0217 {
        Some(ServiceRequest { domain: Domain::Imx, command: 0x01 })
    } else {
        None
    }
}

impl UDSClientSession {
    /// Maps a routine identifier to the gateway command it is relayed
    /// as, filling the request in place; identifiers that run over the
    /// diagnostic link leave the request alone and yield false.
    pub fn is_connectivity_service(value: u16, req: &mut ServiceRequest) -> (r: bool)
        ensures
            r == (connectivity_of(value) is Some),
            connectivity_of(value) matches Some(expect) ==> *final(req) == expect,
            connectivity_of(value) is None ==> *final(req) == *old(req),
    {
        if value == 0x020D {
            req.domain = Domain::Wifi;
            req.command = 0x01;
            true
        } else if value == 0x020E {
            req.domain = Domain::Wifi;
            req.command = 0x02;
            true
        } else if value == 0x020F {
            req.domain = Domain::Wifi;
            req.command = 0x03;
            true
        } else if value == 0x0210 {
            req.domain = Domain::Gps;
            req.command = 0x01;
            true
        } else if value == 0x0211 {
            req.domain = Domain::Lte;
            req.command = 0x01;
            true
        } else if value == 0x0212 {
            req.domain = Domain::Lte;
            req.command = 0x02;
            true
        } else if value == 0x0213 {
            req.domain = Domain::Lte;
            req.command = 0x03;
            true
        } else if value == 0x0214 {
            req.domain = Domain::Lte;
            req.command = 0x04;
            true
        } else if value == 0x0218 {
            req.domain = Domain::Lte;
            req.command = 0x05;
            true
        } else if value == 0x0215 {
            req.domain = Domain::Ble;
            req.command = 0x01;
            true
        } else if value == 0x0216 {
            req.domain = Domain::Ble;
            req.command = 0x02;
            true
        } else if value == 0x0217 {
            req.domain = Domain::Imx;
            req.command = 0x01;
            true
        } else {
            false
        }
    }

    /// The request bytes of a routine-control command: the service
    /// identifier, the sub-function, the routine identifier bytes and
    /// the option bytes.
    pub fn uds_routine_control_request(
        &self,
        sub_fcn: RoutineControlSubfcn,
        routine_id: &[u8],
        routine_control_option: &[u8],
    ) -> (r: Vec<u8>)
        ensures
            r@ == seq![0x31u8, routine_subfcn_byte(sub_fcn)] + routine_id@
                + routine_control_option@,
    {
        let mut v: Vec<u8> = Vec::new();
        v.push(0x31);
        v.push(sub_fcn.to_byte());
        crate::isotp::extend_from_slice_range(&mut v, routine_id, 0, routine_id.len());
        crate::isotp::extend_from_slice_range(
            &mut v,
            routine_control_option,
            0,
            routine_control_option.len(),
        );
        proof {
            assert(v@ =~= seq![0x31u8, routine_subfcn_byte(sub_fcn)] + routine_id@
                + routine_control_option@);
        }
        v
    }

    /// Interprets the ECU's reply to a routine-control command issued
    /// over the diagnostic link.
    pub fn uds_routine_control_reply(&self, resp: &[u8]) -> (r: crate::api::UdsServiceResponse)
        ensures
            crate::errors::is_positive_reply(0x31, resp@) ==> (r
                matches crate::api::UdsServiceResponse::Success(d) && d.console_output@
                == "SUCCESS"@),
            resp@.len() > 0 && !crate::errors::is_positive_reply(0x31, resp@) ==> (r
                matches crate::api::UdsServiceResponse::Fail(d) && d.console_output@
                == "FAIL\nNEGATIVE UDS RESPONSE"@),
            resp@.len() == 0 ==> (r matches crate::api::UdsServiceResponse::Fail(d)
                && d.console_output@ == "FAIL\nEMPTY UDS RESPONSE"@),
    {
        if resp.len() == 0 {
            crate::api::UdsServiceResponse::fail(String::from_str("FAIL\nEMPTY UDS RESPONSE"))
        } else if resp[0] == 0x31 + 0x40 {
            crate::api::UdsServiceResponse::success(String::from_str("SUCCESS"))
        } else {
            crate::api::UdsServiceResponse::fail(String::from_str("FAIL\nNEGATIVE UDS RESPONSE"))
        }
    }

    /// What the routine services must establish before running: the
    /// programming session when not already held, and a security level
    /// when none is held.
    pub fn uds_routine_control_setup(&self) -> (r: (bool, bool))
        ensures
            r.0 == (self.current_diag_mode.mode != UdsSessionType::Programming),
            r.1 == (self.current_diag_mode.sec_level == SecurityLevelAccess::Locked),
    {
        (
            !(self.current_diag_mode.mode == UdsSessionType::Programming),
            self.current_diag_mode.sec_level == SecurityLevelAccess::Locked,
        )
    }
}

/// Inputs the input-simulation routine can drive.
#[derive(Debug, Clone, Copy, PartialEq, Eq, Structural)]
pub enum SimulateInputOption {
    /// Right brake switch.
    RightBrakeSwitch,
    /// Left brake switch.
    LeftBrakeSwitch,
    /// Kill switch.
    KillSwitch,
    /// Power switch.
    PowerSwitch,
    /// Reverse switch.
    ReverseSwitch,
    /// Seat switch.
    SeatSwitch,
    /// Side stand switch.
    SideStandSwitch,
    /// Trip switch.
    TripSwitch,
    /// Ride mode switch.
    RideModeSwitch,
    /// Hazard switch.
    HazardSwitch,
    /// Horn switch.
    HornSwitch,
    /// Right indicator switch.
    RightIndicatorSwitch,
    /// Left indicator switch.
    LeftIndicatorSwitch,
    /// Passing switch.
    PassingSwitch,
    /// High beam switch.
    HighBeamSwitch,
    /// Start switch.
    StartSwitch,
    /// Back switch.
    BackSwitch,
    /// Select switch.
    SelectSwitch,
    /// Down switch.
    DownSwitch,
    /// Keyfob short press.
    KeyfobShortPress,
    /// Keyfob long press.
    KeyfobLongPress,
}

/// The wire byte of each simulated input.
pub open spec fn simulate_input_byte(o: SimulateInputOption) -> u8 {
    match o {
        SimulateInputOption::RightBrakeSwitch => 0x00,
        SimulateInputOption::LeftBrakeSwitch => 0x01,
        SimulateInputOption::KillSwitch => 0x02,
        SimulateInputOption::PowerSwitch => 0x03,
        SimulateInputOption::ReverseSwitch => 0x04,
        SimulateInputOption::SeatSwitch => 0x05,
        SimulateInputOption::SideStandSwitch => 0x06,
        SimulateInputOption::TripSwitch => 0x07,
        SimulateInputOption::RideModeSwitch => 0x08,
        SimulateInputOption::HazardSwitch => 0x09,
        SimulateInputOption::HornSwitch => 0x0A,
        SimulateInputOption::RightIndicatorSwitch => 0x0B,
        SimulateInputOption::LeftIndicatorSwitch => 0x0C,
        SimulateInputOption::PassingSwitch => 0x0D,
        SimulateInputOption::HighBeamSwitch => 0x0E,
        SimulateInputOption::StartSwitch => 0x0F,
        SimulateInputOption::BackSwitch => 0x10,
        SimulateInputOption::SelectSwitch => 0x11,
        SimulateInputOption::DownSwitch => 0x12,
        SimulateInputOption::KeyfobShortPress => 0x13,
        SimulateInputOption::KeyfobLongPress => 0x14,
    }
}

impl SimulateInputOption {
    /// The wire byte of this simulated input.
    pub fn to_byte(&self) -> (r: u8)
        ensures
            r == simulate_input_byte(*self),
    {
        match *self {
            SimulateInputOption::RightBrakeSwitch => 0x00,
            SimulateInputOption::LeftBrakeSwitch => 0x01,
            SimulateInputOption::KillSwitch => 0x02,
            SimulateInputOption::PowerSwitch => 0x03,
            SimulateInputOption::ReverseSwitch => 0x04,
            SimulateInputOption::SeatSwitch => 0x05,
            SimulateInputOption::SideStandSwitch => 0x06,
            SimulateInputOption::TripSwitch => 0x07,
            SimulateInputOption::RideModeSwitch => 0x08,
            SimulateInputOption::HazardSwitch => 0x09,
            SimulateInputOption::HornSwitch => 0x0A,
            SimulateInputOption::RightIndicatorSwitch => 0x0B,
            SimulateInputOption::LeftIndicatorSwitch => 0x0C,
            SimulateInputOption::PassingSwitch => 0x0D,
            SimulateInputOption::HighBeamSwitch => 0x0E,
            SimulateInputOption::StartSwitch => 0x0F,
            SimulateInputOption::BackSwitch => 0x10,
            SimulateInputOption::SelectSwitch => 0x11,
            SimulateInputOption::DownSwitch => 0x12,
            SimulateInputOption::KeyfobShortPress => 0x13,
            SimulateInputOption::KeyfobLongPress => 0x14,
        }
    }
}

/// Outputs the output-trigger routine can drive.
#[derive(Debug, Clone, Copy, PartialEq, Eq, Structural)]
pub enum TriggerOutputOption {
    /// Rear right indicator.
    HssRearRightIndicator,
    /// Rear left indicator.
    HssRearLeftIndicator,
    /// Brake light.
    HssBrakeLight,
    /// Horn.
    HssHorn,
    /// High beam.
    HssHighBeam,
    /// Low beam.
    HssLowBeam,
    /// License plate light.
    HssLicensePlate,
    /// Front left indicator.
    HssFrontLeftIndicator,
    /// Front right indicator.
    HssFrontRightIndicator,
    /// Tail light.
    HssTailLight,
    /// Seat lock.
    HssSeatLock,
    /// Battery-management enable.
    HssBmsEnable,
    /// Motor enable.
    HssMotorEnable,
    /// Steering lock.
    HssSteerLock,
    /// Daytime running light.
    HssDrl,
    /// Tire-pressure monitoring.
    HssTpms,
    /// Side-stand power.
    HssSideStandPower,
}

/// The wire byte of each triggered output.
pub open spec fn trigger_output_byte(o: TriggerOutputOption) -> u8 {
    match o {
        TriggerOutputOption::HssRearRightIndicator => 0x00,
        TriggerOutputOption::HssRearLeftIndicator => 0x01,
        TriggerOutputOption::HssBrakeLight => 0x02,
        TriggerOutputOption::HssHorn => 0x03,
        TriggerOutputOption::HssHighBeam => 0x04,
        TriggerOutputOption::HssLowBeam => 0x05,
        TriggerOutputOption::HssLicensePlate => 0x06,
        TriggerOutputOption::HssFrontLeftIndicator => 0x07,
        TriggerOutputOption::HssFrontRightIndicator => 0x08,
        TriggerOutputOption::HssTailLight => 0x09,
        TriggerOutputOption::HssSeatLock => 0x0A,
        TriggerOutputOption::HssBmsEnable => 0x0B,
        TriggerOutputOption::HssMotorEnable => 0x0C,
        TriggerOutputOption::HssSteerLock => 0x0D,
        TriggerOutputOption::HssDrl => 0x0E,
        TriggerOutputOption::HssTpms => 0x0F,
        TriggerOutputOption::HssSideStandPower => 0x10,
    }
}

impl TriggerOutputOption {
    /// The wire byte of this triggered output.
    pub fn to_byte(&self) -> (r: u8)
        ensures
            r == trigger_output_byte(*self),
    {
        match *self {
            TriggerOutputOption::HssRearRightIndicator => 0x00,
            TriggerOutputOption::HssRearLeftIndicator => 0x01,
            TriggerOutputOption::HssBrakeLight => 0x02,
            TriggerOutputOption::HssHorn => 0x03,
            TriggerOutputOption::HssHighBeam => 0x04,
            TriggerOutputOption::HssLowBeam => 0x05,
            TriggerOutputOption::HssLicensePlate => 0x06,
            TriggerOutputOption::HssFrontLeftIndicator => 0x07,
            TriggerOutputOption::HssFrontRightIndicator => 0x08,
            TriggerOutputOption::HssTailLight => 0x09,
            TriggerOutputOption::HssSeatLock => 0x0A,
            TriggerOutputOption::HssBmsEnable => 0x0B,
            TriggerOutputOption::HssMotorEnable => 0x0C,
            TriggerOutputOption::HssSteerLock => 0x0D,
            TriggerOutputOption::HssDrl => 0x0E,
            TriggerOutputOption::HssTpms => 0x0F,
            TriggerOutputOption::HssSideStandPower => 0x10,
        }
    }
}


/// What one routine-control invocation must do: relay a gateway
/// command over the side channel, or send a request over the
/// diagnostic link.
#[derive(Debug)]
pub enum RoutineAction {
    /// Forward this command to the gateway agent and report success.
    SendTcp(ServiceRequest),
    /// Send these request bytes over the diagnostic link.
    SendUds(Vec<u8>),
}

impl UDSClientSession {
    /// Decides how a routine-control invocation runs: a connectivity
    /// routine is relayed to the gateway as its mapped command; every
    /// other routine goes over the diagnostic link as a routine-control
    /// request.
    pub fn uds_routine_control(
        &self,
        sub_fcn: RoutineControlSubfcn,
        routine_id: &[u8],
        routine_control_option: &[u8],
    ) -> (r: RoutineAction)
        requires
            routine_id@.len() == 2,
        ensures
            connectivity_of((routine_id@[0] * 0x100 + routine_id@[1]) as u16) matches Some(req)
                ==> r matches RoutineAction::SendTcp(q) && q == req,
            connectivity_of((routine_id@[0] * 0x100 + routine_id@[1]) as u16) is None ==> (r
                matches RoutineAction::SendUds(v) && v@ == seq![
                0x31u8,
                routine_subfcn_byte(sub_fcn),
            ] + routine_id@ + routine_control_option@),
    {
        let value: u16 = routine_id[0] as u16 * 0x100 + routine_id[1] as u16;
        let mut req = ServiceRequest { domain: Domain::InvalidDomain, command: 0x00 };
        if Self::is_connectivity_service(value, &mut req) {
            RoutineAction::SendTcp(req)
        } else {
            RoutineAction::SendUds(
                self.uds_routine_control_request(sub_fcn, routine_id, routine_control_option),
            )
        }
    }

    /// The same setup the result fetch needs: the programming session
    /// and a held security level.
    pub fn uds_routine_control_setup_get_result(&self) -> (r: (bool, bool))
        ensures
            r.0 == (self.current_diag_mode.mode != UdsSessionType::Programming),
            r.1 == (self.current_diag_mode.sec_level == SecurityLevelAccess::Locked),
    {
        self.uds_routine_control_setup()
    }
}

} // verus!
