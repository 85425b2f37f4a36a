//! The worker dispatch: maps the textual actions the user interface
//! emits to the service invocations they stand for.

use vstd::prelude::*;

use crate::bytes::str_eq;
use crate::cli::Invocation;
use crate::diagnostic_session_control::UdsSessionType;
use crate::ecu_reset::ResetType;
use crate::read_data_by_id::DataId;
use crate::routine_control::simulate_input_byte;
use crate::routine_control::trigger_output_byte;
use crate::routine_control::RoutineControlSubfcn;
use crate::routine_control::RoutineId;
use crate::routine_control::SimulateInputOption;
use crate::routine_control::TriggerOutputOption;

verus! {

/// One action emitted by the user interface: a service name and up to
/// three option strings.
#[derive(Debug)]
pub struct Action {
    /// The service group selected.
    pub service: String,
    /// First option within the group.
    pub option1: String,
    /// Second option within the group.
    pub option2: String,
    /// Third option within the group.
    pub option3: String,
}

/// One message to the worker that performs diagnostic actions.
#[derive(Debug)]
pub enum UdsMessage {
    /// Stop the worker.
    Quit,
    /// Perform this action.
    Action { action: Action },
}

/// The toggle sub-function an option string names.
pub open spec fn spec_toggle(o3: Seq<char>) -> Option<RoutineControlSubfcn> {
    if o3 == "Enable"@ {
        Some(RoutineControlSubfcn::StartRoutine)
    } else if o3 == "Disable"@ {
        Some(RoutineControlSubfcn::StopRoutine)
    } else {
        None
    }
}

/// The invocation an interface action names, when it names one.
pub open spec fn spec_action_invocation(
    service: Seq<char>,
    o1: Seq<char>,
    o2: Seq<char>,
    o3: Seq<char>,
) -> Option<Invocation> {
    if service == "Read Monitor View"@ {
        Some(Invocation::ReadMonitorView)
    } else if service == "Read"@ {
        if o1 == "Bike State and Bike Lock"@ {
            Some(Invocation::ReadData(DataId::BikeState))
        } else if o1 == "Switch Gear"@ {
            Some(Invocation::ReadData(DataId::SwitchGear))
        } else if o1 == "Error Code"@ {
            Some(Invocation::ReadData(DataId::ComponentError))
        } else if o1 == "Inertial measurement unit (IMU)"@ {
            Some(Invocation::ReadData(DataId::ImuRaw))
        } else if o1 == "Keyfob Data"@ {
            Some(Invocation::ReadData(DataId::KeyfobState))
        } else if o1 == "Vehicle Metrics 1"@ {
            Some(Invocation::ReadData(DataId::PerformanceVehicle1))
        } else if o1 == "Vehicle Metrics 2"@ {
            Some(Invocation::ReadData(DataId::PerformanceVehicle2))
        } else if o1 == "Charge Metrics"@ {
            Some(Invocation::ReadData(DataId::PerformanceCharge))
        } else if o1 == "Firmware Version"@ {
            Some(Invocation::ReadData(DataId::FirmwareVersion))
        } else if o1 == "Analog-Digital Converter Voltage"@ {
            Some(Invocation::ReadData(DataId::AdcVoltage))
        } else if o1 == "Battery management system (BMS) Data1"@ {
            Some(Invocation::ReadData(DataId::Bms1))
        } else if o1 == "Battery management system (BMS) Data2"@ {
            Some(Invocation::ReadData(DataId::Bms2))
        } else if o1 == "Battery management system (BMS) Data3"@ {
            Some(Invocation::ReadData(DataId::Bms3))
        } else if o1 == "Temmperature Sensors"@ {
            Some(Invocation::ReadData(DataId::TempSensors))
        } else if o1 == "Diag State"@ {
            Some(Invocation::ReadData(DataId::DiagState))
        } else if o1 == "Dashboard"@ {
            Some(Invocation::ReadData(DataId::Dashboard))
        } else {
            None
        }
    } else if service == "Routine"@ {
        if o1 == "Simulate VCU Input"@ {
            match spec_toggle(o3) {
                Some(sub) => {
                    if o2 == "Right Brake Switch"@ {
                        Some(Invocation::Routine { sub_fcn: sub, routine_id: RoutineId::SimulateInput, option: Some(simulate_input_byte(SimulateInputOption::RightBrakeSwitch)) })
                    } else if o2 == "Left Brake Switch"@ {
                        Some(Invocation::Routine { sub_fcn: sub, routine_id: RoutineId::SimulateInput, option: Some(simulate_input_byte(SimulateInputOption::LeftBrakeSwitch)) })
                    } else if o2 == "Kill Switch"@ {
                        Some(Invocation::Routine { sub_fcn: sub, routine_id: RoutineId::SimulateInput, option: Some(simulate_input_byte(SimulateInputOption::KillSwitch)) })
                    } else if o2 == "Power Switch"@ {
                        Some(Invocation::Routine { sub_fcn: sub, routine_id: RoutineId::SimulateInput, option: Some(simulate_input_byte(SimulateInputOption::PowerSwitch)) })
                    } else if o2 == "Reverse Switch"@ {
                        Some(Invocation::Routine { sub_fcn: sub, routine_id: RoutineId::SimulateInput, option: Some(simulate_input_byte(SimulateInputOption::ReverseSwitch)) })
                    } else if o2 == "Side Stand Switch"@ {
                        Some(Invocation::Routine { sub_fcn: sub, routine_id: RoutineId::SimulateInput, option: Some(simulate_input_byte(SimulateInputOption::SideStandSwitch)) })
                    } else if o2 == "Ride Mode Switch"@ {
                        Some(Invocation::Routine { sub_fcn: sub, routine_id: RoutineId::SimulateInput, option: Some(simulate_input_byte(SimulateInputOption::RideModeSwitch)) })
                    } else if o2 == "Hazard Switch"@ {
                        Some(Invocation::Routine { sub_fcn: sub, routine_id: RoutineId::SimulateInput, option: Some(simulate_input_byte(SimulateInputOption::HazardSwitch)) })
                    } else if o2 == "Horn Switch"@ {
                        Some(Invocation::Routine { sub_fcn: sub, routine_id: RoutineId::SimulateInput, option: Some(simulate_input_byte(SimulateInputOption::HornSwitch)) })
                    } else if o2 == "Right Indicator Switch"@ {
                        Some(Invocation::Routine { sub_fcn: sub, routine_id: RoutineId::SimulateInput, option: Some(simulate_input_byte(SimulateInputOption::RightIndicatorSwitch)) })
                    } else if o2 == "Left Indicator Switch"@ {
                        Some(Invocation::Routine { sub_fcn: sub, routine_id: RoutineId::SimulateInput, option: Some(simulate_input_byte(SimulateInputOption::LeftIndicatorSwitch)) })
                    } else if o2 == "High Beam Switch"@ {
                        Some(Invocation::Routine { sub_fcn: sub, routine_id: RoutineId::SimulateInput, option: Some(simulate_input_byte(SimulateInputOption::HighBeamSwitch)) })
                    } else if o2 == "Start Switch"@ {
                        Some(Invocation::Routine { sub_fcn: sub, routine_id: RoutineId::SimulateInput, option: Some(simulate_input_byte(SimulateInputOption::StartSwitch)) })
                    } else if o2 == "Seat Switch"@ {
                        Some(Invocation::Routine { sub_fcn: sub, routine_id: RoutineId::SimulateInput, option: Some(simulate_input_byte(SimulateInputOption::SeatSwitch)) })
                    } else if o2 == "Trip Switch"@ {
                        Some(Invocation::Routine { sub_fcn: sub, routine_id: RoutineId::SimulateInput, option: Some(simulate_input_byte(SimulateInputOption::TripSwitch)) })
                    } else if o2 == "Down Switch"@ {
                        Some(Invocation::Routine { sub_fcn: sub, routine_id: RoutineId::SimulateInput, option: Some(simulate_input_byte(SimulateInputOption::DownSwitch)) })
                    } else if o2 == "Keyfob Short Press"@ {
                        Some(Invocation::Routine { sub_fcn: sub, routine_id: RoutineId::SimulateInput, option: Some(simulate_input_byte(SimulateInputOption::KeyfobShortPress)) })
                    } else if o2 == "Keyfob Long Press"@ {
                        Some(Invocation::Routine { sub_fcn: sub, routine_id: RoutineId::SimulateInput, option: Some(simulate_input_byte(SimulateInputOption::KeyfobLongPress)) })
                    } else {
                        None
                    }
                },
                None => None,
            }
        } else if o1 == "Trigger VCU Output"@ {
            match spec_toggle(o3) {
                Some(sub) => {
                    if o2 == "Rear Right Indicator"@ {
                        Some(Invocation::Routine { sub_fcn: sub, routine_id: RoutineId::TriggerOutput, option: Some(trigger_output_byte(TriggerOutputOption::HssRearRightIndicator)) })
                    } else if o2 == "Rear Left Indicator"@ {
                        Some(Invocation::Routine { sub_fcn: sub, routine_id: RoutineId::TriggerOutput, option: Some(trigger_output_byte(TriggerOutputOption::HssRearLeftIndicator)) })
                    } else if o2 == "Brake Light"@ {
                        Some(Invocation::Routine { sub_fcn: sub, routine_id: RoutineId::TriggerOutput, option: Some(trigger_output_byte(TriggerOutputOption::HssBrakeLight)) })
                    } else if o2 == "Horn"@ {
                        Some(Invocation::Routine { sub_fcn: sub, routine_id: RoutineId::TriggerOutput, option: Some(trigger_output_byte(TriggerOutputOption::HssHorn)) })
                    } else if o2 == "High Beam"@ {
                        Some(Invocation::Routine { sub_fcn: sub, routine_id: RoutineId::TriggerOutput, option: Some(trigger_output_byte(TriggerOutputOption::HssHighBeam)) })
                    } else if o2 == "Low Beam"@ {
                        Some(Invocation::Routine { sub_fcn: sub, routine_id: RoutineId::TriggerOutput, option: Some(trigger_output_byte(TriggerOutputOption::HssLowBeam)) })
                    } else if o2 == "License Plate"@ {
                        Some(Invocation::Routine { sub_fcn: sub, routine_id: RoutineId::TriggerOutput, option: Some(trigger_output_byte(TriggerOutputOption::HssLicensePlate)) })
                    } else if o2 == "Front Left Indicator"@ {
                        Some(Invocation::Routine { sub_fcn: sub, routine_id: RoutineId::TriggerOutput, option: Some(trigger_output_byte(TriggerOutputOption::HssFrontLeftIndicator)) })
                    } else if o2 == "Front Right Indicator"@ {
                        Some(Invocation::Routine { sub_fcn: sub, routine_id: RoutineId::TriggerOutput, option: Some(trigger_output_byte(TriggerOutputOption::HssFrontRightIndicator)) })
                    } else if o2 == "Tail Light"@ {
                        Some(Invocation::Routine { sub_fcn: sub, routine_id: RoutineId::TriggerOutput, option: Some(trigger_output_byte(TriggerOutputOption::HssTailLight)) })
                    } else if o2 == "Seat Lock"@ {
                        Some(Invocation::Routine { sub_fcn: sub, routine_id: RoutineId::TriggerOutput, option: Some(trigger_output_byte(TriggerOutputOption::HssSeatLock)) })
                    } else if o2 == "BMS Enable"@ {
                        Some(Invocation::Routine { sub_fcn: sub, routine_id: RoutineId::TriggerOutput, option: Some(trigger_output_byte(TriggerOutputOption::HssBmsEnable)) })
                    } else if o2 == "Motor Enable"@ {
                        Some(Invocation::Routine { sub_fcn: sub, routine_id: RoutineId::TriggerOutput, option: Some(trigger_output_byte(TriggerOutputOption::HssMotorEnable)) })
                    } else if o2 == "Steer Lock"@ {
                        Some(Invocation::Routine { sub_fcn: sub, routine_id: RoutineId::TriggerOutput, option: Some(trigger_output_byte(TriggerOutputOption::HssSteerLock)) })
                    } else if o2 == "DRL"@ {
                        Some(Invocation::Routine { sub_fcn: sub, routine_id: RoutineId::TriggerOutput, option: Some(trigger_output_byte(TriggerOutputOption::HssDrl)) })
                    } else if o2 == "Tire Pressure Monitoring System (TPMS)"@ {
                        Some(Invocation::Routine { sub_fcn: sub, routine_id: RoutineId::TriggerOutput, option: Some(trigger_output_byte(TriggerOutputOption::HssTpms)) })
                    } else if o2 == "Side Stand Power"@ {
                        Some(Invocation::Routine { sub_fcn: sub, routine_id: RoutineId::TriggerOutput, option: Some(trigger_output_byte(TriggerOutputOption::HssSideStandPower)) })
                    } else {
                        None
                    }
                },
                None => None,
            }
        } else if o1 == "Open Debug Screen"@ {
            Some(Invocation::Routine { sub_fcn: RoutineControlSubfcn::StartRoutine, routine_id: RoutineId::OpenDebugScreen, option: None })
        } else if o1 == "Close Debug Screen"@ {
            Some(Invocation::Routine { sub_fcn: RoutineControlSubfcn::StartRoutine, routine_id: RoutineId::CloseDebugScreen, option: None })
        } else if o1 == "Toggle Off BMS Voltage"@ {
            Some(Invocation::Routine { sub_fcn: RoutineControlSubfcn::StartRoutine, routine_id: RoutineId::ToggleOffBMSVoltage, option: None })
        } else if o1 == "Toggle On BMS Voltage"@ {
            Some(Invocation::Routine { sub_fcn: RoutineControlSubfcn::StartRoutine, routine_id: RoutineId::ToggleOnBMSVoltage, option: None })
        } else if o1 == "Bike Force Unlock"@ {
            Some(Invocation::Routine { sub_fcn: RoutineControlSubfcn::StartRoutine, routine_id: RoutineId::BikeForceUnlock, option: None })
        } else if o1 == "Bike Force Lock"@ {
            Some(Invocation::Routine { sub_fcn: RoutineControlSubfcn::StartRoutine, routine_id: RoutineId::BikeForceLock, option: None })
        } else {
            None
        }
    } else if service == "Connectivity"@ {
        if o1 == "Wifi Scan"@ {
            Some(Invocation::Routine { sub_fcn: RoutineControlSubfcn::StartRoutine, routine_id: RoutineId::WifiScan, option: None })
        } else if o1 == "Wifi Scan Get Result"@ {
            Some(Invocation::RoutineGetResult(RoutineId::WifiScan))
        } else if o1 == "Wifi Check IP"@ {
            Some(Invocation::Routine { sub_fcn: RoutineControlSubfcn::StartRoutine, routine_id: RoutineId::WifiCheckIp, option: None })
        } else if o1 == "Wifi Check IP Get Result"@ {
            Some(Invocation::RoutineGetResult(RoutineId::WifiCheckIp))
        } else if o1 == "Wifi Restart App"@ {
            Some(Invocation::Routine { sub_fcn: RoutineControlSubfcn::StartRoutine, routine_id: RoutineId::WifiRestartApp, option: None })
        } else if o1 == "Wifi Restart App Get Result"@ {
            Some(Invocation::RoutineGetResult(RoutineId::WifiRestartApp))
        } else if o1 == "GPS Check Log"@ {
            Some(Invocation::Routine { sub_fcn: RoutineControlSubfcn::StartRoutine, routine_id: RoutineId::GpsCheckLog, option: None })
        } else if o1 == "GPS Check Log Get Result"@ {
            Some(Invocation::RoutineGetResult(RoutineId::GpsCheckLog))
        } else if o1 == "LTE Check IP"@ {
            Some(Invocation::Routine { sub_fcn: RoutineControlSubfcn::StartRoutine, routine_id: RoutineId::LteCheckIp, option: None })
        } else if o1 == "LTE Check IP Get Result"@ {
            Some(Invocation::RoutineGetResult(RoutineId::LteCheckIp))
        } else if o1 == "LTE Check Ping"@ {
            Some(Invocation::Routine { sub_fcn: RoutineControlSubfcn::StartRoutine, routine_id: RoutineId::LteCheckPing, option: None })
        } else if o1 == "LTE Check Ping Get Result"@ {
            Some(Invocation::RoutineGetResult(RoutineId::LteCheckPing))
        } else if o1 == "LTE Check Enable Signal"@ {
            Some(Invocation::Routine { sub_fcn: RoutineControlSubfcn::StartRoutine, routine_id: RoutineId::LteCheckEnableSignal, option: None })
        } else if o1 == "LTE Check Enable Signal Get Result"@ {
            Some(Invocation::RoutineGetResult(RoutineId::LteCheckEnableSignal))
        } else if o1 == "LTE Get Modem Info"@ {
            Some(Invocation::Routine { sub_fcn: RoutineControlSubfcn::StartRoutine, routine_id: RoutineId::LteGetModemInfo, option: None })
        } else if o1 == "LTE Get Modem Info Get Result"@ {
            Some(Invocation::RoutineGetResult(RoutineId::LteGetModemInfo))
        } else if o1 == "LTE Get Signal Strength"@ {
            Some(Invocation::Routine { sub_fcn: RoutineControlSubfcn::StartRoutine, routine_id: RoutineId::LteGetSignalStrength, option: None })
        } else if o1 == "LTE Get Signal Strength Get Result"@ {
            Some(Invocation::RoutineGetResult(RoutineId::LteGetSignalStrength))
        } else if o1 == "BLE Restart App"@ {
            Some(Invocation::Routine { sub_fcn: RoutineControlSubfcn::StartRoutine, routine_id: RoutineId::BleRestartApp, option: None })
        } else if o1 == "BLE Restart App Get Result"@ {
            Some(Invocation::RoutineGetResult(RoutineId::BleRestartApp))
        } else if o1 == "BLE Check Pair"@ {
            Some(Invocation::Routine { sub_fcn: RoutineControlSubfcn::StartRoutine, routine_id: RoutineId::BleCheckPair, option: None })
        } else if o1 == "BLE Check Pair Get Result"@ {
            Some(Invocation::RoutineGetResult(RoutineId::BleCheckPair))
        } else if o1 == "IMX Check Service Status"@ {
            Some(Invocation::Routine { sub_fcn: RoutineControlSubfcn::StartRoutine, routine_id: RoutineId::ImxCheckServiceStatus, option: None })
        } else if o1 == "IMX Check Service Status Get Result"@ {
            Some(Invocation::RoutineGetResult(RoutineId::ImxCheckServiceStatus))
        } else if o1 == "LTE Enable LTE/GPS"@ {
            Some(Invocation::Routine { sub_fcn: RoutineControlSubfcn::StartRoutine, routine_id: RoutineId::EnableImxLte, option: None })
        } else if o1 == "LTE Disable LTE/GPS"@ {
            Some(Invocation::Routine { sub_fcn: RoutineControlSubfcn::StartRoutine, routine_id: RoutineId::DisableImxLte, option: None })
        } else {
            None
        }
    } else if service == "Reset"@ {
        if o1 == "Realtime 118"@ {
            Some(Invocation::Reset(ResetType::RealtimeReset))
        } else if o1 == "Telematic 148"@ {
            Some(Invocation::Reset(ResetType::TelematicReset))
        } else if o1 == "IMX"@ {
            Some(Invocation::Reset(ResetType::ImxReset))
        } else if o1 == "ESP32 WIFI"@ {
            Some(Invocation::Reset(ResetType::Esp32WifiReset))
        } else if o1 == "ESP32 BLE"@ {
            Some(Invocation::Reset(ResetType::Esp32BleReset))
        } else if o1 == "QUECTEL"@ {
            Some(Invocation::Reset(ResetType::QuectelReset))
        } else if o1 == "LIZARD"@ {
            Some(Invocation::Reset(ResetType::LizardReset))
        } else if o1 == "CENDRIC"@ {
            Some(Invocation::Reset(ResetType::CendricReset))
        } else {
            None
        }
    } else if service == "Set Mode"@ {
        if o1 == "User Mode"@ {
            Some(Invocation::SetMode(UdsSessionType::Default))
        } else if o1 == "Debug Mode"@ {
            Some(Invocation::SetMode(UdsSessionType::Programming))
        } else if o1 == "Stream Mode"@ {
            Some(Invocation::SetMode(UdsSessionType::StreamMode))
        } else {
            None
        }
    } else {
        None
    }
}

impl Action {
    /// Maps this action to the invocation it names; actions that name
    /// no known service yield nothing.
    #[verifier::rlimit(100)]
    #[verifier::spinoff_prover]
    pub fn invocation(&self) -> (r: Option<Invocation>)
        ensures
            r == spec_action_invocation(
                self.service@,
                self.option1@,
                self.option2@,
                self.option3@,
            ),
    {
        if str_eq(self.service.as_str(), "Read Monitor View") {
            return Some(Invocation::ReadMonitorView);
        }
        if str_eq(self.service.as_str(), "Read") {
            if str_eq(self.option1.as_str(), "Bike State and Bike Lock") {
                return Some(Invocation::ReadData(DataId::BikeState));
            } else if str_eq(self.option1.as_str(), "Switch Gear") {
                return Some(Invocation::ReadData(DataId::SwitchGear));
            } else if str_eq(self.option1.as_str(), "Error Code") {
                return Some(Invocation::ReadData(DataId::ComponentError));
            } else if str_eq(self.option1.as_str(), "Inertial measurement unit (IMU)") {
                return Some(Invocation::ReadData(DataId::ImuRaw));
            } else if str_eq(self.option1.as_str(), "Keyfob Data") {
                return Some(Invocation::ReadData(DataId::KeyfobState));
            } else if str_eq(self.option1.as_str(), "Vehicle Metrics 1") {
                return Some(Invocation::ReadData(DataId::PerformanceVehicle1));
            } else if str_eq(self.option1.as_str(), "Vehicle Metrics 2") {
                return Some(Invocation::ReadData(DataId::PerformanceVehicle2));
            } else if str_eq(self.option1.as_str(), "Charge Metrics") {
                return Some(Invocation::ReadData(DataId::PerformanceCharge));
            } else if str_eq(self.option1.as_str(), "Firmware Version") {
                return Some(Invocation::ReadData(DataId::FirmwareVersion));
            } else if str_eq(self.option1.as_str(), "Analog-Digital Converter Voltage") {
                return Some(Invocation::ReadData(DataId::AdcVoltage));
            } else if str_eq(self.option1.as_str(), "Battery management system (BMS) Data1") {
                return Some(Invocation::ReadData(DataId::Bms1));
            } else if str_eq(self.option1.as_str(), "Battery management system (BMS) Data2") {
                return Some(Invocation::ReadData(DataId::Bms2));
            } else if str_eq(self.option1.as_str(), "Battery management system (BMS) Data3") {
                return Some(Invocation::ReadData(DataId::Bms3));
            } else if str_eq(self.option1.as_str(), "Temmperature Sensors") {
                return Some(Invocation::ReadData(DataId::TempSensors));
            } else if str_eq(self.option1.as_str(), "Diag State") {
                return Some(Invocation::ReadData(DataId::DiagState));
            } else if str_eq(self.option1.as_str(), "Dashboard") {
                return Some(Invocation::ReadData(DataId::Dashboard));
            } else {
                return None;
            }
        }
        if str_eq(self.service.as_str(), "Routine") {
            if str_eq(self.option1.as_str(), "Simulate VCU Input") {
                let sub = if str_eq(self.option3.as_str(), "Enable") {
                    RoutineControlSubfcn::StartRoutine
                } else if str_eq(self.option3.as_str(), "Disable") {
                    RoutineControlSubfcn::StopRoutine
                } else {
                    return None;
                };
                if str_eq(self.option2.as_str(), "Right Brake Switch") {
                    return Some(Invocation::Routine { sub_fcn: sub, routine_id: RoutineId::SimulateInput, option: Some(SimulateInputOption::RightBrakeSwitch.to_byte()) });
                } else if str_eq(self.option2.as_str(), "Left Brake Switch") {
                    return Some(Invocation::Routine { sub_fcn: sub, routine_id: RoutineId::SimulateInput, option: Some(SimulateInputOption::LeftBrakeSwitch.to_byte()) });
                } else if str_eq(self.option2.as_str(), "Kill Switch") {
                    return Some(Invocation::Routine { sub_fcn: sub, routine_id: RoutineId::SimulateInput, option: Some(SimulateInputOption::KillSwitch.to_byte()) });
                } else if str_eq(self.option2.as_str(), "Power Switch") {
                    return Some(Invocation::Routine { sub_fcn: sub, routine_id: RoutineId::SimulateInput, option: Some(SimulateInputOption::PowerSwitch.to_byte()) });
                } else if str_eq(self.option2.as_str(), "Reverse Switch") {
                    return Some(Invocation::Routine { sub_fcn: sub, routine_id: RoutineId::SimulateInput, option: Some(SimulateInputOption::ReverseSwitch.to_byte()) });
                } else if str_eq(self.option2.as_str(), "Side Stand Switch") {
                    return Some(Invocation::Routine { sub_fcn: sub, routine_id: RoutineId::SimulateInput, option: Some(SimulateInputOption::SideStandSwitch.to_byte()) });
                } else if str_eq(self.option2.as_str(), "Ride Mode Switch") {
                    return Some(Invocation::Routine { sub_fcn: sub, routine_id: RoutineId::SimulateInput, option: Some(SimulateInputOption::RideModeSwitch.to_byte()) });
                } else if str_eq(self.option2.as_str(), "Hazard Switch") {
                    return Some(Invocation::Routine { sub_fcn: sub, routine_id: RoutineId::SimulateInput, option: Some(SimulateInputOption::HazardSwitch.to_byte()) });
                } else if str_eq(self.option2.as_str(), "Horn Switch") {
                    return Some(Invocation::Routine { sub_fcn: sub, routine_id: RoutineId::SimulateInput, option: Some(SimulateInputOption::HornSwitch.to_byte()) });
                } else if str_eq(self.option2.as_str(), "Right Indicator Switch") {
                    return Some(Invocation::Routine { sub_fcn: sub, routine_id: RoutineId::SimulateInput, option: Some(SimulateInputOption::RightIndicatorSwitch.to_byte()) });
                } else if str_eq(self.option2.as_str(), "Left Indicator Switch") {
                    return Some(Invocation::Routine { sub_fcn: sub, routine_id: RoutineId::SimulateInput, option: Some(SimulateInputOption::LeftIndicatorSwitch.to_byte()) });
                } else if str_eq(self.option2.as_str(), "High Beam Switch") {
                    return Some(Invocation::Routine { sub_fcn: sub, routine_id: RoutineId::SimulateInput, option: Some(SimulateInputOption::HighBeamSwitch.to_byte()) });
                } else if str_eq(self.option2.as_str(), "Start Switch") {
                    return Some(Invocation::Routine { sub_fcn: sub, routine_id: RoutineId::SimulateInput, option: Some(SimulateInputOption::StartSwitch.to_byte()) });
                } else if str_eq(self.option2.as_str(), "Seat Switch") {
                    return Some(Invocation::Routine { sub_fcn: sub, routine_id: RoutineId::SimulateInput, option: Some(SimulateInputOption::SeatSwitch.to_byte()) });
                } else if str_eq(self.option2.as_str(), "Trip Switch") {
                    return Some(Invocation::Routine { sub_fcn: sub, routine_id: RoutineId::SimulateInput, option: Some(SimulateInputOption::TripSwitch.to_byte()) });
                } else if str_eq(self.option2.as_str(), "Down Switch") {
                    return Some(Invocation::Routine { sub_fcn: sub, routine_id: RoutineId::SimulateInput, option: Some(SimulateInputOption::DownSwitch.to_byte()) });
                } else if str_eq(self.option2.as_str(), "Keyfob Short Press") {
                    return Some(Invocation::Routine { sub_fcn: sub, routine_id: RoutineId::SimulateInput, option: Some(SimulateInputOption::KeyfobShortPress.to_byte()) });
                } else if str_eq(self.option2.as_str(), "Keyfob Long Press") {
                    return Some(Invocation::Routine { sub_fcn: sub, routine_id: RoutineId::SimulateInput, option: Some(SimulateInputOption::KeyfobLongPress.to_byte()) });
                } else {
                    return None;
                }
            }
            if str_eq(self.option1.as_str(), "Trigger VCU Output") {
                let sub = if str_eq(self.option3.as_str(), "Enable") {
                    RoutineControlSubfcn::StartRoutine
                } else if str_eq(self.option3.as_str(), "Disable") {
                    RoutineControlSubfcn::StopRoutine
                } else {
                    return None;
                };
                if str_eq(self.option2.as_str(), "Rear Right Indicator") {
                    return Some(Invocation::Routine { sub_fcn: sub, routine_id: RoutineId::TriggerOutput, option: Some(TriggerOutputOption::HssRearRightIndicator.to_byte()) });
                } else if str_eq(self.option2.as_str(), "Rear Left Indicator") {
                    return Some(Invocation::Routine { sub_fcn: sub, routine_id: RoutineId::TriggerOutput, option: Some(TriggerOutputOption::HssRearLeftIndicator.to_byte()) });
                } else if str_eq(self.option2.as_str(), "Brake Light") {
                    return Some(Invocation::Routine { sub_fcn: sub, routine_id: RoutineId::TriggerOutput, option: Some(TriggerOutputOption::HssBrakeLight.to_byte()) });
                } else if str_eq(self.option2.as_str(), "Horn") {
                    return Some(Invocation::Routine { sub_fcn: sub, routine_id: RoutineId::TriggerOutput, option: Some(TriggerOutputOption::HssHorn.to_byte()) });
                } else if str_eq(self.option2.as_str(), "High Beam") {
                    return Some(Invocation::Routine { sub_fcn: sub, routine_id: RoutineId::TriggerOutput, option: Some(TriggerOutputOption::HssHighBeam.to_byte()) });
                } else if str_eq(self.option2.as_str(), "Low Beam") {
                    return Some(Invocation::Routine { sub_fcn: sub, routine_id: RoutineId::TriggerOutput, option: Some(TriggerOutputOption::HssLowBeam.to_byte()) });
                } else if str_eq(self.option2.as_str(), "License Plate") {
                    return Some(Invocation::Routine { sub_fcn: sub, routine_id: RoutineId::TriggerOutput, option: Some(TriggerOutputOption::HssLicensePlate.to_byte()) });
                } else if str_eq(self.option2.as_str(), "Front Left Indicator") {
                    return Some(Invocation::Routine { sub_fcn: sub, routine_id: RoutineId::TriggerOutput, option: Some(TriggerOutputOption::HssFrontLeftIndicator.to_byte()) });
                } else if str_eq(self.option2.as_str(), "Front Right Indicator") {
                    return Some(Invocation::Routine { sub_fcn: sub, routine_id: RoutineId::TriggerOutput, option: Some(TriggerOutputOption::HssFrontRightIndicator.to_byte()) });
                } else if str_eq(self.option2.as_str(), "Tail Light") {
                    return Some(Invocation::Routine { sub_fcn: sub, routine_id: RoutineId::TriggerOutput, option: Some(TriggerOutputOption::HssTailLight.to_byte()) });
                } else if str_eq(self.option2.as_str(), "Seat Lock") {
                    return Some(Invocation::Routine { sub_fcn: sub, routine_id: RoutineId::TriggerOutput, option: Some(TriggerOutputOption::HssSeatLock.to_byte()) });
                } else if str_eq(self.option2.as_str(), "BMS Enable") {
                    return Some(Invocation::Routine { sub_fcn: sub, routine_id: RoutineId::TriggerOutput, option: Some(TriggerOutputOption::HssBmsEnable.to_byte()) });
                } else if str_eq(self.option2.as_str(), "Motor Enable") {
                    return Some(Invocation::Routine { sub_fcn: sub, routine_id: RoutineId::TriggerOutput, option: Some(TriggerOutputOption::HssMotorEnable.to_byte()) });
                } else if str_eq(self.option2.as_str(), "Steer Lock") {
                    return Some(Invocation::Routine { sub_fcn: sub, routine_id: RoutineId::TriggerOutput, option: Some(TriggerOutputOption::HssSteerLock.to_byte()) });
                } else if str_eq(self.option2.as_str(), "DRL") {
                    return Some(Invocation::Routine { sub_fcn: sub, routine_id: RoutineId::TriggerOutput, option: Some(TriggerOutputOption::HssDrl.to_byte()) });
                } else if str_eq(self.option2.as_str(), "Tire Pressure Monitoring System (TPMS)") {
                    return Some(Invocation::Routine { sub_fcn: sub, routine_id: RoutineId::TriggerOutput, option: Some(TriggerOutputOption::HssTpms.to_byte()) });
                } else if str_eq(self.option2.as_str(), "Side Stand Power") {
                    return Some(Invocation::Routine { sub_fcn: sub, routine_id: RoutineId::TriggerOutput, option: Some(TriggerOutputOption::HssSideStandPower.to_byte()) });
                } else {
                    return None;
                }
            }
            if str_eq(self.option1.as_str(), "Open Debug Screen") {
                return Some(Invocation::Routine { sub_fcn: RoutineControlSubfcn::StartRoutine, routine_id: RoutineId::OpenDebugScreen, option: None });
            }
            if str_eq(self.option1.as_str(), "Close Debug Screen") {
                return Some(Invocation::Routine { sub_fcn: RoutineControlSubfcn::StartRoutine, routine_id: RoutineId::CloseDebugScreen, option: None });
            }
            if str_eq(self.option1.as_str(), "Toggle Off BMS Voltage") {
                return Some(Invocation::Routine { sub_fcn: RoutineControlSubfcn::StartRoutine, routine_id: RoutineId::ToggleOffBMSVoltage, option: None });
            }
            if str_eq(self.option1.as_str(), "Toggle On BMS Voltage") {
                return Some(Invocation::Routine { sub_fcn: RoutineControlSubfcn::StartRoutine, routine_id: RoutineId::ToggleOnBMSVoltage, option: None });
            }
            if str_eq(self.option1.as_str(), "Bike Force Unlock") {
                return Some(Invocation::Routine { sub_fcn: RoutineControlSubfcn::StartRoutine, routine_id: RoutineId::BikeForceUnlock, option: None });
            }
            if str_eq(self.option1.as_str(), "Bike Force Lock") {
                return Some(Invocation::Routine { sub_fcn: RoutineControlSubfcn::StartRoutine, routine_id: RoutineId::BikeForceLock, option: None });
            }
            return None;
        }
        if str_eq(self.service.as_str(), "Connectivity") {
            if str_eq(self.option1.as_str(), "Wifi Scan") {
                return Some(Invocation::Routine { sub_fcn: RoutineControlSubfcn::StartRoutine, routine_id: RoutineId::WifiScan, option: None });
            }
            if str_eq(self.option1.as_str(), "Wifi Scan Get Result") {
                return Some(Invocation::RoutineGetResult(RoutineId::WifiScan));
            }
            if str_eq(self.option1.as_str(), "Wifi Check IP") {
                return Some(Invocation::Routine { sub_fcn: RoutineControlSubfcn::StartRoutine, routine_id: RoutineId::WifiCheckIp, option: None });
            }
            if str_eq(self.option1.as_str(), "Wifi Check IP Get Result") {
                return Some(Invocation::RoutineGetResult(RoutineId::WifiCheckIp));
            }
            if str_eq(self.option1.as_str(), "Wifi Restart App") {
                return Some(Invocation::Routine { sub_fcn: RoutineControlSubfcn::StartRoutine, routine_id: RoutineId::WifiRestartApp, option: None });
            }
            if str_eq(self.option1.as_str(), "Wifi Restart App Get Result") {
                return Some(Invocation::RoutineGetResult(RoutineId::WifiRestartApp));
            }
            if str_eq(self.option1.as_str(), "GPS Check Log") {
                return Some(Invocation::Routine { sub_fcn: RoutineControlSubfcn::StartRoutine, routine_id: RoutineId::GpsCheckLog, option: None });
            }
            if str_eq(self.option1.as_str(), "GPS Check Log Get Result") {
                return Some(Invocation::RoutineGetResult(RoutineId::GpsCheckLog));
            }
            if str_eq(self.option1.as_str(), "LTE Check IP") {
                return Some(Invocation::Routine { sub_fcn: RoutineControlSubfcn::StartRoutine, routine_id: RoutineId::LteCheckIp, option: None });
            }
            if str_eq(self.option1.as_str(), "LTE Check IP Get Result") {
                return Some(Invocation::RoutineGetResult(RoutineId::LteCheckIp));
            }
            if str_eq(self.option1.as_str(), "LTE Check Ping") {
                return Some(Invocation::Routine { sub_fcn: RoutineControlSubfcn::StartRoutine, routine_id: RoutineId::LteCheckPing, option: None });
            }
            if str_eq(self.option1.as_str(), "LTE Check Ping Get Result") {
                return Some(Invocation::RoutineGetResult(RoutineId::LteCheckPing));
            }
            if str_eq(self.option1.as_str(), "LTE Check Enable Signal") {
                return Some(Invocation::Routine { sub_fcn: RoutineControlSubfcn::StartRoutine, routine_id: RoutineId::LteCheckEnableSignal, option: None });
            }
            if str_eq(self.option1.as_str(), "LTE Check Enable Signal Get Result") {
                return Some(Invocation::RoutineGetResult(RoutineId::LteCheckEnableSignal));
            }
            if str_eq(self.option1.as_str(), "LTE Get Modem Info") {
                return Some(Invocation::Routine { sub_fcn: RoutineControlSubfcn::StartRoutine, routine_id: RoutineId::LteGetModemInfo, option: None });
            }
            if str_eq(self.option1.as_str(), "LTE Get Modem Info Get Result") {
                return Some(Invocation::RoutineGetResult(RoutineId::LteGetModemInfo));
            }
            if str_eq(self.option1.as_str(), "LTE Get Signal Strength") {
                return Some(Invocation::Routine { sub_fcn: RoutineControlSubfcn::StartRoutine, routine_id: RoutineId::LteGetSignalStrength, option: None });
            }
            if str_eq(self.option1.as_str(), "LTE Get Signal Strength Get Result") {
                return Some(Invocation::RoutineGetResult(RoutineId::LteGetSignalStrength));
            }
            if str_eq(self.option1.as_str(), "BLE Restart App") {
                return Some(Invocation::Routine { sub_fcn: RoutineControlSubfcn::StartRoutine, routine_id: RoutineId::BleRestartApp, option: None });
            }
            if str_eq(self.option1.as_str(), "BLE Restart App Get Result") {
                return Some(Invocation::RoutineGetResult(RoutineId::BleRestartApp));
            }
            if str_eq(self.option1.as_str(), "BLE Check Pair") {
                return Some(Invocation::Routine { sub_fcn: RoutineControlSubfcn::StartRoutine, routine_id: RoutineId::BleCheckPair, option: None });
            }
            if str_eq(self.option1.as_str(), "BLE Check Pair Get Result") {
                return Some(Invocation::RoutineGetResult(RoutineId::BleCheckPair));
            }
            if str_eq(self.option1.as_str(), "IMX Check Service Status") {
                return Some(Invocation::Routine { sub_fcn: RoutineControlSubfcn::StartRoutine, routine_id: RoutineId::ImxCheckServiceStatus, option: None });
            }
            if str_eq(self.option1.as_str(), "IMX Check Service Status Get Result") {
                return Some(Invocation::RoutineGetResult(RoutineId::ImxCheckServiceStatus));
            }
            if str_eq(self.option1.as_str(), "LTE Enable LTE/GPS") {
                return Some(Invocation::Routine { sub_fcn: RoutineControlSubfcn::StartRoutine, routine_id: RoutineId::EnableImxLte, option: None });
            }
            if str_eq(self.option1.as_str(), "LTE Disable LTE/GPS") {
                return Some(Invocation::Routine { sub_fcn: RoutineControlSubfcn::StartRoutine, routine_id: RoutineId::DisableImxLte, option: None });
            }
            return None;
        }
        if str_eq(self.service.as_str(), "Reset") {
            if str_eq(self.option1.as_str(), "Realtime 118") {
                return Some(Invocation::Reset(ResetType::RealtimeReset));
            }
            if str_eq(self.option1.as_str(), "Telematic 148") {
                return Some(Invocation::Reset(ResetType::TelematicReset));
            }
            if str_eq(self.option1.as_str(), "IMX") {
                return Some(Invocation::Reset(ResetType::ImxReset));
            }
            if str_eq(self.option1.as_str(), "ESP32 WIFI") {
                return Some(Invocation::Reset(ResetType::Esp32WifiReset));
            }
            if str_eq(self.option1.as_str(), "ESP32 BLE") {
                return Some(Invocation::Reset(ResetType::Esp32BleReset));
            }
            if str_eq(self.option1.as_str(), "QUECTEL") {
                return Some(Invocation::Reset(ResetType::QuectelReset));
            }
            if str_eq(self.option1.as_str(), "LIZARD") {
                return Some(Invocation::Reset(ResetType::LizardReset));
            }
            if str_eq(self.option1.as_str(), "CENDRIC") {
                return Some(Invocation::Reset(ResetType::CendricReset));
            }
            return None;
        }
        if str_eq(self.service.as_str(), "Set Mode") {
            if str_eq(self.option1.as_str(), "User Mode") {
                return Some(Invocation::SetMode(UdsSessionType::Default));
            }
            if str_eq(self.option1.as_str(), "Debug Mode") {
                return Some(Invocation::SetMode(UdsSessionType::Programming));
            }
            if str_eq(self.option1.as_str(), "Stream Mode") {
                return Some(Invocation::SetMode(UdsSessionType::StreamMode));
            }
            return None;
        }
        None
    }
}

} // verus!
