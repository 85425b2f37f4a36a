//! The command-line surface: each subcommand carries its arguments as
//! plain data and maps to the service invocation it stands for; the
//! argument parser around it lives outside the verified library.

use vstd::prelude::*;

use crate::diagnostic_session_control::UdsSessionType;
use crate::ecu_reset::ResetType;
use crate::read_data_by_id::DataId;
use crate::routine_control::RoutineControlSubfcn;
use crate::routine_control::RoutineId;
use crate::routine_control::SimulateInputOption;
use crate::routine_control::TriggerOutputOption;

verus! {

/// One service invocation a front end can ask the client for.
#[derive(Debug, Clone, Copy, PartialEq, Eq, Structural)]
pub enum Invocation {
    /// Read one data record and show its text.
    ReadData(DataId),
    /// Read the dashboard record for the monitor view.
    ReadMonitorView,
    /// Drive a routine, optionally with one option byte.
    Routine { sub_fcn: RoutineControlSubfcn, routine_id: RoutineId, option: Option<u8> },
    /// Fetch a routine's result.
    RoutineGetResult(RoutineId),
    /// Reset one processor.
    Reset(ResetType),
    /// Enter a diagnostic session.
    SetMode(UdsSessionType),
}

/// Whether a command enables or disables its target.
#[derive(Debug, Clone, Copy, PartialEq, Eq, Structural)]
pub enum ToggleAction {
    /// Turn the target on.
    Enable,
    /// Turn the target off.
    Disable,
}

/// The routine sub-function a toggle maps to.
pub open spec fn toggle_subfcn(a: ToggleAction) -> RoutineControlSubfcn {
    match a {
        ToggleAction::Enable => RoutineControlSubfcn::StartRoutine,
        ToggleAction::Disable => RoutineControlSubfcn::StopRoutine,
    }
}

/// Returns the bike to the default session, disabling simulation and trigger routines.
#[derive(Debug, Clone, Copy, PartialEq, Eq, Structural)]
pub struct DefaultModeCmd {}

impl DefaultModeCmd {
    /// The invocation this command stands for.
    pub fn invocation(&self) -> (r: Invocation)
        ensures
            r == Invocation::SetMode(UdsSessionType::Default),
    {
        Invocation::SetMode(UdsSessionType::Default)
    }
}

/// Reads the component error codes.
#[derive(Debug, Clone, Copy, PartialEq, Eq, Structural)]
pub struct ErrorCodeCmd {}

impl ErrorCodeCmd {
    /// The invocation this command stands for.
    pub fn invocation(&self) -> (r: Invocation)
        ensures
            r == Invocation::ReadData(DataId::ComponentError),
    {
        Invocation::ReadData(DataId::ComponentError)
    }
}

/// Reads the switch-gear states.
#[derive(Debug, Clone, Copy, PartialEq, Eq, Structural)]
pub struct SwitchGearCmd {}

impl SwitchGearCmd {
    /// The invocation this command stands for.
    pub fn invocation(&self) -> (r: Invocation)
        ensures
            r == Invocation::ReadData(DataId::SwitchGear),
    {
        Invocation::ReadData(DataId::SwitchGear)
    }
}

/// Soft-resets the vehicle control unit.
#[derive(Debug, Clone, Copy, PartialEq, Eq, Structural)]
pub struct SoftResetEcuCmd {}

impl SoftResetEcuCmd {
    /// The invocation this command stands for.
    pub fn invocation(&self) -> (r: Invocation)
        ensures
            r == Invocation::Reset(ResetType::SoftReset),
    {
        Invocation::Reset(ResetType::SoftReset)
    }
}

/// Resets the applications processor.
#[derive(Debug, Clone, Copy, PartialEq, Eq, Structural)]
pub struct ResetImxCmd {}

impl ResetImxCmd {
    /// The invocation this command stands for.
    pub fn invocation(&self) -> (r: Invocation)
        ensures
            r == Invocation::Reset(ResetType::ImxReset),
    {
        Invocation::Reset(ResetType::ImxReset)
    }
}

/// Resets the Wi-Fi controller.
#[derive(Debug, Clone, Copy, PartialEq, Eq, Structural)]
pub struct ResetWifiCmd {}

impl ResetWifiCmd {
    /// The invocation this command stands for.
    pub fn invocation(&self) -> (r: Invocation)
        ensures
            r == Invocation::Reset(ResetType::Esp32WifiReset),
    {
        Invocation::Reset(ResetType::Esp32WifiReset)
    }
}

/// Resets the cellular modem.
#[derive(Debug, Clone, Copy, PartialEq, Eq, Structural)]
pub struct ResetLteCmd {}

impl ResetLteCmd {
    /// The invocation this command stands for.
    pub fn invocation(&self) -> (r: Invocation)
        ensures
            r == Invocation::Reset(ResetType::QuectelReset),
    {
        Invocation::Reset(ResetType::QuectelReset)
    }
}

/// Resets the lizard co-processor.
#[derive(Debug, Clone, Copy, PartialEq, Eq, Structural)]
pub struct ResetLizardCmd {}

impl ResetLizardCmd {
    /// The invocation this command stands for.
    pub fn invocation(&self) -> (r: Invocation)
        ensures
            r == Invocation::Reset(ResetType::LizardReset),
    {
        Invocation::Reset(ResetType::LizardReset)
    }
}

/// Starts the routine that enables the applications processor's display.
#[derive(Debug, Clone, Copy, PartialEq, Eq, Structural)]
pub struct EnableImxHmiCmd {}

impl EnableImxHmiCmd {
    /// The invocation this command stands for.
    pub fn invocation(&self) -> (r: Invocation)
        ensures
            r == (Invocation::Routine { sub_fcn: RoutineControlSubfcn::StartRoutine, routine_id: RoutineId::EnableImxHmi, option: None }),
    {
        (Invocation::Routine { sub_fcn: RoutineControlSubfcn::StartRoutine, routine_id: RoutineId::EnableImxHmi, option: None })
    }
}

/// Starts the routine that disables the applications processor's display.
#[derive(Debug, Clone, Copy, PartialEq, Eq, Structural)]
pub struct DisableImxHmiCmd {}

impl DisableImxHmiCmd {
    /// The invocation this command stands for.
    pub fn invocation(&self) -> (r: Invocation)
        ensures
            r == (Invocation::Routine { sub_fcn: RoutineControlSubfcn::StartRoutine, routine_id: RoutineId::DisableImxHmi, option: None }),
    {
        (Invocation::Routine { sub_fcn: RoutineControlSubfcn::StartRoutine, routine_id: RoutineId::DisableImxHmi, option: None })
    }
}

/// Starts the routine that enables the cellular link.
#[derive(Debug, Clone, Copy, PartialEq, Eq, Structural)]
pub struct EnableImxLteCmd {}

impl EnableImxLteCmd {
    /// The invocation this command stands for.
    pub fn invocation(&self) -> (r: Invocation)
        ensures
            r == (Invocation::Routine { sub_fcn: RoutineControlSubfcn::StartRoutine, routine_id: RoutineId::EnableImxLte, option: None }),
    {
        (Invocation::Routine { sub_fcn: RoutineControlSubfcn::StartRoutine, routine_id: RoutineId::EnableImxLte, option: None })
    }
}

/// Starts the routine that swaps the USB port role.
#[derive(Debug, Clone, Copy, PartialEq, Eq, Structural)]
pub struct SwitchUsbOtgUsbHostCmd {}

impl SwitchUsbOtgUsbHostCmd {
    /// The invocation this command stands for.
    pub fn invocation(&self) -> (r: Invocation)
        ensures
            r == (Invocation::Routine { sub_fcn: RoutineControlSubfcn::StartRoutine, routine_id: RoutineId::SwitchUsbOtgUsbHost, option: None }),
    {
        (Invocation::Routine { sub_fcn: RoutineControlSubfcn::StartRoutine, routine_id: RoutineId::SwitchUsbOtgUsbHost, option: None })
    }
}

/// Arguments of the input-simulation subcommand.
#[derive(Debug, Clone, Copy, PartialEq, Eq, Structural)]
pub struct SimulateInputCmd {
    /// Whether the input is pressed or released.
    pub action: ToggleAction,
    /// The input to simulate.
    pub input: SimulateInputOption,
    /// Simulate a short press: press then release in one command.
    pub short_press: bool,
}

impl SimulateInputCmd {
    /// The invocations this command stands for: one toggle, or a press
    /// and release pair for a short press.
    pub fn invocations(&self) -> (r: Vec<Invocation>)
        ensures
            !self.short_press ==> r@ == seq![
                (Invocation::Routine {
                    sub_fcn: toggle_subfcn(self.action),
                    routine_id: RoutineId::SimulateInput,
                    option: Some(crate::routine_control::simulate_input_byte(self.input)),
                }),
            ],
            self.short_press ==> r@ == seq![
                (Invocation::Routine {
                    sub_fcn: RoutineControlSubfcn::StartRoutine,
                    routine_id: RoutineId::SimulateInput,
                    option: Some(crate::routine_control::simulate_input_byte(self.input)),
                }),
                (Invocation::Routine {
                    sub_fcn: RoutineControlSubfcn::StopRoutine,
                    routine_id: RoutineId::SimulateInput,
                    option: Some(crate::routine_control::simulate_input_byte(self.input)),
                }),
            ],
    {
        let byte = self.input.to_byte();
        let mut v: Vec<Invocation> = Vec::new();
        if self.short_press {
            v.push(
                Invocation::Routine {
                    sub_fcn: RoutineControlSubfcn::StartRoutine,
                    routine_id: RoutineId::SimulateInput,
                    option: Some(byte),
                },
            );
            v.push(
                Invocation::Routine {
                    sub_fcn: RoutineControlSubfcn::StopRoutine,
                    routine_id: RoutineId::SimulateInput,
                    option: Some(byte),
                },
            );
            proof {
                assert(v@ =~= seq![
                    (Invocation::Routine {
                        sub_fcn: RoutineControlSubfcn::StartRoutine,
                        routine_id: RoutineId::SimulateInput,
                        option: Some(crate::routine_control::simulate_input_byte(self.input)),
                    }),
                    (Invocation::Routine {
                        sub_fcn: RoutineControlSubfcn::StopRoutine,
                        routine_id: RoutineId::SimulateInput,
                        option: Some(crate::routine_control::simulate_input_byte(self.input)),
                    }),
                ]);
            }
        } else {
            let sub = match self.action {
                ToggleAction::Enable => RoutineControlSubfcn::StartRoutine,
                ToggleAction::Disable => RoutineControlSubfcn::StopRoutine,
            };
            v.push(
                Invocation::Routine {
                    sub_fcn: sub,
                    routine_id: RoutineId::SimulateInput,
                    option: Some(byte),
                },
            );
            proof {
                assert(v@ =~= seq![
                    (Invocation::Routine {
                        sub_fcn: toggle_subfcn(self.action),
                        routine_id: RoutineId::SimulateInput,
                        option: Some(crate::routine_control::simulate_input_byte(self.input)),
                    }),
                ]);
            }
        }
        v
    }
}

/// Arguments of the output-trigger subcommand.
#[derive(Debug, Clone, Copy, PartialEq, Eq, Structural)]
pub struct TriggerOutputCmd {
    /// Whether the output is driven or released.
    pub action: ToggleAction,
    /// The output to drive.
    pub output: TriggerOutputOption,
}

impl TriggerOutputCmd {
    /// The invocation this command stands for.
    pub fn invocation(&self) -> (r: Invocation)
        ensures
            r == (Invocation::Routine {
                sub_fcn: toggle_subfcn(self.action),
                routine_id: RoutineId::TriggerOutput,
                option: Some(crate::routine_control::trigger_output_byte(self.output)),
            }),
    {
        let sub = match self.action {
            ToggleAction::Enable => RoutineControlSubfcn::StartRoutine,
            ToggleAction::Disable => RoutineControlSubfcn::StopRoutine,
        };
        Invocation::Routine {
            sub_fcn: sub,
            routine_id: RoutineId::TriggerOutput,
            option: Some(self.output.to_byte()),
        }
    }
}

/// Subcommands of the session-control command.
#[derive(Debug, Clone, Copy, PartialEq, Eq, Structural)]
pub enum DiagnosticSessionServiceSubCmd {
    /// Return to the default session.
    DefaultMode(DefaultModeCmd),
}

/// The session-control command.
#[derive(Debug, Clone, Copy, PartialEq, Eq, Structural)]
pub struct DiagnosticSessionServiceCmd {
    /// The selected session subcommand.
    pub subcommand: DiagnosticSessionServiceSubCmd,
}

impl DiagnosticSessionServiceCmd {
    /// The invocation this command stands for.
    pub fn invocation(&self) -> (r: Invocation)
        ensures
            r == Invocation::SetMode(UdsSessionType::Default),
    {
        match self.subcommand {
            DiagnosticSessionServiceSubCmd::DefaultMode(c) => c.invocation(),
        }
    }
}

/// Subcommands of the read command, one per readable record.
#[derive(Debug, Clone, Copy, PartialEq, Eq, Structural)]
pub enum ReadDataServiceSubCmd {
    /// Bike state and lock.
    BikeState,
    /// Switch-gear states.
    SwitchGear(SwitchGearCmd),
    /// Component error codes.
    ErrorCode(ErrorCodeCmd),
    /// Raw inertial measurements.
    Imu,
    /// Keyfob state.
    Keyfob,
    /// Vehicle performance metrics.
    Performance,
    /// Firmware versions.
    FirmwareVersion,
    /// Converter voltages.
    Adc,
    /// Battery-management data.
    Bms,
}

/// The spec-level record each read subcommand selects.
pub open spec fn read_sub_did(c: ReadDataServiceSubCmd) -> DataId {
    match c {
        ReadDataServiceSubCmd::BikeState => DataId::BikeState,
        ReadDataServiceSubCmd::SwitchGear(_) => DataId::SwitchGear,
        ReadDataServiceSubCmd::ErrorCode(_) => DataId::ComponentError,
        ReadDataServiceSubCmd::Imu => DataId::ImuRaw,
        ReadDataServiceSubCmd::Keyfob => DataId::KeyfobState,
        ReadDataServiceSubCmd::Performance => DataId::PerformanceVehicle1,
        ReadDataServiceSubCmd::FirmwareVersion => DataId::FirmwareVersion,
        ReadDataServiceSubCmd::Adc => DataId::AdcVoltage,
        ReadDataServiceSubCmd::Bms => DataId::Bms1,
    }
}

/// The read command.
#[derive(Debug, Clone, Copy, PartialEq, Eq, Structural)]
pub struct ReadDataServiceCmd {
    /// The selected record.
    pub subcommand: ReadDataServiceSubCmd,
}

impl ReadDataServiceCmd {
    /// The invocation this command stands for.
    pub fn invocation(&self) -> (r: Invocation)
        ensures
            r == Invocation::ReadData(read_sub_did(self.subcommand)),
    {
        match self.subcommand {
            ReadDataServiceSubCmd::BikeState => Invocation::ReadData(DataId::BikeState),
            ReadDataServiceSubCmd::SwitchGear(c) => c.invocation(),
            ReadDataServiceSubCmd::ErrorCode(c) => c.invocation(),
            ReadDataServiceSubCmd::Imu => Invocation::ReadData(DataId::ImuRaw),
            ReadDataServiceSubCmd::Keyfob => Invocation::ReadData(DataId::KeyfobState),
            ReadDataServiceSubCmd::Performance => Invocation::ReadData(
                DataId::PerformanceVehicle1,
            ),
            ReadDataServiceSubCmd::FirmwareVersion => Invocation::ReadData(
                DataId::FirmwareVersion,
            ),
            ReadDataServiceSubCmd::Adc => Invocation::ReadData(DataId::AdcVoltage),
            ReadDataServiceSubCmd::Bms => Invocation::ReadData(DataId::Bms1),
        }
    }
}

/// Subcommands of the reset command, one per reset target.
#[derive(Debug, Clone, Copy, PartialEq, Eq, Structural)]
pub enum ResetEcuServiceSubCmd {
    /// Soft-reset the vehicle control unit.
    SoftReset(SoftResetEcuCmd),
    /// Reset the realtime processor.
    Rt,
    /// Reset the telematics processor.
    Tm,
    /// Reset the applications processor.
    Imx(ResetImxCmd),
    /// Reset the Wi-Fi controller.
    Wifi(ResetWifiCmd),
    /// Reset the BLE controller.
    Ble,
    /// Reset the cellular modem.
    Lte(ResetLteCmd),
    /// Reset the lizard co-processor.
    Lizard(ResetLizardCmd),
    /// Reset the cendric co-processor.
    Cendric,
}

/// The reset target each reset subcommand selects.
pub open spec fn reset_sub_target(c: ResetEcuServiceSubCmd) -> ResetType {
    match c {
        ResetEcuServiceSubCmd::SoftReset(_) => ResetType::SoftReset,
        ResetEcuServiceSubCmd::Rt => ResetType::RealtimeReset,
        ResetEcuServiceSubCmd::Tm => ResetType::TelematicReset,
        ResetEcuServiceSubCmd::Imx(_) => ResetType::ImxReset,
        ResetEcuServiceSubCmd::Wifi(_) => ResetType::Esp32WifiReset,
        ResetEcuServiceSubCmd::Ble => ResetType::Esp32BleReset,
        ResetEcuServiceSubCmd::Lte(_) => ResetType::QuectelReset,
        ResetEcuServiceSubCmd::Lizard(_) => ResetType::LizardReset,
        ResetEcuServiceSubCmd::Cendric => ResetType::CendricReset,
    }
}

/// The reset command.
#[derive(Debug, Clone, Copy, PartialEq, Eq, Structural)]
pub struct ResetEcuServiceCmd {
    /// The selected reset target.
    pub subcommand: ResetEcuServiceSubCmd,
}

impl ResetEcuServiceCmd {
    /// The invocation this command stands for.
    pub fn invocation(&self) -> (r: Invocation)
        ensures
            r == Invocation::Reset(reset_sub_target(self.subcommand)),
    {
        match self.subcommand {
            ResetEcuServiceSubCmd::SoftReset(c) => c.invocation(),
            ResetEcuServiceSubCmd::Rt => Invocation::Reset(ResetType::RealtimeReset),
            ResetEcuServiceSubCmd::Tm => Invocation::Reset(ResetType::TelematicReset),
            ResetEcuServiceSubCmd::Imx(c) => c.invocation(),
            ResetEcuServiceSubCmd::Wifi(c) => c.invocation(),
            ResetEcuServiceSubCmd::Ble => Invocation::Reset(ResetType::Esp32BleReset),
            ResetEcuServiceSubCmd::Lte(c) => c.invocation(),
            ResetEcuServiceSubCmd::Lizard(c) => c.invocation(),
            ResetEcuServiceSubCmd::Cendric => Invocation::Reset(ResetType::CendricReset),
        }
    }
}

/// Subcommands of the routine command.
#[derive(Debug, Clone, Copy, PartialEq, Eq, Structural)]
pub enum RoutineControlServiceSubCmd {
    /// Simulate a control input.
    SimulateInput(SimulateInputCmd),
    /// Trigger an output.
    TriggerOutput(TriggerOutputCmd),
}

/// The routine command.
#[derive(Debug, Clone, Copy, PartialEq, Eq, Structural)]
pub struct RoutineControlServiceCmd {
    /// The selected routine subcommand.
    pub subcommand: RoutineControlServiceSubCmd,
}

impl RoutineControlServiceCmd {
    /// The invocations this command stands for.
    pub fn invocations(&self) -> (r: Vec<Invocation>)
        ensures
            ({
                match self.subcommand {
                    RoutineControlServiceSubCmd::TriggerOutput(c) => r@ == seq![
                        (Invocation::Routine {
                            sub_fcn: toggle_subfcn(c.action),
                            routine_id: RoutineId::TriggerOutput,
                            option: Some(crate::routine_control::trigger_output_byte(c.output)),
                        }),
                    ],
                    RoutineControlServiceSubCmd::SimulateInput(c) => !c.short_press ==> r@ == seq![
                        (Invocation::Routine {
                            sub_fcn: toggle_subfcn(c.action),
                            routine_id: RoutineId::SimulateInput,
                            option: Some(crate::routine_control::simulate_input_byte(c.input)),
                        }),
                    ],
                }
            }),
    {
        match self.subcommand {
            RoutineControlServiceSubCmd::SimulateInput(c) => c.invocations(),
            RoutineControlServiceSubCmd::TriggerOutput(c) => {
                let mut v: Vec<Invocation> = Vec::new();
                v.push(c.invocation());
                proof {
                    assert(v@ =~= seq![
                        (Invocation::Routine {
                            sub_fcn: toggle_subfcn(c.action),
                            routine_id: RoutineId::TriggerOutput,
                            option: Some(crate::routine_control::trigger_output_byte(c.output)),
                        }),
                    ]);
                }
                v
            },
        }
    }
}

} // verus!
