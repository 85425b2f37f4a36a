use ecu_diag::cli::DefaultModeCmd;
use ecu_diag::cli::Invocation;
use ecu_diag::cli::ReadDataServiceCmd;
use ecu_diag::cli::ReadDataServiceSubCmd;
use ecu_diag::cli::ResetEcuServiceCmd;
use ecu_diag::cli::ResetEcuServiceSubCmd;
use ecu_diag::cli::ResetImxCmd;
use ecu_diag::cli::RoutineControlServiceCmd;
use ecu_diag::cli::RoutineControlServiceSubCmd;
use ecu_diag::cli::SimulateInputCmd;
use ecu_diag::cli::SwitchGearCmd;
use ecu_diag::cli::ToggleAction;
use ecu_diag::cli::TriggerOutputCmd;
use ecu_diag::diagnostic_session_control::UdsSessionType;
use ecu_diag::ecu_reset::ResetType;
use ecu_diag::read_data_by_id::DataId;
use ecu_diag::routine_control::RoutineControlSubfcn;
use ecu_diag::routine_control::RoutineId;
use ecu_diag::routine_control::SimulateInputOption;
use ecu_diag::routine_control::TriggerOutputOption;
use ecu_diag::worker::Action;

#[test]
fn cli_commands_map_to_their_invocations() {
    assert_eq!(
        DefaultModeCmd {}.invocation(),
        Invocation::SetMode(UdsSessionType::Default)
    );
    assert_eq!(
        ReadDataServiceCmd { subcommand: ReadDataServiceSubCmd::SwitchGear(SwitchGearCmd {}) }
            .invocation(),
        Invocation::ReadData(DataId::SwitchGear)
    );
    assert_eq!(
        ResetEcuServiceCmd { subcommand: ResetEcuServiceSubCmd::Imx(ResetImxCmd {}) }.invocation(),
        Invocation::Reset(ResetType::ImxReset)
    );
}

#[test]
fn simulate_input_short_press_issues_press_then_release() {
    let cmd = SimulateInputCmd {
        action: ToggleAction::Enable,
        input: SimulateInputOption::PowerSwitch,
        short_press: true,
    };
    let invs = cmd.invocations();
    assert_eq!(invs.len(), 2);
    assert_eq!(
        invs[0],
        Invocation::Routine {
            sub_fcn: RoutineControlSubfcn::StartRoutine,
            routine_id: RoutineId::SimulateInput,
            option: Some(0x03),
        }
    );
    assert_eq!(
        invs[1],
        Invocation::Routine {
            sub_fcn: RoutineControlSubfcn::StopRoutine,
            routine_id: RoutineId::SimulateInput,
            option: Some(0x03),
        }
    );
}

#[test]
fn trigger_output_command_maps_to_the_routine() {
    let cmd = RoutineControlServiceCmd {
        subcommand: RoutineControlServiceSubCmd::TriggerOutput(TriggerOutputCmd {
            action: ToggleAction::Disable,
            output: TriggerOutputOption::HssHorn,
        }),
    };
    let invs = cmd.invocations();
    assert_eq!(invs.len(), 1);
    assert_eq!(
        invs[0],
        Invocation::Routine {
            sub_fcn: RoutineControlSubfcn::StopRoutine,
            routine_id: RoutineId::TriggerOutput,
            option: Some(0x03),
        }
    );
}

fn act(service: &str, o1: &str, o2: &str, o3: &str) -> Action {
    Action {
        service: String::from(service),
        option1: String::from(o1),
        option2: String::from(o2),
        option3: String::from(o3),
    }
}

#[test]
fn interface_actions_dispatch_to_invocations() {
    assert_eq!(
        act("Read", "Dashboard", "", "").invocation(),
        Some(Invocation::ReadData(DataId::Dashboard))
    );
    assert_eq!(
        act("Read", "Analog-Digital Converter Voltage", "", "").invocation(),
        Some(Invocation::ReadData(DataId::AdcVoltage))
    );
    assert_eq!(
        act("Read Monitor View", "", "", "").invocation(),
        Some(Invocation::ReadMonitorView)
    );
    assert_eq!(
        act("Routine", "Simulate VCU Input", "Horn Switch", "Enable").invocation(),
        Some(Invocation::Routine {
            sub_fcn: RoutineControlSubfcn::StartRoutine,
            routine_id: RoutineId::SimulateInput,
            option: Some(0x0A),
        })
    );
    assert_eq!(
        act("Routine", "Trigger VCU Output", "Brake Light", "Disable").invocation(),
        Some(Invocation::Routine {
            sub_fcn: RoutineControlSubfcn::StopRoutine,
            routine_id: RoutineId::TriggerOutput,
            option: Some(0x02),
        })
    );
    assert_eq!(
        act("Routine", "Bike Force Lock", "", "").invocation(),
        Some(Invocation::Routine {
            sub_fcn: RoutineControlSubfcn::StartRoutine,
            routine_id: RoutineId::BikeForceLock,
            option: None,
        })
    );
    assert_eq!(
        act("Connectivity", "LTE Get Signal Strength", "", "").invocation(),
        Some(Invocation::Routine {
            sub_fcn: RoutineControlSubfcn::StartRoutine,
            routine_id: RoutineId::LteGetSignalStrength,
            option: None,
        })
    );
    assert_eq!(
        act("Connectivity", "LTE Get Signal Strength Get Result", "", "").invocation(),
        Some(Invocation::RoutineGetResult(RoutineId::LteGetSignalStrength))
    );
    assert_eq!(
        act("Reset", "ESP32 WIFI", "", "").invocation(),
        Some(Invocation::Reset(ResetType::Esp32WifiReset))
    );
    assert_eq!(
        act("Set Mode", "Debug Mode", "", "").invocation(),
        Some(Invocation::SetMode(UdsSessionType::Programming))
    );
    assert_eq!(act("Set Mode", "Warp Mode", "", "").invocation(), None);
    assert_eq!(act("Dance", "", "", "").invocation(), None);
    assert_eq!(
        act("Routine", "Simulate VCU Input", "Horn Switch", "Toggle").invocation(),
        None
    );
}
