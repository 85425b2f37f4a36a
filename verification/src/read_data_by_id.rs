//! The read-data-by-identifier service: the data identifiers, the
//! request builder, the textual decoders for the identifiers whose
//! fields are integers, and the typed telemetry records.

use vstd::prelude::*;

use crate::api::UdsServiceResponse;
use crate::bytes::dec_str;
use crate::bytes::le16;
use crate::bytes::le32;
use crate::bytes::u16_to_string;
use crate::bytes::u32_to_string;
use crate::bytes::u8_to_string;
use crate::uds::UDSClientSession;

verus! {

/// Data identifiers the ECU serves.
#[derive(Debug, Clone, Copy, PartialEq, Eq, Structural)]
pub enum DataId {
    /// Identifier 0x0100.
    BikeState,
    /// Identifier 0x0101.
    SwitchGear,
    /// Identifier 0x0102.
    ComponentError,
    /// Identifier 0x0103.
    ImuRaw,
    /// Identifier 0x0104.
    KeyfobState,
    /// Identifier 0x0105.
    PerformanceVehicle1,
    /// Identifier 0x0106.
    FirmwareVersion,
    /// Identifier 0x0107.
    AdcVoltage,
    /// Identifier 0x0108.
    Bms1,
    /// Identifier 0x0109.
    Dashboard,
    /// Identifier 0x010A.
    PerformanceCharge,
    /// Identifier 0x010B.
    Bms2,
    /// Identifier 0x010C.
    Bms3,
    /// Identifier 0x010D.
    PerformanceVehicle2,
    /// Identifier 0x010E.
    TempSensors,
    /// Identifier 0x010F.
    Obc,
    /// Identifier 0x0110.
    DiagState,
}

/// The 16-bit identifier of each data record.
pub open spec fn did_value(d: DataId) -> u16 {
    match d {
        DataId::BikeState => 0x0100,
        DataId::SwitchGear => 0x0101,
        DataId::ComponentError => 0x0102,
        DataId::ImuRaw => 0x0103,
        DataId::KeyfobState => 0x0104,
        DataId::PerformanceVehicle1 => 0x0105,
        DataId::FirmwareVersion => 0x0106,
        DataId::AdcVoltage => 0x0107,
        DataId::Bms1 => 0x0108,
        DataId::Dashboard => 0x0109,
        DataId::PerformanceCharge => 0x010A,
        DataId::Bms2 => 0x010B,
        DataId::Bms3 => 0x010C,
        DataId::PerformanceVehicle2 => 0x010D,
        DataId::TempSensors => 0x010E,
        DataId::Obc => 0x010F,
        DataId::DiagState => 0x0110,
    }
}

impl DataId {
    /// The big-endian wire bytes of this identifier.
    pub fn to_bytes(&self) -> (r: Vec<u8>)
        ensures
            r@ == seq![(did_value(*self) / 0x100) as u8, (did_value(*self) % 0x100) as u8],
    {
        let v: u16 = match *self {
            DataId::BikeState => 0x0100,
            DataId::SwitchGear => 0x0101,
            DataId::ComponentError => 0x0102,
            DataId::ImuRaw => 0x0103,
            DataId::KeyfobState => 0x0104,
            DataId::PerformanceVehicle1 => 0x0105,
            DataId::FirmwareVersion => 0x0106,
            DataId::AdcVoltage => 0x0107,
            DataId::Bms1 => 0x0108,
            DataId::Dashboard => 0x0109,
            DataId::PerformanceCharge => 0x010A,
            DataId::Bms2 => 0x010B,
            DataId::Bms3 => 0x010C,
            DataId::PerformanceVehicle2 => 0x010D,
            DataId::TempSensors => 0x010E,
            DataId::Obc => 0x010F,
            DataId::DiagState => 0x0110,
        };
        let mut r: Vec<u8> = Vec::new();
        r.push((v / 0x100) as u8);
        r.push((v % 0x100) as u8);
        proof {
            assert(r@ =~= seq![(did_value(*self) / 0x100) as u8, (did_value(*self) % 0x100) as u8]);
        }
        r
    }
}

/// Appends one labelled byte field in decimal.
fn push_field_u8(s: &mut String, label: &str, v: u8, end: &str)
    ensures
        final(s)@ == old(s)@ + label@ + dec_str(v as nat) + end@,
{
    s.append(label);
    let d = u8_to_string(v);
    s.append(d.as_str());
    s.append(end);
}

/// Appends one labelled 16-bit field in decimal.
fn push_field_u16(s: &mut String, label: &str, v: u16, end: &str)
    ensures
        final(s)@ == old(s)@ + label@ + dec_str(v as nat) + end@,
{
    s.append(label);
    let d = u16_to_string(v);
    s.append(d.as_str());
    s.append(end);
}

/// Appends one labelled 32-bit field in decimal.
fn push_field_u32(s: &mut String, label: &str, v: u32, end: &str)
    ensures
        final(s)@ == old(s)@ + label@ + dec_str(v as nat) + end@,
{
    s.append(label);
    let d = u32_to_string(v);
    s.append(d.as_str());
    s.append(end);
}

/// The text rendering of the BikeState record.
pub open spec fn bike_state_text(s: Seq<u8>) -> Seq<char> {
    "Bike State: "@ + dec_str(s[0] as nat) + ", "@ + "Bike Lock: "@ + dec_str(s[1] as nat) + ""@
}

/// Renders the BikeState record from its payload bytes.
pub fn parse_bike_state(result: &[u8]) -> (r: String)
    requires
        result@.len() == 2,
    ensures
        r@ == bike_state_text(result@),
{
    let mut s = String::new();
    proof {
        assert(s@ + "Bike State: "@ =~= "Bike State: "@);
    }
    push_field_u8(&mut s, "Bike State: ", result[0], ", ");
    push_field_u8(&mut s, "Bike Lock: ", result[1], "");
    s
}

/// The text rendering of the SwitchGear record.
pub open spec fn switch_gear_text(s: Seq<u8>) -> Seq<char> {
    "Right Brake Switch: "@ + dec_str(s[0] as nat) + ", "@ + "Left Brake Switch: "@ + dec_str(s[1] as nat) + ", "@ + "Kill Switch: "@ + dec_str(s[2] as nat) + ", "@ + "Power Switch: "@ + dec_str(s[3] as nat) + ", "@ + "Reverse Switch: "@ + dec_str(s[4] as nat) + ", "@ + "Side Stand Switch: "@ + dec_str(s[6] as nat) + ", "@ + "Ride Mode Switch: "@ + dec_str(s[8] as nat) + ", "@ + "Hazard Switch: "@ + dec_str(s[9] as nat) + ", "@ + "Horn Switch: "@ + dec_str(s[10] as nat) + ", "@ + "Right Indicator Switch: "@ + dec_str(s[11] as nat) + ", "@ + "Left Indicator Switch: "@ + dec_str(s[12] as nat) + ", "@ + "High Beam Switch: "@ + dec_str(s[14] as nat) + ", "@ + "Start Switch: "@ + dec_str(s[15] as nat) + ", "@ + "Seat Switch: "@ + dec_str(s[16] as nat) + ", "@ + "Trip Switch: "@ + dec_str(s[17] as nat) + ", "@ + "Down Switch: "@ + dec_str(s[18] as nat) + ""@
}

/// Renders the SwitchGear record from its payload bytes.
pub fn parse_switch_gear(result: &[u8]) -> (r: String)
    requires
        result@.len() == 19,
    ensures
        r@ == switch_gear_text(result@),
{
    let mut s = String::new();
    proof {
        assert(s@ + "Right Brake Switch: "@ =~= "Right Brake Switch: "@);
    }
    push_field_u8(&mut s, "Right Brake Switch: ", result[0], ", ");
    push_field_u8(&mut s, "Left Brake Switch: ", result[1], ", ");
    push_field_u8(&mut s, "Kill Switch: ", result[2], ", ");
    push_field_u8(&mut s, "Power Switch: ", result[3], ", ");
    push_field_u8(&mut s, "Reverse Switch: ", result[4], ", ");
    push_field_u8(&mut s, "Side Stand Switch: ", result[6], ", ");
    push_field_u8(&mut s, "Ride Mode Switch: ", result[8], ", ");
    push_field_u8(&mut s, "Hazard Switch: ", result[9], ", ");
    push_field_u8(&mut s, "Horn Switch: ", result[10], ", ");
    push_field_u8(&mut s, "Right Indicator Switch: ", result[11], ", ");
    push_field_u8(&mut s, "Left Indicator Switch: ", result[12], ", ");
    push_field_u8(&mut s, "High Beam Switch: ", result[14], ", ");
    push_field_u8(&mut s, "Start Switch: ", result[15], ", ");
    push_field_u8(&mut s, "Seat Switch: ", result[16], ", ");
    push_field_u8(&mut s, "Trip Switch: ", result[17], ", ");
    push_field_u8(&mut s, "Down Switch: ", result[18], "");
    s
}

/// The text rendering of the ComponentError record.
pub open spec fn component_error_text(s: Seq<u8>) -> Seq<char> {
    "System Component: "@ + dec_str(s[0] as nat) + ", "@ + "System Fault Code: "@ + dec_str(s[1] as nat) + ", "@ + "System Level: "@ + dec_str(s[2] as nat) + ", "@ + "BMS Component: "@ + dec_str(s[3] as nat) + ", "@ + "BMS Fault Code: "@ + dec_str(s[4] as nat) + ", "@ + "BMS Level: "@ + dec_str(s[5] as nat) + ", "@ + "MC Component: "@ + dec_str(s[6] as nat) + ", "@ + "MC Fault Code: "@ + dec_str(s[7] as nat) + ", "@ + "MC Level: "@ + dec_str(s[8] as nat) + ", "@ + "OBC Component: "@ + dec_str(s[9] as nat) + ", "@ + "OBC Fault Code: "@ + dec_str(s[10] as nat) + ", "@ + "OBC Level: "@ + dec_str(s[11] as nat) + ", "@ + "Output Component: "@ + dec_str(s[12] as nat) + ", "@ + "Output Fault Code: "@ + dec_str(s[13] as nat) + ", "@ + "Output Level: "@ + dec_str(s[14] as nat) + ""@ + "Feature Component: "@ + dec_str(s[15] as nat) + ", "@ + "Feature Fault Code: "@ + dec_str(s[16] as nat) + ", "@ + "Feature Level: "@ + dec_str(s[17] as nat) + ""@
}

/// Renders the ComponentError record from its payload bytes.
pub fn parse_component_error(result: &[u8]) -> (r: String)
    requires
        result@.len() == 18,
    ensures
        r@ == component_error_text(result@),
{
    let mut s = String::new();
    proof {
        assert(s@ + "System Component: "@ =~= "System Component: "@);
    }
    push_field_u8(&mut s, "System Component: ", result[0], ", ");
    push_field_u8(&mut s, "System Fault Code: ", result[1], ", ");
    push_field_u8(&mut s, "System Level: ", result[2], ", ");
    push_field_u8(&mut s, "BMS Component: ", result[3], ", ");
    push_field_u8(&mut s, "BMS Fault Code: ", result[4], ", ");
    push_field_u8(&mut s, "BMS Level: ", result[5], ", ");
    push_field_u8(&mut s, "MC Component: ", result[6], ", ");
    push_field_u8(&mut s, "MC Fault Code: ", result[7], ", ");
    push_field_u8(&mut s, "MC Level: ", result[8], ", ");
    push_field_u8(&mut s, "OBC Component: ", result[9], ", ");
    push_field_u8(&mut s, "OBC Fault Code: ", result[10], ", ");
    push_field_u8(&mut s, "OBC Level: ", result[11], ", ");
    push_field_u8(&mut s, "Output Component: ", result[12], ", ");
    push_field_u8(&mut s, "Output Fault Code: ", result[13], ", ");
    push_field_u8(&mut s, "Output Level: ", result[14], "");
    push_field_u8(&mut s, "Feature Component: ", result[15], ", ");
    push_field_u8(&mut s, "Feature Fault Code: ", result[16], ", ");
    push_field_u8(&mut s, "Feature Level: ", result[17], "");
    s
}

/// The text rendering of the KeyfobState record.
pub open spec fn keyfob_state_text(s: Seq<u8>) -> Seq<char> {
    "RKE: "@ + dec_str(s[0] as nat) + ", "@ + "PKE: "@ + dec_str(s[1] as nat) + ", "@ + "PKE Distance: "@ + dec_str(s[2] as nat) + ""@
}

/// Renders the KeyfobState record from its payload bytes.
pub fn parse_keyfob_state(result: &[u8]) -> (r: String)
    requires
        result@.len() == 3,
    ensures
        r@ == keyfob_state_text(result@),
{
    let mut s = String::new();
    proof {
        assert(s@ + "RKE: "@ =~= "RKE: "@);
    }
    push_field_u8(&mut s, "RKE: ", result[0], ", ");
    push_field_u8(&mut s, "PKE: ", result[1], ", ");
    push_field_u8(&mut s, "PKE Distance: ", result[2], "");
    s
}

/// The text rendering of the PerformanceCharge record.
pub open spec fn performance_charge_text(s: Seq<u8>) -> Seq<char> {
    "Target Charge SOC PCT: "@ + dec_str(s[0] as nat) + "\n"@ + "Tartget Charge Hours Rem: "@ + dec_str(s[1] as nat) + "\n"@ + "Tartget Charge Min Rem: "@ + dec_str(s[2] as nat) + "\n"@ + "Tartget Charge Range: "@ + dec_str(le16(s[3], s[4]) as nat) + "\n "@ + "Charge Complete: "@ + dec_str(s[5] as nat) + "\n"@ + "SOC Limit: "@ + dec_str(s[6] as nat) + "\n"@ + "SOC Limit Selection Page: "@ + dec_str(s[7] as nat) + "\n"@ + "VA Limit: "@ + dec_str(le16(s[8], s[9]) as nat) + "\n "@ + "VA Limit Selection Page: "@ + dec_str(s[10] as nat) + "\n"@ + "Store Cable Noti: "@ + dec_str(s[11] as nat) + "\n"@
}

/// Renders the PerformanceCharge record from its payload bytes.
pub fn parse_performance_charge(result: &[u8]) -> (r: String)
    requires
        result@.len() == 12,
    ensures
        r@ == performance_charge_text(result@),
{
    let mut s = String::new();
    proof {
        assert(s@ + "Target Charge SOC PCT: "@ =~= "Target Charge SOC PCT: "@);
    }
    push_field_u8(&mut s, "Target Charge SOC PCT: ", result[0], "\n");
    push_field_u8(&mut s, "Tartget Charge Hours Rem: ", result[1], "\n");
    push_field_u8(&mut s, "Tartget Charge Min Rem: ", result[2], "\n");
    push_field_u16(&mut s, "Tartget Charge Range: ", crate::bytes::to_uint16([result[3], result[4]]), "\n ");
    push_field_u8(&mut s, "Charge Complete: ", result[5], "\n");
    push_field_u8(&mut s, "SOC Limit: ", result[6], "\n");
    push_field_u8(&mut s, "SOC Limit Selection Page: ", result[7], "\n");
    push_field_u16(&mut s, "VA Limit: ", crate::bytes::to_uint16([result[8], result[9]]), "\n ");
    push_field_u8(&mut s, "VA Limit Selection Page: ", result[10], "\n");
    push_field_u8(&mut s, "Store Cable Noti: ", result[11], "\n");
    s
}

/// The text rendering of the PerformanceVehicle1 record.
pub open spec fn performance_vehicle1_text(s: Seq<u8>) -> Seq<char> {
    "Persist: "@ + dec_str(s[0] as nat) + "\n"@ + "Odometer: "@ + dec_str(le32(s[1], s[2], s[3], s[4]) as nat) + "\n "@ + "TripA: "@ + dec_str(le32(s[5], s[6], s[7], s[8]) as nat) + "\n "@ + "TripB: "@ + dec_str(le32(s[9], s[10], s[11], s[12]) as nat) + "\n "@ + "Last Charge: "@ + dec_str(le32(s[13], s[14], s[15], s[16]) as nat) + "\n "@
}

/// Renders the PerformanceVehicle1 record from its payload bytes.
pub fn parse_performance_vehicle1(result: &[u8]) -> (r: String)
    requires
        result@.len() == 17,
    ensures
        r@ == performance_vehicle1_text(result@),
{
    let mut s = String::new();
    proof {
        assert(s@ + "Persist: "@ =~= "Persist: "@);
    }
    push_field_u8(&mut s, "Persist: ", result[0], "\n");
    push_field_u32(&mut s, "Odometer: ", crate::bytes::to_uint32([result[1], result[2], result[3], result[4]]), "\n ");
    push_field_u32(&mut s, "TripA: ", crate::bytes::to_uint32([result[5], result[6], result[7], result[8]]), "\n ");
    push_field_u32(&mut s, "TripB: ", crate::bytes::to_uint32([result[9], result[10], result[11], result[12]]), "\n ");
    push_field_u32(&mut s, "Last Charge: ", crate::bytes::to_uint32([result[13], result[14], result[15], result[16]]), "\n ");
    s
}

/// The text rendering of the FirmwareVersion record.
pub open spec fn firmware_version_text(s: Seq<u8>) -> Seq<char> {
    "148 Major Version: "@ + dec_str(le16(s[0], s[1]) as nat) + "\n "@ + "148 Minor Version: "@ + dec_str(le16(s[2], s[3]) as nat) + "\n "@ + "118 Major Version: "@ + dec_str(s[4] as nat) + "\n"@ + "118 Minor Version: "@ + dec_str(s[5] as nat) + "\n"@
}

/// Renders the FirmwareVersion record from its payload bytes.
pub fn parse_firmware_version(result: &[u8]) -> (r: String)
    requires
        result@.len() == 6,
    ensures
        r@ == firmware_version_text(result@),
{
    let mut s = String::new();
    proof {
        assert(s@ + "148 Major Version: "@ =~= "148 Major Version: "@);
    }
    push_field_u16(&mut s, "148 Major Version: ", crate::bytes::to_uint16([result[0], result[1]]), "\n ");
    push_field_u16(&mut s, "148 Minor Version: ", crate::bytes::to_uint16([result[2], result[3]]), "\n ");
    push_field_u8(&mut s, "118 Major Version: ", result[4], "\n");
    push_field_u8(&mut s, "118 Minor Version: ", result[5], "\n");
    s
}

/// The text rendering of the Bms2 record.
pub open spec fn bms2_text(s: Seq<u8>) -> Seq<char> {
    "Max discharge current: "@ + dec_str(le16(s[0], s[1]) as nat) + "\n "@ + "Max regen current: "@ + dec_str(le16(s[2], s[3]) as nat) + "\n "@ + "Highest cell voltage: "@ + dec_str(le16(s[4], s[5]) as nat) + "\n "@ + "Lowest cell voltage: "@ + dec_str(le16(s[6], s[7]) as nat) + "\n "@
}

/// Renders the Bms2 record from its payload bytes.
pub fn parse_bms2(result: &[u8]) -> (r: String)
    requires
        result@.len() == 8,
    ensures
        r@ == bms2_text(result@),
{
    let mut s = String::new();
    proof {
        assert(s@ + "Max discharge current: "@ =~= "Max discharge current: "@);
    }
    push_field_u16(&mut s, "Max discharge current: ", crate::bytes::to_uint16([result[0], result[1]]), "\n ");
    push_field_u16(&mut s, "Max regen current: ", crate::bytes::to_uint16([result[2], result[3]]), "\n ");
    push_field_u16(&mut s, "Highest cell voltage: ", crate::bytes::to_uint16([result[4], result[5]]), "\n ");
    push_field_u16(&mut s, "Lowest cell voltage: ", crate::bytes::to_uint16([result[6], result[7]]), "\n ");
    s
}

/// The text rendering of the Bms3 record.
pub open spec fn bms3_text(s: Seq<u8>) -> Seq<char> {
    "Max temp: "@ + dec_str(s[0] as nat) + "\n"@ + "Max temp number: "@ + dec_str(s[1] as nat) + "\n"@ + "Min temp: "@ + dec_str(s[2] as nat) + "\n"@ + "Min temp number: "@ + dec_str(s[3] as nat) + "\n"@ + "Charge discharge cycles: "@ + dec_str(le16(s[4], s[5]) as nat) + "\n "@
}

/// Renders the Bms3 record from its payload bytes.
pub fn parse_bms3(result: &[u8]) -> (r: String)
    requires
        result@.len() == 6,
    ensures
        r@ == bms3_text(result@),
{
    let mut s = String::new();
    proof {
        assert(s@ + "Max temp: "@ =~= "Max temp: "@);
    }
    push_field_u8(&mut s, "Max temp: ", result[0], "\n");
    push_field_u8(&mut s, "Max temp number: ", result[1], "\n");
    push_field_u8(&mut s, "Min temp: ", result[2], "\n");
    push_field_u8(&mut s, "Min temp number: ", result[3], "\n");
    push_field_u16(&mut s, "Charge discharge cycles: ", crate::bytes::to_uint16([result[4], result[5]]), "\n ");
    s
}

/// The text rendering of the Obc record.
pub open spec fn obc_text(s: Seq<u8>) -> Seq<char> {
    "Activation Status: "@ + dec_str(s[0] as nat) + "\n"@ + "Output DC Volt: "@ + dec_str(le16(s[1], s[2]) as nat) + "\n "@ + "Output DC Current: "@ + dec_str(le16(s[3], s[4]) as nat) + "\n "@ + "Max Temp: "@ + dec_str(s[5] as nat) + "\n"@ + "AC Input Volt: "@ + dec_str(s[6] as nat) + "\n"@ + "AC Input Current: "@ + dec_str(s[7] as nat) + "\n"@ + "Stop tx: "@ + dec_str(s[8] as nat) + "\n"@ + "Alive_counter: "@ + dec_str(s[9] as nat) + "\n"@ + "Error 1 hardware: "@ + dec_str(s[10] as nat) + "\n"@ + "Error 2 temp: "@ + dec_str(s[11] as nat) + "\n"@ + "Error 3 current: "@ + dec_str(s[12] as nat) + "\n"@ + "Error  4 volt in: "@ + dec_str(s[13] as nat) + "\n"@ + "Error 5 comn: "@ + dec_str(s[14] as nat) + "\n"@
}

/// Renders the Obc record from its payload bytes.
pub fn parse_obc(result: &[u8]) -> (r: String)
    requires
        result@.len() == 15,
    ensures
        r@ == obc_text(result@),
{
    let mut s = String::new();
    proof {
        assert(s@ + "Activation Status: "@ =~= "Activation Status: "@);
    }
    push_field_u8(&mut s, "Activation Status: ", result[0], "\n");
    push_field_u16(&mut s, "Output DC Volt: ", crate::bytes::to_uint16([result[1], result[2]]), "\n ");
    push_field_u16(&mut s, "Output DC Current: ", crate::bytes::to_uint16([result[3], result[4]]), "\n ");
    push_field_u8(&mut s, "Max Temp: ", result[5], "\n");
    push_field_u8(&mut s, "AC Input Volt: ", result[6], "\n");
    push_field_u8(&mut s, "AC Input Current: ", result[7], "\n");
    push_field_u8(&mut s, "Stop tx: ", result[8], "\n");
    push_field_u8(&mut s, "Alive_counter: ", result[9], "\n");
    push_field_u8(&mut s, "Error 1 hardware: ", result[10], "\n");
    push_field_u8(&mut s, "Error 2 temp: ", result[11], "\n");
    push_field_u8(&mut s, "Error 3 current: ", result[12], "\n");
    push_field_u8(&mut s, "Error  4 volt in: ", result[13], "\n");
    push_field_u8(&mut s, "Error 5 comn: ", result[14], "\n");
    s
}

/// The text rendering of the DiagState record.
pub open spec fn diag_state_text(s: Seq<u8>) -> Seq<char> {
    "Session State: "@ + dec_str(s[0] as nat) + "\n"@ + "Security State: "@ + dec_str(s[1] as nat) + "\n"@
}

/// Renders the DiagState record from its payload bytes.
pub fn parse_diag_state(result: &[u8]) -> (r: String)
    requires
        result@.len() == 2,
    ensures
        r@ == diag_state_text(result@),
{
    let mut s = String::new();
    proof {
        assert(s@ + "Session State: "@ =~= "Session State: "@);
    }
    push_field_u8(&mut s, "Session State: ", result[0], "\n");
    push_field_u8(&mut s, "Security State: ", result[1], "\n");
    s
}


/// Appends a 16-bit value as two little-endian bytes.
fn push_u16_le(v: &mut Vec<u8>, x: u16)
    ensures
        final(v)@ == old(v)@ + crate::bytes::le16_bytes(x),
{
    let b = crate::bytes::u16_to_le_bytes(x);
    v.push(b[0]);
    v.push(b[1]);
    proof {
        assert(v@ =~= old(v)@ + crate::bytes::le16_bytes(x));
    }
}

/// Appends a 32-bit value as four little-endian bytes.
fn push_u32_le(v: &mut Vec<u8>, x: u32)
    ensures
        final(v)@ == old(v)@ + crate::bytes::le32_bytes(x),
{
    let b = crate::bytes::u32_to_le_bytes(x);
    v.push(b[0]);
    v.push(b[1]);
    v.push(b[2]);
    v.push(b[3]);
    proof {
        assert(v@ =~= old(v)@ + crate::bytes::le32_bytes(x));
    }
}

/// Raw inertial measurements; each word is the IEEE-754 bit pattern of the sampled value.
#[derive(Debug, Clone, Copy, PartialEq, Eq, Structural)]
pub struct ImuRawRecord {
    /// Field at payload offset 0.
    pub acc_x: u32,
    /// Field at payload offset 4.
    pub acc_y: u32,
    /// Field at payload offset 8.
    pub acc_z: u32,
    /// Field at payload offset 12.
    pub gyr_x: u32,
    /// Field at payload offset 16.
    pub gyr_y: u32,
    /// Field at payload offset 20.
    pub gyr_z: u32,
}

/// The ImuRawRecord a payload of the documented length decodes to.
pub open spec fn spec_decode_imu_raw(s: Seq<u8>) -> ImuRawRecord {
    ImuRawRecord {
        acc_x: le32(s[0], s[1], s[2], s[3]),
        acc_y: le32(s[4], s[5], s[6], s[7]),
        acc_z: le32(s[8], s[9], s[10], s[11]),
        gyr_x: le32(s[12], s[13], s[14], s[15]),
        gyr_y: le32(s[16], s[17], s[18], s[19]),
        gyr_z: le32(s[20], s[21], s[22], s[23]),
    }
}

/// Decodes the record from its payload bytes; a payload of the
/// wrong length is an invalid-response-length fault.
pub fn decode_imu_raw(result: &[u8]) -> (r: Result<ImuRawRecord, crate::errors::UdsClientError>)
    ensures
        r is Ok <==> result@.len() == 24,
        r matches Ok(v) ==> v == spec_decode_imu_raw(result@),
        result@.len() != 24 ==> r == Err::<ImuRawRecord, crate::errors::UdsClientError>(
            crate::errors::UdsClientError::InvalidResponseLength,
        ),
{
    if result.len() != 24 {
        return Err(crate::errors::UdsClientError::InvalidResponseLength);
    }
    Ok(ImuRawRecord {
        acc_x: crate::bytes::to_uint32([result[0], result[1], result[2], result[3]]),
        acc_y: crate::bytes::to_uint32([result[4], result[5], result[6], result[7]]),
        acc_z: crate::bytes::to_uint32([result[8], result[9], result[10], result[11]]),
        gyr_x: crate::bytes::to_uint32([result[12], result[13], result[14], result[15]]),
        gyr_y: crate::bytes::to_uint32([result[16], result[17], result[18], result[19]]),
        gyr_z: crate::bytes::to_uint32([result[20], result[21], result[22], result[23]]),
    })
}

/// Encodes the record into the payload bytes it decodes from:
/// decoding the result restores the record exactly.
pub fn encode_imu_raw(d: &ImuRawRecord) -> (r: Vec<u8>)
    ensures
        r@.len() == 24,
        spec_decode_imu_raw(r@) == *d,
{
    let mut v: Vec<u8> = Vec::new();
    push_u32_le(&mut v, d.acc_x);
    push_u32_le(&mut v, d.acc_y);
    push_u32_le(&mut v, d.acc_z);
    push_u32_le(&mut v, d.gyr_x);
    push_u32_le(&mut v, d.gyr_y);
    push_u32_le(&mut v, d.gyr_z);
    proof {
        crate::bytes::lemma_le32_round_trip(d.acc_x);
        crate::bytes::lemma_le32_round_trip(d.acc_y);
        crate::bytes::lemma_le32_round_trip(d.acc_z);
        crate::bytes::lemma_le32_round_trip(d.gyr_x);
        crate::bytes::lemma_le32_round_trip(d.gyr_y);
        crate::bytes::lemma_le32_round_trip(d.gyr_z);
        assert(spec_decode_imu_raw(v@) == *d);
    }
    v
}

/// Converter voltages and throttle readings; each word is the IEEE-754 bit pattern of the sampled value.
#[derive(Debug, Clone, Copy, PartialEq, Eq, Structural)]
pub struct AdcVoltageRecord {
    /// Field at payload offset 0.
    pub volt_12v: u32,
    /// Field at payload offset 4.
    pub volt_5v: u32,
    /// Field at payload offset 8.
    pub volt_3v: u32,
    /// Field at payload offset 12.
    pub throttle_pct: u32,
    /// Field at payload offset 16.
    pub throttle_filt: u32,
}

/// The AdcVoltageRecord a payload of the documented length decodes to.
pub open spec fn spec_decode_adc_voltage(s: Seq<u8>) -> AdcVoltageRecord {
    AdcVoltageRecord {
        volt_12v: le32(s[0], s[1], s[2], s[3]),
        volt_5v: le32(s[4], s[5], s[6], s[7]),
        volt_3v: le32(s[8], s[9], s[10], s[11]),
        throttle_pct: le32(s[12], s[13], s[14], s[15]),
        throttle_filt: le32(s[16], s[17], s[18], s[19]),
    }
}

/// Decodes the record from its payload bytes; a payload of the
/// wrong length is an invalid-response-length fault.
pub fn decode_adc_voltage(result: &[u8]) -> (r: Result<AdcVoltageRecord, crate::errors::UdsClientError>)
    ensures
        r is Ok <==> result@.len() == 20,
        r matches Ok(v) ==> v == spec_decode_adc_voltage(result@),
        result@.len() != 20 ==> r == Err::<AdcVoltageRecord, crate::errors::UdsClientError>(
            crate::errors::UdsClientError::InvalidResponseLength,
        ),
{
    if result.len() != 20 {
        return Err(crate::errors::UdsClientError::InvalidResponseLength);
    }
    Ok(AdcVoltageRecord {
        volt_12v: crate::bytes::to_uint32([result[0], result[1], result[2], result[3]]),
        volt_5v: crate::bytes::to_uint32([result[4], result[5], result[6], result[7]]),
        volt_3v: crate::bytes::to_uint32([result[8], result[9], result[10], result[11]]),
        throttle_pct: crate::bytes::to_uint32([result[12], result[13], result[14], result[15]]),
        throttle_filt: crate::bytes::to_uint32([result[16], result[17], result[18], result[19]]),
    })
}

/// Encodes the record into the payload bytes it decodes from:
/// decoding the result restores the record exactly.
pub fn encode_adc_voltage(d: &AdcVoltageRecord) -> (r: Vec<u8>)
    ensures
        r@.len() == 20,
        spec_decode_adc_voltage(r@) == *d,
{
    let mut v: Vec<u8> = Vec::new();
    push_u32_le(&mut v, d.volt_12v);
    push_u32_le(&mut v, d.volt_5v);
    push_u32_le(&mut v, d.volt_3v);
    push_u32_le(&mut v, d.throttle_pct);
    push_u32_le(&mut v, d.throttle_filt);
    proof {
        crate::bytes::lemma_le32_round_trip(d.volt_12v);
        crate::bytes::lemma_le32_round_trip(d.volt_5v);
        crate::bytes::lemma_le32_round_trip(d.volt_3v);
        crate::bytes::lemma_le32_round_trip(d.throttle_pct);
        crate::bytes::lemma_le32_round_trip(d.throttle_filt);
        assert(spec_decode_adc_voltage(v@) == *d);
    }
    v
}

/// Temperature probes; each word is the IEEE-754 bit pattern of the reading.
#[derive(Debug, Clone, Copy, PartialEq, Eq, Structural)]
pub struct TempSensorsRecord {
    /// Field at payload offset 0.
    pub temp1: u32,
    /// Field at payload offset 4.
    pub temp2: u32,
    /// Field at payload offset 8.
    pub temp3: u32,
    /// Field at payload offset 12.
    pub temp4: u32,
}

/// The TempSensorsRecord a payload of the documented length decodes to.
pub open spec fn spec_decode_temp_sensors(s: Seq<u8>) -> TempSensorsRecord {
    TempSensorsRecord {
        temp1: le32(s[0], s[1], s[2], s[3]),
        temp2: le32(s[4], s[5], s[6], s[7]),
        temp3: le32(s[8], s[9], s[10], s[11]),
        temp4: le32(s[12], s[13], s[14], s[15]),
    }
}

/// Decodes the record from its payload bytes; a payload of the
/// wrong length is an invalid-response-length fault.
pub fn decode_temp_sensors(result: &[u8]) -> (r: Result<TempSensorsRecord, crate::errors::UdsClientError>)
    ensures
        r is Ok <==> result@.len() == 16,
        r matches Ok(v) ==> v == spec_decode_temp_sensors(result@),
        result@.len() != 16 ==> r == Err::<TempSensorsRecord, crate::errors::UdsClientError>(
            crate::errors::UdsClientError::InvalidResponseLength,
        ),
{
    if result.len() != 16 {
        return Err(crate::errors::UdsClientError::InvalidResponseLength);
    }
    Ok(TempSensorsRecord {
        temp1: crate::bytes::to_uint32([result[0], result[1], result[2], result[3]]),
        temp2: crate::bytes::to_uint32([result[4], result[5], result[6], result[7]]),
        temp3: crate::bytes::to_uint32([result[8], result[9], result[10], result[11]]),
        temp4: crate::bytes::to_uint32([result[12], result[13], result[14], result[15]]),
    })
}

/// Encodes the record into the payload bytes it decodes from:
/// decoding the result restores the record exactly.
pub fn encode_temp_sensors(d: &TempSensorsRecord) -> (r: Vec<u8>)
    ensures
        r@.len() == 16,
        spec_decode_temp_sensors(r@) == *d,
{
    let mut v: Vec<u8> = Vec::new();
    push_u32_le(&mut v, d.temp1);
    push_u32_le(&mut v, d.temp2);
    push_u32_le(&mut v, d.temp3);
    push_u32_le(&mut v, d.temp4);
    proof {
        crate::bytes::lemma_le32_round_trip(d.temp1);
        crate::bytes::lemma_le32_round_trip(d.temp2);
        crate::bytes::lemma_le32_round_trip(d.temp3);
        crate::bytes::lemma_le32_round_trip(d.temp4);
        assert(spec_decode_temp_sensors(v@) == *d);
    }
    v
}

/// Second vehicle-metrics record; the three words are IEEE-754 bit patterns.
#[derive(Debug, Clone, Copy, PartialEq, Eq, Structural)]
pub struct PerformanceVehicle2Record {
    /// Field at payload offset 0.
    pub efficiency: u32,
    /// Field at payload offset 4.
    pub power_pct: u32,
    /// Field at payload offset 8.
    pub speed: u32,
    /// Field at payload offset 12.
    pub tripid: u8,
    /// Field at payload offset 13.
    pub trip_action: u8,
    /// Field at payload offset 14.
    pub range: u8,
}

/// The PerformanceVehicle2Record a payload of the documented length decodes to.
pub open spec fn spec_decode_performance_vehicle2(s: Seq<u8>) -> PerformanceVehicle2Record {
    PerformanceVehicle2Record {
        efficiency: le32(s[0], s[1], s[2], s[3]),
        power_pct: le32(s[4], s[5], s[6], s[7]),
        speed: le32(s[8], s[9], s[10], s[11]),
        tripid: s[12],
        trip_action: s[13],
        range: s[14],
    }
}

/// Decodes the record from its payload bytes; a payload of the
/// wrong length is an invalid-response-length fault.
pub fn decode_performance_vehicle2(result: &[u8]) -> (r: Result<PerformanceVehicle2Record, crate::errors::UdsClientError>)
    ensures
        r is Ok <==> result@.len() == 15,
        r matches Ok(v) ==> v == spec_decode_performance_vehicle2(result@),
        result@.len() != 15 ==> r == Err::<PerformanceVehicle2Record, crate::errors::UdsClientError>(
            crate::errors::UdsClientError::InvalidResponseLength,
        ),
{
    if result.len() != 15 {
        return Err(crate::errors::UdsClientError::InvalidResponseLength);
    }
    Ok(PerformanceVehicle2Record {
        efficiency: crate::bytes::to_uint32([result[0], result[1], result[2], result[3]]),
        power_pct: crate::bytes::to_uint32([result[4], result[5], result[6], result[7]]),
        speed: crate::bytes::to_uint32([result[8], result[9], result[10], result[11]]),
        tripid: result[12],
        trip_action: result[13],
        range: result[14],
    })
}

/// Encodes the record into the payload bytes it decodes from:
/// decoding the result restores the record exactly.
pub fn encode_performance_vehicle2(d: &PerformanceVehicle2Record) -> (r: Vec<u8>)
    ensures
        r@.len() == 15,
        spec_decode_performance_vehicle2(r@) == *d,
{
    let mut v: Vec<u8> = Vec::new();
    push_u32_le(&mut v, d.efficiency);
    push_u32_le(&mut v, d.power_pct);
    push_u32_le(&mut v, d.speed);
    v.push(d.tripid);
    v.push(d.trip_action);
    v.push(d.range);
    proof {
        crate::bytes::lemma_le32_round_trip(d.efficiency);
        crate::bytes::lemma_le32_round_trip(d.power_pct);
        crate::bytes::lemma_le32_round_trip(d.speed);
        assert(spec_decode_performance_vehicle2(v@) == *d);
    }
    v
}

/// First battery-management record; the two words are IEEE-754 bit patterns.
#[derive(Debug, Clone, Copy, PartialEq, Eq, Structural)]
pub struct Bms1Record {
    /// Field at payload offset 0.
    pub status: u8,
    /// Field at payload offset 1.
    pub predischarge_relay: u8,
    /// Field at payload offset 2.
    pub discharge_relay: u8,
    /// Field at payload offset 3.
    pub charging_relay: u8,
    /// Field at payload offset 4.
    pub dcdc_enable: u8,
    /// Field at payload offset 5.
    pub charger: u8,
    /// Field at payload offset 6.
    pub soc_pct: u8,
    /// Field at payload offset 7.
    pub soh_pct: u8,
    /// Field at payload offset 8.
    pub volt: u32,
    /// Field at payload offset 12.
    pub current: u32,
    /// Field at payload offset 16.
    pub alive_counter: u8,
    /// Field at payload offset 17.
    pub dcdc_enable_status: u8,
}

/// The Bms1Record a payload of the documented length decodes to.
pub open spec fn spec_decode_bms1(s: Seq<u8>) -> Bms1Record {
    Bms1Record {
        status: s[0],
        predischarge_relay: s[1],
        discharge_relay: s[2],
        charging_relay: s[3],
        dcdc_enable: s[4],
        charger: s[5],
        soc_pct: s[6],
        soh_pct: s[7],
        volt: le32(s[8], s[9], s[10], s[11]),
        current: le32(s[12], s[13], s[14], s[15]),
        alive_counter: s[16],
        dcdc_enable_status: s[17],
    }
}

/// Decodes the record from its payload bytes; a payload of the
/// wrong length is an invalid-response-length fault.
pub fn decode_bms1(result: &[u8]) -> (r: Result<Bms1Record, crate::errors::UdsClientError>)
    ensures
        r is Ok <==> result@.len() == 18,
        r matches Ok(v) ==> v == spec_decode_bms1(result@),
        result@.len() != 18 ==> r == Err::<Bms1Record, crate::errors::UdsClientError>(
            crate::errors::UdsClientError::InvalidResponseLength,
        ),
{
    if result.len() != 18 {
        return Err(crate::errors::UdsClientError::InvalidResponseLength);
    }
    Ok(Bms1Record {
        status: result[0],
        predischarge_relay: result[1],
        discharge_relay: result[2],
        charging_relay: result[3],
        dcdc_enable: result[4],
        charger: result[5],
        soc_pct: result[6],
        soh_pct: result[7],
        volt: crate::bytes::to_uint32([result[8], result[9], result[10], result[11]]),
        current: crate::bytes::to_uint32([result[12], result[13], result[14], result[15]]),
        alive_counter: result[16],
        dcdc_enable_status: result[17],
    })
}

/// Encodes the record into the payload bytes it decodes from:
/// decoding the result restores the record exactly.
pub fn encode_bms1(d: &Bms1Record) -> (r: Vec<u8>)
    ensures
        r@.len() == 18,
        spec_decode_bms1(r@) == *d,
{
    let mut v: Vec<u8> = Vec::new();
    v.push(d.status);
    v.push(d.predischarge_relay);
    v.push(d.discharge_relay);
    v.push(d.charging_relay);
    v.push(d.dcdc_enable);
    v.push(d.charger);
    v.push(d.soc_pct);
    v.push(d.soh_pct);
    push_u32_le(&mut v, d.volt);
    push_u32_le(&mut v, d.current);
    v.push(d.alive_counter);
    v.push(d.dcdc_enable_status);
    proof {
        crate::bytes::lemma_le32_round_trip(d.volt);
        crate::bytes::lemma_le32_round_trip(d.current);
        assert(spec_decode_bms1(v@) == *d);
    }
    v
}

/// The dashboard telemetry record; 32-bit words that the ECU sends as floating point are kept as IEEE-754 bit patterns.
#[derive(Debug, Clone, Copy, PartialEq, Eq, Structural)]
pub struct UdsMonitorViewResponseDetail {
    /// Field at payload offset 0.
    pub bike_status: u8,
    /// Field at payload offset 1.
    pub bike_lock: u8,
    /// Field at payload offset 2.
    pub right_brake_sw: u8,
    /// Field at payload offset 3.
    pub left_brake_sw: u8,
    /// Field at payload offset 4.
    pub kill_sw: u8,
    /// Field at payload offset 5.
    pub power_sw: u8,
    /// Field at payload offset 6.
    pub reverse_sw: u8,
    /// Field at payload offset 8.
    pub side_stand_sw: u8,
    /// Field at payload offset 10.
    pub ride_mode_sw: u8,
    /// Field at payload offset 11.
    pub hazard_sw: u8,
    /// Field at payload offset 12.
    pub horn_sw: u8,
    /// Field at payload offset 13.
    pub right_indicator_sw: u8,
    /// Field at payload offset 14.
    pub left_indicator_sw: u8,
    /// Field at payload offset 16.
    pub high_beam_sw: u8,
    /// Field at payload offset 17.
    pub start_sw: u8,
    /// Field at payload offset 18.
    pub seat_sw: u8,
    /// Field at payload offset 19.
    pub trip_sw: u8,
    /// Field at payload offset 20.
    pub down_sw: u8,
    /// Field at payload offset 22.
    pub dtc_syscode: u8,
    /// Field at payload offset 25.
    pub dtc_bmscode: u8,
    /// Field at payload offset 28.
    pub dtc_mccode: u8,
    /// Field at payload offset 31.
    pub dtc_obccode: u8,
    /// Field at payload offset 34.
    pub dtc_outputcode: u8,
    /// Field at payload offset 39.
    pub acc_x: u32,
    /// Field at payload offset 43.
    pub acc_y: u32,
    /// Field at payload offset 47.
    pub acc_z: u32,
    /// Field at payload offset 51.
    pub gyr_x: u32,
    /// Field at payload offset 55.
    pub gyr_y: u32,
    /// Field at payload offset 59.
    pub gyr_z: u32,
    /// Field at payload offset 63.
    pub rke: u8,
    /// Field at payload offset 64.
    pub pke: u8,
    /// Field at payload offset 65.
    pub pke_distance: u8,
    /// Field at payload offset 66.
    pub adc_12v: u32,
    /// Field at payload offset 70.
    pub adc_5v: u32,
    /// Field at payload offset 74.
    pub adc_3v: u32,
    /// Field at payload offset 78.
    pub throttle_pct: u32,
    /// Field at payload offset 82.
    pub throttle_filt: u32,
    /// Field at payload offset 86.
    pub bms_status: u8,
    /// Field at payload offset 87.
    pub bms_predischarge_relay: u8,
    /// Field at payload offset 88.
    pub bms_discharge_relay: u8,
    /// Field at payload offset 89.
    pub bms_charging_relay: u8,
    /// Field at payload offset 90.
    pub bms_dcdc_enable: u8,
    /// Field at payload offset 91.
    pub bms_charger: u8,
    /// Field at payload offset 92.
    pub bms_soc_pct: u8,
    /// Field at payload offset 93.
    pub bms_soh_pct: u8,
    /// Field at payload offset 94.
    pub bms_volt: u32,
    /// Field at payload offset 98.
    pub bms_current: u32,
    /// Field at payload offset 102.
    pub bms_alive_counter: u8,
    /// Field at payload offset 103.
    pub bms_dcdc_enable_status: u8,
    /// Field at payload offset 104.
    pub bms_max_discharge_current: u16,
    /// Field at payload offset 106.
    pub bms_max_regen_current: u16,
    /// Field at payload offset 108.
    pub bms_highest_cell_volt: u16,
    /// Field at payload offset 110.
    pub bms_lowest_cell_volt: u16,
    /// Field at payload offset 112.
    pub bms_max_temp: u8,
    /// Field at payload offset 113.
    pub bms_max_temp_number: u8,
    /// Field at payload offset 114.
    pub bms_min_temp: u8,
    /// Field at payload offset 115.
    pub bms_min_temp_number: u8,
    /// Field at payload offset 116.
    pub bms_charge_discharge_cycles: u16,
    /// Field at payload offset 118.
    pub fw_tm_major: u16,
    /// Field at payload offset 120.
    pub fw_tm_minor: u16,
    /// Field at payload offset 122.
    pub fw_rt_major: u8,
    /// Field at payload offset 123.
    pub fw_rt_minor: u8,
    /// Field at payload offset 124.
    pub vm_persist: u8,
    /// Field at payload offset 125.
    pub vm_odometer: u32,
    /// Field at payload offset 129.
    pub vm_tripa: u32,
    /// Field at payload offset 133.
    pub vm_tripb: u32,
    /// Field at payload offset 137.
    pub vm_last_charge: u32,
    /// Field at payload offset 141.
    pub vm_efficiency: u32,
    /// Field at payload offset 145.
    pub vm_power_pct: u32,
    /// Field at payload offset 149.
    pub vm_speed: u32,
    /// Field at payload offset 153.
    pub vm_tripid: u8,
    /// Field at payload offset 154.
    pub vm_tripaction: u8,
    /// Field at payload offset 155.
    pub vm_range: u8,
    /// Field at payload offset 156.
    pub cm_target_charge_soc_pct: u8,
    /// Field at payload offset 157.
    pub cm_target_charge_hours_rem: u8,
    /// Field at payload offset 158.
    pub cm_target_charge_min_rem: u8,
    /// Field at payload offset 159.
    pub cm_target_charge_range: u16,
    /// Field at payload offset 161.
    pub cm_charge_complete: u8,
    /// Field at payload offset 162.
    pub cm_soc_limit: u8,
    /// Field at payload offset 163.
    pub cm_soc_limit_selection_page: u8,
    /// Field at payload offset 164.
    pub cm_va_limit: u16,
    /// Field at payload offset 166.
    pub cm_va_limit_selection_page: u8,
    /// Field at payload offset 167.
    pub cm_store_cable_noti: u8,
    /// Field at payload offset 168.
    pub temp1: u32,
    /// Field at payload offset 172.
    pub temp2: u32,
    /// Field at payload offset 176.
    pub temp3: u32,
    /// Field at payload offset 180.
    pub temp4: u32,
    /// Field at payload offset 184.
    pub obc_activation_status: u8,
    /// Field at payload offset 185.
    pub obc_output_dc_volt: u16,
    /// Field at payload offset 187.
    pub obc_output_dc_current: u16,
    /// Field at payload offset 189.
    pub obc_max_temp: u8,
    /// Field at payload offset 190.
    pub obc_input_volt: u8,
    /// Field at payload offset 191.
    pub obc_input_current: u8,
    /// Field at payload offset 192.
    pub obc_stop_tx: u8,
    /// Field at payload offset 193.
    pub obc_alive_counter: u8,
    /// Field at payload offset 194.
    pub obc_error1_hw: u8,
    /// Field at payload offset 195.
    pub obc_error2_temp: u8,
    /// Field at payload offset 196.
    pub obc_error3_voltln: u8,
    /// Field at payload offset 197.
    pub obc_error4_current: u8,
    /// Field at payload offset 198.
    pub obc_error5_comn: u8,
    /// Field at payload offset 199.
    pub cpu_118: u8,
    /// Field at payload offset 200.
    pub cpu_148: u8,
}

/// The UdsMonitorViewResponseDetail a payload of the documented length decodes to.
pub open spec fn spec_decode_dashboard(s: Seq<u8>) -> UdsMonitorViewResponseDetail {
    UdsMonitorViewResponseDetail {
        bike_status: s[0],
        bike_lock: s[1],
        right_brake_sw: s[2],
        left_brake_sw: s[3],
        kill_sw: s[4],
        power_sw: s[5],
        reverse_sw: s[6],
        side_stand_sw: s[8],
        ride_mode_sw: s[10],
        hazard_sw: s[11],
        horn_sw: s[12],
        right_indicator_sw: s[13],
        left_indicator_sw: s[14],
        high_beam_sw: s[16],
        start_sw: s[17],
        seat_sw: s[18],
        trip_sw: s[19],
        down_sw: s[20],
        dtc_syscode: s[22],
        dtc_bmscode: s[25],
        dtc_mccode: s[28],
        dtc_obccode: s[31],
        dtc_outputcode: s[34],
        acc_x: le32(s[39], s[40], s[41], s[42]),
        acc_y: le32(s[43], s[44], s[45], s[46]),
        acc_z: le32(s[47], s[48], s[49], s[50]),
        gyr_x: le32(s[51], s[52], s[53], s[54]),
        gyr_y: le32(s[55], s[56], s[57], s[58]),
        gyr_z: le32(s[59], s[60], s[61], s[62]),
        rke: s[63],
        pke: s[64],
        pke_distance: s[65],
        adc_12v: le32(s[66], s[67], s[68], s[69]),
        adc_5v: le32(s[70], s[71], s[72], s[73]),
        adc_3v: le32(s[74], s[75], s[76], s[77]),
        throttle_pct: le32(s[78], s[79], s[80], s[81]),
        throttle_filt: le32(s[82], s[83], s[84], s[85]),
        bms_status: s[86],
        bms_predischarge_relay: s[87],
        bms_discharge_relay: s[88],
        bms_charging_relay: s[89],
        bms_dcdc_enable: s[90],
        bms_charger: s[91],
        bms_soc_pct: s[92],
        bms_soh_pct: s[93],
        bms_volt: le32(s[94], s[95], s[96], s[97]),
        bms_current: le32(s[98], s[99], s[100], s[101]),
        bms_alive_counter: s[102],
        bms_dcdc_enable_status: s[103],
        bms_max_discharge_current: le16(s[104], s[105]),
        bms_max_regen_current: le16(s[106], s[107]),
        bms_highest_cell_volt: le16(s[108], s[109]),
        bms_lowest_cell_volt: le16(s[110], s[111]),
        bms_max_temp: s[112],
        bms_max_temp_number: s[113],
        bms_min_temp: s[114],
        bms_min_temp_number: s[115],
        bms_charge_discharge_cycles: le16(s[116], s[117]),
        fw_tm_major: le16(s[118], s[119]),
        fw_tm_minor: le16(s[120], s[121]),
        fw_rt_major: s[122],
        fw_rt_minor: s[123],
        vm_persist: s[124],
        vm_odometer: le32(s[125], s[126], s[127], s[128]),
        vm_tripa: le32(s[129], s[130], s[131], s[132]),
        vm_tripb: le32(s[133], s[134], s[135], s[136]),
        vm_last_charge: le32(s[137], s[138], s[139], s[140]),
        vm_efficiency: le32(s[141], s[142], s[143], s[144]),
        vm_power_pct: le32(s[145], s[146], s[147], s[148]),
        vm_speed: le32(s[149], s[150], s[151], s[152]),
        vm_tripid: s[153],
        vm_tripaction: s[154],
        vm_range: s[155],
        cm_target_charge_soc_pct: s[156],
        cm_target_charge_hours_rem: s[157],
        cm_target_charge_min_rem: s[158],
        cm_target_charge_range: le16(s[159], s[160]),
        cm_charge_complete: s[161],
        cm_soc_limit: s[162],
        cm_soc_limit_selection_page: s[163],
        cm_va_limit: le16(s[164], s[165]),
        cm_va_limit_selection_page: s[166],
        cm_store_cable_noti: s[167],
        temp1: le32(s[168], s[169], s[170], s[171]),
        temp2: le32(s[172], s[173], s[174], s[175]),
        temp3: le32(s[176], s[177], s[178], s[179]),
        temp4: le32(s[180], s[181], s[182], s[183]),
        obc_activation_status: s[184],
        obc_output_dc_volt: le16(s[185], s[186]),
        obc_output_dc_current: le16(s[187], s[188]),
        obc_max_temp: s[189],
        obc_input_volt: s[190],
        obc_input_current: s[191],
        obc_stop_tx: s[192],
        obc_alive_counter: s[193],
        obc_error1_hw: s[194],
        obc_error2_temp: s[195],
        obc_error3_voltln: s[196],
        obc_error4_current: s[197],
        obc_error5_comn: s[198],
        cpu_118: s[199],
        cpu_148: s[200],
    }
}

/// Decodes the record from its payload bytes; a payload of the
/// wrong length is an invalid-response-length fault.
pub fn decode_dashboard(result: &[u8]) -> (r: Result<UdsMonitorViewResponseDetail, crate::errors::UdsClientError>)
    ensures
        r is Ok <==> result@.len() == 201,
        r matches Ok(v) ==> v == spec_decode_dashboard(result@),
        result@.len() != 201 ==> r == Err::<UdsMonitorViewResponseDetail, crate::errors::UdsClientError>(
            crate::errors::UdsClientError::InvalidResponseLength,
        ),
{
    if result.len() != 201 {
        return Err(crate::errors::UdsClientError::InvalidResponseLength);
    }
    Ok(UdsMonitorViewResponseDetail {
        bike_status: result[0],
        bike_lock: result[1],
        right_brake_sw: result[2],
        left_brake_sw: result[3],
        kill_sw: result[4],
        power_sw: result[5],
        reverse_sw: result[6],
        side_stand_sw: result[8],
        ride_mode_sw: result[10],
        hazard_sw: result[11],
        horn_sw: result[12],
        right_indicator_sw: result[13],
        left_indicator_sw: result[14],
        high_beam_sw: result[16],
        start_sw: result[17],
        seat_sw: result[18],
        trip_sw: result[19],
        down_sw: result[20],
        dtc_syscode: result[22],
        dtc_bmscode: result[25],
        dtc_mccode: result[28],
        dtc_obccode: result[31],
        dtc_outputcode: result[34],
        acc_x: crate::bytes::to_uint32([result[39], result[40], result[41], result[42]]),
        acc_y: crate::bytes::to_uint32([result[43], result[44], result[45], result[46]]),
        acc_z: crate::bytes::to_uint32([result[47], result[48], result[49], result[50]]),
        gyr_x: crate::bytes::to_uint32([result[51], result[52], result[53], result[54]]),
        gyr_y: crate::bytes::to_uint32([result[55], result[56], result[57], result[58]]),
        gyr_z: crate::bytes::to_uint32([result[59], result[60], result[61], result[62]]),
        rke: result[63],
        pke: result[64],
        pke_distance: result[65],
        adc_12v: crate::bytes::to_uint32([result[66], result[67], result[68], result[69]]),
        adc_5v: crate::bytes::to_uint32([result[70], result[71], result[72], result[73]]),
        adc_3v: crate::bytes::to_uint32([result[74], result[75], result[76], result[77]]),
        throttle_pct: crate::bytes::to_uint32([result[78], result[79], result[80], result[81]]),
        throttle_filt: crate::bytes::to_uint32([result[82], result[83], result[84], result[85]]),
        bms_status: result[86],
        bms_predischarge_relay: result[87],
        bms_discharge_relay: result[88],
        bms_charging_relay: result[89],
        bms_dcdc_enable: result[90],
        bms_charger: result[91],
        bms_soc_pct: result[92],
        bms_soh_pct: result[93],
        bms_volt: crate::bytes::to_uint32([result[94], result[95], result[96], result[97]]),
        bms_current: crate::bytes::to_uint32([result[98], result[99], result[100], result[101]]),
        bms_alive_counter: result[102],
        bms_dcdc_enable_status: result[103],
        bms_max_discharge_current: crate::bytes::to_uint16([result[104], result[105]]),
        bms_max_regen_current: crate::bytes::to_uint16([result[106], result[107]]),
        bms_highest_cell_volt: crate::bytes::to_uint16([result[108], result[109]]),
        bms_lowest_cell_volt: crate::bytes::to_uint16([result[110], result[111]]),
        bms_max_temp: result[112],
        bms_max_temp_number: result[113],
        bms_min_temp: result[114],
        bms_min_temp_number: result[115],
        bms_charge_discharge_cycles: crate::bytes::to_uint16([result[116], result[117]]),
        fw_tm_major: crate::bytes::to_uint16([result[118], result[119]]),
        fw_tm_minor: crate::bytes::to_uint16([result[120], result[121]]),
        fw_rt_major: result[122],
        fw_rt_minor: result[123],
        vm_persist: result[124],
        vm_odometer: crate::bytes::to_uint32([result[125], result[126], result[127], result[128]]),
        vm_tripa: crate::bytes::to_uint32([result[129], result[130], result[131], result[132]]),
        vm_tripb: crate::bytes::to_uint32([result[133], result[134], result[135], result[136]]),
        vm_last_charge: crate::bytes::to_uint32([result[137], result[138], result[139], result[140]]),
        vm_efficiency: crate::bytes::to_uint32([result[141], result[142], result[143], result[144]]),
        vm_power_pct: crate::bytes::to_uint32([result[145], result[146], result[147], result[148]]),
        vm_speed: crate::bytes::to_uint32([result[149], result[150], result[151], result[152]]),
        vm_tripid: result[153],
        vm_tripaction: result[154],
        vm_range: result[155],
        cm_target_charge_soc_pct: result[156],
        cm_target_charge_hours_rem: result[157],
        cm_target_charge_min_rem: result[158],
        cm_target_charge_range: crate::bytes::to_uint16([result[159], result[160]]),
        cm_charge_complete: result[161],
        cm_soc_limit: result[162],
        cm_soc_limit_selection_page: result[163],
        cm_va_limit: crate::bytes::to_uint16([result[164], result[165]]),
        cm_va_limit_selection_page: result[166],
        cm_store_cable_noti: result[167],
        temp1: crate::bytes::to_uint32([result[168], result[169], result[170], result[171]]),
        temp2: crate::bytes::to_uint32([result[172], result[173], result[174], result[175]]),
        temp3: crate::bytes::to_uint32([result[176], result[177], result[178], result[179]]),
        temp4: crate::bytes::to_uint32([result[180], result[181], result[182], result[183]]),
        obc_activation_status: result[184],
        obc_output_dc_volt: crate::bytes::to_uint16([result[185], result[186]]),
        obc_output_dc_current: crate::bytes::to_uint16([result[187], result[188]]),
        obc_max_temp: result[189],
        obc_input_volt: result[190],
        obc_input_current: result[191],
        obc_stop_tx: result[192],
        obc_alive_counter: result[193],
        obc_error1_hw: result[194],
        obc_error2_temp: result[195],
        obc_error3_voltln: result[196],
        obc_error4_current: result[197],
        obc_error5_comn: result[198],
        cpu_118: result[199],
        cpu_148: result[200],
    })
}

/// Encodes the dashboard record's bytes 0 through 38.
fn encode_dashboard_a(d: &UdsMonitorViewResponseDetail) -> (r: Vec<u8>)
    ensures
        r@.len() == 39,
        r@[0] == d.bike_status,
        r@[1] == d.bike_lock,
        r@[2] == d.right_brake_sw,
        r@[3] == d.left_brake_sw,
        r@[4] == d.kill_sw,
        r@[5] == d.power_sw,
        r@[6] == d.reverse_sw,
        r@[8] == d.side_stand_sw,
        r@[10] == d.ride_mode_sw,
        r@[11] == d.hazard_sw,
        r@[12] == d.horn_sw,
        r@[13] == d.right_indicator_sw,
        r@[14] == d.left_indicator_sw,
        r@[16] == d.high_beam_sw,
        r@[17] == d.start_sw,
        r@[18] == d.seat_sw,
        r@[19] == d.trip_sw,
        r@[20] == d.down_sw,
        r@[22] == d.dtc_syscode,
        r@[25] == d.dtc_bmscode,
        r@[28] == d.dtc_mccode,
        r@[31] == d.dtc_obccode,
        r@[34] == d.dtc_outputcode,
{
    let mut v: Vec<u8> = Vec::new();
    v.push(d.bike_status);
    v.push(d.bike_lock);
    v.push(d.right_brake_sw);
    v.push(d.left_brake_sw);
    v.push(d.kill_sw);
    v.push(d.power_sw);
    v.push(d.reverse_sw);
    v.push(0);
    v.push(d.side_stand_sw);
    v.push(0);
    v.push(d.ride_mode_sw);
    v.push(d.hazard_sw);
    v.push(d.horn_sw);
    v.push(d.right_indicator_sw);
    v.push(d.left_indicator_sw);
    v.push(0);
    v.push(d.high_beam_sw);
    v.push(d.start_sw);
    v.push(d.seat_sw);
    v.push(d.trip_sw);
    v.push(d.down_sw);
    v.push(0);
    v.push(d.dtc_syscode);
    v.push(0);
    v.push(0);
    v.push(d.dtc_bmscode);
    v.push(0);
    v.push(0);
    v.push(d.dtc_mccode);
    v.push(0);
    v.push(0);
    v.push(d.dtc_obccode);
    v.push(0);
    v.push(0);
    v.push(d.dtc_outputcode);
    v.push(0);
    v.push(0);
    v.push(0);
    v.push(0);
    proof {
    }
    v
}

/// Encodes the dashboard record's bytes 39 through 103.
fn encode_dashboard_b(d: &UdsMonitorViewResponseDetail) -> (r: Vec<u8>)
    ensures
        r@.len() == 65,
        le32(r@[0], r@[1], r@[2], r@[3]) == d.acc_x,
        le32(r@[4], r@[5], r@[6], r@[7]) == d.acc_y,
        le32(r@[8], r@[9], r@[10], r@[11]) == d.acc_z,
        le32(r@[12], r@[13], r@[14], r@[15]) == d.gyr_x,
        le32(r@[16], r@[17], r@[18], r@[19]) == d.gyr_y,
        le32(r@[20], r@[21], r@[22], r@[23]) == d.gyr_z,
        r@[24] == d.rke,
        r@[25] == d.pke,
        r@[26] == d.pke_distance,
        le32(r@[27], r@[28], r@[29], r@[30]) == d.adc_12v,
        le32(r@[31], r@[32], r@[33], r@[34]) == d.adc_5v,
        le32(r@[35], r@[36], r@[37], r@[38]) == d.adc_3v,
        le32(r@[39], r@[40], r@[41], r@[42]) == d.throttle_pct,
        le32(r@[43], r@[44], r@[45], r@[46]) == d.throttle_filt,
        r@[47] == d.bms_status,
        r@[48] == d.bms_predischarge_relay,
        r@[49] == d.bms_discharge_relay,
        r@[50] == d.bms_charging_relay,
        r@[51] == d.bms_dcdc_enable,
        r@[52] == d.bms_charger,
        r@[53] == d.bms_soc_pct,
        r@[54] == d.bms_soh_pct,
        le32(r@[55], r@[56], r@[57], r@[58]) == d.bms_volt,
        le32(r@[59], r@[60], r@[61], r@[62]) == d.bms_current,
        r@[63] == d.bms_alive_counter,
        r@[64] == d.bms_dcdc_enable_status,
{
    let mut v: Vec<u8> = Vec::new();
    push_u32_le(&mut v, d.acc_x);
    push_u32_le(&mut v, d.acc_y);
    push_u32_le(&mut v, d.acc_z);
    push_u32_le(&mut v, d.gyr_x);
    push_u32_le(&mut v, d.gyr_y);
    push_u32_le(&mut v, d.gyr_z);
    v.push(d.rke);
    v.push(d.pke);
    v.push(d.pke_distance);
    push_u32_le(&mut v, d.adc_12v);
    push_u32_le(&mut v, d.adc_5v);
    push_u32_le(&mut v, d.adc_3v);
    push_u32_le(&mut v, d.throttle_pct);
    push_u32_le(&mut v, d.throttle_filt);
    v.push(d.bms_status);
    v.push(d.bms_predischarge_relay);
    v.push(d.bms_discharge_relay);
    v.push(d.bms_charging_relay);
    v.push(d.bms_dcdc_enable);
    v.push(d.bms_charger);
    v.push(d.bms_soc_pct);
    v.push(d.bms_soh_pct);
    push_u32_le(&mut v, d.bms_volt);
    push_u32_le(&mut v, d.bms_current);
    v.push(d.bms_alive_counter);
    v.push(d.bms_dcdc_enable_status);
    proof {
        crate::bytes::lemma_le32_round_trip(d.acc_x);
        crate::bytes::lemma_le32_round_trip(d.acc_y);
        crate::bytes::lemma_le32_round_trip(d.acc_z);
        crate::bytes::lemma_le32_round_trip(d.gyr_x);
        crate::bytes::lemma_le32_round_trip(d.gyr_y);
        crate::bytes::lemma_le32_round_trip(d.gyr_z);
        crate::bytes::lemma_le32_round_trip(d.adc_12v);
        crate::bytes::lemma_le32_round_trip(d.adc_5v);
        crate::bytes::lemma_le32_round_trip(d.adc_3v);
        crate::bytes::lemma_le32_round_trip(d.throttle_pct);
        crate::bytes::lemma_le32_round_trip(d.throttle_filt);
        crate::bytes::lemma_le32_round_trip(d.bms_volt);
        crate::bytes::lemma_le32_round_trip(d.bms_current);
    }
    v
}

/// Encodes the dashboard record's bytes 104 through 152.
fn encode_dashboard_c(d: &UdsMonitorViewResponseDetail) -> (r: Vec<u8>)
    ensures
        r@.len() == 49,
        le16(r@[0], r@[1]) == d.bms_max_discharge_current,
        le16(r@[2], r@[3]) == d.bms_max_regen_current,
        le16(r@[4], r@[5]) == d.bms_highest_cell_volt,
        le16(r@[6], r@[7]) == d.bms_lowest_cell_volt,
        r@[8] == d.bms_max_temp,
        r@[9] == d.bms_max_temp_number,
        r@[10] == d.bms_min_temp,
        r@[11] == d.bms_min_temp_number,
        le16(r@[12], r@[13]) == d.bms_charge_discharge_cycles,
        le16(r@[14], r@[15]) == d.fw_tm_major,
        le16(r@[16], r@[17]) == d.fw_tm_minor,
        r@[18] == d.fw_rt_major,
        r@[19] == d.fw_rt_minor,
        r@[20] == d.vm_persist,
        le32(r@[21], r@[22], r@[23], r@[24]) == d.vm_odometer,
        le32(r@[25], r@[26], r@[27], r@[28]) == d.vm_tripa,
        le32(r@[29], r@[30], r@[31], r@[32]) == d.vm_tripb,
        le32(r@[33], r@[34], r@[35], r@[36]) == d.vm_last_charge,
        le32(r@[37], r@[38], r@[39], r@[40]) == d.vm_efficiency,
        le32(r@[41], r@[42], r@[43], r@[44]) == d.vm_power_pct,
        le32(r@[45], r@[46], r@[47], r@[48]) == d.vm_speed,
{
    let mut v: Vec<u8> = Vec::new();
    push_u16_le(&mut v, d.bms_max_discharge_current);
    push_u16_le(&mut v, d.bms_max_regen_current);
    push_u16_le(&mut v, d.bms_highest_cell_volt);
    push_u16_le(&mut v, d.bms_lowest_cell_volt);
    v.push(d.bms_max_temp);
    v.push(d.bms_max_temp_number);
    v.push(d.bms_min_temp);
    v.push(d.bms_min_temp_number);
    push_u16_le(&mut v, d.bms_charge_discharge_cycles);
    push_u16_le(&mut v, d.fw_tm_major);
    push_u16_le(&mut v, d.fw_tm_minor);
    v.push(d.fw_rt_major);
    v.push(d.fw_rt_minor);
    v.push(d.vm_persist);
    push_u32_le(&mut v, d.vm_odometer);
    push_u32_le(&mut v, d.vm_tripa);
    push_u32_le(&mut v, d.vm_tripb);
    push_u32_le(&mut v, d.vm_last_charge);
    push_u32_le(&mut v, d.vm_efficiency);
    push_u32_le(&mut v, d.vm_power_pct);
    push_u32_le(&mut v, d.vm_speed);
    proof {
        crate::bytes::lemma_le16_round_trip(d.bms_max_discharge_current);
        crate::bytes::lemma_le16_round_trip(d.bms_max_regen_current);
        crate::bytes::lemma_le16_round_trip(d.bms_highest_cell_volt);
        crate::bytes::lemma_le16_round_trip(d.bms_lowest_cell_volt);
        crate::bytes::lemma_le16_round_trip(d.bms_charge_discharge_cycles);
        crate::bytes::lemma_le16_round_trip(d.fw_tm_major);
        crate::bytes::lemma_le16_round_trip(d.fw_tm_minor);
        crate::bytes::lemma_le32_round_trip(d.vm_odometer);
        crate::bytes::lemma_le32_round_trip(d.vm_tripa);
        crate::bytes::lemma_le32_round_trip(d.vm_tripb);
        crate::bytes::lemma_le32_round_trip(d.vm_last_charge);
        crate::bytes::lemma_le32_round_trip(d.vm_efficiency);
        crate::bytes::lemma_le32_round_trip(d.vm_power_pct);
        crate::bytes::lemma_le32_round_trip(d.vm_speed);
    }
    v
}

/// Encodes the dashboard record's bytes 153 through 200.
fn encode_dashboard_d(d: &UdsMonitorViewResponseDetail) -> (r: Vec<u8>)
    ensures
        r@.len() == 48,
        r@[0] == d.vm_tripid,
        r@[1] == d.vm_tripaction,
        r@[2] == d.vm_range,
        r@[3] == d.cm_target_charge_soc_pct,
        r@[4] == d.cm_target_charge_hours_rem,
        r@[5] == d.cm_target_charge_min_rem,
        le16(r@[6], r@[7]) == d.cm_target_charge_range,
        r@[8] == d.cm_charge_complete,
        r@[9] == d.cm_soc_limit,
        r@[10] == d.cm_soc_limit_selection_page,
        le16(r@[11], r@[12]) == d.cm_va_limit,
        r@[13] == d.cm_va_limit_selection_page,
        r@[14] == d.cm_store_cable_noti,
        le32(r@[15], r@[16], r@[17], r@[18]) == d.temp1,
        le32(r@[19], r@[20], r@[21], r@[22]) == d.temp2,
        le32(r@[23], r@[24], r@[25], r@[26]) == d.temp3,
        le32(r@[27], r@[28], r@[29], r@[30]) == d.temp4,
        r@[31] == d.obc_activation_status,
        le16(r@[32], r@[33]) == d.obc_output_dc_volt,
        le16(r@[34], r@[35]) == d.obc_output_dc_current,
        r@[36] == d.obc_max_temp,
        r@[37] == d.obc_input_volt,
        r@[38] == d.obc_input_current,
        r@[39] == d.obc_stop_tx,
        r@[40] == d.obc_alive_counter,
        r@[41] == d.obc_error1_hw,
        r@[42] == d.obc_error2_temp,
        r@[43] == d.obc_error3_voltln,
        r@[44] == d.obc_error4_current,
        r@[45] == d.obc_error5_comn,
        r@[46] == d.cpu_118,
        r@[47] == d.cpu_148,
{
    let mut v: Vec<u8> = Vec::new();
    v.push(d.vm_tripid);
    v.push(d.vm_tripaction);
    v.push(d.vm_range);
    v.push(d.cm_target_charge_soc_pct);
    v.push(d.cm_target_charge_hours_rem);
    v.push(d.cm_target_charge_min_rem);
    push_u16_le(&mut v, d.cm_target_charge_range);
    v.push(d.cm_charge_complete);
    v.push(d.cm_soc_limit);
    v.push(d.cm_soc_limit_selection_page);
    push_u16_le(&mut v, d.cm_va_limit);
    v.push(d.cm_va_limit_selection_page);
    v.push(d.cm_store_cable_noti);
    push_u32_le(&mut v, d.temp1);
    push_u32_le(&mut v, d.temp2);
    push_u32_le(&mut v, d.temp3);
    push_u32_le(&mut v, d.temp4);
    v.push(d.obc_activation_status);
    push_u16_le(&mut v, d.obc_output_dc_volt);
    push_u16_le(&mut v, d.obc_output_dc_current);
    v.push(d.obc_max_temp);
    v.push(d.obc_input_volt);
    v.push(d.obc_input_current);
    v.push(d.obc_stop_tx);
    v.push(d.obc_alive_counter);
    v.push(d.obc_error1_hw);
    v.push(d.obc_error2_temp);
    v.push(d.obc_error3_voltln);
    v.push(d.obc_error4_current);
    v.push(d.obc_error5_comn);
    v.push(d.cpu_118);
    v.push(d.cpu_148);
    proof {
        crate::bytes::lemma_le16_round_trip(d.cm_target_charge_range);
        crate::bytes::lemma_le16_round_trip(d.cm_va_limit);
        crate::bytes::lemma_le32_round_trip(d.temp1);
        crate::bytes::lemma_le32_round_trip(d.temp2);
        crate::bytes::lemma_le32_round_trip(d.temp3);
        crate::bytes::lemma_le32_round_trip(d.temp4);
        crate::bytes::lemma_le16_round_trip(d.obc_output_dc_volt);
        crate::bytes::lemma_le16_round_trip(d.obc_output_dc_current);
    }
    v
}

/// Encodes the dashboard record into the payload bytes it decodes
/// from: decoding the result restores the record exactly.
#[verifier::rlimit(100)]
#[verifier::spinoff_prover]
pub fn encode_dashboard(d: &UdsMonitorViewResponseDetail) -> (r: Vec<u8>)
    ensures
        r@.len() == 201,
        spec_decode_dashboard(r@) == *d,
{
    let mut v = encode_dashboard_a(d);
    let mut b = encode_dashboard_b(d);
    let mut c = encode_dashboard_c(d);
    let mut e = encode_dashboard_d(d);
    let ghost va = v@;
    let ghost vb = b@;
    let ghost vc = c@;
    let ghost vd = e@;
    v.append(&mut b);
    v.append(&mut c);
    v.append(&mut e);
    proof {
        assert(v@ == va + vb + vc + vd);
        assert forall|i: int| 0 <= i < 39 implies v@[i] == va[i] by {}
        assert forall|i: int| 39 <= i < 104 implies v@[i] == vb[i - 39] by {}
        assert forall|i: int| 104 <= i < 153 implies v@[i] == vc[i - 104] by {}
        assert forall|i: int| 153 <= i < 201 implies v@[i] == vd[i - 153] by {}
        assert(spec_decode_dashboard(v@) == *d);
    }
    v
}


impl Default for UdsMonitorViewResponseDetail {
    /// An all-zero record, used until real telemetry arrives.
    fn default() -> (r: Self)
        ensures
            r == spec_decode_dashboard(Seq::new(201, |i: int| 0u8)),
{
        let zeros: Vec<u8> = vec_of_zeros(201);
        let r = decode_dashboard(zeros.as_slice());
        proof {
            assert(zeros@ =~= Seq::new(201, |i: int| 0u8));
        }
        r.unwrap()
    }
}

/// A vector holding the requested number of zero bytes.
fn vec_of_zeros(n: usize) -> (r: Vec<u8>)
    ensures
        r@ == Seq::new(n as nat, |i: int| 0u8),
{
    let mut v: Vec<u8> = Vec::new();
    let mut i: usize = 0;
    while i < n
        invariant
            i <= n,
            v@ == Seq::new(i as nat, |j: int| 0u8),
        decreases n - i,
    {
        v.push(0);
        proof {
            assert(v@ =~= Seq::new((i + 1) as nat, |j: int| 0u8));
        }
        i = i + 1;
    }
    v
}

/// Outcome of a telemetry read for the monitor view.
#[derive(Debug)]
pub enum UdsMonitorViewResponse {
    /// A positive reply was decoded into the telemetry record.
    Success(UdsMonitorViewResponseDetail),
    /// The ECU's reply was negative or missing.
    Fail,
}

/// The payload a read-data reply carries after the positive service
/// byte and the echoed identifier.
pub open spec fn did_payload(resp: Seq<u8>) -> Seq<u8> {
    if resp.len() >= 3 {
        resp.skip(3)
    } else {
        Seq::empty()
    }
}

/// Whether an identifier's record is rendered as text by this
/// module: true for the identifiers whose fields are all integers.
pub open spec fn has_text(d: DataId) -> bool {
    match d {
        DataId::BikeState => true,
        DataId::SwitchGear => true,
        DataId::ComponentError => true,
        DataId::KeyfobState => true,
        DataId::PerformanceCharge => true,
        DataId::PerformanceVehicle1 => true,
        DataId::FirmwareVersion => true,
        DataId::Bms2 => true,
        DataId::Bms3 => true,
        DataId::Obc => true,
        DataId::DiagState => true,
        DataId::ImuRaw => false,
        DataId::AdcVoltage => false,
        DataId::Dashboard => false,
        DataId::PerformanceVehicle2 => false,
        DataId::TempSensors => false,
        DataId::Bms1 => false,
    }
}

/// The console text of an identifier's record: the rendered fields
/// when the payload has the documented length, the invalid-length
/// text otherwise, and empty for the identifiers rendered elsewhere.
pub open spec fn did_text(d: DataId, s: Seq<u8>) -> Seq<char> {
    match d {
        DataId::BikeState => if s.len() == 2 {
            bike_state_text(s)
        } else {
            "Invalid data length for BikeState"@
        },
        DataId::SwitchGear => if s.len() == 19 {
            switch_gear_text(s)
        } else {
            "Invalid data length for SwitchGear"@
        },
        DataId::ComponentError => if s.len() == 18 {
            component_error_text(s)
        } else {
            "Invalid data length for Component error"@
        },
        DataId::KeyfobState => if s.len() == 3 {
            keyfob_state_text(s)
        } else {
            "Invalid data length for Keyfob"@
        },
        DataId::PerformanceCharge => if s.len() == 12 {
            performance_charge_text(s)
        } else {
            "Invalid data length for Performance"@
        },
        DataId::PerformanceVehicle1 => if s.len() == 17 {
            performance_vehicle1_text(s)
        } else {
            "Invalid data length for Performance"@
        },
        DataId::FirmwareVersion => if s.len() == 6 {
            firmware_version_text(s)
        } else {
            "Invalid data length for Firmware Version"@
        },
        DataId::Bms2 => if s.len() == 8 {
            bms2_text(s)
        } else {
            "Invalid data length for Bms"@
        },
        DataId::Bms3 => if s.len() == 6 {
            bms3_text(s)
        } else {
            "Invalid data length for Bms3"@
        },
        DataId::Obc => if s.len() == 15 {
            obc_text(s)
        } else {
            "Invalid data length for Bms3"@
        },
        DataId::DiagState => if s.len() == 2 {
            diag_state_text(s)
        } else {
            "Invalid data length for Temp Sensor"@
        },
        DataId::ImuRaw => Seq::empty(),
        DataId::AdcVoltage => Seq::empty(),
        DataId::Dashboard => Seq::empty(),
        DataId::PerformanceVehicle2 => Seq::empty(),
        DataId::TempSensors => Seq::empty(),
        DataId::Bms1 => Seq::empty(),
    }
}

impl DataId {
    /// Renders a record's payload bytes as the human-readable text of
    /// this identifier. Identifiers whose records carry floating-point
    /// fields have no text here — their typed records are decoded
    /// instead and rendered by the front end — so they yield nothing.
    /// A payload of the wrong length yields the corresponding
    /// invalid-length text.
    pub fn parse_result(&self, result: &[u8]) -> (r: Option<String>)
        ensures
            has_text(*self) ==> (r matches Some(t) && t@ == did_text(*self, result@)),
            !has_text(*self) ==> r is None,
    {
        match *self {
            DataId::BikeState => {
                if result.len() == 2 {
                    Some(parse_bike_state(result))
                } else {
                    Some(String::from_str("Invalid data length for BikeState"))
                }
            },
            DataId::SwitchGear => {
                if result.len() == 19 {
                    Some(parse_switch_gear(result))
                } else {
                    Some(String::from_str("Invalid data length for SwitchGear"))
                }
            },
            DataId::ComponentError => {
                if result.len() == 18 {
                    Some(parse_component_error(result))
                } else {
                    Some(String::from_str("Invalid data length for Component error"))
                }
            },
            DataId::KeyfobState => {
                if result.len() == 3 {
                    Some(parse_keyfob_state(result))
                } else {
                    Some(String::from_str("Invalid data length for Keyfob"))
                }
            },
            DataId::PerformanceCharge => {
                if result.len() == 12 {
                    Some(parse_performance_charge(result))
                } else {
                    Some(String::from_str("Invalid data length for Performance"))
                }
            },
            DataId::PerformanceVehicle1 => {
                if result.len() == 17 {
                    Some(parse_performance_vehicle1(result))
                } else {
                    Some(String::from_str("Invalid data length for Performance"))
                }
            },
            DataId::FirmwareVersion => {
                if result.len() == 6 {
                    Some(parse_firmware_version(result))
                } else {
                    Some(String::from_str("Invalid data length for Firmware Version"))
                }
            },
            DataId::Bms2 => {
                if result.len() == 8 {
                    Some(parse_bms2(result))
                } else {
                    Some(String::from_str("Invalid data length for Bms"))
                }
            },
            DataId::Bms3 => {
                if result.len() == 6 {
                    Some(parse_bms3(result))
                } else {
                    Some(String::from_str("Invalid data length for Bms3"))
                }
            },
            DataId::Obc => {
                if result.len() == 15 {
                    Some(parse_obc(result))
                } else {
                    Some(String::from_str("Invalid data length for Bms3"))
                }
            },
            DataId::DiagState => {
                if result.len() == 2 {
                    Some(parse_diag_state(result))
                } else {
                    Some(String::from_str("Invalid data length for Temp Sensor"))
                }
            },
            DataId::ImuRaw => None,
            DataId::AdcVoltage => None,
            DataId::Dashboard => None,
            DataId::PerformanceVehicle2 => None,
            DataId::TempSensors => None,
            DataId::Bms1 => None,
        }
    }
}

impl UDSClientSession {
    /// The request bytes of a read-data-by-identifier command.
    pub fn uds_read_data_by_id_request(&self, sub_fcn: DataId) -> (r: Vec<u8>)
        ensures
            r@ == seq![
                0x22u8,
                (did_value(sub_fcn) / 0x100) as u8,
                (did_value(sub_fcn) % 0x100) as u8,
            ],
    {
        let id = sub_fcn.to_bytes();
        let mut v: Vec<u8> = Vec::new();
        v.push(0x22);
        v.push(id[0]);
        v.push(id[1]);
        proof {
            assert(v@ =~= seq![
                0x22u8,
                (did_value(sub_fcn) / 0x100) as u8,
                (did_value(sub_fcn) % 0x100) as u8,
            ]);
        }
        v
    }

    /// Interprets the ECU's reply to a read-data command as console
    /// text. A positive reply is rendered by the identifier's textual
    /// decoder; identifiers whose records the front end renders itself
    /// yield nothing here; a negative or empty reply reports the
    /// failure.
    pub fn uds_read_data_by_id(&mut self, sub_fcn: DataId, resp: &[u8]) -> (r: Option<
        UdsServiceResponse,
    >)
        ensures
            *final(self) == *old(self),
            resp@.len() == 0 ==> (r matches Some(u) && (u matches UdsServiceResponse::Fail(d)
                && d.console_output@ == "FAIL\nEMPTY UDS RESPONSE"@)),
            resp@.len() > 0 && resp@[0] != 0x62 ==> (r matches Some(u) && (u
                matches UdsServiceResponse::Fail(d) && d.console_output@
                == "FAIL\nNEGATIVE UDS RESPONSE"@)),
            resp@.len() > 0 && resp@[0] == 0x62 && !has_text(sub_fcn) ==> r is None,
            resp@.len() > 0 && resp@[0] == 0x62 && has_text(sub_fcn) ==> (r matches Some(u) && (u
                matches UdsServiceResponse::Success(d) && d.console_output@ == did_text(
                sub_fcn,
                did_payload(resp@),
            ))),
    {
        if resp.len() == 0 {
            return Some(UdsServiceResponse::fail(String::from_str("FAIL\nEMPTY UDS RESPONSE")));
        }
        if resp[0] != 0x62 {
            return Some(
                UdsServiceResponse::fail(String::from_str("FAIL\nNEGATIVE UDS RESPONSE")),
            );
        }
        let payload: &[u8] = if resp.len() >= 3 {
            vstd::slice::slice_subrange(resp, 3, resp.len())
        } else {
            vstd::slice::slice_subrange(resp, 0, 0)
        };
        proof {
            assert(payload@ =~= did_payload(resp@));
        }
        match sub_fcn.parse_result(payload) {
            Some(text) => Some(UdsServiceResponse::success(text)),
            None => None,
        }
    }

    /// Interprets the ECU's reply to a read-data command as the typed
    /// dashboard record: a positive dashboard reply of the documented
    /// length decodes into the record; any other positive reply yields
    /// the all-zero record; a negative or empty reply fails.
    pub fn uds_read_data_by_id_return_struct(&mut self, sub_fcn: DataId, resp: &[u8]) -> (r:
        UdsMonitorViewResponse)
        ensures
            *final(self) == *old(self),
            resp@.len() == 0 ==> r is Fail,
            resp@.len() > 0 && resp@[0] != 0x62 ==> r is Fail,
            resp@.len() > 0 && resp@[0] == 0x62 && sub_fcn == DataId::Dashboard && did_payload(
                resp@,
            ).len() == 201 ==> (r matches UdsMonitorViewResponse::Success(v) && v
                == spec_decode_dashboard(did_payload(resp@))),
            resp@.len() > 0 && resp@[0] == 0x62 && !(sub_fcn == DataId::Dashboard && did_payload(
                resp@,
            ).len() == 201) ==> (r matches UdsMonitorViewResponse::Success(v) && v
                == spec_decode_dashboard(Seq::new(201, |i: int| 0u8))),
    {
        if resp.len() == 0 {
            return UdsMonitorViewResponse::Fail;
        }
        if resp[0] != 0x62 {
            return UdsMonitorViewResponse::Fail;
        }
        let payload: &[u8] = if resp.len() >= 3 {
            vstd::slice::slice_subrange(resp, 3, resp.len())
        } else {
            vstd::slice::slice_subrange(resp, 0, 0)
        };
        proof {
            assert(payload@ =~= did_payload(resp@));
        }
        if matches!(sub_fcn, DataId::Dashboard) {
            match decode_dashboard(payload) {
                Ok(v) => UdsMonitorViewResponse::Success(v),
                Err(_) => UdsMonitorViewResponse::Success(UdsMonitorViewResponseDetail::default()),
            }
        } else {
            UdsMonitorViewResponse::Success(UdsMonitorViewResponseDetail::default())
        }
    }
}

} // verus!
