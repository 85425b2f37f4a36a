//! Decoding of routine results fetched over the diagnostic link: each
//! connectivity routine's positive reply is rendered as console text,
//! and the routine layer's own failure codes are named.

use vstd::prelude::*;

use crate::bytes::bool_str;
use crate::bytes::bool_to_string;
use crate::bytes::dec_str;
use crate::bytes::int_dec_str;
use crate::bytes::i32_to_string;
use crate::bytes::u16_to_string;
use crate::bytes::u8_to_string;

verus! {

/// The unsigned value of two big-endian bytes.
pub open spec fn be16(hi: u8, lo: u8) -> u16 {
    (hi * 0x100 + lo) as u16
}

/// The signed interpretation of a 16-bit word.
pub open spec fn as_i16(v: u16) -> int {
    if v >= 0x8000 {
        v - 0x10000
    } else {
        v as int
    }
}

/// Whether a year is a leap year of the proleptic Gregorian calendar.
pub open spec fn is_leap_year(y: int) -> bool {
    y % 4 == 0 && (y % 100 != 0 || y % 400 == 0)
}

/// The number of days in a month of the proleptic Gregorian calendar.
pub open spec fn days_in_month(y: int, m: int) -> int {
    if m == 2 {
        if is_leap_year(y) {
            29
        } else {
            28
        }
    } else if m == 4 || m == 6 || m == 9 || m == 11 {
        30
    } else {
        31
    }
}

/// Whether the fields name a real calendar date and time of day.
pub open spec fn valid_ymdhms(year: u16, month: u8, day: u8, hour: u8, minute: u8, second: u8)
    -> bool {
    &&& 1 <= month <= 12
    &&& 1 <= day <= days_in_month(year as int, month as int)
    &&& hour < 24
    &&& minute < 60
    &&& second < 60
}

/// The text a valid calendar timestamp formats to; it depends on the
/// fields alone.
pub uninterp spec fn datetime_text(
    year: u16,
    month: u8,
    day: u8,
    hour: u8,
    minute: u8,
    second: u8,
) -> Seq<char>;

/// Relies on chrono's NaiveDate::from_ymd_opt and and_hms_opt, which
/// accept exactly the real calendar dates and times of day, and on the
/// NaiveDateTime Display implementation, whose output depends on the
/// timestamp fields alone.
#[verifier::external_body]
fn format_timestamp(year: u16, month: u8, day: u8, hour: u8, minute: u8, second: u8) -> (r:
    Option<String>)
    ensures
        r is Some <==> valid_ymdhms(year, month, day, hour, minute, second),
        r matches Some(s) ==> s@ == datetime_text(year, month, day, hour, minute, second),
{
    let date = chrono::NaiveDate::from_ymd_opt(year as i32, month as u32, day as u32)?;
    let dt = date.and_hms_opt(hour as u32, minute as u32, second as u32)?;
    Some(dt.to_string())
}

/// Checks the calendar validity of a timestamp.
pub fn is_valid_timestamp(year: u16, month: u8, day: u8, hour: u8, minute: u8, second: u8) -> (r:
    bool)
    ensures
        r == valid_ymdhms(year, month, day, hour, minute, second),
{
    if month < 1 || month > 12 {
        return false;
    }
    let leap = year % 4 == 0 && (year % 100 != 0 || year % 400 == 0);
    let dim: u8 = if month == 2 {
        if leap {
            29
        } else {
            28
        }
    } else if month == 4 || month == 6 || month == 9 || month == 11 {
        30
    } else {
        31
    };
    1 <= day && day <= dim && hour < 24 && minute < 60 && second < 60
}

/// The modem state a status byte names.
pub open spec fn modem_state_name(b: u8) -> Seq<char> {
    if b == 0x00 {
        "FAILED"@
    } else if b == 0x01 {
        "UNKNOWN"@
    } else if b == 0x02 {
        "INITIALIZING"@
    } else if b == 0x03 {
        "LOCKED"@
    } else if b == 0x04 {
        "DISABLED"@
    } else if b == 0x05 {
        "DISABLING"@
    } else if b == 0x06 {
        "ENABLING"@
    } else if b == 0x07 {
        "ENABLED"@
    } else if b == 0x08 {
        "SEARCHING"@
    } else if b == 0x09 {
        "REGISTERED"@
    } else if b == 0x0A {
        "DISCONNECTING"@
    } else if b == 0x0B {
        "CONNECTING"@
    } else if b == 0x0C {
        "CONNECTED"@
    } else {
        "INVALID STATE"@
    }
}

/// Names a modem state byte.
fn modem_state_str(b: u8) -> (r: &'static str)
    ensures
        r@ == modem_state_name(b),
{
    match b {
        0x00 => "FAILED",
        0x01 => "UNKNOWN",
        0x02 => "INITIALIZING",
        0x03 => "LOCKED",
        0x04 => "DISABLED",
        0x05 => "DISABLING",
        0x06 => "ENABLING",
        0x07 => "ENABLED",
        0x08 => "SEARCHING",
        0x09 => "REGISTERED",
        0x0A => "DISCONNECTING",
        0x0B => "CONNECTING",
        0x0C => "CONNECTED",
        _ => "INVALID STATE",
    }
}

/// The console text of one routine-result reply. A positive reply is
/// decoded per routine; a reply the decoder cannot make sense of names
/// an unknown error; the routine layer's own failure codes are named.
pub open spec fn routine_result_text_spec(s: Seq<u8>) -> Seq<char> {
    if s.len() >= 4 && s[0] == 0x71 {
        routine_payload_text(be16(s[2], s[3]), s)
    } else if s.len() >= 3 && s[0] != 0x71 {
        if s[2] == 0xA0 {
            "FAIL due to Service In Progress"@
        } else if s[2] == 0xA1 {
            "FAIL due to Incorrect Service ID"@
        } else if s[2] == 0xA2 {
            "FAIL due to Invalid Routine Result"@
        } else {
            "FAIL due to unknown error"@
        }
    } else {
        "FAIL due to unknown error"@
    }
}

/// The console text of a positive routine-result reply, by routine.
pub open spec fn routine_payload_text(rid: u16, s: Seq<u8>) -> Seq<char> {
    if rid == 0x020D {
        if s.len() < 7 {
            "FAIL due to unknown error"@
        } else if s[4] == 0xFF && s[5] == 0xFF && s[6] == 0xFF {
            "SUCCESS\nNO WIFI SCAN RESULT"@
        } else {
            "SUCCESS\nNumber of wifi Scan: "@ + dec_str(s[4] as nat)
                + "\nBest Signal Strength: "@ + int_dec_str(as_i16(be16(s[5], s[6])))
        }
    } else if rid == 0x020E {
        if s.len() < 8 {
            "FAIL due to unknown error"@
        } else if s.len() == 9 && s[4] == 0 && s[5] == 0 && s[6] == 0 && s[7] == 0 && s[8]
            == 0xFF {
            "SUCCESS\nNO WIFI IP"@
        } else {
            "SUCCESS\nWIFI IP: "@ + dec_str(s[4] as nat) + "."@ + dec_str(s[5] as nat) + "."@
                + dec_str(s[6] as nat) + "."@ + dec_str(s[7] as nat)
        }
    } else if rid == 0x020F {
        if s.len() < 5 {
            "FAIL due to unknown error"@
        } else if s[4] == 0x01 {
            "SUCCESS\nWIFI INIT SUCCESS"@
        } else if s[4] == 0x02 {
            "SUCCESS\nWIFI INIT FAIL"@
        } else if s[4] == 0x03 {
            "SUCCESS\nWIFI INIT NO RESULT"@
        } else {
            "SUCCESS\nWIFI INIT UNKNOWN RESULT"@
        }
    } else if rid == 0x0210 {
        if s.len() < 8 {
            "FAIL due to unknown error"@
        } else if s[4] == 0xFF && s[5] == 0xFF && s[6] == 0xFF && s[7] == 0xFF {
            "SUCCESS\nNO GPS LOG"@
        } else if s.len() < 11 {
            "FAIL due to unknown error"@
        } else if valid_ymdhms(be16(s[4], s[5]), s[6], s[7], s[8], s[9], s[10]) {
            "SUCCESS\nLAST VALID GPS LOG TIMESTAMP: "@ + datetime_text(
                be16(s[4], s[5]),
                s[6],
                s[7],
                s[8],
                s[9],
                s[10],
            )
        } else {
            "SUCCESS\nLAST VALID GPS LOG TIMESTAMP: INVALID"@
        }
    } else if rid == 0x0211 {
        if s.len() >= 9 && s[4] == 0 && s[5] == 0 && s[6] == 0 && s[7] == 0 && s[8] == 0xFF {
            "SUCCESS\nNO LTE IP"@
        } else if s.len() >= 8 {
            "SUCCESS\nLTE IP: "@ + dec_str(s[4] as nat) + "."@ + dec_str(s[5] as nat) + "."@
                + dec_str(s[6] as nat) + "."@ + dec_str(s[7] as nat)
        } else {
            "FAIL due to unknown error"@
        }
    } else if rid == 0x0212 {
        if s.len() < 5 {
            "FAIL due to unknown error"@
        } else if s[4] == 0x01 {
            "SUCCESS\nPING 8.8.8.8 OK"@
        } else if s[4] == 0x00 {
            "SUCCESS\nPING 8.8.8.8 NOT OK"@
        } else {
            "SUCCESS\nPING 8.8.8.8 INVALID RESULT"@
        }
    } else if rid == 0x0213 {
        if s.len() < 5 {
            "FAIL due to unknown error"@
        } else if s[4] == 0x01 {
            "SUCCESS\nLTE ENABLED SIGNAL ON"@
        } else if s[4] == 0x02 {
            "SUCCESS\nLTE ENABLED SIGNAL OFF"@
        } else if s[4] == 0x03 {
            "SUCCESS\nLTE ENABLED SIGNAL CAN'T READ"@
        } else {
            "SUCCESS\nLTE ENABLED SIGNAL INVALID RESULT"@
        }
    } else if rid == 0x0214 {
        if s.len() < 8 {
            "FAIL due to unknown error"@
        } else if s[4] == 0xFF && s[5] == 0xFF && s[6] == 0xFF {
            "SUCCESS\nNO LTE MODEM INFO"@
        } else {
            "SUCCESS\nMODEM STATE: "@ + modem_state_name(s[4]) + "\nSIGNAL QUALITY: "@ + dec_str(
                be16(s[5], s[6]) as nat,
            ) + "\nHAS OPERATOR: "@ + bool_str(s[7] == 0x01)
        }
    } else if rid == 0x0215 {
        if s.len() < 5 {
            "FAIL due to unknown error"@
        } else if s[4] == 0x01 {
            "SUCCESS\nBLE ADVERTISING SUCCESS"@
        } else if s[4] == 0x02 {
            "SUCCESS\nBLE ADVERTISING FAIL"@
        } else if s[4] == 0x00 {
            "SUCCESS\nBLE ADVERTISING NO RESULT"@
        } else {
            "SUCCESS\nBLE ADVERTISING INVALID RESULT"@
        }
    } else if rid == 0x0216 {
        if s.len() < 5 {
            "FAIL due to unknown error"@
        } else if s[4] == 0x01 {
            "SUCCESS\nBLE PAIR SUCCESS"@
        } else if s[4] == 0x02 {
            "SUCCESS\nBLE PAIR FAIL"@
        } else if s[4] == 0x00 {
            "SUCCESS\nBLE PAIR NO RESULT"@
        } else {
            "SUCCESS\nBLE PAIR INVALID RESULT"@
        }
    } else if rid == 0x0217 {
        if s.len() < 9 {
            "FAIL due to unknown error"@
        } else {
            "SUCCESS\nMQTT: "@ + bool_str(s[4] == 0x01) + "\nICOM: "@ + bool_str(s[5] == 0x01)
                + "\nSERVICE MANAGER: "@ + bool_str(s[6] == 0x01) + "\nLOGGING: "@ + bool_str(
                s[7] == 0x01,
            ) + "\nOTA: "@ + bool_str(s[8] == 0x01) + "\n"@
        }
    } else {
        "SUCCESS"@
    }
}

/// Renders one routine-result reply as console text.
pub fn routine_result_text(resp: &[u8]) -> (r: String)
    ensures
        r@ == routine_result_text_spec(resp@),
{
    if resp.len() >= 4 && resp[0] == 0x71 {
        let rid: u16 = resp[2] as u16 * 0x100 + resp[3] as u16;
        routine_payload_string(rid, resp)
    } else if resp.len() >= 3 && resp[0] != 0x71 {
        if resp[2] == 0xA0 {
            String::from_str("FAIL due to Service In Progress")
        } else if resp[2] == 0xA1 {
            String::from_str("FAIL due to Incorrect Service ID")
        } else if resp[2] == 0xA2 {
            String::from_str("FAIL due to Invalid Routine Result")
        } else {
            String::from_str("FAIL due to unknown error")
        }
    } else {
        String::from_str("FAIL due to unknown error")
    }
}

/// Renders the per-routine payload of a positive routine-result reply.
fn routine_payload_string(rid: u16, resp: &[u8]) -> (r: String)
    requires
        resp@.len() >= 4,
    ensures
        r@ == routine_payload_text(rid, resp@),
{
    if rid == 0x020D {
        if resp.len() < 7 {
            String::from_str("FAIL due to unknown error")
        } else if resp[4] == 0xFF && resp[5] == 0xFF && resp[6] == 0xFF {
            String::from_str("SUCCESS\nNO WIFI SCAN RESULT")
        } else {
            let mut s = String::from_str("SUCCESS\nNumber of wifi Scan: ");
            let n = u8_to_string(resp[4]);
            s.append(n.as_str());
            s.append("\nBest Signal Strength: ");
            let word: u16 = resp[5] as u16 * 0x100 + resp[6] as u16;
            let signed: i32 = if word >= 0x8000 {
                word as i32 - 0x10000
            } else {
                word as i32
            };
            let sig = i32_to_string(signed);
            s.append(sig.as_str());
            s
        }
    } else if rid == 0x020E {
        if resp.len() < 8 {
            String::from_str("FAIL due to unknown error")
        } else if resp.len() == 9 && resp[4] == 0 && resp[5] == 0 && resp[6] == 0 && resp[7] == 0
            && resp[8] == 0xFF {
            String::from_str("SUCCESS\nNO WIFI IP")
        } else {
            ip_text("SUCCESS\nWIFI IP: ", resp[4], resp[5], resp[6], resp[7])
        }
    } else if rid == 0x020F {
        if resp.len() < 5 {
            String::from_str("FAIL due to unknown error")
        } else if resp[4] == 0x01 {
            String::from_str("SUCCESS\nWIFI INIT SUCCESS")
        } else if resp[4] == 0x02 {
            String::from_str("SUCCESS\nWIFI INIT FAIL")
        } else if resp[4] == 0x03 {
            String::from_str("SUCCESS\nWIFI INIT NO RESULT")
        } else {
            String::from_str("SUCCESS\nWIFI INIT UNKNOWN RESULT")
        }
    } else if rid == 0x0210 {
        if resp.len() < 8 {
            String::from_str("FAIL due to unknown error")
        } else if resp[4] == 0xFF && resp[5] == 0xFF && resp[6] == 0xFF && resp[7] == 0xFF {
            String::from_str("SUCCESS\nNO GPS LOG")
        } else if resp.len() < 11 {
            String::from_str("FAIL due to unknown error")
        } else {
            let year: u16 = resp[4] as u16 * 0x100 + resp[5] as u16;
            if is_valid_timestamp(year, resp[6], resp[7], resp[8], resp[9], resp[10]) {
                let mut s = String::from_str("SUCCESS\nLAST VALID GPS LOG TIMESTAMP: ");
                let ts = format_timestamp(year, resp[6], resp[7], resp[8], resp[9], resp[10]);
                match ts {
                    Some(t) => {
                        s.append(t.as_str());
                        s
                    },
                    None => {
                        proof {
                            assert(false);
                        }
                        s
                    },
                }
            } else {
                String::from_str("SUCCESS\nLAST VALID GPS LOG TIMESTAMP: INVALID")
            }
        }
    } else if rid == 0x0211 {
        if resp.len() >= 9 && resp[4] == 0 && resp[5] == 0 && resp[6] == 0 && resp[7] == 0
            && resp[8] == 0xFF {
            String::from_str("SUCCESS\nNO LTE IP")
        } else if resp.len() >= 8 {
            ip_text("SUCCESS\nLTE IP: ", resp[4], resp[5], resp[6], resp[7])
        } else {
            String::from_str("FAIL due to unknown error")
        }
    } else if rid == 0x0212 {
        if resp.len() < 5 {
            String::from_str("FAIL due to unknown error")
        } else if resp[4] == 0x01 {
            String::from_str("SUCCESS\nPING 8.8.8.8 OK")
        } else if resp[4] == 0x00 {
            String::from_str("SUCCESS\nPING 8.8.8.8 NOT OK")
        } else {
            String::from_str("SUCCESS\nPING 8.8.8.8 INVALID RESULT")
        }
    } else if rid == 0x0213 {
        if resp.len() < 5 {
            String::from_str("FAIL due to unknown error")
        } else if resp[4] == 0x01 {
            String::from_str("SUCCESS\nLTE ENABLED SIGNAL ON")
        } else if resp[4] == 0x02 {
            String::from_str("SUCCESS\nLTE ENABLED SIGNAL OFF")
        } else if resp[4] == 0x03 {
            String::from_str("SUCCESS\nLTE ENABLED SIGNAL CAN'T READ")
        } else {
            String::from_str("SUCCESS\nLTE ENABLED SIGNAL INVALID RESULT")
        }
    } else if rid == 0x0214 {
        if resp.len() < 8 {
            String::from_str("FAIL due to unknown error")
        } else if resp[4] == 0xFF && resp[5] == 0xFF && resp[6] == 0xFF {
            String::from_str("SUCCESS\nNO LTE MODEM INFO")
        } else {
            let mut s = String::from_str("SUCCESS\nMODEM STATE: ");
            s.append(modem_state_str(resp[4]));
            s.append("\nSIGNAL QUALITY: ");
            let q = u16_to_string(resp[5] as u16 * 0x100 + resp[6] as u16);
            s.append(q.as_str());
            s.append("\nHAS OPERATOR: ");
            let b = bool_to_string(resp[7] == 0x01);
            s.append(b.as_str());
            s
        }
    } else if rid == 0x0215 {
        if resp.len() < 5 {
            String::from_str("FAIL due to unknown error")
        } else if resp[4] == 0x01 {
            String::from_str("SUCCESS\nBLE ADVERTISING SUCCESS")
        } else if resp[4] == 0x02 {
            String::from_str("SUCCESS\nBLE ADVERTISING FAIL")
        } else if resp[4] == 0x00 {
            String::from_str("SUCCESS\nBLE ADVERTISING NO RESULT")
        } else {
            String::from_str("SUCCESS\nBLE ADVERTISING INVALID RESULT")
        }
    } else if rid == 0x0216 {
        if resp.len() < 5 {
            String::from_str("FAIL due to unknown error")
        } else if resp[4] == 0x01 {
            String::from_str("SUCCESS\nBLE PAIR SUCCESS")
        } else if resp[4] == 0x02 {
            String::from_str("SUCCESS\nBLE PAIR FAIL")
        } else if resp[4] == 0x00 {
            String::from_str("SUCCESS\nBLE PAIR NO RESULT")
        } else {
            String::from_str("SUCCESS\nBLE PAIR INVALID RESULT")
        }
    } else if rid == 0x0217 {
        if resp.len() < 9 {
            String::from_str("FAIL due to unknown error")
        } else {
            let mut s = String::from_str("SUCCESS\nMQTT: ");
            let b4 = bool_to_string(resp[4] == 0x01);
            s.append(b4.as_str());
            s.append("\nICOM: ");
            let b5 = bool_to_string(resp[5] == 0x01);
            s.append(b5.as_str());
            s.append("\nSERVICE MANAGER: ");
            let b6 = bool_to_string(resp[6] == 0x01);
            s.append(b6.as_str());
            s.append("\nLOGGING: ");
            let b7 = bool_to_string(resp[7] == 0x01);
            s.append(b7.as_str());
            s.append("\nOTA: ");
            let b8 = bool_to_string(resp[8] == 0x01);
            s.append(b8.as_str());
            s.append("\n");
            s
        }
    } else {
        String::from_str("SUCCESS")
    }
}

/// Renders a dotted address after a label.
fn ip_text(label: &str, a: u8, b: u8, c: u8, d: u8) -> (r: String)
    ensures
        r@ == label@ + dec_str(a as nat) + "."@ + dec_str(b as nat) + "."@ + dec_str(c as nat)
            + "."@ + dec_str(d as nat),
{
    let mut s = String::from_str(label);
    let sa = u8_to_string(a);
    s.append(sa.as_str());
    s.append(".");
    let sb = u8_to_string(b);
    s.append(sb.as_str());
    s.append(".");
    let sc = u8_to_string(c);
    s.append(sc.as_str());
    s.append(".");
    let sd = u8_to_string(d);
    s.append(sd.as_str());
    s
}

} // verus!
