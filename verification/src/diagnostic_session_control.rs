//! Diagnostic session types and the session-state rules: the current
//! mode changes only on a positive reply to the session-control
//! service.

use vstd::prelude::*;

use crate::errors::is_positive_reply;
use crate::security_access::SecurityLevelAccess;

verus! {

/// Service identifier of DiagnosticSessionControl.
pub open spec fn sid_session_control() -> u8 {
    0x10
}

/// Service identifier of SecurityAccess.
pub open spec fn sid_security_access() -> u8 {
    0x27
}

/// Diagnostic session modes of the ECU.
#[derive(Debug, Clone, Copy, PartialEq, Eq, PartialOrd, Ord, Structural)]
pub enum UdsSessionType {
    /// Ordinary operation; no tester-present messages required.
    Default,
    /// Enables the services used for flashing and programming.
    Programming,
    /// Enables all diagnostic services and value adjustment.
    Extended,
    /// Enables safety-system related services.
    SafetySystem,
    /// Continuous telemetry streaming.
    StreamMode,
    /// Any byte that names no known session.
    Invalid,
}

/// The wire byte of each session type.
pub open spec fn session_byte(s: UdsSessionType) -> u8 {
    match s {
        UdsSessionType::Default => 0x01,
        UdsSessionType::Programming => 0x02,
        UdsSessionType::Extended => 0x03,
        UdsSessionType::SafetySystem => 0x04,
        UdsSessionType::StreamMode => 0x08,
        UdsSessionType::Invalid => 0xFF,
    }
}

/// The session type a wire byte names; unknown bytes name `Invalid`.
pub open spec fn session_of_byte(b: u8) -> UdsSessionType {
    if b == 0x01 {
        UdsSessionType::Default
    } else if b == 0x02 {
        UdsSessionType::Programming
    } else if b == 0x03 {
        UdsSessionType::Extended
    } else if b == 0x04 {
        UdsSessionType::SafetySystem
    } else if b == 0x08 {
        UdsSessionType::StreamMode
    } else {
        UdsSessionType::Invalid
    }
}

impl UdsSessionType {
    /// The wire byte of this session type.
    pub fn to_byte(&self) -> (r: u8)
        ensures
            r == session_byte(*self),
    {
        match *self {
            UdsSessionType::Default => 0x01,
            UdsSessionType::Programming => 0x02,
            UdsSessionType::Extended => 0x03,
            UdsSessionType::SafetySystem => 0x04,
            UdsSessionType::StreamMode => 0x08,
            UdsSessionType::Invalid => 0xFF,
        }
    }

    /// Decodes a session byte; unknown bytes yield `Invalid`.
    pub fn from_byte(byte_value: u8) -> (r: Self)
        ensures
            r == session_of_byte(byte_value),
    {
        match byte_value {
            0x01 => UdsSessionType::Default,
            0x02 => UdsSessionType::Programming,
            0x03 => UdsSessionType::Extended,
            0x04 => UdsSessionType::SafetySystem,
            0x08 => UdsSessionType::StreamMode,
            _ => UdsSessionType::Invalid,
        }
    }
}

/// The client's view of the ECU's diagnostic state: session mode,
/// whether tester-present messages are owed, and the security level
/// held.
#[derive(Debug, Clone, PartialEq, Eq)]
pub struct DiagSessionMode {
    /// The session the ECU is believed to be in.
    pub mode: UdsSessionType,
    /// Whether periodic tester-present messages must be sent.
    pub tp_require: bool,
    /// The security level the client holds.
    pub sec_level: SecurityLevelAccess,
    /// Display name of this client.
    pub name: String,
}

/// The session state after one service reply has been observed. The
/// mode field changes only on a positive reply to the session-control
/// service; the security level and the tester-present obligation
/// change only on a positive reply to a send-key request; a
/// tester-present reply changes nothing.
pub open spec fn session_after_reply(
    s: DiagSessionMode,
    sid: u8,
    sub: u8,
    resp: Seq<u8>,
) -> DiagSessionMode {
    if is_positive_reply(sid, resp) && sid == sid_session_control() {
        DiagSessionMode { mode: session_of_byte(sub), ..s }
    } else if is_positive_reply(sid, resp) && sid == sid_security_access()
        && crate::security_access::is_send_key_byte(sub) {
        DiagSessionMode {
            sec_level: crate::security_access::security_level_of_byte(sub),
            tp_require: true,
            ..s
        }
    } else {
        s
    }
}

impl DiagSessionMode {
    /// Folds one observed service reply into the session state.
    pub fn apply_reply(&mut self, sid: u8, sub: u8, resp: &[u8])
        ensures
            *final(self) == session_after_reply(*old(self), sid, sub, resp@),
    {
        let positive = resp.len() > 0 && sid <= 0xBF && resp[0] == sid + 0x40;
        proof {
            if sid > 0xBF {
                assert(sid + 0x40 > 0xFF);
                assert(!is_positive_reply(sid, resp@));
            }
        }
        if positive && sid == 0x10 {
            self.mode = UdsSessionType::from_byte(sub);
        } else if positive && sid == 0x27 && (sub == 0x04 || sub == 0x06) {
            self.sec_level = SecurityLevelAccess::from_byte(sub);
            self.tp_require = true;
        }
    }
}

/// The session mode changes only as a direct consequence of a positive
/// reply to the session-control service: any reply that leaves a
/// different mode behind was a positive session-control reply.
pub proof fn lemma_mode_changes_only_on_session_control(
    s: DiagSessionMode,
    sid: u8,
    sub: u8,
    resp: Seq<u8>,
)
    ensures
        session_after_reply(s, sid, sub, resp).mode != s.mode ==> sid == sid_session_control()
            && is_positive_reply(sid, resp),
{
}

/// Tester-present replies are idempotent: observing any number of
/// tester-present replies leaves the session state exactly as it was.
pub proof fn lemma_tester_present_idempotent(s: DiagSessionMode, sub: u8, resp: Seq<u8>)
    ensures
        session_after_reply(s, 0x3E, sub, resp) == s,
        session_after_reply(session_after_reply(s, 0x3E, sub, resp), 0x3E, sub, resp) == s,
{
}

} // verus!
