//! The diagnostic client: one outstanding request at a time, reply
//! classification with the response-pending and busy-repeat rules, the
//! tester-present obligation, and the session-control and
//! security-access services.

use vstd::prelude::*;

use crate::api::UdsServiceResponse;
use crate::diagnostic_session_control::session_after_reply;
use crate::diagnostic_session_control::session_byte;
use crate::diagnostic_session_control::DiagSessionMode;
use crate::diagnostic_session_control::UdsSessionType;
use crate::errors::is_negative_reply;
use crate::errors::is_positive_reply;
use crate::errors::process_ecu_response;
use crate::errors::ReplyClass;
use crate::errors::UdsClientError;
use crate::isotp::pad8;
use crate::isotp::sf_data;
use crate::isotp::encode_single_frame;
use crate::security_access::security_byte;
use crate::security_access::SecurityLevelAccess;
use vstd::slice::slice_subrange;
use vstd::slice::slice_to_vec;

verus! {

/// Extension of the reply deadline granted by a response-pending
/// answer, in milliseconds.
pub const N_CR_EXT_MS: u64 = 5000;

/// Most consecutive response-pending answers tolerated on one request.
pub const MAX_PENDING_RESPONSES: u8 = 10;

/// Delay before the single automatic re-send after a busy-repeat
/// answer, in milliseconds.
pub const BUSY_RETRY_DELAY_MS: u64 = 100;

/// Reply deadline granted to a fresh request, in milliseconds.
pub const REPLY_TIMEOUT_MS: u64 = 5000;

/// Read and write deadlines of the underlying channel.
#[derive(Debug, Clone, Copy, PartialEq, Eq)]
pub struct TimeoutConfig {
    /// Deadline for reading a reply, in milliseconds.
    pub read_timeout_ms: u32,
    /// Deadline for writing a request, in milliseconds.
    pub write_timeout_ms: u32,
}

/// Addressing and timing of the diagnostic link.
#[derive(Debug, Clone, Copy, PartialEq, Eq)]
pub struct DiagServerBasicOptions {
    /// CAN identifier requests are sent on.
    pub send_id: u32,
    /// CAN identifier replies arrive on.
    pub recv_id: u32,
    /// Channel deadlines.
    pub timeout_cfg: TimeoutConfig,
}

/// Tuning of the keep-alive and session behaviour.
#[derive(Debug, Clone, Copy, PartialEq, Eq)]
pub struct DiagServerAdvancedOptions {
    /// Functional-addressing identifier, when one is used.
    pub global_tp_id: u32,
    /// Idle time after which a tester-present message is owed, in
    /// milliseconds; must stay below the ECU's session timeout.
    pub tester_present_interval_ms: u32,
    /// Whether tester-present messages request a response.
    pub tester_present_require_response: bool,
    /// Whether session control is sent functionally to all ECUs.
    pub global_session_control: bool,
    /// Extended-address byte for the functional identifier.
    pub tp_ext_id: Option<u8>,
    /// Optional pause between consecutive commands, in milliseconds.
    pub command_cooldown_ms: u32,
}

/// One outstanding request: its service identifier, the deadline by
/// which the reply is owed, and the counters the reply rules use.
#[derive(Debug, Clone, Copy, PartialEq, Eq)]
pub struct PendingRequest {
    /// Service identifier of the request on the wire.
    pub sid: u8,
    /// Deadline for the reply, in milliseconds of the caller's clock.
    pub deadline_ms: u64,
    /// Consecutive response-pending answers seen so far.
    pub pending_count: u8,
    /// Whether the one automatic busy-repeat re-send was used.
    pub busy_retried: bool,
}

/// What the caller must do after handing a reply to the client.
#[derive(Debug, Clone, Copy, PartialEq, Eq)]
pub enum ReplyAction {
    /// The reply is final and positive: deliver it to the service layer.
    Deliver,
    /// The ECU asked for more time: keep waiting until the new deadline.
    ExtendDeadline(u64),
    /// The ECU was busy: re-send the same request after this delay.
    Retry(u64),
    /// The request failed with this error.
    Failed(UdsClientError),
}

/// The diagnostic client: session state, link options and the one
/// outstanding request.
#[derive(Debug)]
pub struct UDSClientSession {
    /// The client's view of the ECU's session and security state.
    pub current_diag_mode: DiagSessionMode,
    /// Addressing and timing of the link.
    pub basic_option: DiagServerBasicOptions,
    /// Keep-alive and session tuning.
    pub advanced_options: DiagServerAdvancedOptions,
    /// The one request in flight, when there is one.
    pub pending: Option<PendingRequest>,
}

/// The CAN frame bytes of a one-frame command: the single-frame
/// header, the service identifier, the arguments, and padding when it
/// is on.
pub open spec fn command_frame(cmd: u8, args: Seq<u8>, pad: bool) -> Seq<u8> {
    pad8(sf_data(seq![cmd] + args), pad)
}

/// Builds the CAN frame bytes carrying a service request of at most
/// six argument bytes.
pub fn build_command_frame(cmd: u8, args: &[u8], pad: bool) -> (r: Vec<u8>)
    requires
        args@.len() <= 6,
    ensures
        r@ == command_frame(cmd, args@, pad),
{
    let mut payload: Vec<u8> = Vec::new();
    payload.push(cmd);
    crate::isotp::extend_from_slice_range(&mut payload, args, 0, args.len());
    proof {
        assert(payload@ =~= seq![cmd] + args@);
    }
    encode_single_frame(payload.as_slice(), pad)
}

impl UDSClientSession {
    /// A client in the default session with no security level, the
    /// standard identifiers, and the default deadlines.
    pub fn new_client() -> (r: Self)
        ensures
            r.current_diag_mode.mode == UdsSessionType::Default,
            r.current_diag_mode.sec_level == SecurityLevelAccess::Locked,
            !r.current_diag_mode.tp_require,
            r.basic_option.send_id == 0x784,
            r.basic_option.recv_id == 0x7F0,
            r.basic_option.timeout_cfg.read_timeout_ms == 5000,
            r.basic_option.timeout_cfg.write_timeout_ms == 5000,
            r.advanced_options.tester_present_interval_ms == 40000,
            r.pending is None,
    {
        UDSClientSession {
            current_diag_mode: DiagSessionMode {
                mode: UdsSessionType::Default,
                tp_require: false,
                sec_level: SecurityLevelAccess::Locked,
                name: String::from_str("UDS Client"),
            },
            basic_option: DiagServerBasicOptions {
                send_id: 0x784,
                recv_id: 0x7F0,
                timeout_cfg: TimeoutConfig { read_timeout_ms: 5000, write_timeout_ms: 5000 },
            },
            advanced_options: DiagServerAdvancedOptions {
                global_tp_id: 0,
                tester_present_interval_ms: 40000,
                tester_present_require_response: false,
                global_session_control: false,
                tp_ext_id: None,
                command_cooldown_ms: 0,
            },
            pending: None,
        }
    }

    /// Whether a request is in flight.
    pub fn has_outstanding(&self) -> (r: bool)
        ensures
            r == (self.pending is Some),
    {
        self.pending.is_some()
    }

    /// Opens the one transaction this client allows. A second request
    /// cannot be opened until the first completes: callers must prove
    /// no request is outstanding.
    pub fn begin_request(&mut self, sid: u8, now_ms: u64)
        requires
            old(self).pending is None,
            now_ms + REPLY_TIMEOUT_MS <= u64::MAX,
        ensures
            final(self).pending == Some(
                PendingRequest {
                    sid,
                    deadline_ms: (now_ms + REPLY_TIMEOUT_MS) as u64,
                    pending_count: 0,
                    busy_retried: false,
                },
            ),
            final(self).current_diag_mode == old(self).current_diag_mode,
            final(self).basic_option == old(self).basic_option,
            final(self).advanced_options == old(self).advanced_options,
    {
        self.pending = Some(
            PendingRequest {
                sid,
                deadline_ms: now_ms + REPLY_TIMEOUT_MS,
                pending_count: 0,
                busy_retried: false,
            },
        );
    }

    /// Whether the outstanding request's reply deadline has passed.
    pub fn deadline_elapsed(&self, now_ms: u64) -> (r: bool)
        ensures
            r == (self.pending matches Some(p) && now_ms > p.deadline_ms),
    {
        match &self.pending {
            Some(p) => now_ms > p.deadline_ms,
            None => false,
        }
    }

    /// Folds one raw reply into the outstanding request. A positive
    /// reply closes the transaction; a response-pending answer extends
    /// the deadline up to the allowed count and is never surfaced
    /// otherwise; a busy-repeat answer grants one delayed re-send; any
    /// other negative answer, an empty reply or an unrelated reply
    /// closes the transaction with the corresponding error.
    pub fn on_reply(&mut self, resp: &[u8], now_ms: u64) -> (r: ReplyAction)
        requires
            old(self).pending is Some,
            old(self).pending->Some_0.sid <= 0xBF,
            now_ms + N_CR_EXT_MS <= u64::MAX,
        ensures
            final(self).current_diag_mode == old(self).current_diag_mode,
            ({
                let p = old(self).pending->Some_0;
                &&& is_positive_reply(p.sid, resp@) ==> r == ReplyAction::Deliver && final(self).pending is None
                &&& resp@.len() == 0 ==> r == ReplyAction::Failed(UdsClientError::EmptyResponse)
                    && final(self).pending is None
                &&& !is_positive_reply(p.sid, resp@) && is_negative_reply(p.sid, resp@) ==> {
                    &&& resp@[2] == 0x78 && p.pending_count < MAX_PENDING_RESPONSES ==> r
                        == ReplyAction::ExtendDeadline((now_ms + N_CR_EXT_MS) as u64) && final(self).pending == Some(
                        PendingRequest {
                            pending_count: (p.pending_count + 1) as u8,
                            deadline_ms: (now_ms + N_CR_EXT_MS) as u64,
                            ..p
                        },
                    )
                    &&& resp@[2] == 0x78 && p.pending_count >= MAX_PENDING_RESPONSES ==> r
                        == ReplyAction::Failed(UdsClientError::NegativeResponse(0x78)) && final(self).pending is None
                    &&& resp@[2] == 0x21 && !p.busy_retried ==> r == ReplyAction::Retry(
                        BUSY_RETRY_DELAY_MS,
                    ) && final(self).pending == Some(PendingRequest { busy_retried: true, ..p })
                    &&& resp@[2] == 0x21 && p.busy_retried ==> r == ReplyAction::Failed(
                        UdsClientError::NegativeResponse(0x21),
                    ) && final(self).pending is None
                    &&& resp@[2] != 0x78 && resp@[2] != 0x21 ==> r == ReplyAction::Failed(
                        UdsClientError::NegativeResponse(resp@[2]),
                    ) && final(self).pending is None
                }
                &&& resp@.len() > 0 && !is_positive_reply(p.sid, resp@) && !is_negative_reply(
                    p.sid,
                    resp@,
                ) ==> r == ReplyAction::Failed(UdsClientError::WrongResponseSid) && final(self).pending is None
            }),
    {
        let p = match &self.pending {
            Some(p) => *p,
            None => {
                proof {
                    assert(false);
                }
                return ReplyAction::Failed(UdsClientError::NotSupported);
            },
        };
        let sid_buf = [p.sid];
        let class = process_ecu_response(sid_buf.as_slice(), resp);
        match class {
            ReplyClass::Positive => {
                self.pending = None;
                ReplyAction::Deliver
            },
            ReplyClass::Empty => {
                self.pending = None;
                ReplyAction::Failed(UdsClientError::EmptyResponse)
            },
            ReplyClass::Negative(nrc) => {
                if nrc == 0x78 {
                    if p.pending_count < MAX_PENDING_RESPONSES {
                        let new_deadline = now_ms + N_CR_EXT_MS;
                        self.pending = Some(
                            PendingRequest {
                                pending_count: p.pending_count + 1,
                                deadline_ms: new_deadline,
                                ..p
                            },
                        );
                        ReplyAction::ExtendDeadline(new_deadline)
                    } else {
                        self.pending = None;
                        ReplyAction::Failed(UdsClientError::NegativeResponse(0x78))
                    }
                } else if nrc == 0x21 {
                    if !p.busy_retried {
                        self.pending = Some(PendingRequest { busy_retried: true, ..p });
                        ReplyAction::Retry(BUSY_RETRY_DELAY_MS)
                    } else {
                        self.pending = None;
                        ReplyAction::Failed(UdsClientError::NegativeResponse(0x21))
                    }
                } else {
                    self.pending = None;
                    ReplyAction::Failed(UdsClientError::NegativeResponse(nrc))
                }
            },
            ReplyClass::Unexpected => {
                self.pending = None;
                ReplyAction::Failed(UdsClientError::WrongResponseSid)
            },
        }
    }

    /// Whether a tester-present message is owed now: the session
    /// requires keep-alives and the link has been idle longer than the
    /// tester-present interval. Asking changes nothing, so repeated
    /// tester-present handling leaves the session state as it was.
    pub fn uds_tester_present(&self, elapsed_time_ms: u64) -> (r: bool)
        ensures
            r == (self.current_diag_mode.tp_require && elapsed_time_ms
                > self.advanced_options.tester_present_interval_ms),
    {
        self.current_diag_mode.tp_require && elapsed_time_ms
            > self.advanced_options.tester_present_interval_ms as u64
    }

    /// The request bytes of a session-control command.
    pub fn session_control_request(&self, session_mode: UdsSessionType) -> (r: Vec<u8>)
        ensures
            r@ == seq![0x10u8, session_byte(session_mode)],
    {
        let mut v: Vec<u8> = Vec::new();
        v.push(0x10);
        v.push(session_mode.to_byte());
        proof {
            assert(v@ =~= seq![0x10u8, session_byte(session_mode)]);
        }
        v
    }

    /// Folds the ECU's reply to a session-control command into the
    /// session state: a positive reply enters the requested session and
    /// reports success; a negative or empty reply leaves the session
    /// unchanged and reports the failure.
    pub fn uds_set_session_mode(&mut self, session_mode: UdsSessionType, resp: &[u8]) -> (r:
        UdsServiceResponse)
        ensures
            final(self).current_diag_mode == session_after_reply(
                old(self).current_diag_mode,
                0x10,
                session_byte(session_mode),
                resp@,
            ),
            final(self).pending == old(self).pending,
            is_positive_reply(0x10, resp@) ==> (r matches UdsServiceResponse::Success(d)
                && d.console_output@ == "SUCCESS"@),
            resp@.len() > 0 && !is_positive_reply(0x10, resp@) ==> (r
                matches UdsServiceResponse::Fail(d) && d.console_output@
                == "FAIL\nNEGATIVE UDS RESPONSE"@),
            resp@.len() == 0 ==> (r matches UdsServiceResponse::Fail(d) && d.console_output@
                == "FAIL\nEMPTY UDS RESPONSE"@),
    {
        let sub = session_mode.to_byte();
        self.current_diag_mode.apply_reply(0x10, sub, resp);
        if resp.len() == 0 {
            UdsServiceResponse::fail(String::from_str("FAIL\nEMPTY UDS RESPONSE"))
        } else if resp[0] == 0x10 + 0x40 {
            UdsServiceResponse::success(String::from_str("SUCCESS"))
        } else {
            UdsServiceResponse::fail(String::from_str("FAIL\nNEGATIVE UDS RESPONSE"))
        }
    }

    /// The request bytes of a security-access seed request or key
    /// submission without its key bytes.
    pub fn security_access_request(&self, sub_fcn: SecurityLevelAccess) -> (r: Vec<u8>)
        ensures
            r@ == seq![0x27u8, security_byte(sub_fcn)],
    {
        let mut v: Vec<u8> = Vec::new();
        v.push(0x27);
        v.push(sub_fcn.to_byte());
        proof {
            assert(v@ =~= seq![0x27u8, security_byte(sub_fcn)]);
        }
        v
    }

    /// Extracts the five-byte seed from the ECU's reply to a seed
    /// request. A positive reply of the documented length yields the
    /// seed; a positive reply of any other length is a parameter
    /// fault; a negative, empty or unrelated reply yields the
    /// corresponding error.
    pub fn uds_security_access_request_seed(&mut self, sub_fcn: SecurityLevelAccess, resp: &[u8])
        -> (r: Result<Vec<u8>, UdsClientError>)
        ensures
            *final(self) == *old(self),
            is_positive_reply(0x27, resp@) && resp@.len() == 7 ==> r is Ok && r->Ok_0@
                == resp@.subrange(2, 7),
            is_positive_reply(0x27, resp@) && resp@.len() != 7 ==> r == Err::<
                Vec<u8>,
                UdsClientError,
            >(UdsClientError::ParameterInvalid),
            resp@.len() == 0 ==> r == Err::<Vec<u8>, UdsClientError>(
                UdsClientError::EmptyResponse,
            ),
            resp@.len() > 0 && !is_positive_reply(0x27, resp@) && is_negative_reply(0x27, resp@)
                ==> r == Err::<Vec<u8>, UdsClientError>(
                UdsClientError::NegativeResponse(resp@[2]),
            ),
            resp@.len() > 0 && !is_positive_reply(0x27, resp@) && !is_negative_reply(0x27, resp@)
                ==> r == Err::<Vec<u8>, UdsClientError>(UdsClientError::WrongResponseSid),
    {
        let _ = sub_fcn;
        if resp.len() == 0 {
            return Err(UdsClientError::EmptyResponse);
        }
        if resp[0] == 0x27 + 0x40 {
            if resp.len() == 7 {
                Ok(slice_to_vec(slice_subrange(resp, 2, 7)))
            } else {
                Err(UdsClientError::ParameterInvalid)
            }
        } else if resp.len() >= 3 && resp[0] == 0x7F && resp[1] == 0x27 {
            Err(UdsClientError::NegativeResponse(resp[2]))
        } else {
            Err(UdsClientError::WrongResponseSid)
        }
    }

    /// The request bytes of a key submission: the sub-function must be
    /// a send-key level and the key must be the five bytes the seed
    /// handshake produces, else the parameters are rejected.
    pub fn security_access_key_request(&self, sub_fcn: SecurityLevelAccess, key: &[u8]) -> (r:
        Result<Vec<u8>, UdsClientError>)
        ensures
            crate::security_access::is_send_key_byte(security_byte(sub_fcn)) && key@.len() == 5
                ==> r is Ok && r->Ok_0@ == seq![0x27u8, security_byte(sub_fcn)] + key@,
            !(crate::security_access::is_send_key_byte(security_byte(sub_fcn)) && key@.len() == 5)
                ==> r == Err::<Vec<u8>, UdsClientError>(UdsClientError::ParameterInvalid),
    {
        let sub = sub_fcn.to_byte();
        if !(sub == 0x04 || sub == 0x06) || key.len() != 5 {
            return Err(UdsClientError::ParameterInvalid);
        }
        let mut v: Vec<u8> = Vec::new();
        v.push(0x27);
        v.push(sub);
        crate::isotp::extend_from_slice_range(&mut v, key, 0, key.len());
        proof {
            assert(v@ =~= seq![0x27u8, security_byte(sub_fcn)] + key@);
        }
        Ok(v)
    }

    /// Folds the ECU's reply to a key submission into the session
    /// state: a positive reply grants the submitted level and turns the
    /// tester-present obligation on; anything else leaves the state
    /// unchanged.
    pub fn uds_security_access_send_key(&mut self, sub_fcn: SecurityLevelAccess, resp: &[u8])
        -> (r: Result<(), UdsClientError>)
        ensures
            final(self).current_diag_mode == session_after_reply(
                old(self).current_diag_mode,
                0x27,
                security_byte(sub_fcn),
                resp@,
            ),
            final(self).pending == old(self).pending,
            is_positive_reply(0x27, resp@) ==> r is Ok,
            resp@.len() == 0 ==> r == Err::<(), UdsClientError>(UdsClientError::EmptyResponse),
            resp@.len() > 0 && !is_positive_reply(0x27, resp@) && is_negative_reply(0x27, resp@)
                ==> r == Err::<(), UdsClientError>(UdsClientError::NegativeResponse(resp@[2])),
            resp@.len() > 0 && !is_positive_reply(0x27, resp@) && !is_negative_reply(0x27, resp@)
                ==> r == Err::<(), UdsClientError>(UdsClientError::WrongResponseSid),
    {
        let sub = sub_fcn.to_byte();
        self.current_diag_mode.apply_reply(0x27, sub, resp);
        if resp.len() == 0 {
            Err(UdsClientError::EmptyResponse)
        } else if resp[0] == 0x27 + 0x40 {
            Ok(())
        } else if resp.len() >= 3 && resp[0] == 0x7F && resp[1] == 0x27 {
            Err(UdsClientError::NegativeResponse(resp[2]))
        } else {
            Err(UdsClientError::WrongResponseSid)
        }
    }

    /// The request bytes of a tester-present message.
    pub fn tester_present_request(&self) -> (r: Vec<u8>)
        ensures
            r@ == seq![0x3Eu8],
    {
        let mut v: Vec<u8> = Vec::new();
        v.push(0x3E);
        proof {
            assert(v@ =~= seq![0x3Eu8]);
        }
        v
    }
}

} // verus!
