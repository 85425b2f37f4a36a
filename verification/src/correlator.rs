//! Correlation of connectivity routines with the gateway agent's
//! asynchronous answers: the outbound message encoding, the inbound
//! first-in-first-out queue that never drops an answer, and the text
//! each popped answer is shown as.

use vstd::prelude::*;

use crate::bytes::dec_str;
use crate::bytes::int_dec_str;
use crate::bytes::i32_to_string;
use crate::bytes::u8_to_string;
use crate::routine_control::domain_name;
use crate::routine_control::Domain;
use crate::routine_control::ServiceRequest;
use crate::routine_control::ServiceResponse;

verus! {

/// The one-object message that carries a gateway command: a JSON
/// object with the domain's name and the command number.
pub open spec fn service_request_json(d: Domain, command: u8) -> Seq<char> {
    "{\"domain\":\""@ + domain_name(d) + "\",\"command\":"@ + dec_str(command as nat) + "}"@
}

impl ServiceRequest {
    /// Encodes this request as the JSON object the gateway expects.
    pub fn to_json(&self) -> (r: String)
        ensures
            r@ == service_request_json(self.domain, self.command),
    {
        let mut s = String::from_str("{\"domain\":\"");
        s.append(self.domain.name());
        s.append("\",\"command\":");
        let c = u8_to_string(self.command);
        s.append(c.as_str());
        s.append("}");
        s
    }
}

/// The in-order queue of answers received from the gateway. Answers
/// are pushed as they arrive and popped from the front: no answer is
/// dropped before the consumer has had a chance to pop it, and answers
/// come out in arrival order.
pub struct TcpCorrelator {
    /// Answers received and not yet consumed, oldest first.
    queue: Vec<ServiceResponse>,
    /// Whether the gateway connection is up.
    connected: bool,
}

impl TcpCorrelator {
    /// The answers waiting to be consumed, oldest first.
    pub closed spec fn pending(self) -> Seq<ServiceResponse> {
        self.queue@
    }

    /// Whether the gateway connection is up.
    pub closed spec fn is_connected(self) -> bool {
        self.connected
    }

    /// Whether the gateway connection is up.
    pub fn connected(&self) -> (r: bool)
        ensures
            r == self.is_connected(),
    {
        self.connected
    }

    /// An empty correlator for a fresh connection.
    pub fn new() -> (r: Self)
        ensures
            r.pending().len() == 0,
            r.is_connected(),
    {
        TcpCorrelator { queue: Vec::new(), connected: true }
    }

    /// How many answers wait to be consumed.
    pub fn pending_len(&self) -> (r: usize)
        ensures
            r == self.pending().len(),
    {
        self.queue.len()
    }

    /// Enqueues one answer from the gateway. Every answer already
    /// queued stays queued: nothing is dropped.
    pub fn push_response(&mut self, resp: ServiceResponse)
        ensures
            final(self).pending() == old(self).pending().push(resp),
            final(self).is_connected() == old(self).is_connected(),
    {
        self.queue.push(resp);
    }

    /// Pops the oldest waiting answer, if any: answers leave in the
    /// order they arrived.
    pub fn try_pop(&mut self) -> (r: Option<ServiceResponse>)
        ensures
            old(self).pending().len() == 0 ==> r is None && final(self).pending()
                == old(self).pending(),
            old(self).pending().len() > 0 ==> (r matches Some(m) && m == old(self).pending()[0])
                && final(self).pending() == old(self).pending().skip(1),
            final(self).is_connected() == old(self).is_connected(),
    {
        if self.queue.len() == 0 {
            return None;
        }
        let m = self.queue.remove(0);
        proof {
            assert(self.queue@ =~= old(self).queue@.skip(1));
        }
        Some(m)
    }

    /// Marks the gateway connection as gone.
    pub fn disconnect(&mut self)
        ensures
            final(self).pending() == old(self).pending(),
            !final(self).is_connected(),
    {
        self.connected = false;
    }
}

/// The console text shown when a connectivity routine's result is
/// asked for: the popped answer's text, a note that nothing has
/// arrived, or a note that the channel is gone.
pub open spec fn connectivity_result_text(popped: Option<ServiceResponse>, connected: bool)
    -> Seq<char> {
    match popped {
        Some(m) => "SUCCESS\n"@ + m.response@,
        None => if connected {
            "SUCCESS\nNO RESULT TO SHOW\nNO SERVICE IS RUNNING OR CURRENT SERVICE IS STILL RUNNING"@
        } else {
            "SUCCESS\nNO RESULT: RECEIVING CHANNEL IS DISCONNECTED. TRY RESTART THE APP"@
        },
    }
}

/// Renders a popped connectivity answer, or its absence, as console
/// text.
pub fn render_connectivity_result(popped: Option<&ServiceResponse>, connected: bool) -> (r:
    String)
    ensures
        popped matches Some(m) ==> r@ == connectivity_result_text(
            Some(*m),
            connected,
        ),
        popped is None ==> r@ == connectivity_result_text(
            None,
            connected,
        ),
{
    match popped {
        Some(m) => {
            let mut s = String::from_str("SUCCESS\n");
            s.append(m.response.as_str());
            s
        },
        None => {
            if connected {
                String::from_str(
                    "SUCCESS\nNO RESULT TO SHOW\nNO SERVICE IS RUNNING OR CURRENT SERVICE IS STILL RUNNING",
                )
            } else {
                String::from_str(
                    "SUCCESS\nNO RESULT: RECEIVING CHANNEL IS DISCONNECTED. TRY RESTART THE APP",
                )
            }
        },
    }
}

/// The guidance appended to a signal-strength reading.
pub open spec fn signal_strength_map_text() -> Seq<char> {
    "\n Signal Strength Map:\n rsrp >= -80.0 => Excellent\n\nrsrp >= -90.0 => Good\n\nrsrp >= -100.0 => Fair to poor\n\nrsrp >= -120.0 => very poor signal"@
}

impl ServiceResponse {
    /// Whether this answer is a Wi-Fi scan listing that still needs its
    /// JSON text decoded into a scan record before display.
    pub fn needs_wifi_scan_parse(&self) -> (r: bool)
        ensures
            r == (self.domain == Domain::Wifi && self.command == 0x01 && self.response@
                != "NO SCAN RESULT"@),
    {
        matches!(self.domain, Domain::Wifi) && self.command == 0x01 && !crate::bytes::str_eq(
            self.response.as_str(),
            "NO SCAN RESULT",
        )
    }

    /// Post-processes an answer for display: a signal-strength reading
    /// gains the guidance map; everything else is left as it arrived.
    /// Wi-Fi scan listings are reformatted separately once their JSON
    /// text has been decoded.
    pub fn parse_response(&mut self)
        ensures
            old(self).domain == Domain::Lte && old(self).command == 0x05 ==> final(self).response@
                == old(self).response@ + signal_strength_map_text(),
            !(old(self).domain == Domain::Lte && old(self).command == 0x05) ==> *final(self)
                == *old(self),
            final(self).domain == old(self).domain,
            final(self).command == old(self).command,
    {
        if matches!(self.domain, Domain::Lte) && self.command == 0x05 {
            self.response.append(
                "\n Signal Strength Map:\n rsrp >= -80.0 => Excellent\n\nrsrp >= -90.0 => Good\n\nrsrp >= -100.0 => Fair to poor\n\nrsrp >= -120.0 => very poor signal",
            );
        }
    }
}

/// A scan listing from the Wi-Fi subsystem: network names and their
/// signal strengths, pairwise.
#[derive(Debug)]
pub struct WifiScanInfo {
    /// Network names found by the scan.
    pub names: Vec<String>,
    /// Signal strength of each named network.
    pub signal_strength: Vec<i16>,
}

/// The first `n` name/strength pairs rendered one per line.
pub open spec fn wifi_scan_lines(names: Seq<Seq<char>>, sigs: Seq<i16>, n: nat) -> Seq<char>
    decreases n,
{
    if n == 0 {
        Seq::empty()
    } else {
        wifi_scan_lines(names, sigs, (n - 1) as nat) + "Name: "@ + names[n - 1]
            + ", Signal Strength: "@ + int_dec_str(sigs[n - 1] as int) + "\n"@
    }
}

/// The views of a list of owned strings.
pub open spec fn string_views(s: Seq<String>) -> Seq<Seq<char>> {
    s.map_values(|v: String| v@)
}

impl WifiScanInfo {
    /// An empty scan listing.
    pub fn new() -> (r: Self)
        ensures
            r.names@.len() == 0,
            r.signal_strength@.len() == 0,
    {
        WifiScanInfo { names: Vec::new(), signal_strength: Vec::new() }
    }

    /// Renders the listing one network per line, pairing each name with
    /// its strength as far as both lists go.
    pub fn render(&self) -> (r: String)
        ensures
            r@ == wifi_scan_lines(
                string_views(self.names@),
                self.signal_strength@,
                if self.names@.len() <= self.signal_strength@.len() {
                    self.names@.len()
                } else {
                    self.signal_strength@.len()
                },
            ),
    {
        let n = if self.names.len() <= self.signal_strength.len() {
            self.names.len()
        } else {
            self.signal_strength.len()
        };
        let mut s = String::new();
        let mut i: usize = 0;
        proof {
            assert(s@ =~= wifi_scan_lines(string_views(self.names@), self.signal_strength@, 0));
        }
        while i < n
            invariant
                n <= self.names@.len(),
                n <= self.signal_strength@.len(),
                i <= n,
                s@ == wifi_scan_lines(string_views(self.names@), self.signal_strength@, i as nat),
            decreases n - i,
        {
            s.append("Name: ");
            s.append(self.names[i].as_str());
            s.append(", Signal Strength: ");
            let v = self.signal_strength[i];
            let d = i32_to_string(v as i32);
            s.append(d.as_str());
            s.append("\n");
            proof {
                assert(string_views(self.names@)[i as int] == self.names@[i as int]@);
            }
            i = i + 1;
        }
        s
    }
}

} // verus!
