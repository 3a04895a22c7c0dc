//! Per-connection echo session: read, forward to the display, echo back.

use vstd::prelude::*;

use crate::indicator::IndicatorState;

verus! {

/// Text decoded from a byte sequence, when the bytes are valid UTF-8.
pub uninterp spec fn utf8_decoded(bytes: Seq<u8>) -> Option<Seq<char>>;

/// Relies on core::str::from_utf8: whether a byte sequence is valid UTF-8,
/// and the text it decodes to, depend on the bytes alone.
#[verifier::external_body]
pub(crate) fn decode_utf8(bytes: &[u8]) -> (r: Option<String>)
    ensures
        (r is Some) == (utf8_decoded(bytes@) is Some),
        r matches Some(s) ==> utf8_decoded(bytes@) matches Some(t) && s@ == t,
{
    match core::str::from_utf8(bytes) {
        Ok(s) => Some(s.to_string()),
        Err(_) => None,
    }
}

/// Outcome of one blocking read on the accepted connection, performed by the
/// host program with the fixed idle timeout. `Received` may carry zero
/// bytes: the peer sent nothing but the connection is alive.
#[derive(Clone, Debug)]
pub enum ReadOutcome {
    Received(Vec<u8>),
    TimedOut,
    Failed,
}

/// Where a session stands: blocked on a read, waiting for the echo write to
/// complete, or over.
#[derive(Clone, Copy, Debug, PartialEq, Eq, Structural)]
pub enum SessionPhase {
    /// In the read loop, blocked on the next read.
    Reading,
    /// Bytes were read; the echo write back to the peer is in flight.
    Writing,
    /// Terminal: the connection handle is to be released.
    Closed,
}

/// What one session step asks the host program to do, besides the next
/// blocking call: update the indicator, and draw decoded text (the display
/// log fixes where, see [`crate::service::ServiceLoop`]).
#[derive(Clone, Debug)]
pub struct SessionStep {
    /// Indicator state to set, if any.
    pub indicator: Option<IndicatorState>,
    /// Decoded text to forward to the display log, if the read carried bytes
    /// that decode as text.
    pub display_text: Option<String>,
    /// The exact bytes to write back to the peer, if the read succeeded.
    pub echo: Option<Vec<u8>>,
}

/// One accepted connection, from accept to close or timeout. At most one
/// session is ever live at a time; the connection handle itself stays with
/// the host program for the session's duration.
#[derive(Clone, Copy, Debug, PartialEq, Eq, Structural)]
pub struct EchoSession {
    pub phase: SessionPhase,
    /// Whether any read so far carried bytes that were echoed back.
    pub echoed_any: bool,
}

impl EchoSession {
    /// A session for a freshly accepted connection, ready to read and with
    /// nothing echoed yet.
    pub fn start() -> (r: EchoSession)
        ensures
            r.phase is Reading,
            !r.echoed_any,
    {
        EchoSession { phase: SessionPhase::Reading, echoed_any: false }
    }

    /// Advances the session on the outcome of one read.
    ///
    /// On `n` bytes received (`n` may be 0) the indicator is set to
    /// `Receiving`, the bytes — decoded as text, when `n > 0` and they are
    /// valid UTF-8 — go to the display, and the exact same `n` bytes are
    /// echoed back to the peer; the session then awaits the write. Bytes
    /// that do not decode skip the display but are still echoed: a decode
    /// failure never ends the session. On a timeout or a read error the
    /// session is over: nothing is displayed, nothing is echoed.
    pub fn on_read(&mut self, outcome: ReadOutcome) -> (step: SessionStep)
        requires
            old(self).phase is Reading,
        ensures
            outcome matches ReadOutcome::Received(bytes) ==> {
                &&& final(self).phase is Writing
                &&& final(self).echoed_any == (old(self).echoed_any || bytes@.len() > 0)
                &&& step.echo matches Some(e) && e@ == bytes@
                &&& step.indicator == Some(IndicatorState::Receiving)
                &&& if bytes@.len() > 0 && utf8_decoded(bytes@) is Some {
                    step.display_text matches Some(t) && t@ == utf8_decoded(bytes@)->Some_0
                } else {
                    step.display_text is None
                }
            },
            !(outcome is Received) ==> {
                &&& final(self).phase is Closed
                &&& final(self).echoed_any == old(self).echoed_any
                &&& step.indicator is None
                &&& step.display_text is None
                &&& step.echo is None
            },
    {
        match outcome {
            ReadOutcome::Received(bytes) => {
                self.phase = SessionPhase::Writing;
                if bytes.len() > 0 {
                    self.echoed_any = true;
                }
                let display_text = if bytes.len() > 0 {
                    decode_utf8(bytes.as_slice())
                } else {
                    None
                };
                SessionStep {
                    indicator: Some(IndicatorState::Receiving),
                    display_text,
                    echo: Some(bytes),
                }
            },
            _ => {
                self.phase = SessionPhase::Closed;
                SessionStep { indicator: None, display_text: None, echo: None }
            },
        }
    }

    /// Records whether the echo write completed. A completed write returns
    /// the session to its read loop; a failed write ends the session, just
    /// as a read failure does.
    pub fn on_write(&mut self, ok: bool)
        requires
            old(self).phase is Writing,
        ensures
            ok ==> final(self).phase is Reading,
            !ok ==> final(self).phase is Closed,
            final(self).echoed_any == old(self).echoed_any,
    {
        if ok {
            self.phase = SessionPhase::Reading;
        } else {
            self.phase = SessionPhase::Closed;
        }
    }
}

} // verus!
