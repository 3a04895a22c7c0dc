//! Top-level service driver: join once, then accept and serve one
//! connection at a time, forever.
//!
//! The loop itself is event-driven: the host program performs the one
//! blocking call that the current phase asks for (the [`Directive`] of the
//! last step) and feeds the outcome back in as a [`ServiceEvent`]. Every
//! decision — phase transitions, indicator updates, display appends, what to
//! echo — is made in [`ServiceLoop::handle_event`]. No event is fatal: the
//! loop has no terminal state, and any failure inside a session degrades to
//! ending that session.

use vstd::prelude::*;

use crate::display::{AppendEffect, DisplayLog};
use crate::indicator::{IndicatorController, IndicatorState};
use crate::join::{JoinCredentials, JoinResult, NetworkJoinManager};
use crate::session::{EchoSession, ReadOutcome, SessionPhase};

verus! {

/// Phase of the top-level service loop.
#[derive(Clone, Copy, Debug, PartialEq, Eq, Structural)]
pub enum ServicePhase {
    /// Blocking the rest of the service on wireless association.
    AwaitJoin,
    /// Waiting for a peer to connect.
    Listening,
    /// One accepted connection is being served.
    Serving,
}

/// Outcome of the blocking call the host program last performed.
#[derive(Clone, Debug)]
pub enum ServiceEvent {
    /// One attempt of the radio's join primitive completed.
    JoinAttempted(JoinResult),
    /// The accept call returned a connection.
    Accepted,
    /// The accept call timed out or failed; nobody connected.
    AcceptFailed,
    /// The pending read on the served connection finished.
    ReadFinished(ReadOutcome),
    /// The pending echo write finished, completely or not.
    WriteFinished(bool),
}

/// The one blocking call the host program must perform next. The accept and
/// read calls use the fixed timeout of [`crate::IDLE_TIMEOUT_SECS`] seconds;
/// accept listens on port [`crate::ECHO_PORT`].
#[derive(Clone, Debug, PartialEq, Eq)]
pub enum Directive {
    /// Call the radio's join primitive with the service's credentials.
    AttemptJoin,
    /// Bind the listening socket and block on accept.
    Accept,
    /// Block on a read from the served connection.
    Read,
    /// Write exactly these bytes back to the peer.
    Write(Vec<u8>),
}

/// What one step asks the host program to do: update the indicator outputs,
/// draw a line of text (blanking the display first when the effect says so),
/// and then perform the next blocking call.
#[derive(Clone, Debug)]
pub struct StepOutput {
    /// Indicator state that was set, if any; the controller's output fields
    /// hold the levels to copy to the pins.
    pub indicator: Option<IndicatorState>,
    /// Text to draw on the display surface, if the last read carried text.
    pub draw: Option<AppendEffect>,
    /// The next blocking call.
    pub next: Directive,
}

/// Whether an event ends the running session: a read timeout, a read error,
/// or an incomplete echo write.
pub open spec fn ends_session(event: ServiceEvent) -> bool {
    ||| event matches ServiceEvent::ReadFinished(outcome) && !(outcome is Received)
    ||| event matches ServiceEvent::WriteFinished(ok) && !ok
}

/// The control state of the service: its phase, and where the running
/// session stands when one is live.
pub open spec fn control_step(
    c: (ServicePhase, Option<SessionPhase>),
    event: ServiceEvent,
) -> (ServicePhase, Option<SessionPhase>) {
    match event {
        ServiceEvent::JoinAttempted(r) => if r is Joined {
            (ServicePhase::Listening, None)
        } else {
            (ServicePhase::AwaitJoin, None)
        },
        ServiceEvent::Accepted => (ServicePhase::Serving, Some(SessionPhase::Reading)),
        ServiceEvent::AcceptFailed => (ServicePhase::Listening, None),
        ServiceEvent::ReadFinished(outcome) => if outcome is Received {
            (ServicePhase::Serving, Some(SessionPhase::Writing))
        } else {
            (ServicePhase::Listening, None)
        },
        ServiceEvent::WriteFinished(ok) => if ok {
            (ServicePhase::Serving, Some(SessionPhase::Reading))
        } else {
            (ServicePhase::Listening, None)
        },
    }
}

/// Which events can arrive in which control state: each is the outcome of
/// the one blocking call that the state's directive asked for.
pub open spec fn control_fits(
    c: (ServicePhase, Option<SessionPhase>),
    event: ServiceEvent,
) -> bool {
    match event {
        ServiceEvent::JoinAttempted(_) => c.0 is AwaitJoin,
        ServiceEvent::Accepted => c.0 is Listening,
        ServiceEvent::AcceptFailed => c.0 is Listening,
        ServiceEvent::ReadFinished(_) => c.0 is Serving && c.1 == Some(SessionPhase::Reading),
        ServiceEvent::WriteFinished(_) => c.0 is Serving && c.1 == Some(SessionPhase::Writing),
    }
}

/// Control state after a whole sequence of events.
pub open spec fn control_after(
    c0: (ServicePhase, Option<SessionPhase>),
    events: Seq<ServiceEvent>,
) -> (ServicePhase, Option<SessionPhase>)
    decreases events.len(),
{
    if events.len() == 0 {
        c0
    } else {
        control_step(control_after(c0, events.drop_last()), events.last())
    }
}

/// Every event of the sequence fits the control state it arrives in.
pub open spec fn trace_fits(
    c0: (ServicePhase, Option<SessionPhase>),
    events: Seq<ServiceEvent>,
) -> bool {
    forall|i: int|
        0 <= i < events.len() ==> control_fits(
            control_after(c0, #[trigger] events.take(i)),
            events[i],
        )
}

/// The top-level driver. It owns the join manager, the display log, the
/// indicator controller and, while one connection is served, the session;
/// the host program owns nothing but the blocked calls.
#[derive(Clone, Debug)]
pub struct ServiceLoop {
    pub phase: ServicePhase,
    pub indicators: IndicatorController,
    pub display: DisplayLog,
    pub join: NetworkJoinManager,
    /// The running session; `Some` exactly while serving.
    pub session: Option<EchoSession>,
}

impl ServiceLoop {
    /// Well-formedness: the display geometry is sound, a session is live
    /// exactly while serving and is never kept in its terminal state, and
    /// the join phase is over exactly once the radio has joined.
    pub open spec fn wf(self) -> bool {
        &&& self.display.wf()
        &&& (self.phase is Serving) == (self.session is Some)
        &&& (self.session matches Some(s) ==> s.phase !is Closed)
        &&& (self.phase is AwaitJoin) == !self.join.joined
    }

    /// The control state: phase, and the live session's phase.
    pub open spec fn control(self) -> (ServicePhase, Option<SessionPhase>) {
        (
            self.phase,
            match self.session {
                Some(s) => Some(s.phase),
                None => None,
            },
        )
    }

    /// Which events the loop can take next; see [`control_fits`]. A join
    /// attempt also needs room in the attempt counter.
    pub open spec fn event_fits(self, event: ServiceEvent) -> bool {
        &&& control_fits(self.control(), event)
        &&& (event is JoinAttempted ==> self.join.attempts < u64::MAX)
    }

    /// A freshly powered-on service: awaiting its join, indicator outputs
    /// idle, display log fresh, no session. The first blocking call to
    /// perform is [`Directive::AttemptJoin`].
    pub fn new(credentials: JoinCredentials) -> (r: ServiceLoop)
        ensures
            r.wf(),
            r.phase is AwaitJoin,
            r.session is None,
            r.join.credentials == credentials,
            r.join.attempts == 0,
            !r.join.joined,
            r.display.cursor == crate::INITIAL_LINE_OFFSET,
            r.display.initial_offset == crate::INITIAL_LINE_OFFSET,
            r.display.line_height == crate::LINE_HEIGHT,
            r.display.max_line_position == crate::MAX_LINE_POSITION,
            (r.indicators.output_a, r.indicators.output_b) == crate::indicator::levels_for(
                IndicatorState::Idle,
            ),
    {
        ServiceLoop {
            phase: ServicePhase::AwaitJoin,
            indicators: IndicatorController::new(),
            display: DisplayLog::new_appliance(),
            join: NetworkJoinManager::new(credentials),
            session: None,
        }
    }

    /// Advances the whole service on the outcome of the last blocking call.
    ///
    /// Join attempts retry without bound until one succeeds, and never
    /// recur after that. An accepted connection starts the one session; its
    /// reads feed the display and are echoed back byte for byte; its end —
    /// read timeout, read error, or failed write — returns the loop to
    /// listening, where it accepts again without ever terminating.
    pub fn handle_event(&mut self, event: ServiceEvent) -> (out: StepOutput)
        requires
            old(self).wf(),
            old(self).event_fits(event),
        ensures
            final(self).wf(),
            final(self).control() == control_step(old(self).control(), event),
            // the geometry of the display and the credentials never change
            final(self).display.initial_offset == old(self).display.initial_offset,
            final(self).display.line_height == old(self).display.line_height,
            final(self).display.max_line_position == old(self).display.max_line_position,
            final(self).join.credentials == old(self).join.credentials,
            // a new accept is asked for only when no session is live
            out.next is Accept ==> final(self).phase is Listening && final(self).session is None,
            // indicator outputs follow the fixed table whenever they are set
            out.indicator matches Some(s) ==> (
                final(self).indicators.output_a,
                final(self).indicators.output_b,
            ) == crate::indicator::levels_for(s),
            out.indicator is None ==> final(self).indicators == old(self).indicators,
            // join phase: one more attempt is recorded; success moves to
            // listening and asks for an accept, failure retries at once
            event matches ServiceEvent::JoinAttempted(r) ==> {
                &&& final(self).join.attempts == old(self).join.attempts + 1
                &&& final(self).join.joined == (r is Joined)
                &&& final(self).display == old(self).display
                &&& out.draw is None
                &&& if r is Joined {
                    out.indicator == Some(IndicatorState::Listening) && out.next is Accept
                } else {
                    out.indicator is None && out.next is AttemptJoin
                }
            },
            !(event is JoinAttempted) ==> final(self).join == old(self).join,
            // a connection was accepted: a fresh session starts serving
            event is Accepted ==> {
                &&& final(self).session matches Some(s) && s.phase is Reading && !s.echoed_any
                &&& out.indicator == Some(IndicatorState::Connected)
                &&& out.next is Read
                &&& out.draw is None
                &&& final(self).display == old(self).display
            },
            // nobody connected in time: listen again
            event is AcceptFailed ==> {
                &&& out.indicator == Some(IndicatorState::Listening)
                &&& out.next is Accept
                &&& out.draw is None
                &&& final(self).display == old(self).display
            },
            // a read returned bytes: show them when they decode, echo them
            // back exactly, and await the write
            event matches ServiceEvent::ReadFinished(outcome) ==> {
                &&& outcome matches ReadOutcome::Received(bytes) ==> {
                    &&& out.indicator == Some(IndicatorState::Receiving)
                    &&& out.next matches Directive::Write(e) && e@ == bytes@
                    &&& final(self).session matches Some(s)
                        && s.phase is Writing
                        && s.echoed_any == (old(self).session->Some_0.echoed_any
                            || bytes@.len() > 0)
                    &&& if bytes@.len() > 0 && crate::session::utf8_decoded(bytes@) is Some {
                        &&& out.draw matches Some(eff)
                        &&& eff.text@ == crate::session::utf8_decoded(bytes@)->Some_0
                        &&& eff.cleared == (old(self).display.cursor
                            > old(self).display.max_line_position)
                        &&& eff.line == (if eff.cleared {
                            old(self).display.initial_offset
                        } else {
                            old(self).display.cursor
                        })
                        &&& final(self).display.cursor == eff.line + old(self).display.line_height
                    } else {
                        out.draw is None && final(self).display == old(self).display
                    }
                }
                &&& !(outcome is Received) ==> {
                    &&& out.indicator == Some(IndicatorState::Listening)
                    &&& out.next is Accept
                    &&& out.draw is None
                    &&& final(self).display == old(self).display
                }
            },
            // the echo write finished: read on, or end the session
            event matches ServiceEvent::WriteFinished(ok) ==> {
                &&& out.draw is None
                &&& final(self).display == old(self).display
                &&& if ok {
                    &&& out.indicator is None
                    &&& out.next is Read
                    &&& final(self).session matches Some(s)
                        && s.phase is Reading
                        && s.echoed_any == old(self).session->Some_0.echoed_any
                } else {
                    out.indicator == Some(IndicatorState::Listening) && out.next is Accept
                }
            },
    {
        match event {
            ServiceEvent::JoinAttempted(r) => {
                self.join.on_attempt(r);
                if let JoinResult::Joined = r {
                    self.phase = ServicePhase::Listening;
                    self.indicators.set(IndicatorState::Listening);
                    StepOutput {
                        indicator: Some(IndicatorState::Listening),
                        draw: None,
                        next: Directive::Accept,
                    }
                } else {
                    StepOutput { indicator: None, draw: None, next: Directive::AttemptJoin }
                }
            },
            ServiceEvent::Accepted => {
                self.phase = ServicePhase::Serving;
                self.session = Some(EchoSession::start());
                self.indicators.set(IndicatorState::Connected);
                StepOutput {
                    indicator: Some(IndicatorState::Connected),
                    draw: None,
                    next: Directive::Read,
                }
            },
            ServiceEvent::AcceptFailed => {
                self.indicators.set(IndicatorState::Listening);
                StepOutput {
                    indicator: Some(IndicatorState::Listening),
                    draw: None,
                    next: Directive::Accept,
                }
            },
            ServiceEvent::ReadFinished(outcome) => {
                let mut s = self.session.unwrap();
                let step = s.on_read(outcome);
                match step.echo {
                    Some(bytes) => {
                        let draw = match step.display_text {
                            Some(text) => Some(self.display.append(text)),
                            None => None,
                        };
                        self.session = Some(s);
                        self.indicators.set(IndicatorState::Receiving);
                        StepOutput {
                            indicator: Some(IndicatorState::Receiving),
                            draw,
                            next: Directive::Write(bytes),
                        }
                    },
                    None => {
                        self.session = None;
                        self.phase = ServicePhase::Listening;
                        self.indicators.set(IndicatorState::Listening);
                        StepOutput {
                            indicator: Some(IndicatorState::Listening),
                            draw: None,
                            next: Directive::Accept,
                        }
                    },
                }
            },
            ServiceEvent::WriteFinished(ok) => {
                let mut s = self.session.unwrap();
                s.on_write(ok);
                if ok {
                    self.session = Some(s);
                    StepOutput { indicator: None, draw: None, next: Directive::Read }
                } else {
                    self.session = None;
                    self.phase = ServicePhase::Listening;
                    self.indicators.set(IndicatorState::Listening);
                    StepOutput {
                        indicator: Some(IndicatorState::Listening),
                        draw: None,
                        next: Directive::Accept,
                    }
                }
            },
        }
    }
}

/// While no event ends the session, a service that is serving keeps
/// serving.
proof fn lemma_serving_persists(
    c0: (ServicePhase, Option<SessionPhase>),
    events: Seq<ServiceEvent>,
    m: int,
    p: int,
)
    requires
        trace_fits(c0, events),
        0 <= m <= p <= events.len(),
        control_after(c0, events.take(m)).0 is Serving,
        forall|k: int| m <= k < p ==> !ends_session(#[trigger] events[k]),
    ensures
        control_after(c0, events.take(p)).0 is Serving,
    decreases p - m,
{
    if p > m {
        lemma_serving_persists(c0, events, m, p - 1);
        assert(events.take(p).drop_last() =~= events.take(p - 1));
        assert(events.take(p).last() == events[p - 1]);
        assert(control_fits(control_after(c0, events.take(p - 1)), events[p - 1]));
        assert(!ends_session(events[p - 1]));
    }
}

/// While the service is past its join phase, it stays past it: no event
/// leads back to awaiting a join.
proof fn lemma_joined_persists(
    c0: (ServicePhase, Option<SessionPhase>),
    events: Seq<ServiceEvent>,
    m: int,
    p: int,
)
    requires
        trace_fits(c0, events),
        0 <= m <= p <= events.len(),
        control_after(c0, events.take(m)).0 !is AwaitJoin,
    ensures
        control_after(c0, events.take(p)).0 !is AwaitJoin,
    decreases p - m,
{
    if p > m {
        lemma_joined_persists(c0, events, m, p - 1);
        assert(events.take(p).drop_last() =~= events.take(p - 1));
        assert(events.take(p).last() == events[p - 1]);
        assert(control_fits(control_after(c0, events.take(p - 1)), events[p - 1]));
    }
}

/// Join-once law: the join phase never repeats. In any run of the service
/// in which each event is the outcome of the call its phase asked for, no
/// event after a successful join attempt is a join attempt.
pub proof fn lemma_join_never_recurs(
    c0: (ServicePhase, Option<SessionPhase>),
    events: Seq<ServiceEvent>,
    i: int,
    j: int,
)
    requires
        trace_fits(c0, events),
        0 <= i < j < events.len(),
        events[i] matches ServiceEvent::JoinAttempted(r) && r is Joined,
    ensures
        !(events[j] is JoinAttempted),
{
    assert(events.take(i + 1).drop_last() =~= events.take(i));
    assert(events.take(i + 1).last() == events[i]);
    lemma_joined_persists(c0, events, i + 1, j);
    assert(control_fits(control_after(c0, events.take(j)), events[j]));
}

/// Sequential-sessions law: sessions never overlap. In any run of the
/// service in which each event is the outcome of the call its phase asked
/// for, between any two accepted connections some event ended the earlier
/// session — the next accept is only reached after the previous session's
/// terminal state.
pub proof fn lemma_sequential_sessions(
    c0: (ServicePhase, Option<SessionPhase>),
    events: Seq<ServiceEvent>,
    i: int,
    j: int,
)
    requires
        trace_fits(c0, events),
        0 <= i < j < events.len(),
        events[i] is Accepted,
        events[j] is Accepted,
    ensures
        exists|k: int| i < k < j && ends_session(#[trigger] events[k]),
{
    assert(events.take(i + 1).drop_last() =~= events.take(i));
    assert(events.take(i + 1).last() == events[i]);
    assert(control_after(c0, events.take(i + 1)).0 is Serving);
    if forall|k: int| i < k < j ==> !ends_session(#[trigger] events[k]) {
        lemma_serving_persists(c0, events, i + 1, j);
        assert(control_fits(control_after(c0, events.take(j)), events[j]));
        assert(false);
    }
}

} // verus!

