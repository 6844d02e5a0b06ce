//! The flash-and-monitor controller: clear the old result, flash the board,
//! open the serial port, watch the output, write the result.
//!
//! Every step but the watch is tried once. A step that fails ends the session
//! with a failure of its own kind; the old result being absent already is not
//! a failure. The result is written only once the watch is complete, so a
//! result file never holds text without the sentinel.

use crate::monitor::{
    lemma_fed_stays_coherent, seen_by, watch, Monitor, MonitorState, MonitorStatus,
};
use crate::text::occurs_in;
use crate::tool::ToolEvent;
use vstd::prelude::*;

verus! {

/// Why a session was given up.
#[derive(Clone, Copy, Debug, PartialEq, Eq, Structural)]
pub enum SessionFailure {
    /// An old result was there and could not be removed.
    StaleRemoval,
    /// The tool could not be started.
    Launch,
    /// The flash step ran and failed.
    Flash,
    /// The serial port could not be opened.
    SerialOpen,
    /// Reading from the serial port failed.
    Read,
    /// A read brought no data before the sentinel was seen.
    Timeout,
    /// The result could not be written.
    Write,
}

/// Where a session stands.
#[derive(Clone, Copy, Debug, PartialEq, Eq, Structural)]
pub enum SessionPhase {
    /// The result of an earlier session is to be removed.
    ClearingStale,
    /// The board is to be flashed.
    Flashing,
    /// The serial port is to be opened.
    OpeningSerial,
    /// The next line is to be read.
    Reading,
    /// The gathered text is to be written out as the result.
    Writing,
    /// The result has been written.
    Finished,
    /// The session was given up.
    Failed(SessionFailure),
}

/// What a session asks its driver to do.
#[derive(Clone, Copy, Debug, PartialEq, Eq, Structural)]
pub enum SessionAction {
    /// Remove the result file of an earlier session.
    RemoveStaleResult,
    /// Run the tool's flash action.
    Flash,
    /// Open the serial port.
    OpenSerial,
    /// Read up to the next newline from the serial port.
    ReadLine,
    /// Write the gathered text to the result file.
    WriteResult,
}

/// What the driver reports back.
#[derive(Debug, PartialEq, Eq)]
pub enum SessionEvent {
    /// The old result was there and has been removed.
    StaleRemoved,
    /// There was no old result.
    StaleAbsent,
    /// The old result is there and could not be removed.
    StaleRemovalFailed,
    /// The tool was asked to flash, with this report.
    ToolRan(ToolEvent),
    /// The serial port is open.
    SerialOpened,
    /// The serial port could not be opened.
    SerialOpenFailed,
    /// One read ended and brought this text; no text means no data came.
    LineRead(String),
    /// The read itself failed.
    ReadFailed,
    /// The result has been written.
    ResultWritten,
    /// The result could not be written.
    WriteFailed,
}

impl SessionEvent {
    /// The report says that no old result is in the way.
    pub open spec fn path_is_clear(self) -> bool {
        self is StaleRemoved || self is StaleAbsent
    }
}

/// The session as contracts see it.
pub struct SessionState {
    /// Where the session stands.
    pub phase: SessionPhase,
    /// The watch on the serial output.
    pub monitor: MonitorState,
}

impl SessionState {
    /// A session that watches for `sentinel` and has done nothing yet.
    pub open spec fn fresh(sentinel: Seq<char>) -> SessionState {
        SessionState { phase: SessionPhase::ClearingStale, monitor: MonitorState::fresh(sentinel) }
    }

    /// The action the session waits for, if any.
    pub open spec fn wanted(self) -> Option<SessionAction> {
        match self.phase {
            SessionPhase::ClearingStale => Some(SessionAction::RemoveStaleResult),
            SessionPhase::Flashing => Some(SessionAction::Flash),
            SessionPhase::OpeningSerial => Some(SessionAction::OpenSerial),
            SessionPhase::Reading => Some(SessionAction::ReadLine),
            SessionPhase::Writing => Some(SessionAction::WriteResult),
            SessionPhase::Finished => None,
            SessionPhase::Failed(_) => None,
        }
    }

    /// What holds of every session: the phase and the watch agree. Before
    /// the first read nothing has been gathered; the result is written, or
    /// about to be, only from a complete watch; and a timeout is reported
    /// exactly for a watch that timed out.
    pub open spec fn consistent(self) -> bool {
        &&& self.monitor.coherent()
        &&& match self.phase {
            SessionPhase::Reading => self.monitor.status == MonitorStatus::Listening,
            SessionPhase::Failed(SessionFailure::Read) => self.monitor.status
                == MonitorStatus::Listening,
            SessionPhase::Failed(SessionFailure::Timeout) => self.monitor.status
                == MonitorStatus::TimedOut,
            SessionPhase::Writing => self.monitor.status == MonitorStatus::Complete,
            SessionPhase::Finished => self.monitor.status == MonitorStatus::Complete,
            SessionPhase::Failed(SessionFailure::Write) => self.monitor.status
                == MonitorStatus::Complete,
            _ => self.monitor == MonitorState::fresh(self.monitor.sentinel),
        }
    }

    /// This session in another phase.
    pub open spec fn moved_to(self, phase: SessionPhase) -> SessionState {
        SessionState { phase, ..self }
    }

    /// The session once the driver reports `event`. A report that does not
    /// answer the pending action changes nothing, and neither does any report
    /// to a session that is over.
    pub open spec fn after(self, event: SessionEvent) -> SessionState {
        match self.phase {
            SessionPhase::ClearingStale => match event {
                SessionEvent::StaleRemoved => self.moved_to(SessionPhase::Flashing),
                SessionEvent::StaleAbsent => self.moved_to(SessionPhase::Flashing),
                SessionEvent::StaleRemovalFailed => self.moved_to(
                    SessionPhase::Failed(SessionFailure::StaleRemoval),
                ),
                _ => self,
            },
            SessionPhase::Flashing => match event {
                SessionEvent::ToolRan(report) => if report.succeeded() {
                    self.moved_to(SessionPhase::OpeningSerial)
                } else if report.failed() {
                    self.moved_to(SessionPhase::Failed(SessionFailure::Flash))
                } else {
                    self.moved_to(SessionPhase::Failed(SessionFailure::Launch))
                },
                _ => self,
            },
            SessionPhase::OpeningSerial => match event {
                SessionEvent::SerialOpened => self.moved_to(SessionPhase::Reading),
                SessionEvent::SerialOpenFailed => self.moved_to(
                    SessionPhase::Failed(SessionFailure::SerialOpen),
                ),
                _ => self,
            },
            SessionPhase::Reading => match event {
                SessionEvent::LineRead(text) => {
                    let monitor = self.monitor.fed(text@);
                    SessionState {
                        phase: match monitor.status {
                            MonitorStatus::Listening => SessionPhase::Reading,
                            MonitorStatus::Complete => SessionPhase::Writing,
                            MonitorStatus::TimedOut => SessionPhase::Failed(
                                SessionFailure::Timeout,
                            ),
                        },
                        monitor,
                    }
                },
                SessionEvent::ReadFailed => self.moved_to(
                    SessionPhase::Failed(SessionFailure::Read),
                ),
                _ => self,
            },
            SessionPhase::Writing => match event {
                SessionEvent::ResultWritten => self.moved_to(SessionPhase::Finished),
                SessionEvent::WriteFailed => self.moved_to(
                    SessionPhase::Failed(SessionFailure::Write),
                ),
                _ => self,
            },
            SessionPhase::Finished => self,
            SessionPhase::Failed(_) => self,
        }
    }
}

/// A session that was given up: why, and the serial text gathered until
/// then. Before the first read that text is empty.
#[derive(Debug, PartialEq, Eq)]
pub struct SessionError {
    /// Why the session was given up.
    pub kind: SessionFailure,
    /// The serial text gathered until then.
    pub output: String,
}

/// One flash-and-monitor session.
pub struct Session {
    phase: SessionPhase,
    monitor: Monitor,
}

impl View for Session {
    type V = SessionState;

    closed spec fn view(&self) -> SessionState {
        SessionState { phase: self.phase, monitor: self.monitor@ }
    }
}

impl Session {
    #[verifier::type_invariant]
    spec fn consistent(self) -> bool {
        self@.consistent()
    }

    /// Starts a session that watches the serial output for `sentinel`.
    pub fn new(sentinel: &str) -> (session: Session)
        ensures
            session@ == SessionState::fresh(sentinel@),
    {
        Session { phase: SessionPhase::ClearingStale, monitor: Monitor::new(sentinel) }
    }

    /// Returns the action the driver has to perform now, or `None` once the
    /// session is over.
    pub fn pending(&self) -> (action: Option<SessionAction>)
        ensures
            action == self@.wanted(),
    {
        match self.phase {
            SessionPhase::ClearingStale => Some(SessionAction::RemoveStaleResult),
            SessionPhase::Flashing => Some(SessionAction::Flash),
            SessionPhase::OpeningSerial => Some(SessionAction::OpenSerial),
            SessionPhase::Reading => Some(SessionAction::ReadLine),
            SessionPhase::Writing => Some(SessionAction::WriteResult),
            SessionPhase::Finished => None,
            SessionPhase::Failed(_) => None,
        }
    }

    /// Takes the driver's report on the pending action and returns the
    /// session as it stands then.
    pub fn step(self, event: &SessionEvent) -> (next: Session)
        ensures
            next@ == self@.after(*event),
    {
        proof {
            use_type_invariant(&self);
        }
        match self.phase {
            SessionPhase::ClearingStale => match event {
                SessionEvent::StaleRemoved => self.move_to(SessionPhase::Flashing),
                SessionEvent::StaleAbsent => self.move_to(SessionPhase::Flashing),
                SessionEvent::StaleRemovalFailed => self.move_to(
                    SessionPhase::Failed(SessionFailure::StaleRemoval),
                ),
                _ => self,
            },
            SessionPhase::Flashing => match event {
                SessionEvent::ToolRan(ToolEvent::Exited(outcome)) => if outcome.success {
                    self.move_to(SessionPhase::OpeningSerial)
                } else {
                    self.move_to(SessionPhase::Failed(SessionFailure::Flash))
                },
                SessionEvent::ToolRan(ToolEvent::LaunchFailed) => self.move_to(
                    SessionPhase::Failed(SessionFailure::Launch),
                ),
                _ => self,
            },
            SessionPhase::OpeningSerial => match event {
                SessionEvent::SerialOpened => self.move_to(SessionPhase::Reading),
                SessionEvent::SerialOpenFailed => self.move_to(
                    SessionPhase::Failed(SessionFailure::SerialOpen),
                ),
                _ => self,
            },
            SessionPhase::Reading => match event {
                SessionEvent::LineRead(text) => {
                    let monitor = self.monitor.feed(text.as_str());
                    let phase = match monitor.status() {
                        MonitorStatus::Listening => SessionPhase::Reading,
                        MonitorStatus::Complete => SessionPhase::Writing,
                        MonitorStatus::TimedOut => SessionPhase::Failed(SessionFailure::Timeout),
                    };
                    Session { phase, monitor }
                },
                SessionEvent::ReadFailed => self.move_to(
                    SessionPhase::Failed(SessionFailure::Read),
                ),
                _ => self,
            },
            SessionPhase::Writing => match event {
                SessionEvent::ResultWritten => self.move_to(SessionPhase::Finished),
                SessionEvent::WriteFailed => self.move_to(
                    SessionPhase::Failed(SessionFailure::Write),
                ),
                _ => self,
            },
            SessionPhase::Finished => self,
            SessionPhase::Failed(_) => self,
        }
    }

    /// The same session in the phase `phase`, where the watch allows it.
    fn move_to(self, phase: SessionPhase) -> (next: Session)
        requires
            self@.moved_to(phase).consistent(),
        ensures
            next@ == self@.moved_to(phase),
    {
        Session { phase, monitor: self.monitor }
    }

    /// Returns where the session stands. The phase always agrees with the
    /// watch on the serial output.
    pub fn phase(&self) -> (phase: SessionPhase)
        ensures
            phase == self@.phase,
            self@.consistent(),
    {
        proof {
            use_type_invariant(self);
        }
        self.phase
    }

    /// Returns the serial text gathered so far. While `WriteResult` is
    /// pending, this is the result to write.
    pub fn output(&self) -> (text: &str)
        ensures
            text@ == self@.monitor.output,
    {
        self.monitor.output()
    }

    /// Ends the session. A finished session gives the result that was
    /// written, which holds the sentinel; one that was given up gives the
    /// failure with the text gathered until then; one that still waits for its
    /// driver gives `None`.
    pub fn into_result(self) -> (result: Option<Result<String, SessionError>>)
        ensures
            match self@.phase {
                SessionPhase::Finished => result matches Some(Ok(text)) && text@
                    == self@.monitor.output && occurs_in(text@, self@.monitor.sentinel),
                SessionPhase::Failed(kind) => result matches Some(Err(error)) && error.kind == kind
                    && error.output@ == self@.monitor.output,
                _ => result is None,
            },
    {
        proof {
            use_type_invariant(&self);
        }
        match self.phase {
            SessionPhase::Finished => Some(Ok(self.monitor.into_output())),
            SessionPhase::Failed(kind) => Some(
                Err(SessionError { kind, output: self.monitor.into_output() }),
            ),
            _ => None,
        }
    }
}

/// The session that watches for `sentinel`, after the driver's reports
/// `events`, in order.
pub open spec fn session_after(sentinel: Seq<char>, events: Seq<SessionEvent>) -> SessionState
    decreases events.len(),
{
    if events.len() == 0 {
        SessionState::fresh(sentinel)
    } else {
        session_after(sentinel, events.drop_last()).after(events.last())
    }
}

/// The report numbered `at` was made while the old result was being cleared,
/// and said that nothing is in the way.
pub open spec fn cleared_at(sentinel: Seq<char>, events: Seq<SessionEvent>, at: int) -> bool {
    &&& 0 <= at < events.len()
    &&& session_after(sentinel, events.take(at)).phase == SessionPhase::ClearingStale
    &&& events[at].path_is_clear()
}

/// The text that each of the reports `lines` brought; a report that is no
/// read counts as one that brought nothing.
pub open spec fn texts_of(lines: Seq<SessionEvent>) -> Seq<Seq<char>> {
    Seq::new(
        lines.len(),
        |i: int|
            match lines[i] {
                SessionEvent::LineRead(text) => text@,
                _ => Seq::empty(),
            },
    )
}

/// The phase a reading session is in for a watch with the status `status`.
pub open spec fn phase_for(status: MonitorStatus) -> SessionPhase {
    match status {
        MonitorStatus::Listening => SessionPhase::Reading,
        MonitorStatus::Complete => SessionPhase::Writing,
        MonitorStatus::TimedOut => SessionPhase::Failed(SessionFailure::Timeout),
    }
}

/// A report keeps a session consistent.
pub proof fn lemma_step_stays_consistent(state: SessionState, event: SessionEvent)
    requires
        state.consistent(),
    ensures
        state.after(event).consistent(),
        state.after(event).monitor.sentinel == state.monitor.sentinel,
{
    if let SessionEvent::LineRead(text) = event {
        lemma_fed_stays_coherent(state.monitor, text@);
    }
}

/// Whatever the driver reports, the session stays consistent and keeps its
/// sentinel. So the text it asks to have written always holds the sentinel:
/// no partial result is ever written.
pub proof fn law_only_complete_text_is_written(sentinel: Seq<char>, events: Seq<SessionEvent>)
    ensures
        session_after(sentinel, events).consistent(),
        session_after(sentinel, events).monitor.sentinel == sentinel,
        session_after(sentinel, events).wanted() == Some(SessionAction::WriteResult) ==> occurs_in(
            session_after(sentinel, events).monitor.output,
            sentinel,
        ),
    decreases events.len(),
{
    if events.len() > 0 {
        law_only_complete_text_is_written(sentinel, events.drop_last());
        lemma_step_stays_consistent(session_after(sentinel, events.drop_last()), events.last());
    }
}

/// A session first asks to have the old result removed. It asks for the flash
/// only after a report, made while it was clearing, that nothing is in the
/// way; that there was no old result is such a report and no failure.
pub proof fn law_flash_waits_for_clear_path(sentinel: Seq<char>, events: Seq<SessionEvent>)
    ensures
        SessionState::fresh(sentinel).wanted() == Some(SessionAction::RemoveStaleResult),
        SessionState::fresh(sentinel).after(SessionEvent::StaleAbsent).wanted() == Some(
            SessionAction::Flash,
        ),
        session_after(sentinel, events).wanted() == Some(SessionAction::Flash) ==> exists|at: int|
            cleared_at(sentinel, events, at),
    decreases events.len(),
{
    if session_after(sentinel, events).phase == SessionPhase::Flashing {
        let earlier = events.drop_last();
        let before = session_after(sentinel, earlier);
        if before.phase == SessionPhase::Flashing {
            law_flash_waits_for_clear_path(sentinel, earlier);
            let at: int = choose|at: int| cleared_at(sentinel, earlier, at);
            assert(events.take(at) =~= earlier.take(at));
            assert(cleared_at(sentinel, events, at));
        } else {
            let at: int = events.len() - 1;
            assert(events.take(at) =~= earlier);
            assert(cleared_at(sentinel, events, at));
        }
    }
}

/// Once a session has begun to read, it follows the watch on what the reads
/// brought: after the reads `lines` its monitor is that watch, and its phase
/// goes by the status of the watch. So it asks for the result to be written
/// if and only if the sentinel was seen before a read brought no data, and it
/// is given up for a timeout if and only if the watch timed out.
pub proof fn law_session_follows_watch(
    sentinel: Seq<char>,
    opening: Seq<SessionEvent>,
    lines: Seq<SessionEvent>,
)
    requires
        session_after(sentinel, opening).phase == SessionPhase::Reading,
        session_after(sentinel, opening).monitor == MonitorState::fresh(sentinel),
        forall|i: int| 0 <= i < lines.len() ==> #[trigger] lines[i] is LineRead,
    ensures
        session_after(sentinel, opening + lines).monitor == watch(sentinel, texts_of(lines)),
        session_after(sentinel, opening + lines).phase == phase_for(
            watch(sentinel, texts_of(lines)).status,
        ),
        session_after(sentinel, opening + lines).wanted() == Some(SessionAction::WriteResult)
            <==> exists|count: int| seen_by(sentinel, texts_of(lines), count),
        session_after(sentinel, opening + lines).phase == SessionPhase::Failed(
            SessionFailure::Timeout,
        ) <==> watch(sentinel, texts_of(lines)).status == MonitorStatus::TimedOut,
    decreases lines.len(),
{
    crate::monitor::law_complete_iff_sentinel_seen(sentinel, texts_of(lines));
    if lines.len() == 0 {
        assert(opening + lines =~= opening);
    } else {
        let earlier = lines.drop_last();
        law_session_follows_watch(sentinel, opening, earlier);
        assert((opening + lines).drop_last() =~= opening + earlier);
        assert((opening + lines).last() == lines.last());
        assert(texts_of(lines).drop_last() =~= texts_of(earlier));
    }
}

/// The three reports of a session that goes well up to its first read lead
/// to a session that reads, with nothing gathered yet.
pub proof fn law_opening_leads_to_reading(sentinel: Seq<char>, opening: Seq<SessionEvent>)
    requires
        opening.len() == 3,
        opening[0].path_is_clear(),
        opening[1] matches SessionEvent::ToolRan(report) && report.succeeded(),
        opening[2] is SerialOpened,
    ensures
        session_after(sentinel, opening).phase == SessionPhase::Reading,
        session_after(sentinel, opening).monitor == MonitorState::fresh(sentinel),
{
    let two = opening.drop_last();
    let one = two.drop_last();
    assert(session_after(sentinel, one.drop_last()) == SessionState::fresh(sentinel));
    assert(one.last() == opening[0]);
    assert(session_after(sentinel, one) == SessionState::fresh(sentinel).moved_to(
        SessionPhase::Flashing,
    ));
    assert(two.last() == opening[1]);
    assert(session_after(sentinel, two) == SessionState::fresh(sentinel).moved_to(
        SessionPhase::OpeningSerial,
    ));
}

} // verus!
