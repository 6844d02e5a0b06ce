use esp32_bench::build_controller::{BuildFailure, BuildPhase};
use esp32_bench::session::{
    Session, SessionAction, SessionError, SessionEvent, SessionFailure, SessionPhase,
};
use esp32_bench::settings::SENTINEL;
use esp32_bench::tool::{ExitOutcome, ToolAction, ToolEvent};

fn exited(success: bool) -> ToolEvent {
    ToolEvent::Exited(ExitOutcome { success, code: Some(if success { 0 } else { 2 }) })
}

fn line(text: &str) -> SessionEvent {
    SessionEvent::LineRead(text.to_string())
}

fn failure(kind: SessionFailure, output: &str) -> Option<Result<String, SessionError>> {
    Some(Err(SessionError { kind, output: output.to_string() }))
}

/// Runs a session the way a driver does, answering each request with the next
/// scripted report. Returns the session, the requests made, and the text
/// handed over for writing, if any was.
fn drive(reports: Vec<SessionEvent>) -> (Session, Vec<SessionAction>, Option<String>) {
    let mut session = Session::new(SENTINEL);
    let mut asked = Vec::new();
    let mut written = None;
    let mut reports = reports.into_iter();
    while let Some(action) = session.pending() {
        asked.push(action);
        if action == SessionAction::WriteResult {
            written = Some(session.output().to_string());
        }
        match reports.next() {
            Some(report) => session = session.step(&report),
            None => break,
        }
    }
    (session, asked, written)
}

/// Runs the build and, only if it succeeded, the session: the whole cycle.
fn cycle(
    build_reports: &[ToolEvent],
    session_reports: Vec<SessionEvent>,
) -> (BuildPhase, Vec<ToolAction>, Option<(Session, Vec<SessionAction>, Option<String>)>) {
    let mut phase = BuildPhase::start();
    let mut asked = Vec::new();
    let mut reports = build_reports.iter();
    while let Some(action) = phase.pending() {
        asked.push(action);
        match reports.next() {
            Some(report) => phase = phase.step(*report),
            None => break,
        }
    }
    let session = match phase.outcome() {
        Some(Ok(())) => Some(drive(session_reports)),
        _ => None,
    };
    (phase, asked, session)
}

fn good_opening() -> Vec<SessionEvent> {
    vec![SessionEvent::StaleAbsent, SessionEvent::ToolRan(exited(true)), SessionEvent::SerialOpened]
}

#[test]
fn clean_run_writes_exactly_what_was_read() {
    let mut reports = good_opening();
    reports.extend([line("line1\n"), line("line2\n"), line("Benchmark Over\n")]);
    reports.push(SessionEvent::ResultWritten);
    let (build, build_asked, session) = cycle(&[exited(true)], reports);
    assert_eq!(build, BuildPhase::Succeeded);
    assert_eq!(build_asked, vec![ToolAction::Build]);
    let (session, asked, written) = session.unwrap();
    assert_eq!(
        asked,
        vec![
            SessionAction::RemoveStaleResult,
            SessionAction::Flash,
            SessionAction::OpenSerial,
            SessionAction::ReadLine,
            SessionAction::ReadLine,
            SessionAction::ReadLine,
            SessionAction::WriteResult,
        ]
    );
    assert_eq!(written.as_deref(), Some("line1\nline2\nBenchmark Over\n"));
    assert_eq!(session.phase(), SessionPhase::Finished);
    assert_eq!(session.into_result(), Some(Ok("line1\nline2\nBenchmark Over\n".to_string())));
}

#[test]
fn flash_proceeds_after_a_successful_fallback() {
    let mut reports = good_opening();
    reports.extend([line("Benchmark Over\n"), SessionEvent::ResultWritten]);
    let (build, build_asked, session) = cycle(&[exited(false), exited(true), exited(true)], reports);
    assert_eq!(build.outcome(), Some(Ok(())));
    assert_eq!(build_asked, vec![ToolAction::Build, ToolAction::SetTarget, ToolAction::Build]);
    let (session, asked, _) = session.unwrap();
    assert_eq!(asked[1], SessionAction::Flash);
    assert_eq!(session.into_result(), Some(Ok("Benchmark Over\n".to_string())));
}

#[test]
fn failed_reconfigure_leaves_no_flash_attempt() {
    let (build, build_asked, session) = cycle(&[exited(false), exited(false)], good_opening());
    assert_eq!(build.outcome(), Some(Err(BuildFailure::Reconfigure)));
    assert_eq!(build_asked, vec![ToolAction::Build, ToolAction::SetTarget]);
    assert!(!build_asked.contains(&ToolAction::Flash));
    assert!(session.is_none());
}

#[test]
fn silent_board_times_out_with_empty_text() {
    let mut reports = good_opening();
    reports.push(line(""));
    let (session, asked, written) = drive(reports);
    assert_eq!(session.phase(), SessionPhase::Failed(SessionFailure::Timeout));
    assert_eq!(asked.last(), Some(&SessionAction::ReadLine));
    assert_eq!(written, None);
    assert_eq!(session.into_result(), failure(SessionFailure::Timeout, ""));
}

#[test]
fn timeout_carries_all_the_text_read() {
    let mut reports = good_opening();
    reports.extend([line("boot\n"), line("cycles: 12\n"), line("Benchmark"), line("")]);
    let (session, asked, written) = drive(reports);
    assert_eq!(written, None);
    assert!(!asked.contains(&SessionAction::WriteResult));
    assert_eq!(
        session.into_result(),
        failure(SessionFailure::Timeout, "boot\ncycles: 12\nBenchmark")
    );
}

#[test]
fn split_sentinel_ends_the_session() {
    let mut reports = good_opening();
    reports.extend([line("Benchmark O"), line("ver"), SessionEvent::ResultWritten]);
    let (session, _, written) = drive(reports);
    assert_eq!(written.as_deref(), Some("Benchmark Over"));
    assert_eq!(session.into_result(), Some(Ok("Benchmark Over".to_string())));
}

#[test]
fn session_starts_by_clearing_the_old_result() {
    let session = Session::new(SENTINEL);
    assert_eq!(session.phase(), SessionPhase::ClearingStale);
    assert_eq!(session.pending(), Some(SessionAction::RemoveStaleResult));
    assert_eq!(session.output(), "");
    assert_eq!(session.into_result(), None);
}

#[test]
fn removed_old_result_lets_the_flash_begin() {
    let session = Session::new(SENTINEL).step(&SessionEvent::StaleRemoved);
    assert_eq!(session.pending(), Some(SessionAction::Flash));
}

#[test]
fn absent_old_result_is_no_failure() {
    let session = Session::new(SENTINEL).step(&SessionEvent::StaleAbsent);
    assert_eq!(session.phase(), SessionPhase::Flashing);
    assert_eq!(session.pending(), Some(SessionAction::Flash));
}

#[test]
fn old_result_that_cannot_be_removed_halts_before_the_flash() {
    let (session, asked, _) = drive(vec![
        SessionEvent::StaleRemovalFailed,
        SessionEvent::ToolRan(exited(true)),
    ]);
    assert_eq!(asked, vec![SessionAction::RemoveStaleResult]);
    assert_eq!(session.into_result(), failure(SessionFailure::StaleRemoval, ""));
}

#[test]
fn flash_is_never_asked_for_before_the_clearing_report() {
    let early = [
        SessionEvent::ToolRan(exited(true)),
        SessionEvent::SerialOpened,
        line("Benchmark Over\n"),
        SessionEvent::ResultWritten,
    ];
    let mut session = Session::new(SENTINEL);
    for report in early.iter() {
        session = session.step(report);
        assert_eq!(session.pending(), Some(SessionAction::RemoveStaleResult));
    }
    assert_eq!(session.output(), "");
}

#[test]
fn failed_flash_is_not_retried() {
    let (session, asked, _) = drive(vec![
        SessionEvent::StaleRemoved,
        SessionEvent::ToolRan(exited(false)),
        SessionEvent::ToolRan(exited(true)),
    ]);
    assert_eq!(asked, vec![SessionAction::RemoveStaleResult, SessionAction::Flash]);
    assert_eq!(session.into_result(), failure(SessionFailure::Flash, ""));
}

#[test]
fn tool_that_does_not_start_halts_the_session() {
    let (session, asked, _) =
        drive(vec![SessionEvent::StaleAbsent, SessionEvent::ToolRan(ToolEvent::LaunchFailed)]);
    assert_eq!(asked, vec![SessionAction::RemoveStaleResult, SessionAction::Flash]);
    assert_eq!(session.into_result(), failure(SessionFailure::Launch, ""));
}

#[test]
fn serial_port_that_does_not_open_halts_the_session() {
    let (session, asked, _) = drive(vec![
        SessionEvent::StaleAbsent,
        SessionEvent::ToolRan(exited(true)),
        SessionEvent::SerialOpenFailed,
    ]);
    assert_eq!(asked.last(), Some(&SessionAction::OpenSerial));
    assert_eq!(session.into_result(), failure(SessionFailure::SerialOpen, ""));
}

#[test]
fn failed_read_halts_with_the_text_so_far() {
    let mut reports = good_opening();
    reports.extend([line("boot\n"), SessionEvent::ReadFailed, line("Benchmark Over\n")]);
    let (session, _, written) = drive(reports);
    assert_eq!(written, None);
    assert_eq!(session.into_result(), failure(SessionFailure::Read, "boot\n"));
}

#[test]
fn failed_write_is_reported() {
    let mut reports = good_opening();
    reports.extend([line("Benchmark Over\n"), SessionEvent::WriteFailed]);
    let (session, asked, written) = drive(reports);
    assert_eq!(asked.last(), Some(&SessionAction::WriteResult));
    assert_eq!(written.as_deref(), Some("Benchmark Over\n"));
    assert_eq!(session.into_result(), failure(SessionFailure::Write, "Benchmark Over\n"));
}

#[test]
fn reports_that_answer_nothing_are_ignored() {
    let session = Session::new(SENTINEL)
        .step(&SessionEvent::StaleAbsent)
        .step(&SessionEvent::SerialOpened)
        .step(&line("Benchmark Over\n"))
        .step(&SessionEvent::StaleRemovalFailed);
    assert_eq!(session.phase(), SessionPhase::Flashing);
    let session = session
        .step(&SessionEvent::ToolRan(exited(true)))
        .step(&SessionEvent::ToolRan(exited(false)))
        .step(&SessionEvent::ResultWritten);
    assert_eq!(session.phase(), SessionPhase::OpeningSerial);
    let session = session.step(&SessionEvent::SerialOpened).step(&SessionEvent::WriteFailed);
    assert_eq!(session.phase(), SessionPhase::Reading);
    let session = session.step(&line("Benchmark Over\n")).step(&line("late\n"));
    assert_eq!(session.phase(), SessionPhase::Writing);
    assert_eq!(session.output(), "Benchmark Over\n");
}

#[test]
fn finished_session_stays_finished() {
    let mut reports = good_opening();
    reports.extend([line("Benchmark Over\n"), SessionEvent::ResultWritten]);
    let (session, _, _) = drive(reports);
    let session = session.step(&SessionEvent::WriteFailed).step(&line(""));
    assert_eq!(session.phase(), SessionPhase::Finished);
    assert_eq!(session.pending(), None);
}

#[test]
fn result_is_asked_for_only_with_the_sentinel_in_the_text() {
    let chunks = ["a\n", "Bench", "mark ", "Over", "\n", ""];
    for first in chunks {
        for second in chunks {
            for third in chunks {
                let mut reports = good_opening();
                reports.extend([line(first), line(second), line(third)]);
                let (session, asked, written) = drive(reports);
                let text = session.output().to_string();
                let wants_write = asked.contains(&SessionAction::WriteResult);
                let seen = [first, second, third]
                    .iter()
                    .scan((String::new(), false), |(so_far, stalled), chunk| {
                        if chunk.is_empty() {
                            *stalled = true;
                        }
                        if *stalled {
                            return Some(false);
                        }
                        so_far.push_str(chunk);
                        Some(so_far.contains(SENTINEL))
                    })
                    .any(|seen| seen);
                assert_eq!(wants_write, seen);
                assert_eq!(wants_write, written.is_some());
                if let Some(written) = written {
                    assert!(written.contains(SENTINEL));
                    assert_eq!(written, text);
                }
            }
        }
    }
}
