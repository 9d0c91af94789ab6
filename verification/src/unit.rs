//! One navigate-and-capture unit, as a state machine. A unit first navigates
//! to its URL, then — only after the navigation succeeded — captures the view
//! to its output path. Either failure aborts the unit at once and asks for a
//! single human-readable notice naming the offending URL; nothing propagates
//! to sibling units or to the caller of the batch.
//!
//! The shell drives the machine: it performs the browser call each phase asks
//! for, feeds the outcome back in as an event, and carries out the returned
//! action.

use vstd::prelude::*;

verus! {

/// Where a unit stands.
#[derive(Clone, Copy, PartialEq, Eq, Structural, Debug)]
pub enum UnitPhase {
    /// The navigation call is being made.
    Navigating,
    /// Navigation succeeded; the capture call is being made.
    Capturing,
    /// The capture succeeded: the screenshot file was written.
    Done,
    /// Navigation or capture failed: the unit is over, no file is promised.
    Failed,
}

/// The outcome of the browser call a phase asked for.
#[derive(Clone, Copy, PartialEq, Eq, Structural, Debug)]
pub enum UnitEvent {
    NavigationOk,
    NavigationFailed,
    CaptureOk,
    CaptureFailed,
}

/// What the shell must do next.
#[derive(Clone, Copy, PartialEq, Eq, Structural, Debug)]
pub enum UnitAction {
    /// Instruct the session to capture the view to the unit's output path.
    Capture,
    /// Emit the failure notice for the unit's URL.
    ReportFailure,
}

/// The events that can answer a phase: navigation outcomes while navigating,
/// capture outcomes while capturing, nothing once the unit is over.
pub open spec fn event_fits(phase: UnitPhase, ev: UnitEvent) -> bool {
    match phase {
        UnitPhase::Navigating => ev is NavigationOk || ev is NavigationFailed,
        UnitPhase::Capturing => ev is CaptureOk || ev is CaptureFailed,
        UnitPhase::Done => false,
        UnitPhase::Failed => false,
    }
}

/// The transition relation of one unit.
pub open spec fn spec_unit_step(phase: UnitPhase, ev: UnitEvent) -> (UnitPhase, Option<
    UnitAction,
>) {
    match ev {
        UnitEvent::NavigationOk => (UnitPhase::Capturing, Option::Some(UnitAction::Capture)),
        UnitEvent::NavigationFailed => (
            UnitPhase::Failed,
            Option::Some(UnitAction::ReportFailure),
        ),
        UnitEvent::CaptureOk => (UnitPhase::Done, Option::None),
        UnitEvent::CaptureFailed => (UnitPhase::Failed, Option::Some(UnitAction::ReportFailure)),
    }
}

/// Advances one unit by one event. On a failure event the unit aborts at
/// once — the only action a failure yields is the notice, never a capture —
/// and a unit reaches `Done` only through a successful capture.
pub fn unit_step(phase: UnitPhase, ev: UnitEvent) -> (r: (UnitPhase, Option<UnitAction>))
    requires
        event_fits(phase, ev),
    ensures
        r == spec_unit_step(phase, ev),
        r.1 == Option::Some(UnitAction::Capture) <==> ev is NavigationOk,
        r.0 is Done <==> ev is CaptureOk,
        r.1 == Option::Some(UnitAction::ReportFailure) <==> (ev is NavigationFailed
            || ev is CaptureFailed),
    {
    match ev {
        UnitEvent::NavigationOk => (UnitPhase::Capturing, Option::Some(UnitAction::Capture)),
        UnitEvent::NavigationFailed => (
            UnitPhase::Failed,
            Option::Some(UnitAction::ReportFailure),
        ),
        UnitEvent::CaptureOk => (UnitPhase::Done, Option::None),
        UnitEvent::CaptureFailed => (UnitPhase::Failed, Option::Some(UnitAction::ReportFailure)),
    }
}

/// Law: a capture is instructed exactly on a successful navigation — never
/// after a failed one, and never twice, since the capture outcome itself
/// yields no further capture.
pub proof fn lemma_capture_only_after_navigation(phase: UnitPhase, ev: UnitEvent)
    requires
        event_fits(phase, ev),
    ensures
        spec_unit_step(phase, ev).1 == Option::Some(UnitAction::Capture) <==> (
        phase is Navigating && ev is NavigationOk),
{
}

/// Law: a unit ends in `Done` exactly through a successful capture; every
/// failure event ends it in `Failed` with a notice and nothing else.
pub proof fn lemma_done_needs_capture(phase: UnitPhase, ev: UnitEvent)
    requires
        event_fits(phase, ev),
    ensures
        spec_unit_step(phase, ev).0 is Done <==> (phase is Capturing && ev is CaptureOk),
        (ev is NavigationFailed || ev is CaptureFailed) ==> spec_unit_step(phase, ev).0 is Failed
            && spec_unit_step(phase, ev).1 == Option::Some(UnitAction::ReportFailure),
{
}

/// What the failure notice for `url` says.
pub open spec fn spec_failure_notice(url: Seq<char>) -> Seq<char> {
    "Failed to take screenshot of "@ + url
}

/// The human-readable notice for a failed unit, naming the offending URL.
pub fn failure_notice(url: &str) -> (r: String)
    ensures
        r@ == spec_failure_notice(url@),
{
    let mut r = "Failed to take screenshot of ".to_owned();
    r.append(url);
    r
}

} // verus!
