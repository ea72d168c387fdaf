//! The hover/click polling state machine.
//!
//! A driver samples the session flag and the left-mouse-button state on a
//! fixed cadence and hands both to [`poll_tick`], which decides the tick's
//! action and the state carried to the next tick. Capture is edge-triggered:
//! it fires exactly once per physical click — on the tick whose sample is
//! down while the previous active tick's sample was up — never again while
//! the button merely stays held.

use vstd::prelude::*;

verus! {

/// What a single tick of the polling loop does.
#[derive(Clone, Copy, Debug, PartialEq, Eq, Structural)]
pub enum TickAction {
    /// The session is inactive: reset the edge tracking, nothing else.
    Idle,
    /// A rising mouse-button edge during an active session: end the session,
    /// hide the overlay, wait out the settle delay, then emit the last
    /// published element to the capture collaborator.
    Capture,
    /// The session stays active without a fresh click: scan the element
    /// under the pointer and publish it.
    Hover,
}

/// What one tick hands onward: the session flag and button sample for the
/// next tick, and the action of this tick.
#[derive(Clone, Copy, Debug, PartialEq, Eq, Structural)]
pub struct TickOutcome {
    pub session_active: bool,
    pub was_mouse_down: bool,
    pub action: TickAction,
}

/// The decision rule of one polling tick. An inactive tick resets the
/// previous-sample tracker; a rising edge fires the capture and deactivates
/// the session; otherwise the session stays active, the tracker takes the
/// fresh sample, and hover processing runs.
pub open spec fn spec_tick(
    session_active: bool,
    was_mouse_down: bool,
    mouse_down: bool,
) -> TickOutcome {
    if !session_active {
        TickOutcome { session_active: false, was_mouse_down: false, action: TickAction::Idle }
    } else if mouse_down && !was_mouse_down {
        TickOutcome {
            session_active: false,
            was_mouse_down: mouse_down,
            action: TickAction::Capture,
        }
    } else {
        TickOutcome { session_active: true, was_mouse_down: mouse_down, action: TickAction::Hover }
    }
}

/// Decides one polling tick from the session flag, the tracker of the
/// previous button sample, and the fresh button sample.
pub fn poll_tick(session_active: bool, was_mouse_down: bool, mouse_down: bool) -> (r: TickOutcome)
    ensures
        r == spec_tick(session_active, was_mouse_down, mouse_down),
        !session_active ==> r.action is Idle && !r.session_active && !r.was_mouse_down,
        session_active && mouse_down && !was_mouse_down ==> r.action is Capture
            && !r.session_active && r.was_mouse_down,
        session_active && (was_mouse_down || !mouse_down) ==> r.action is Hover
            && r.session_active && r.was_mouse_down == mouse_down,
{
    if !session_active {
        TickOutcome { session_active: false, was_mouse_down: false, action: TickAction::Idle }
    } else if mouse_down && !was_mouse_down {
        TickOutcome {
            session_active: false,
            was_mouse_down: mouse_down,
            action: TickAction::Capture,
        }
    } else {
        TickOutcome { session_active: true, was_mouse_down: mouse_down, action: TickAction::Hover }
    }
}

/// Edge detection: a tick fires the capture exactly when the session is
/// active, the button is down now, and the previous sample was up.
pub proof fn lemma_capture_iff_rising_edge(
    session_active: bool,
    was_mouse_down: bool,
    mouse_down: bool,
)
    ensures
        spec_tick(session_active, was_mouse_down, mouse_down).action is Capture
            <==> session_active && mouse_down && !was_mouse_down,
{
}

/// A held button never refires: a tick whose previous sample was already
/// down cannot fire a capture while the button stays down, whatever the
/// session flag did in between.
pub proof fn lemma_held_button_does_not_refire(session_active: bool)
    ensures
        !(spec_tick(session_active, true, true).action is Capture),
{
}

} // verus!
