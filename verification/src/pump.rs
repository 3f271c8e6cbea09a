//! The frame pump's decisions.
//!
//! The pump itself runs outside this crate: once per display refresh it
//! steps the virtual machine, drains the platform event queue, renders
//! the machine's frame buffer and presents, with its cadence fixed by the
//! display clock. What stands here is the decision each iteration turns
//! on: a machine fault is fatal and ends the session, a quit event ends
//! the process within the same iteration, anything else carries on.

use vstd::prelude::*;

verus! {

/// A platform event, as far as the pump reads one: a request to quit, or
/// anything else.
#[derive(PartialEq, Eq, Structural, Clone, Copy, Debug)]
pub enum PumpEvent {
    Quit,
    Other,
}

/// What one pump iteration does next.
#[derive(PartialEq, Eq, Structural, Clone, Copy, Debug)]
pub enum PumpOutcome {
    /// Render this frame and go on to the next iteration.
    Continue,
    /// The machine step failed: print the fault and end the session.
    Fatal,
    /// A quit event arrived: end the process, discarding the rest of the
    /// iteration.
    Quit,
}

/// True when the drained batch of events holds a quit request.
pub fn contains_quit(events: &Vec<PumpEvent>) -> (b: bool)
    ensures
        b <==> events@.contains(PumpEvent::Quit),
{
    let mut i: usize = 0;
    while i < events.len()
        invariant
            i <= events@.len(),
            forall|j: int| 0 <= j < i ==> events@[j] != PumpEvent::Quit,
        decreases events@.len() - i,
    {
        if events[i] == PumpEvent::Quit {
            assert(events@[i as int] == PumpEvent::Quit);
            return true;
        }
        i = i + 1;
    }
    false
}

/// The decision of one pump iteration, in the pump's own order: the
/// machine is stepped first, so a fault wins over everything; then the
/// event queue is drained, and a quit request ends the process; only then
/// is the frame rendered and presented.
pub fn pump_outcome(step_failed: bool, events: &Vec<PumpEvent>) -> (o: PumpOutcome)
    ensures
        o == PumpOutcome::Fatal <==> step_failed,
        o == PumpOutcome::Quit <==> !step_failed && events@.contains(PumpEvent::Quit),
        o == PumpOutcome::Continue <==> !step_failed && !events@.contains(PumpEvent::Quit),
{
    if step_failed {
        PumpOutcome::Fatal
    } else if contains_quit(events) {
        PumpOutcome::Quit
    } else {
        PumpOutcome::Continue
    }
}

/// The usage line printed when no program path was given; the process
/// then exits without stepping the machine at all.
pub fn no_program_message() -> (s: &'static str)
    ensures
        s@ == "Please provide the program you want to run"@,
{
    "Please provide the program you want to run"
}

} // verus!
