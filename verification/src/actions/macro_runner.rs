//! Playing a macro on a keyboard sink.

use vstd::prelude::*;

use crate::actions::keyboard::{KeyboardSink, SinkError, SinkEvent};
use crate::config::model::{MacroSpec, MacroStep, MacroStepView};

verus! {

/// The event that a macro step sends: a delay becomes a pause.
pub open spec fn step_event(s: MacroStepView) -> SinkEvent {
    match s {
        MacroStepView::KeyDown(k) => SinkEvent::KeyDown(k),
        MacroStepView::KeyUp(k) => SinkEvent::KeyUp(k),
        MacroStepView::KeyTap(k) => SinkEvent::KeyTap(k),
        MacroStepView::Text(t) => SinkEvent::Text(t),
        MacroStepView::DelayMs(ms) => SinkEvent::Pause(ms),
    }
}

/// The events that a macro's steps send, in order.
pub open spec fn macro_events(steps: Seq<MacroStepView>) -> Seq<SinkEvent> {
    steps.map_values(|s: MacroStepView| step_event(s))
}

/// Execute a macro's steps in order on the given keyboard sink; a delay step
/// makes the sink pause, so this should run on a worker thread, never on the
/// UI thread. On success the sink has sent every step's event; on failure it
/// has sent the events before the step that failed, and nothing after.
pub fn run_macro<S: KeyboardSink + ?Sized>(spec: &MacroSpec, sink: &mut S) -> (r: Result<(), SinkError>)
    ensures
        old(sink).infallible() ==> r is Ok,
        r is Ok ==> final(sink).sent() == old(sink).sent() + macro_events(spec@.steps),
        r is Err ==> exists|k: int|
            0 <= k < spec@.steps.len() && final(sink).sent() == old(sink).sent() + macro_events(
                spec@.steps,
            ).take(k),
{
    let ghost events = macro_events(spec@.steps);
    let mut i: usize = 0;
    while i < spec.steps.len()
        invariant
            events == macro_events(spec@.steps),
            i <= spec.steps@.len(),
            sink.sent() == old(sink).sent() + events.take(i as int),
            sink.infallible() == old(sink).infallible(),
        decreases spec.steps@.len() - i,
    {
        let ghost before = sink.sent();
        proof {
            assert(spec@.steps[i as int] == spec.steps@[i as int]@);
        }
        let res = match &spec.steps[i] {
            MacroStep::KeyDown(key) => sink.key_down(key),
            MacroStep::KeyUp(key) => sink.key_up(key),
            MacroStep::KeyTap(key) => sink.key_tap(key),
            MacroStep::Text(text) => sink.text(text.as_str()),
            MacroStep::DelayMs(ms) => {
                sink.pause(*ms);
                Ok(())
            },
        };
        match res {
            Ok(()) => {},
            Err(e) => {
                return Err(e);
            },
        }
        assert(events.take(i + 1) =~= events.take(i as int).push(events[i as int]));
        i = i + 1;
    }
    assert(events.take(i as int) =~= events);
    Ok(())
}

} // verus!
