//! Carrying out output actions on a keyboard sink.

use vstd::prelude::*;

use crate::actions::keyboard::{KeyboardSink, SinkError, SinkEvent};
use crate::actions::macro_runner::{macro_events, run_macro};
use crate::app::events::AppEvent;
use crate::config::model::{KeySpec, OutputAction, OutputActionView};

verus! {

/// A command for the action executor: run `action` for the mapping `mapping_id`.
#[derive(Debug, Clone, PartialEq)]
pub struct ActionCommand {
    pub mapping_id: String,
    pub action: OutputAction,
}

/// The mathematical value of an action command.
pub struct ActionCommandView {
    pub mapping_id: Seq<char>,
    pub action: OutputActionView,
}

impl View for ActionCommand {
    type V = ActionCommandView;

    open spec fn view(&self) -> ActionCommandView {
        ActionCommandView { mapping_id: self.mapping_id@, action: self.action@ }
    }
}

/// The events of a chord: every key pressed in order, then released in
/// reverse order.
pub open spec fn chord_events(keys: Seq<KeySpec>) -> Seq<SinkEvent> {
    keys.map_values(|k: KeySpec| SinkEvent::KeyDown(k)) + Seq::new(
        keys.len(),
        |i: int| SinkEvent::KeyUp(keys[keys.len() - 1 - i]),
    )
}

/// The events that an action sends, in order.
pub open spec fn action_events(a: OutputActionView) -> Seq<SinkEvent> {
    match a {
        OutputActionView::KeyTap { key } => seq![SinkEvent::KeyTap(key)],
        OutputActionView::KeyChord { keys } => chord_events(keys),
        OutputActionView::Text { text } => seq![SinkEvent::Text(text)],
        OutputActionView::Macro { spec } => macro_events(spec.steps),
    }
}

/// Carry out `action` on the sink. On success the sink has sent the action's
/// events; on failure it has sent the events before the one that failed.
pub fn execute_action<S: KeyboardSink + ?Sized>(action: &OutputAction, sink: &mut S) -> (r: Result<
    (),
    SinkError,
>)
    ensures
        old(sink).infallible() ==> r is Ok,
        r is Ok ==> final(sink).sent() == old(sink).sent() + action_events(action@),
        r is Err ==> exists|k: int|
            0 <= k < action_events(action@).len() && final(sink).sent() == old(sink).sent()
                + #[trigger] action_events(action@).take(k),
{
    match action {
        OutputAction::KeyTap { key } => {
            let r = sink.key_tap(key);
            proof {
                if r is Err {
                    assert(old(sink).sent() + action_events(action@).take(0) =~= old(sink).sent());
                }
            }
            r
        },
        OutputAction::KeyChord { keys } => {
            let ghost events = action_events(action@);
            let ghost n: int = keys@.len() as int;
            let mut i: usize = 0;
            while i < keys.len()
                invariant
                    events == chord_events(keys@),
                    events == action_events(action@),
                    n == keys@.len(),
                    i <= n,
                    sink.sent() == old(sink).sent() + events.take(i as int),
            sink.infallible() == old(sink).infallible(),
                decreases n - i,
            {
                let r = sink.key_down(&keys[i]);
                if r.is_err() {
                    assert(events.len() == 2 * n);
                    assert(sink.sent() == old(sink).sent() + action_events(action@).take(i as int));
                    return r;
                }
                assert(events.take(i + 1) =~= events.take(i as int).push(events[i as int]));
                i = i + 1;
            }
            let mut j: usize = keys.len();
            while j > 0
                invariant
                    events == chord_events(keys@),
                    events == action_events(action@),
                    n == keys@.len(),
                    j <= n,
                    sink.sent() == old(sink).sent() + events.take(2 * n - j),
                    sink.infallible() == old(sink).infallible(),
                decreases j,
            {
                let r = sink.key_up(&keys[j - 1]);
                if r.is_err() {
                    assert(events.len() == 2 * n);
                    assert(sink.sent() == old(sink).sent() + action_events(action@).take(2 * n - j));
                    return r;
                }
                assert(events.take(2 * n - j + 1) =~= events.take(2 * n - j).push(
                    events[2 * n - j],
                ));
                j = j - 1;
            }
            assert(events.take(2 * n) =~= events);
            Ok(())
        },
        OutputAction::Text { text } => {
            let r = sink.text(text.as_str());
            proof {
                if r is Err {
                    assert(old(sink).sent() + action_events(action@).take(0) =~= old(sink).sent());
                }
            }
            r
        },
        OutputAction::Macro { spec } => {
            let r = run_macro(spec, sink);
            assert(action_events(action@) == macro_events(spec@.steps));
            r
        },
    }
}

/// The event that reports how the action of mapping `mapping_id` went:
/// completed, or failed with the sink's message.
pub fn action_outcome(mapping_id: String, result: Result<(), SinkError>) -> (e: AppEvent)
    ensures
        match result {
            Ok(()) => e matches AppEvent::ActionCompleted(id) && id@ == mapping_id@,
            Err(err) => e matches AppEvent::ActionFailed(id, msg) && id@ == mapping_id@ && msg@
                == err.message@,
        },
{
    match result {
        Ok(()) => AppEvent::ActionCompleted(mapping_id),
        Err(err) => AppEvent::ActionFailed(mapping_id, err.message),
    }
}

} // verus!
