//! What holds of the state machine across events: the matching rules, the
//! debounce window, value-change-only triggers, the panic stop, and leaving
//! learn modes.

use vstd::prelude::*;

use crate::app::model::{
    apply_fired, apply_one, cc_key, debounced, elapsed_ms, fired, fired_line, fired_prefix, fires,
    match_step,
    timer_index, timer_of, timer_set, value_unchanged,
};
use crate::actions::executor::ActionCommandView;
use crate::app::model::{
    fired_effects, finalized, key_step, midi_step, no_effect, run_event, SideEffectView,
};
use crate::midi::decode::{decoded, event_matches};
use crate::midi::trigger::MidiTrigger;
use crate::config::model::{default_options, OutputActionView};
use crate::text::decimal;
use crate::app::state::{log_after, ActivePane, AppModeView, AppStateView, LOG_LIMIT};
use crate::input::key_event::{KeyCode, KeyEvent};
use crate::config::model::{MappingOptions, MappingView};
use crate::midi::decode::MidiEvent;

verus! {

/// Whether some mapping before position `i` fires and does not allow overlap.
pub open spec fn blocked_before(
    ms: Seq<MappingView>,
    i: int,
    event: MidiEvent,
    timers: Seq<(Seq<char>, u64)>,
    cc: Map<(u8, u8), u8>,
    now_us: u64,
) -> bool {
    exists|j: int|
        0 <= j < i && #[trigger] fires(ms[j], event, timers, cc, now_us)
            && !ms[j].options.allow_overlap
}

proof fn lemma_fired_prefix_exact(
    ms: Seq<MappingView>,
    k: nat,
    event: MidiEvent,
    timers: Seq<(Seq<char>, u64)>,
    cc: Map<(u8, u8), u8>,
    now_us: u64,
)
    requires
        k <= ms.len(),
    ensures
        forall|i: int|
            #[trigger] fired_prefix(ms, k, event, timers, cc, now_us).contains(i) <==> (0 <= i < k
                && fires(ms[i], event, timers, cc, now_us) && !blocked_before(
                ms,
                i,
                event,
                timers,
                cc,
                now_us,
            )),
        forall|x: int, y: int|
            0 <= x < y < fired_prefix(ms, k, event, timers, cc, now_us).len() ==> #[trigger] fired_prefix(
                ms,
                k,
                event,
                timers,
                cc,
                now_us,
            )[x] < #[trigger] fired_prefix(ms, k, event, timers, cc, now_us)[y],
        forall|x: int|
            0 <= x < fired_prefix(ms, k, event, timers, cc, now_us).len() ==> 0 <= #[trigger] fired_prefix(
                ms,
                k,
                event,
                timers,
                cc,
                now_us,
            )[x] < k,
        (fired_prefix(ms, k, event, timers, cc, now_us).len() > 0 && !ms[fired_prefix(
            ms,
            k,
            event,
            timers,
            cc,
            now_us,
        ).last()].options.allow_overlap) <==> blocked_before(ms, k as int, event, timers, cc, now_us),
    decreases k,
{
    let cur = fired_prefix(ms, k, event, timers, cc, now_us);
    if k == 0 {
        assert(cur.len() == 0);
        assert forall|i: int| #[trigger] cur.contains(i) <==> (0 <= i < k && fires(
            ms[i],
            event,
            timers,
            cc,
            now_us,
        ) && !blocked_before(ms, i, event, timers, cc, now_us)) by {}
    } else {
        let p = (k - 1) as nat;
        lemma_fired_prefix_exact(ms, p, event, timers, cc, now_us);
        let prev = fired_prefix(ms, p, event, timers, cc, now_us);
        let last_blocks = prev.len() > 0 && !ms[prev.last()].options.allow_overlap;
        if last_blocks {
            assert(cur == prev);
            assert(prev.contains(prev.last()));
            assert(blocked_before(ms, k as int, event, timers, cc, now_us)) by {
                let j = prev.last();
                assert(fires(ms[j], event, timers, cc, now_us));
            }
            assert(blocked_before(ms, p as int, event, timers, cc, now_us));
            assert forall|i: int| #[trigger] cur.contains(i) <==> (0 <= i < k && fires(
                ms[i],
                event,
                timers,
                cc,
                now_us,
            ) && !blocked_before(ms, i, event, timers, cc, now_us)) by {
                if i == p {
                    if cur.contains(i) {
                        let x = choose|x: int| 0 <= x < prev.len() && prev[x] == i;
                        assert(prev[x] < p);
                    }
                }
            }
        } else {
            assert(!blocked_before(ms, p as int, event, timers, cc, now_us));
            if fires(ms[p as int], event, timers, cc, now_us) {
                assert(cur == prev.push(p as int));
                assert forall|i: int| #[trigger] cur.contains(i) <==> (0 <= i < k && fires(
                    ms[i],
                    event,
                    timers,
                    cc,
                    now_us,
                ) && !blocked_before(ms, i, event, timers, cc, now_us)) by {
                    if i == p {
                        assert(cur[prev.len() as int] == i);
                    } else if cur.contains(i) {
                        let x = choose|x: int| 0 <= x < cur.len() && cur[x] == i;
                        if x < prev.len() {
                            assert(prev.contains(i));
                        }
                    } else if 0 <= i < p && fires(ms[i], event, timers, cc, now_us)
                        && !blocked_before(ms, i, event, timers, cc, now_us) {
                        assert(prev.contains(i));
                        let x = choose|x: int| 0 <= x < prev.len() && prev[x] == i;
                        assert(cur[x] == i);
                    }
                }
                assert forall|x: int| 0 <= x < cur.len() implies 0 <= #[trigger] cur[x] < k by {
                    if x < prev.len() {
                        assert(cur[x] == prev[x]);
                    }
                }
                assert forall|x: int, y: int| 0 <= x < y < cur.len() implies #[trigger] cur[x]
                    < #[trigger] cur[y] by {
                    if y < prev.len() {
                        assert(cur[x] == prev[x] && cur[y] == prev[y]);
                    } else {
                        assert(cur[x] == prev[x]);
                    }
                }
                if !ms[p as int].options.allow_overlap {
                    assert(blocked_before(ms, k as int, event, timers, cc, now_us));
                } else {
                    if blocked_before(ms, k as int, event, timers, cc, now_us) {
                        let j = choose|j: int|
                            0 <= j < k && #[trigger] fires(ms[j], event, timers, cc, now_us)
                                && !ms[j].options.allow_overlap;
                        assert(blocked_before(ms, p as int, event, timers, cc, now_us));
                    }
                }
            } else {
                assert(cur == prev);
                assert forall|i: int| #[trigger] cur.contains(i) <==> (0 <= i < k && fires(
                    ms[i],
                    event,
                    timers,
                    cc,
                    now_us,
                ) && !blocked_before(ms, i, event, timers, cc, now_us)) by {
                    if i == p && cur.contains(i) {
                        let x = choose|x: int| 0 <= x < prev.len() && prev[x] == i;
                        assert(prev[x] < p);
                    }
                }
                if blocked_before(ms, k as int, event, timers, cc, now_us) {
                    let j = choose|j: int|
                        0 <= j < k && #[trigger] fires(ms[j], event, timers, cc, now_us)
                            && !ms[j].options.allow_overlap;
                    assert(blocked_before(ms, p as int, event, timers, cc, now_us));
                }
            }
        }
    }
}

/// The matching rules: a mapping fires for an event exactly when it is
/// enabled, matches the event, is neither inside its debounce window nor held
/// back by an unchanged CC value, and no earlier mapping that fires disallows
/// overlap (the first such match wins). The firing mappings come in list
/// order, and each one asks for the execution of its action.
pub proof fn matching_rules(s: AppStateView, event: MidiEvent, now_us: u64)
    ensures
        forall|i: int|
            #[trigger] fired(s, event, now_us).contains(i) <==> (0 <= i < s.mappings.len()
                && s.mappings[i].enabled && crate::midi::decode::event_matches(
                event,
                s.mappings[i].trigger,
            ) && !debounced(s.mappings[i], s.debounce_timers, now_us) && !value_unchanged(
                s.mappings[i],
                event,
                s.last_cc_values,
            ) && !blocked_before(
                s.mappings,
                i,
                event,
                s.debounce_timers,
                s.last_cc_values,
                now_us,
            )),
        forall|x: int, y: int|
            0 <= x < y < fired(s, event, now_us).len() ==> #[trigger] fired(s, event, now_us)[x]
                < #[trigger] fired(s, event, now_us)[y],
        match_step(s, event, now_us).1 == crate::app::model::fired_effects(
            s.mappings,
            fired(s, event, now_us),
        ),
{
    lemma_fired_prefix_exact(
        s.mappings,
        s.mappings.len(),
        event,
        s.debounce_timers,
        s.last_cc_values,
        now_us,
    );
}

/// Debounce bookkeeping: matching an event changes no mapping, and every
/// mapping that fires has its debounce timer set to the clock reading of the
/// event.
pub proof fn fired_timers_are_set(s: AppStateView, event: MidiEvent, now_us: u64)
    ensures
        match_step(s, event, now_us).0.mappings == s.mappings,
        forall|i: int|
            #[trigger] fired(s, event, now_us).contains(i) ==> timer_of(
                match_step(s, event, now_us).0.debounce_timers,
                s.mappings[i].id,
            ) == Some(now_us),
{
    let idxs = fired(s, event, now_us);
    lemma_apply_fired_mappings(s, event, idxs, now_us);
    assert forall|i: int| #[trigger] idxs.contains(i) implies timer_of(
        apply_fired(s, event, idxs, now_us).debounce_timers,
        s.mappings[i].id,
    ) == Some(now_us) by {
        let x = choose|x: int| 0 <= x < idxs.len() && idxs[x] == i;
        lemma_apply_fired_timer(s, event, idxs, now_us, s.mappings[i].id, x);
    }
}

proof fn lemma_timer_index_exact(t: Seq<(Seq<char>, u64)>, id: Seq<char>)
    ensures
        match timer_index(t, id) {
            Some(j) => 0 <= j < t.len() && t[j].0 == id && forall|k: int| 0 <= k < j ==> #[trigger] t[k].0 != id,
            None => forall|k: int| 0 <= k < t.len() ==> #[trigger] t[k].0 != id,
        },
    decreases t.len(),
{
    if t.len() > 0 {
        let d = t.drop_last();
        lemma_timer_index_exact(d, id);
        match timer_index(d, id) {
            Some(j) => {
                assert(d[j] == t[j]);
                assert forall|k: int| 0 <= k < j implies #[trigger] t[k].0 != id by {
                    assert(d[k] == t[k]);
                }
            },
            None => {
                if t.last().0 != id {
                    assert forall|k: int| 0 <= k < t.len() implies #[trigger] t[k].0 != id by {
                        if k < d.len() {
                            assert(d[k] == t[k]);
                        }
                    }
                } else {
                    assert forall|k: int| 0 <= k < t.len() - 1 implies #[trigger] t[k].0 != id by {
                        assert(d[k] == t[k]);
                    }
                }
            },
        }
    }
}

proof fn lemma_timer_index_same_ids(t: Seq<(Seq<char>, u64)>, u: Seq<(Seq<char>, u64)>, id: Seq<char>)
    requires
        t.len() == u.len(),
        forall|k: int| 0 <= k < t.len() ==> #[trigger] t[k].0 == u[k].0,
    ensures
        timer_index(t, id) == timer_index(u, id),
{
    lemma_timer_index_exact(t, id);
    lemma_timer_index_exact(u, id);
    match (timer_index(t, id), timer_index(u, id)) {
        (Some(a), Some(b)) => {
            if a < b {
                assert(u[a].0 == id);
            } else if b < a {
                assert(t[b].0 == id);
            }
        },
        (Some(a), None) => {
            assert(u[a].0 == id);
        },
        (None, Some(b)) => {
            assert(t[b].0 == id);
        },
        (None, None) => {},
    }
}

proof fn lemma_timer_set_of(t: Seq<(Seq<char>, u64)>, id: Seq<char>, now_us: u64, other: Seq<char>)
    ensures
        timer_of(timer_set(t, id, now_us), other) == if other == id {
            Some(now_us)
        } else {
            timer_of(t, other)
        },
{
    lemma_timer_index_exact(t, id);
    lemma_timer_index_exact(t, other);
    let u = timer_set(t, id, now_us);
    match timer_index(t, id) {
        Some(j) => {
            assert forall|k: int| 0 <= k < t.len() implies #[trigger] t[k].0 == u[k].0 by {}
            lemma_timer_index_same_ids(t, u, other);
            if other != id {
                if let Some(j2) = timer_index(t, other) {
                    assert(j2 != j);
                }
            }
        },
        None => {
            lemma_timer_index_exact(u, other);
            if other == id {
                match timer_index(u, other) {
                    Some(j2) => {
                        assert(j2 == t.len());
                    },
                    None => {
                        assert(u[t.len() as int].0 == id);
                    },
                }
            } else {
                let d = u.drop_last();
                assert(d =~= t);
                match timer_index(t, other) {
                    Some(j2) => {
                        assert(u[j2] == t[j2]);
                    },
                    None => {},
                }
            }
        },
    }
}

proof fn lemma_apply_fired_mappings(s: AppStateView, event: MidiEvent, idxs: Seq<int>, now_us: u64)
    ensures
        apply_fired(s, event, idxs, now_us).mappings == s.mappings,
    decreases idxs.len(),
{
    if idxs.len() > 0 {
        lemma_apply_fired_mappings(s, event, idxs.drop_last(), now_us);
    }
}

proof fn lemma_apply_fired_timer(
    s: AppStateView,
    event: MidiEvent,
    idxs: Seq<int>,
    now_us: u64,
    id: Seq<char>,
    x: int,
)
    requires
        0 <= x < idxs.len(),
        s.mappings[idxs[x]].id == id,
    ensures
        timer_of(apply_fired(s, event, idxs, now_us).debounce_timers, id) == Some(now_us),
    decreases idxs.len(),
{
    let prev = idxs.drop_last();
    let r = apply_fired(s, event, prev, now_us);
    lemma_apply_fired_mappings(s, event, prev, now_us);
    let last_id = s.mappings[idxs.last()].id;
    lemma_timer_set_of(r.debounce_timers, last_id, now_us, id);
    if x < idxs.len() - 1 {
        assert(prev[x] == idxs[x]);
        lemma_apply_fired_timer(s, event, prev, now_us, id, x);
    }
}

proof fn lemma_apply_fired_cc(
    s: AppStateView,
    event: MidiEvent,
    idxs: Seq<int>,
    now_us: u64,
    key: (u8, u8),
    raw: u8,
    x: int,
)
    requires
        0 <= x < idxs.len(),
        event.raw_value == Some(raw),
        s.mappings[idxs[x]].options.trigger_on_value_change_only,
        cc_key(s.mappings[idxs[x]].trigger) == Some(key),
    ensures
        apply_fired(s, event, idxs, now_us).last_cc_values.get(key) == Some(raw),
    decreases idxs.len(),
{
    let prev = idxs.drop_last();
    lemma_apply_fired_mappings(s, event, prev, now_us);
    if x < idxs.len() - 1 {
        assert(prev[x] == idxs[x]);
        lemma_apply_fired_cc(s, event, prev, now_us, key, raw, x);
    }
}

/// Debounce: a mapping with a debounce window that fired for an event at
/// `t1` does not fire for any event at `t2` before its window has passed.
pub proof fn debounce_holds_back(
    s: AppStateView,
    event: MidiEvent,
    t1: u64,
    next: MidiEvent,
    t2: u64,
    i: int,
)
    requires
        fired(s, event, t1).contains(i),
        s.mappings[i].options.debounce_ms > 0,
        elapsed_ms(t2, t1) < s.mappings[i].options.debounce_ms,
    ensures
        !fired(match_step(s, event, t1).0, next, t2).contains(i),
{
    matching_rules(s, event, t1);
    let idxs = fired(s, event, t1);
    let x = choose|x: int| 0 <= x < idxs.len() && idxs[x] == i;
    let s2 = match_step(s, event, t1).0;
    lemma_apply_fired_mappings(s, event, idxs, t1);
    lemma_apply_fired_timer(s, event, idxs, t1, s.mappings[i].id, x);
    assert(debounced(s2.mappings[i], s2.debounce_timers, t2));
    matching_rules(s2, next, t2);
}

/// Value-change-only bookkeeping: when a CC or knob mapping that fires only on
/// a changed value fires for an event carrying a value, that value becomes the
/// last one remembered for its channel and controller.
pub proof fn changed_value_is_remembered(s: AppStateView, event: MidiEvent, now_us: u64, i: int)
    requires
        fired(s, event, now_us).contains(i),
        s.mappings[i].options.trigger_on_value_change_only,
        cc_key(s.mappings[i].trigger) is Some,
        event.raw_value is Some,
    ensures
        match_step(s, event, now_us).0.last_cc_values.get(cc_key(s.mappings[i].trigger)->0)
            == event.raw_value,
{
    let idxs = fired(s, event, now_us);
    let x = choose|x: int| 0 <= x < idxs.len() && idxs[x] == i;
    lemma_apply_fired_cc(
        s,
        event,
        idxs,
        now_us,
        cc_key(s.mappings[i].trigger)->0,
        event.raw_value->0,
        x,
    );
}

/// Value-change-only: a CC or knob mapping that fires only on a changed value,
/// and fired for an event carrying a value, does not fire for an event
/// carrying the same value right after.
pub proof fn unchanged_value_holds_back(
    s: AppStateView,
    event: MidiEvent,
    t1: u64,
    next: MidiEvent,
    t2: u64,
    i: int,
)
    requires
        fired(s, event, t1).contains(i),
        s.mappings[i].options.trigger_on_value_change_only,
        cc_key(s.mappings[i].trigger) is Some,
        event.raw_value is Some,
        next.raw_value == event.raw_value,
    ensures
        !fired(match_step(s, event, t1).0, next, t2).contains(i),
{
    matching_rules(s, event, t1);
    let idxs = fired(s, event, t1);
    let x = choose|x: int| 0 <= x < idxs.len() && idxs[x] == i;
    let s2 = match_step(s, event, t1).0;
    lemma_apply_fired_mappings(s, event, idxs, t1);
    lemma_apply_fired_cc(
        s,
        event,
        idxs,
        t1,
        cc_key(s.mappings[i].trigger)->0,
        event.raw_value->0,
        x,
    );
    assert(value_unchanged(s2.mappings[i], next, s2.last_cc_values));
    matching_rules(s2, next, t2);
}

/// The panic stop: F12 flips it in every mode and changes nothing else but
/// the log, asking for no side effect; pressing F12 twice restores the
/// original setting.
pub proof fn panic_stop_toggles(
    s: AppStateView,
    key: KeyEvent,
    now_us: u64,
    fresh_id: Seq<char>,
    later_us: u64,
    later_id: Seq<char>,
)
    requires
        key.code == KeyCode::F(12),
    ensures
        key_step(s, key, now_us, fresh_id).0 == (AppStateView {
            panic_stop: !s.panic_stop,
            log_lines: key_step(s, key, now_us, fresh_id).0.log_lines,
            ..s
        }),
        key_step(s, key, now_us, fresh_id).1 == no_effect(),
        key_step(key_step(s, key, now_us, fresh_id).0, key, later_us, later_id).0.panic_stop
            == s.panic_stop,
{
}

/// While the panic stop is on, a MIDI event asks for no side effect and
/// leaves the mappings, their debounce timers and the remembered CC values
/// as they were.
pub proof fn panic_stop_silences_midi(s: AppStateView, event: MidiEvent, now_us: u64)
    requires
        s.panic_stop,
    ensures
        midi_step(s, event, now_us).1 == no_effect(),
        midi_step(s, event, now_us).0.mappings == s.mappings,
        midi_step(s, event, now_us).0.debounce_timers == s.debounce_timers,
        midi_step(s, event, now_us).0.last_cc_values == s.last_cc_values,
        midi_step(s, event, now_us).0.panic_stop,
{
}

/// Learn modes can be left at any time with Esc: learning MIDI returns to the
/// mode it was entered from (setup if none), learning an action or recording
/// a macro returns to setup; in every case what was learned so far is
/// forgotten (the capture in progress, and the learned trigger), so a later
/// action choice cannot turn it into a mapping. No side effect is asked for.
pub proof fn esc_leaves_learning(s: AppStateView, key: KeyEvent, now_us: u64, fresh_id: Seq<char>)
    requires
        key.code == KeyCode::Esc,
        s.mode is LearnMidi || s.mode is LearnAction || s.mode is RecordMacro,
    ensures
        key_step(s, key, now_us, fresh_id).1 == no_effect(),
        key_step(s, key, now_us, fresh_id).0.learned_trigger is None,
        key_step(s, key, now_us, fresh_id).0.mappings == s.mappings,
        s.mode is LearnMidi ==> key_step(s, key, now_us, fresh_id).0.mode == (match s.previous_mode {
            Some(m) => m,
            None => AppModeView::Setup,
        }) && key_step(s, key, now_us, fresh_id).0.learn_state is None,
        !(s.mode is LearnMidi) ==> key_step(s, key, now_us, fresh_id).0.mode is Setup,
        (s.mode is RecordMacro || (s.mode is LearnAction && !s.action_menu_open)) ==> key_step(
            s,
            key,
            now_us,
            fresh_id,
        ).0.learn_state is None,
        s.mode is LearnAction && s.action_menu_open ==> !key_step(
            s,
            key,
            now_us,
            fresh_id,
        ).0.action_menu_open,
{
}

/// The log after appending each of `msgs` in turn.
pub open spec fn logged(lines: Seq<Seq<char>>, msgs: Seq<Seq<char>>) -> Seq<Seq<char>>
    decreases msgs.len(),
{
    if msgs.len() == 0 {
        lines
    } else {
        log_after(logged(lines, msgs.drop_last()), msgs.last())
    }
}

/// The log lines of firing mappings, in order.
pub open spec fn fired_log(ms: Seq<MappingView>, idxs: Seq<int>) -> Seq<Seq<char>> {
    idxs.map_values(|i: int| "\u{25b6} "@ + fired_line(ms[i]))
}

proof fn lemma_apply_fired_log(s: AppStateView, event: MidiEvent, idxs: Seq<int>, now_us: u64)
    ensures
        apply_fired(s, event, idxs, now_us).log_lines == logged(s.log_lines, fired_log(s.mappings, idxs)),
        idxs.len() > 0 ==> apply_fired(s, event, idxs, now_us).last_action == Some(
            fired_line(s.mappings[idxs.last()]),
        ),
        idxs.len() == 0 ==> apply_fired(s, event, idxs, now_us) == s,
    decreases idxs.len(),
{
    if idxs.len() > 0 {
        let prev = idxs.drop_last();
        lemma_apply_fired_log(s, event, prev, now_us);
        lemma_apply_fired_mappings(s, event, prev, now_us);
        assert(fired_log(s.mappings, idxs).drop_last() =~= fired_log(s.mappings, prev));
    }
}

/// Every triggered mapping is logged: matching an event appends one line
/// `▶ name: action` per firing mapping, in order, and shows the last of them
/// as the last action; when nothing fires, the state is left as it was.
pub proof fn fired_mappings_are_logged(s: AppStateView, event: MidiEvent, now_us: u64)
    ensures
        match_step(s, event, now_us).0.log_lines == logged(
            s.log_lines,
            fired_log(s.mappings, fired(s, event, now_us)),
        ),
        fired(s, event, now_us).len() > 0 ==> match_step(s, event, now_us).0.last_action == Some(
            fired_line(s.mappings[fired(s, event, now_us).last()]),
        ),
        fired(s, event, now_us).len() == 0 ==> match_step(s, event, now_us).0 == s,
{
    lemma_apply_fired_log(s, event, fired(s, event, now_us), now_us);
}

/// Learning: once a trigger has been learned, choosing an action adds one
/// enabled mapping from that trigger to that action, with default options,
/// the given id and the next number as its name; it becomes the selected
/// mapping and the configuration is marked unsaved. Setup mode then resumes
/// with nothing left to learn, except after a clockwise knob mapping, when the
/// counter-clockwise turn of the same knob is learned next.
pub proof fn learned_trigger_becomes_mapping(s: AppStateView, action: OutputActionView, fresh_id: Seq<char>)
    requires
        s.learned_trigger is Some,
    ensures
        finalized(s, action, fresh_id).mappings == s.mappings.push(
            MappingView {
                id: fresh_id,
                name: "Mapping "@ + decimal(s.mappings.len() + 1),
                enabled: true,
                trigger: s.learned_trigger->0,
                action,
                options: default_options(),
            },
        ),
        finalized(s, action, fresh_id).selected_mapping == Some(s.mappings.len() as usize),
        finalized(s, action, fresh_id).dirty,
        finalized(s, action, fresh_id).learned_trigger is None,
        !(s.learned_trigger->0 matches MidiTrigger::KnobRotation {
            direction: crate::midi::trigger::KnobRotationDirection::Clockwise,
            ..
        }) ==> finalized(s, action, fresh_id).learn_state is None && finalized(
            s,
            action,
            fresh_id,
        ).mode is Setup,
        s.learned_trigger->0 matches MidiTrigger::KnobRotation {
            channel,
            controller,
            direction: crate::midi::trigger::KnobRotationDirection::Clockwise,
            mode,
        } ==> finalized(s, action, fresh_id).mode is LearnMidi && finalized(
            s,
            action,
            fresh_id,
        ).learn_state == Some(crate::app::state::LearnStateView::KnobLearnCCW { channel, controller, mode }),
{
}

proof fn lemma_matching_ignores_direction(e: MidiEvent, d: Option<crate::midi::decode::KnobDirection>, t: MidiTrigger)
    requires
        !(t is KnobRotation),
    ensures
        event_matches(MidiEvent { knob_direction: d, ..e }, t) == event_matches(e, t),
{
}

/// What the mapping engine is for: in run mode with the panic stop off, a
/// MIDI message fires every enabled mapping whose trigger was learned from
/// that same message (decoded at any time), as long as the mapping is outside
/// its debounce window, not held back by an unchanged value, and every
/// mapping before it allows overlap: its action is among the side effects.
pub proof fn learned_message_fires(
    s: AppStateView,
    data: Seq<u8>,
    learned_at: u64,
    received_at: u64,
    now_us: u64,
    i: int,
)
    requires
        s.mode is Run,
        !s.panic_stop,
        decoded(data, learned_at) is Some,
        0 <= i < s.mappings.len(),
        s.mappings[i].enabled,
        s.mappings[i].trigger == decoded(data, learned_at)->0.trigger,
        !debounced(s.mappings[i], s.debounce_timers, now_us),
        !value_unchanged(s.mappings[i], decoded(data, received_at)->0, s.last_cc_values),
        forall|j: int| 0 <= j < i ==> #[trigger] s.mappings[j].options.allow_overlap,
    ensures
        midi_step(s, decoded(data, received_at)->0, now_us).1.contains(
            SideEffectView::ExecuteAction(
                ActionCommandView { mapping_id: s.mappings[i].id, action: s.mappings[i].action },
            ),
        ),
{
    let e = decoded(data, received_at)->0;
    crate::midi::decode::decoding_rules(data, learned_at, received_at);
    crate::midi::decode::decoding_rules(data, received_at, learned_at);
    let s1 = crate::app::state::with_log(
        AppStateView { last_midi_event: Some(crate::midi::trigger::trigger_text(e.trigger)), ..s },
        "MIDI: "@ + crate::midi::trigger::trigger_text(e.trigger),
    );
    assert(midi_step(s, e, now_us) == run_event(s1, e, now_us));
    let t = s.mappings[i].trigger;
    assert(!(t is KnobRotation));
    // The event that is matched: `e`, possibly with a knob direction, on a
    // state that differs from `s1` in the remembered knob values at most.
    let (s2, e2): (AppStateView, MidiEvent) = match (e.trigger, e.raw_value) {
        (MidiTrigger::ControlChange { channel, controller, .. }, Some(raw)) => match crate::app::model::knob_mode_for(
            s1.mappings,
            channel,
            controller,
        ) {
            Some(mode) => if mode == crate::config::model::KnobMode::Absolute {
                (
                    AppStateView { knob_values: s1.knob_values.insert((channel, controller), raw), ..s1 },
                    MidiEvent {
                        knob_direction: crate::midi::decode::absolute_direction(
                            s1.knob_values.get((channel, controller)),
                            raw,
                        ),
                        ..e
                    },
                )
            } else {
                (s1, MidiEvent { knob_direction: crate::midi::decode::relative_direction(raw, mode), ..e })
            },
            None => (s1, e),
        },
        _ => (s1, e),
    };
    assert(run_event(s1, e, now_us) == match_step(s2, e2, now_us));
    lemma_matching_ignores_direction(e, e2.knob_direction, t);
    assert(e2 == MidiEvent { knob_direction: e2.knob_direction, ..e });
    matching_rules(s2, e2, now_us);
    assert(!blocked_before(s2.mappings, i, e2, s2.debounce_timers, s2.last_cc_values, now_us));
    assert(fired(s2, e2, now_us).contains(i));
    let idxs = fired(s2, e2, now_us);
    let x = choose|x: int| 0 <= x < idxs.len() && idxs[x] == i;
    assert(fired_effects(s2.mappings, idxs)[x] == SideEffectView::ExecuteAction(
        ActionCommandView { mapping_id: s.mappings[i].id, action: s.mappings[i].action },
    ));
}

/// Quitting never drops unsaved changes unasked: in setup mode `q` quits
/// (asking the loop to stop) only when nothing is unsaved; otherwise it asks
/// for confirmation and leaves the quit flag as it was.
pub proof fn quitting_guards_unsaved_changes(s: AppStateView, key: KeyEvent, now_us: u64, fresh_id: Seq<char>)
    requires
        s.mode is Setup,
        key.code == KeyCode::Char('q'),
    ensures
        s.dirty ==> key_step(s, key, now_us, fresh_id).0.should_quit == s.should_quit && key_step(
            s,
            key,
            now_us,
            fresh_id,
        ).0.mode is ConfirmDialog && key_step(s, key, now_us, fresh_id).1 == no_effect(),
        !s.dirty ==> key_step(s, key, now_us, fresh_id).0.should_quit && key_step(
            s,
            key,
            now_us,
            fresh_id,
        ).1 == seq![SideEffectView::Quit],
{
}

/// Run mode needs a device: in setup mode `r` enters run mode exactly when a
/// MIDI device is connected.
pub proof fn run_mode_needs_a_device(s: AppStateView, key: KeyEvent, now_us: u64, fresh_id: Seq<char>)
    requires
        s.mode is Setup,
        key.code == KeyCode::Char('r'),
    ensures
        (key_step(s, key, now_us, fresh_id).0.mode is Run) == s.midi_connected,
        key_step(s, key, now_us, fresh_id).0.running == (s.running || s.midi_connected),
{
}

/// Space toggles the selected mapping on and off: pressing it twice in setup
/// mode gives back the mappings as they were (and marks them unsaved).
pub proof fn toggling_twice_restores(s: AppStateView, key: KeyEvent, t1: u64, id1: Seq<char>, t2: u64, id2: Seq<char>)
    requires
        s.mode is Setup,
        key.code == KeyCode::Char(' '),
        s.selected_mapping matches Some(i) && i < s.mappings.len(),
    ensures
        key_step(key_step(s, key, t1, id1).0, key, t2, id2).0.mappings == s.mappings,
        key_step(s, key, t1, id1).0.mappings[s.selected_mapping->0 as int].enabled
            != s.mappings[s.selected_mapping->0 as int].enabled,
        key_step(key_step(s, key, t1, id1).0, key, t2, id2).0.dirty,
{
    let i = s.selected_mapping->0 as int;
    let s1 = key_step(s, key, t1, id1).0;
    assert(s1.mappings.update(i, s.mappings[i]) =~= s.mappings);
}

proof fn lemma_finalized_log(s: AppStateView, action: OutputActionView, fresh_id: Seq<char>)
    requires
        s.log_lines.len() <= LOG_LIMIT,
    ensures
        finalized(s, action, fresh_id).log_lines.len() <= LOG_LIMIT,
{
}

proof fn lemma_setup_log(s: AppStateView, key: KeyEvent)
    requires
        s.log_lines.len() <= LOG_LIMIT,
    ensures
        crate::app::model::setup_key(s, key).0.log_lines.len() <= LOG_LIMIT,
{
}

proof fn lemma_learn_midi_log(s: AppStateView, key: KeyEvent)
    requires
        s.log_lines.len() <= LOG_LIMIT,
    ensures
        crate::app::model::learn_midi_key(s, key).0.log_lines.len() <= LOG_LIMIT,
{
}

proof fn lemma_learn_action_log(s: AppStateView, key: KeyEvent, now_us: u64, fresh_id: Seq<char>)
    requires
        s.log_lines.len() <= LOG_LIMIT,
    ensures
        crate::app::model::learn_action_key(s, key, now_us, fresh_id).0.log_lines.len() <= LOG_LIMIT,
{
    if s.action_menu_open {
        assert(crate::app::model::action_menu_key(s, key, now_us).log_lines.len() <= LOG_LIMIT);
    } else {
        match crate::app::model::key_spec_of(key.code) {
            Some(k) => {
                lemma_finalized_log(s, OutputActionView::KeyTap { key: k }, fresh_id);
                lemma_finalized_log(
                    s,
                    OutputActionView::KeyChord { keys: crate::app::model::held_modifiers(key).push(k) },
                    fresh_id,
                );
                match s.learn_state {
                    Some(crate::app::state::LearnStateView::WaitingForChord { pressed }) => {
                        lemma_finalized_log(
                            s,
                            OutputActionView::KeyChord { keys: pressed.push(k) },
                            fresh_id,
                        );
                    },
                    _ => {},
                }
            },
            None => {},
        }
    }
}

proof fn lemma_record_macro_log(s: AppStateView, key: KeyEvent, now_us: u64, fresh_id: Seq<char>)
    requires
        s.log_lines.len() <= LOG_LIMIT,
    ensures
        crate::app::model::record_macro_key(s, key, now_us, fresh_id).0.log_lines.len() <= LOG_LIMIT,
{
    match s.learn_state {
        Some(crate::app::state::LearnStateView::RecordingMacro { steps, .. }) => {
            let s2 = AppStateView { learn_state: None, ..s };
            lemma_finalized_log(
                s2,
                OutputActionView::Macro {
                    spec: crate::config::model::MacroSpecView {
                        steps: crate::config::model::normalized(steps),
                        playback_mode: crate::config::model::PlaybackMode::FireAndForget,
                    },
                },
                fresh_id,
            );
        },
        _ => {},
    }
}

proof fn lemma_text_input_log(s: AppStateView, key: KeyEvent, fresh_id: Seq<char>)
    requires
        s.log_lines.len() <= LOG_LIMIT,
    ensures
        crate::app::model::text_input_key(s, key, fresh_id).0.log_lines.len() <= LOG_LIMIT,
{
    lemma_finalized_log(s, OutputActionView::Text { text: s.text_input_buffer }, fresh_id);
}

proof fn lemma_edit_menu_log(s: AppStateView, key: KeyEvent)
    requires
        s.log_lines.len() <= LOG_LIMIT,
    ensures
        crate::app::model::edit_menu_key(s, key).0.log_lines.len() <= LOG_LIMIT,
{
}

proof fn lemma_dialog_logs(s: AppStateView, key: KeyEvent)
    requires
        s.log_lines.len() <= LOG_LIMIT,
    ensures
        crate::app::model::confirm_key(s, key).0.log_lines.len() <= LOG_LIMIT,
        crate::app::model::error_key(s, key).0.log_lines.len() <= LOG_LIMIT,
        crate::app::model::select_device_key(s, key).0.log_lines.len() <= LOG_LIMIT,
        crate::app::model::run_key(s, key).0.log_lines.len() <= LOG_LIMIT,
{
}

/// The log stays within `LOG_LIMIT` lines whatever key is pressed.
pub proof fn keys_keep_log_bounded(s: AppStateView, key: KeyEvent, now_us: u64, fresh_id: Seq<char>)
    requires
        s.log_lines.len() <= LOG_LIMIT,
    ensures
        key_step(s, key, now_us, fresh_id).0.log_lines.len() <= LOG_LIMIT,
{
    lemma_setup_log(s, key);
    lemma_learn_midi_log(s, key);
    lemma_learn_action_log(s, key, now_us, fresh_id);
    lemma_record_macro_log(s, key, now_us, fresh_id);
    lemma_text_input_log(s, key, fresh_id);
    lemma_edit_menu_log(s, key);
    lemma_dialog_logs(s, key);
}

proof fn lemma_apply_fired_log_bounded(s: AppStateView, event: MidiEvent, idxs: Seq<int>, now_us: u64)
    requires
        s.log_lines.len() <= LOG_LIMIT,
    ensures
        apply_fired(s, event, idxs, now_us).log_lines.len() <= LOG_LIMIT,
    decreases idxs.len(),
{
    if idxs.len() > 0 {
        lemma_apply_fired_log_bounded(s, event, idxs.drop_last(), now_us);
    }
}

/// The log stays within `LOG_LIMIT` lines whatever MIDI event comes in.
pub proof fn midi_keeps_log_bounded(s: AppStateView, event: MidiEvent, now_us: u64)
    requires
        s.log_lines.len() <= LOG_LIMIT,
    ensures
        midi_step(s, event, now_us).0.log_lines.len() <= LOG_LIMIT,
{
    let summary = crate::midi::trigger::trigger_text(event.trigger);
    let s1 = crate::app::state::with_log(
        AppStateView { last_midi_event: Some(summary), ..s },
        "MIDI: "@ + summary,
    );
    assert(s1.log_lines.len() <= LOG_LIMIT);
    assert(crate::app::model::learn_midi_event(s1, event).0.log_lines.len() <= LOG_LIMIT);
    match (event.trigger, event.raw_value) {
        (MidiTrigger::ControlChange { channel, controller, .. }, Some(raw)) => {
            let s2 = AppStateView { knob_values: s1.knob_values.insert((channel, controller), raw), ..s1 };
            let e2 = MidiEvent {
                knob_direction: crate::midi::decode::absolute_direction(
                    s1.knob_values.get((channel, controller)),
                    raw,
                ),
                ..event
            };
            lemma_apply_fired_log_bounded(s2, e2, fired(s2, e2, now_us), now_us);
            match crate::app::model::knob_mode_for(s1.mappings, channel, controller) {
                Some(mode) => {
                    let e3 = MidiEvent {
                        knob_direction: crate::midi::decode::relative_direction(raw, mode),
                        ..event
                    };
                    lemma_apply_fired_log_bounded(s1, e3, fired(s1, e3, now_us), now_us);
                },
                None => {},
            }
        },
        _ => {},
    }
    lemma_apply_fired_log_bounded(s1, event, fired(s1, event, now_us), now_us);
}

/// Moving through the mapping list: in setup mode with the list in focus, Up
/// and Down move the selection one step, stopping at either end (Down
/// selects the first mapping when none is selected); they change no mapping,
/// ask for no side effect, and keep a selection that lay within the list
/// within it.
pub proof fn selection_moves_within_list(s: AppStateView, key: KeyEvent, now_us: u64, fresh_id: Seq<char>)
    requires
        s.mode is Setup,
        s.active_pane == ActivePane::MappingList,
        key.code == KeyCode::Up || key.code == KeyCode::Down,
        s.selected_mapping matches Some(i) ==> i < s.mappings.len(),
    ensures
        key_step(s, key, now_us, fresh_id).0.mappings == s.mappings,
        key_step(s, key, now_us, fresh_id).1 == no_effect(),
        key_step(s, key, now_us, fresh_id).0.selected_mapping matches Some(j) ==> j
            < s.mappings.len(),
        key.code == KeyCode::Up ==> key_step(s, key, now_us, fresh_id).0.selected_mapping == (
        match s.selected_mapping {
            Some(i) => Some(if i > 0 { (i - 1) as usize } else { 0usize }),
            None => None,
        }),
        key.code == KeyCode::Down ==> key_step(s, key, now_us, fresh_id).0.selected_mapping == (
        match s.selected_mapping {
            Some(i) => Some(if i + 1 < s.mappings.len() { (i + 1) as usize } else { i }),
            None => if s.mappings.len() > 0 { Some(0usize) } else { None },
        }),
{
}

/// The options of a mapping after the edit menu entry at `index` (3, 4 or 5)
/// is toggled: suppress retrigger, value change only, or allow overlap.
pub open spec fn flipped_option(o: MappingOptions, index: int) -> MappingOptions {
    if index == 3 {
        MappingOptions { suppress_retrigger_while_held: !o.suppress_retrigger_while_held, ..o }
    } else if index == 4 {
        MappingOptions { trigger_on_value_change_only: !o.trigger_on_value_change_only, ..o }
    } else {
        MappingOptions { allow_overlap: !o.allow_overlap, ..o }
    }
}

/// Edit menu toggles: Enter on one of the option entries flips that option of
/// the selected mapping and nothing else, marks the mappings unsaved and
/// stays in the edit menu; a second Enter gives back the mappings as they
/// were.
pub proof fn option_toggle_twice_restores(
    s: AppStateView,
    key: KeyEvent,
    t1: u64,
    id1: Seq<char>,
    t2: u64,
    id2: Seq<char>,
)
    requires
        s.mode is EditMenu,
        key.code == KeyCode::Enter,
        3 <= s.edit_menu_index <= 5,
        s.selected_mapping matches Some(i) && i < s.mappings.len(),
    ensures
        key_step(s, key, t1, id1).0.mappings == s.mappings.update(
            s.selected_mapping->0 as int,
            (MappingView {
                options: flipped_option(
                    s.mappings[s.selected_mapping->0 as int].options,
                    s.edit_menu_index as int,
                ),
                ..s.mappings[s.selected_mapping->0 as int]
            }),
        ),
        key_step(s, key, t1, id1).0.dirty,
        key_step(s, key, t1, id1).0.mode is EditMenu,
        key_step(s, key, t1, id1).1 == no_effect(),
        key_step(key_step(s, key, t1, id1).0, key, t2, id2).0.mappings == s.mappings,
{
    let i = s.selected_mapping->0 as int;
    let s1 = key_step(s, key, t1, id1).0;
    assert(s1.mappings[i].options == flipped_option(s.mappings[i].options, s.edit_menu_index as int));
    assert(s1.mappings.update(i, s.mappings[i]) =~= s.mappings);
}

/// Deleting with confirmation: in setup mode, `d` asks whether to delete the
/// selected mapping. Answering `y` removes it (the others keep their order),
/// marks the mappings unsaved, returns to setup mode and selects the mapping
/// now at its place, or the last one; answering `n` leaves the mappings as
/// they were. Neither answer quits.
pub proof fn delete_asks_first(
    s: AppStateView,
    d: KeyEvent,
    answer: KeyEvent,
    t1: u64,
    id1: Seq<char>,
    t2: u64,
    id2: Seq<char>,
)
    requires
        s.mode is Setup,
        d.code == KeyCode::Char('d'),
        answer.code == KeyCode::Char('y') || answer.code == KeyCode::Char('n'),
        s.selected_mapping matches Some(i) && i < s.mappings.len(),
    ensures
        key_step(s, d, t1, id1).0.mode is ConfirmDialog,
        key_step(s, d, t1, id1).0.mappings == s.mappings,
        key_step(key_step(s, d, t1, id1).0, answer, t2, id2).0.mode is Setup,
        key_step(key_step(s, d, t1, id1).0, answer, t2, id2).0.should_quit == s.should_quit,
        key_step(key_step(s, d, t1, id1).0, answer, t2, id2).1 == no_effect(),
        answer.code == KeyCode::Char('n') ==> key_step(key_step(s, d, t1, id1).0, answer, t2, id2).0.mappings
            == s.mappings,
        answer.code == KeyCode::Char('y') ==> {
            let s2 = key_step(key_step(s, d, t1, id1).0, answer, t2, id2).0;
            let i = s.selected_mapping->0 as int;
            &&& s2.mappings == s.mappings.remove(i)
            &&& s2.dirty
            &&& s2.selected_mapping == (if s2.mappings.len() == 0 {
                None
            } else if i < s2.mappings.len() {
                Some(i as usize)
            } else {
                Some((s2.mappings.len() - 1) as usize)
            })
        },
{
}

} // verus!
