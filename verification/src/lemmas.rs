//! What holds of the state machine whatever the events are.

use vstd::prelude::*;
use crate::app::AppState;
use crate::event::Event;

verus! {

/// After any events, the progress is the ratio of the last progress report
/// among them.
pub proof fn lemma_progress_is_latest_update(state: AppState, events: Seq<Event>, last: int)
    requires
        0 <= last < events.len(),
        events[last] is ProgressUpdate,
        forall|j: int| last < j < events.len() ==> !(#[trigger] events[j] is ProgressUpdate),
    ensures
        state.after_all(events).progress == events[last]->ProgressUpdate_0@,
    decreases events.len(),
{
    if last < events.len() - 1 {
        let front = events.drop_last();
        lemma_progress_is_latest_update(state, front, last);
    }
}

/// Where no event is a progress report, the progress stays what it was: 0
/// from the initial state.
pub proof fn lemma_progress_kept_without_updates(state: AppState, events: Seq<Event>)
    requires
        forall|j: int| 0 <= j < events.len() ==> !(#[trigger] events[j] is ProgressUpdate),
    ensures
        state.after_all(events).progress == state.progress,
        AppState::initial().after_all(events).progress == 0,
    decreases events.len(),
{
    if events.len() > 0 {
        lemma_progress_kept_without_updates(state, events.drop_last());
        lemma_progress_kept_without_updates(AppState::initial(), events.drop_last());
    }
}

/// A press of the quit key ends the run from any state and changes nothing
/// else.
pub proof fn lemma_quit_press_exits(state: AppState, event: Event)
    requires
        event.is_quit_press(),
    ensures
        state.after(event).exit,
        state.after(event).progress == state.progress,
        state.after(event).accent_color == state.accent_color,
{
}

/// Once the user has quit, no later event is applied: whatever follows the
/// events that ended the run, the run ends in the same state.
pub proof fn lemma_events_behind_exit_are_ignored(
    state: AppState,
    events: Seq<Event>,
    rest: Seq<Event>,
)
    requires
        state.after_run(events).exit,
    ensures
        state.after_run(events + rest) == state.after_run(events),
    decreases rest.len(),
{
    if rest.len() == 0 {
        assert(events + rest =~= events);
    } else {
        lemma_events_behind_exit_are_ignored(state, events, rest.drop_last());
        assert((events + rest).drop_last() =~= events + rest.drop_last());
    }
}

/// Up to the moment the user quits, a run applies every event: where the
/// application has not exited before the last event, the run and the plain
/// succession of the events end in the same state.
pub proof fn lemma_run_applies_events_until_exit(state: AppState, events: Seq<Event>)
    requires
        events.len() > 0 ==> !state.after_all(events.drop_last()).exit,
    ensures
        state.after_run(events) == state.after_all(events),
    decreases events.len(),
{
    if events.len() > 0 {
        let front = events.drop_last();
        if front.len() > 0 {
            lemma_exit_iff_quit_pressed(state, front);
            lemma_exit_iff_quit_pressed(state, front.drop_last());
            let earlier = front.drop_last();
            if state.after_all(earlier).exit && !state.exit {
                let i = choose|i: int|
                    0 <= i < earlier.len() && (#[trigger] earlier[i]).is_quit_press();
                assert(front[i].is_quit_press());
            }
        }
        lemma_run_applies_events_until_exit(state, front);
    }
}

/// The run has ended after some events exactly if it had ended before them
/// or one of them is a press of the quit key.
pub proof fn lemma_exit_iff_quit_pressed(state: AppState, events: Seq<Event>)
    ensures
        state.after_all(events).exit <==> state.exit || exists|i: int|
            0 <= i < events.len() && (#[trigger] events[i]).is_quit_press(),
    decreases events.len(),
{
    if events.len() > 0 {
        let front = events.drop_last();
        lemma_exit_iff_quit_pressed(state, front);
        if state.after_all(events).exit && !state.exit {
            if events.last().is_quit_press() {
                assert(events[events.len() - 1].is_quit_press());
            } else {
                let i = choose|i: int| 0 <= i < front.len() && (#[trigger] front[i]).is_quit_press();
                assert(events[i].is_quit_press());
            }
        }
        if exists|i: int| 0 <= i < events.len() && (#[trigger] events[i]).is_quit_press() {
            let i = choose|i: int| 0 <= i < events.len() && (#[trigger] events[i]).is_quit_press();
            if i < front.len() {
                assert(front[i].is_quit_press());
            }
        }
    }
}

/// A press of the toggle key switches the accent colour to the other one and
/// changes nothing else.
pub proof fn lemma_toggle_press_flips(state: AppState, event: Event)
    requires
        event.is_toggle_press(),
    ensures
        state.after(event).accent_color == state.accent_color.flipped(),
        state.after(event).accent_color != state.accent_color,
        state.after(event).exit == state.exit,
        state.after(event).progress == state.progress,
{
}

/// Two presses of the toggle key in a row leave the state as it was.
pub proof fn lemma_toggle_twice_restores(state: AppState, first: Event, second: Event)
    requires
        first.is_toggle_press(),
        second.is_toggle_press(),
    ensures
        state.after(first).after(second) == state,
{
}

/// A heartbeat or a resize leaves the state as it was.
pub proof fn lemma_tick_and_resize_keep_state(state: AppState, event: Event)
    requires
        event is Tick || event is Resize,
    ensures
        state.after(event) == state,
{
}

/// Any number of heartbeats and resizes leave the state as it was.
pub proof fn lemma_ticks_and_resizes_keep_state(state: AppState, events: Seq<Event>)
    requires
        forall|i: int|
            0 <= i < events.len() ==> (#[trigger] events[i] is Tick) || events[i] is Resize,
    ensures
        state.after_all(events) == state,
    decreases events.len(),
{
    if events.len() > 0 {
        lemma_ticks_and_resizes_keep_state(state, events.drop_last());
    }
}

} // verus!
