//! The application state and the state machine that advances it, one event
//! at a time.

use vstd::prelude::*;
use crate::event::{Event, KeyEvent};
use crate::lemmas::lemma_events_behind_exit_are_ignored;
use crate::ratio::Ratio;

verus! {

/// The colour in which the gauge is drawn.
#[derive(Clone, Copy, Debug, PartialEq, Eq, Structural)]
pub enum AccentColor {
    Primary,
    Alternate,
}

impl AccentColor {
    /// The other of the two colours.
    pub open spec fn flipped(self) -> AccentColor {
        match self {
            AccentColor::Primary => AccentColor::Alternate,
            AccentColor::Alternate => AccentColor::Primary,
        }
    }

    /// Computes [`AccentColor::flipped`].
    pub fn toggled(self) -> (other: AccentColor)
        ensures
            other == self.flipped(),
            other != self,
    {
        match self {
            AccentColor::Primary => AccentColor::Alternate,
            AccentColor::Alternate => AccentColor::Primary,
        }
    }
}

/// What the surface owes the user after an event.
#[derive(Clone, Copy, Debug, PartialEq, Eq, Structural)]
pub enum Reaction {
    /// Draw the current state.
    Redraw,
    /// Let the surface take its new dimensions, then draw the current state.
    ResizeThenRedraw,
}

/// Why [`App::run`] ended without the user having quit.
#[derive(Clone, Copy, Debug, PartialEq, Eq, Structural)]
pub enum RunError {
    /// The events ran out: every producer has gone away.
    Disconnected,
}

/// The mathematical model of [`App`].
pub struct AppState {
    /// Whether the user has quit.
    pub exit: bool,
    /// The ratio last reported, in ten-thousandths.
    pub progress: nat,
    /// The colour of the gauge.
    pub accent_color: AccentColor,
}

impl AppState {
    /// The state before any event: running, nothing done, primary colour.
    pub open spec fn initial() -> AppState {
        AppState { exit: false, progress: 0, accent_color: AccentColor::Primary }
    }

    /// The state after a keyboard event. A press of `q` quits, a press of `c`
    /// switches the colour, and nothing else has any effect.
    pub open spec fn after_key(self, key: KeyEvent) -> AppState {
        if key.is_press_of('q') {
            AppState { exit: true, ..self }
        } else if key.is_press_of('c') {
            AppState { accent_color: self.accent_color.flipped(), ..self }
        } else {
            self
        }
    }

    /// The state after one event.
    pub open spec fn after(self, event: Event) -> AppState {
        match event {
            Event::Input(key) => self.after_key(key),
            Event::Resize => self,
            Event::Tick => self,
            Event::ProgressUpdate(ratio) => AppState { progress: ratio@, ..self },
        }
    }

    /// The state after every event of `events`, in order.
    pub open spec fn after_all(self, events: Seq<Event>) -> AppState
        decreases events.len(),
    {
        if events.len() == 0 {
            self
        } else {
            self.after_all(events.drop_last()).after(events.last())
        }
    }

    /// The state in which a run over `events` leaves the application: the
    /// events are applied in order for as long as the user has not quit, and
    /// not looked at from then on.
    pub open spec fn after_run(self, events: Seq<Event>) -> AppState
        decreases events.len(),
    {
        if events.len() == 0 {
            self
        } else {
            let before = self.after_run(events.drop_last());
            if before.exit {
                before
            } else {
                before.after(events.last())
            }
        }
    }
}

/// What the surface is asked to do after `event`: always a redraw, preceded
/// by a resize where the event reports one.
pub open spec fn reaction_to(event: Event) -> Reaction {
    if event is Resize {
        Reaction::ResizeThenRedraw
    } else {
        Reaction::Redraw
    }
}

/// The application state. Only the methods below change it, and each change
/// answers one event.
#[derive(Clone, Copy, Debug, PartialEq, Eq)]
pub struct App {
    exit: bool,
    progress: Ratio,
    accent_color: AccentColor,
}

impl View for App {
    type V = AppState;

    closed spec fn view(&self) -> AppState {
        AppState { exit: self.exit, progress: self.progress@, accent_color: self.accent_color }
    }
}

impl App {
    /// The application before any event.
    pub fn new() -> (app: App)
        ensures
            app@ == AppState::initial(),
    {
        App { exit: false, progress: Ratio::zero(), accent_color: AccentColor::Primary }
    }

    /// Whether the user has quit.
    pub fn should_exit(&self) -> (b: bool)
        ensures
            b == self@.exit,
    {
        self.exit
    }

    /// The ratio last reported by the worker.
    pub fn progress(&self) -> (ratio: Ratio)
        ensures
            ratio@ == self@.progress,
    {
        self.progress
    }

    /// The colour in which the gauge is drawn.
    pub fn accent_color(&self) -> (color: AccentColor)
        ensures
            color == self@.accent_color,
    {
        self.accent_color
    }

    /// Applies one keyboard event.
    pub fn handle_key_event(&mut self, key_event: KeyEvent)
        ensures
            final(self)@ == old(self)@.after_key(key_event),
    {
        if key_event.pressed('q') {
            self.exit = true;
        } else if key_event.pressed('c') {
            self.accent_color = self.accent_color.toggled();
        }
    }

    /// Applies one event and says what the surface must do next. Every event
    /// is answered with a redraw, whether or not it changed the state.
    pub fn handle_event(&mut self, event: Event) -> (reaction: Reaction)
        ensures
            final(self)@ == old(self)@.after(event),
            reaction == reaction_to(event),
            event is Tick || event is Resize ==> final(self)@ == old(self)@,
            event.is_quit_press() ==> final(self)@.exit,
            final(self)@.exit <==> old(self)@.exit || event.is_quit_press(),
    {
        match event {
            Event::Input(key) => {
                self.handle_key_event(key);
                Reaction::Redraw
            },
            Event::Resize => Reaction::ResizeThenRedraw,
            Event::Tick => Reaction::Redraw,
            Event::ProgressUpdate(ratio) => {
                self.progress = ratio;
                Reaction::Redraw
            },
        }
    }

    /// Feeds the application the events of `events` in order until the user
    /// quits, and returns how many events it took, which is also the number
    /// of redraws it asked for. Events behind the quit press are left alone.
    /// Where the events run out first, all of them have been applied and the
    /// result is [`RunError::Disconnected`].
    pub fn run(&mut self, events: &[Event]) -> (outcome: Result<usize, RunError>)
        ensures
            final(self)@ == old(self)@.after_run(events@),
            outcome is Ok <==> old(self)@.exit || exists|i: int|
                0 <= i < events@.len() && (#[trigger] events@[i]).is_quit_press(),
            outcome matches Ok(count) ==> {
                &&& count <= events@.len()
                &&& count == 0 <==> old(self)@.exit
                &&& count > 0 ==> events@[count - 1].is_quit_press()
                &&& forall|i: int|
                    0 <= i < count - 1 ==> !(#[trigger] events@[i]).is_quit_press()
                &&& final(self)@ == old(self)@.after_all(events@.take(count as int))
                &&& final(self)@.exit
            },
            outcome matches Err(error) ==> {
                &&& error == RunError::Disconnected
                &&& final(self)@ == old(self)@.after_all(events@)
                &&& !final(self)@.exit
            },
    {
        let mut count: usize = 0;
        proof {
            assert(events@.take(0) =~= Seq::<Event>::empty());
        }
        while !self.exit && count < events.len()
            invariant
                count <= events@.len(),
                self@ == old(self)@.after_all(events@.take(count as int)),
                self@ == old(self)@.after_run(events@.take(count as int)),
                count == 0 || !old(self)@.exit,
                count > 0 && self@.exit ==> events@[count - 1].is_quit_press(),
                forall|i: int|
                    0 <= i < count && !(self@.exit && i == count - 1) ==> !(
                    #[trigger] events@[i]).is_quit_press(),
            decreases events@.len() - count,
        {
            let event = events[count];
            proof {
                let next = events@.take(count + 1);
                assert(next.drop_last() =~= events@.take(count as int));
                assert(next.last() == event);
            }
            self.handle_event(event);
            count = count + 1;
        }
        proof {
            let taken = events@.take(count as int);
            let rest = events@.skip(count as int);
            assert(taken + rest =~= events@);
            if self.exit {
                lemma_events_behind_exit_are_ignored(old(self)@, taken, rest);
            } else {
                assert(taken =~= events@);
            }
        }
        if self.exit {
            Ok(count)
        } else {
            Err(RunError::Disconnected)
        }
    }
}

} // verus!
