//! The counter application: its state and how input changes it.

use vstd::prelude::*;
use crate::error::{CounterError, KeyEventError, RunError};
use crate::event::{Event, KeyCode, KeyEvent, KeyEventKind};
use crate::lemmas::lemma_run_ends_well_iff_stopped;

verus! {

/// The largest value the counter may hold.
pub const MAX_COUNTER: u8 = 2;

/// What an [`App`] stands for: the value of the counter and whether the
/// application has been asked to stop.
pub struct AppState {
    pub counter: nat,
    pub exited: bool,
}

impl AppState {
    /// The state a new application starts in.
    pub open spec fn initial() -> AppState {
        AppState { counter: 0, exited: false }
    }

    /// The counter is within its bounds.
    pub open spec fn valid(self) -> bool {
        self.counter <= MAX_COUNTER
    }

    /// The state with the stop flag set.
    pub open spec fn exit(self) -> AppState {
        AppState { exited: true, ..self }
    }

    /// One more, unless that would exceed [`MAX_COUNTER`].
    pub open spec fn increment(self) -> Result<AppState, CounterError> {
        if self.counter < MAX_COUNTER {
            Ok(AppState { counter: self.counter + 1, ..self })
        } else {
            Err(CounterError::Overflow { value: (self.counter + 1) as u8 })
        }
    }

    /// One less, unless the counter is 0.
    pub open spec fn decrement(self) -> Result<AppState, CounterError> {
        if self.counter > 0 {
            Ok(AppState { counter: (self.counter - 1) as nat, ..self })
        } else {
            Err(CounterError::Underflow)
        }
    }

    /// What a key does: `q` stops, Left decrements, Right increments, and
    /// every other key does nothing.
    pub open spec fn on_key(self, code: KeyCode) -> Result<AppState, CounterError> {
        match code {
            KeyCode::Char(c) => if c == 'q' {
                Ok(self.exit())
            } else {
                Ok(self)
            },
            KeyCode::Left => self.decrement(),
            KeyCode::Right => self.increment(),
            _ => Ok(self),
        }
    }

    /// What an event does: a key press acts as its key, anything else does
    /// nothing. A refused change is reported with the key event.
    pub open spec fn on_event(self, event: Event) -> Result<AppState, KeyEventError> {
        match event.key_press() {
            Some(key_event) => match self.on_key(key_event.code) {
                Ok(next) => Ok(next),
                Err(source) => Err(KeyEventError { key_event, source }),
            },
            None => Ok(self),
        }
    }

    /// The loop over recorded input. While the application has not been
    /// asked to stop, it draws a frame and then takes the next event. There
    /// is one good end: the application has been asked to stop. A refused
    /// change ends the run with that error, and so does input that ends
    /// while a frame is on the screen and the application waits.
    pub open spec fn run(self, events: Seq<Event>) -> Run
        decreases events.len(),
    {
        if self.exited {
            Run { frames: seq![], end: self, result: Ok(()) }
        } else if events.len() == 0 {
            Run { frames: seq![self.counter], end: self, result: Err(RunError::InputEnded) }
        } else {
            match self.on_event(events[0]) {
                Ok(next) => {
                    let rest = next.run(events.drop_first());
                    Run { frames: seq![self.counter] + rest.frames, ..rest }
                },
                Err(error) => Run {
                    frames: seq![self.counter],
                    end: self,
                    result: Err(RunError::Refused(error)),
                },
            }
        }
    }
}

/// What a run of the loop amounts to.
pub struct Run {
    /// The frames drawn, in order, each given by the counter value it shows.
    pub frames: Seq<nat>,
    /// The state the application is left in.
    pub end: AppState,
    /// `Ok` if the application was asked to stop, and only then; else why
    /// the run ended.
    pub result: Result<(), RunError>,
}

/// Frames as the numbers they show.
pub open spec fn shown(frames: Seq<u8>) -> Seq<nat> {
    frames.map_values(|value: u8| value as nat)
}

/// The counter application.
#[derive(Debug)]
pub struct App {
    counter: u8,
    exit: bool,
}

impl View for App {
    type V = AppState;

    closed spec fn view(&self) -> AppState {
        AppState { counter: self.counter as nat, exited: self.exit }
    }
}

impl Default for App {
    /// A counter at 0 that has not been asked to stop.
    fn default() -> (app: App)
        ensures
            app@ == AppState::initial(),
            app@.valid(),
    {
        App { counter: 0, exit: false }
    }
}

impl App {
    #[verifier::type_invariant]
    spec fn within_bounds(self) -> bool {
        self.counter <= MAX_COUNTER
    }

    /// The value of the counter.
    pub fn counter(&self) -> (value: u8)
        ensures
            value == self@.counter,
            self@.valid(),
    {
        proof {
            use_type_invariant(self);
        }
        self.counter
    }

    /// Whether the application has been asked to stop.
    pub fn has_exited(&self) -> (exited: bool)
        ensures
            exited == self@.exited,
    {
        self.exit
    }

    /// Asks the application to stop.
    pub fn exit(&mut self)
        ensures
            final(self)@ == old(self)@.exit(),
            final(self)@.valid(),
    {
        proof {
            use_type_invariant(&*self);
        }
        self.exit = true;
    }

    /// Adds one to the counter, or refuses and leaves it as it is when it
    /// already holds [`MAX_COUNTER`].
    pub fn increment_counter(&mut self) -> (result: Result<(), CounterError>)
        ensures
            final(self)@.valid(),
            match old(self)@.increment() {
                Ok(next) => result is Ok && final(self)@ == next,
                Err(error) => result == Err::<(), CounterError>(error) && final(self)@ == old(self)@,
            },
    {
        proof {
            use_type_invariant(&*self);
        }
        if self.counter >= MAX_COUNTER {
            return Err(CounterError::Overflow { value: self.counter + 1 });
        }
        self.counter += 1;
        Ok(())
    }

    /// Takes one from the counter, or refuses and leaves it as it is when it
    /// holds 0.
    pub fn decrement_counter(&mut self) -> (result: Result<(), CounterError>)
        ensures
            final(self)@.valid(),
            match old(self)@.decrement() {
                Ok(next) => result is Ok && final(self)@ == next,
                Err(error) => result == Err::<(), CounterError>(error) && final(self)@ == old(self)@,
            },
    {
        proof {
            use_type_invariant(&*self);
        }
        if self.counter == 0 {
            return Err(CounterError::Underflow);
        }
        self.counter -= 1;
        Ok(())
    }

    /// Acts on one key: `q` stops the application, Left decrements, Right
    /// increments; any other key is ignored.
    pub fn handle_key_event(&mut self, key_event: KeyEvent) -> (result: Result<(), CounterError>)
        ensures
            final(self)@.valid(),
            match old(self)@.on_key(key_event.code) {
                Ok(next) => result is Ok && final(self)@ == next,
                Err(error) => result == Err::<(), CounterError>(error) && final(self)@ == old(self)@,
            },
    {
        proof {
            use_type_invariant(&*self);
        }
        match key_event.code {
            KeyCode::Char('q') => {
                self.exit();
                Ok(())
            },
            KeyCode::Left => self.decrement_counter(),
            KeyCode::Right => self.increment_counter(),
            _ => Ok(()),
        }
    }

    /// Acts on one input event. Only a key *press* reaches
    /// [`App::handle_key_event`]; releases, repeats and all other events are
    /// ignored. A refused change comes back with the key event that asked
    /// for it.
    pub fn handle_events(&mut self, event: Event) -> (result: Result<(), KeyEventError>)
        ensures
            final(self)@.valid(),
            match old(self)@.on_event(event) {
                Ok(next) => result is Ok && final(self)@ == next,
                Err(error) => result == Err::<(), KeyEventError>(error) && final(self)@ == old(self)@,
            },
    {
        proof {
            use_type_invariant(&*self);
        }
        match event {
            Event::Key(key_event) => {
                if key_event.kind == KeyEventKind::Press {
                    match self.handle_key_event(key_event) {
                        Ok(()) => Ok(()),
                        Err(source) => Err(KeyEventError { key_event, source }),
                    }
                } else {
                    Ok(())
                }
            },
            _ => Ok(()),
        }
    }

    /// Runs the loop over recorded input: `events` is what the keyboard
    /// would deliver, and every frame drawn is appended to `frames` as the
    /// counter value it shows. The run ends well only when the application
    /// has been asked to stop; input that ends before that is an error, as
    /// is a refused change. See [`AppState::run`].
    pub fn run(&mut self, events: &Vec<Event>, frames: &mut Vec<u8>) -> (result: Result<
        (),
        RunError,
    >)
        ensures
            final(self)@.valid(),
            final(self)@ == old(self)@.run(events@).end,
            result == old(self)@.run(events@).result,
            result is Ok <==> final(self)@.exited,
            shown(final(frames)@) == shown(old(frames)@) + old(self)@.run(events@).frames,
    {
        proof {
            use_type_invariant(&*self);
            lemma_run_ends_well_iff_stopped(self@, events@);
        }
        let ghost start = self@;
        let ghost before = frames@;
        let mut taken: usize = 0;
        assert(events@.skip(0) =~= events@);
        assert(shown(frames@) =~= shown(before) + Seq::<nat>::empty());
        while !self.exit
            invariant
                start == old(self)@,
                before == old(frames)@,
                self@.valid(),
                taken <= events.len(),
                start.run(events@).result is Ok <==> start.run(events@).end.exited,
                start.run(events@).end == self@.run(events@.skip(taken as int)).end,
                start.run(events@).result == self@.run(events@.skip(taken as int)).result,
                shown(before) + start.run(events@).frames == shown(frames@) + self@.run(
                    events@.skip(taken as int),
                ).frames,
            decreases events.len() - taken,
        {
            let ghost now = self@;
            let ghost pending = events@.skip(taken as int);
            let ghost drawn = frames@;
            frames.push(self.counter);
            assert(shown(frames@) =~= shown(drawn) + seq![now.counter]);
            if taken >= events.len() {
                assert(pending.len() == 0);
                assert(shown(before) + start.run(events@).frames =~= shown(frames@));
                return Err(RunError::InputEnded);
            }
            assert(pending[0] == events@[taken as int]);
            assert(pending.drop_first() =~= events@.skip(taken as int + 1));
            match self.handle_events(events[taken]) {
                Ok(()) => {
                    taken += 1;
                    assert(shown(before) + start.run(events@).frames =~= shown(frames@)
                        + self@.run(events@.skip(taken as int)).frames);
                },
                Err(error) => {
                    assert(shown(before) + start.run(events@).frames =~= shown(frames@));
                    return Err(RunError::Refused(error));
                },
            }
        }
        assert(shown(before) + start.run(events@).frames =~= shown(frames@));
        Ok(())
    }
}

} // verus!
