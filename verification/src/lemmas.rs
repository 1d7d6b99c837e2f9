//! What holds of the application however it is driven.

use vstd::prelude::*;
use crate::app::{AppState, Run, MAX_COUNTER};
use crate::error::{CounterError, KeyEventError, RunError};
use crate::event::{Event, KeyCode, KeyEvent};

verus! {

/// The press of `code`, `n` times over.
pub open spec fn presses(code: KeyCode, n: nat) -> Seq<Event> {
    Seq::new(n, |i: int| Event::Key(KeyEvent::pressed(code)))
}

/// How a run ends at the press of Right that would take the counter past
/// [`MAX_COUNTER`].
pub open spec fn refused_increment() -> RunError {
    RunError::Refused(
        KeyEventError {
            key_event: KeyEvent::pressed(KeyCode::Right),
            source: CounterError::Overflow { value: (MAX_COUNTER + 1) as u8 },
        },
    )
}

/// The numbers `first`, `first + 1`, ..., `count` of them.
pub open spec fn counting(first: nat, count: nat) -> Seq<nat> {
    Seq::new(count, |i: int| (first + i) as nat)
}

/// No event takes the counter out of its bounds.
pub proof fn lemma_event_keeps_bounds(state: AppState, event: Event)
    requires
        state.valid(),
    ensures
        state.on_event(event) matches Ok(next) ==> next.valid(),
{
}

/// No run takes the counter out of its bounds.
pub proof fn lemma_run_keeps_bounds(state: AppState, events: Seq<Event>)
    requires
        state.valid(),
    ensures
        state.run(events).end.valid(),
    decreases events.len(),
{
    if !state.exited && events.len() > 0 {
        if let Ok(next) = state.on_event(events[0]) {
            lemma_run_keeps_bounds(next, events.drop_first());
        }
    }
}

/// Increments count up. From a running application, `n` presses of Right
/// add `n` to the counter and show every value on the way, as long as the
/// sum stays within [`MAX_COUNTER`]; the run then ends waiting for more
/// input. Beyond that, the run stops at the press that would exceed it: the
/// counter holds [`MAX_COUNTER`], and the error names the value one above.
pub proof fn lemma_increments_count_up(state: AppState, n: nat)
    requires
        state.valid(),
        !state.exited,
    ensures
        state.counter + n <= MAX_COUNTER ==> state.run(presses(KeyCode::Right, n)) == (Run {
            frames: counting(state.counter, n + 1),
            end: AppState { counter: state.counter + n, ..state },
            result: Err(RunError::InputEnded),
        }),
        state.counter + n > MAX_COUNTER ==> state.run(presses(KeyCode::Right, n)) == (Run {
            frames: counting(state.counter, (MAX_COUNTER - state.counter + 1) as nat),
            end: AppState { counter: MAX_COUNTER as nat, ..state },
            result: Err(refused_increment()),
        }),
    decreases n,
{
    let events = presses(KeyCode::Right, n);
    let run = state.run(events);
    if n == 0 {
        assert(run.frames =~= counting(state.counter, 1));
    } else if state.counter < MAX_COUNTER {
        let next = AppState { counter: state.counter + 1, ..state };
        assert(state.on_event(events[0]) == Ok::<AppState, KeyEventError>(next));
        assert(events.drop_first() =~= presses(KeyCode::Right, (n - 1) as nat));
        lemma_increments_count_up(next, (n - 1) as nat);
        let rest = next.run(presses(KeyCode::Right, (n - 1) as nat));
        if state.counter + n <= MAX_COUNTER {
            assert(seq![state.counter] + rest.frames =~= counting(state.counter, n + 1));
        } else {
            assert(seq![state.counter] + rest.frames =~= counting(
                state.counter,
                (MAX_COUNTER - state.counter + 1) as nat,
            ));
        }
    } else {
        assert(state.on_event(events[0]) is Err);
        assert(run.frames =~= counting(state.counter, 1));
    }
}

/// A new application counts its increments. After `n` presses of Right the
/// counter holds `n`, as long as `n` is no more than [`MAX_COUNTER`]; with
/// more presses, the one that would take it past [`MAX_COUNTER`] is refused
/// and the counter stays there.
pub proof fn lemma_counter_is_number_of_increments(n: nat)
    ensures
        n <= MAX_COUNTER ==> {
            &&& AppState::initial().run(presses(KeyCode::Right, n)).end.counter == n
            &&& AppState::initial().run(presses(KeyCode::Right, n)).result == Err::<
                (),
                RunError,
            >(RunError::InputEnded)
        },
        n > MAX_COUNTER ==> {
            &&& AppState::initial().run(presses(KeyCode::Right, n)).end.counter == MAX_COUNTER
            &&& AppState::initial().run(presses(KeyCode::Right, n)).result == Err::<
                (),
                RunError,
            >(refused_increment())
        },
{
    lemma_increments_count_up(AppState::initial(), n);
}

/// Decrementing at 0 is refused.
pub proof fn lemma_no_decrement_below_zero(state: AppState)
    requires
        state.counter == 0,
    ensures
        state.on_key(KeyCode::Left) == Err::<AppState, CounterError>(CounterError::Underflow),
{
}

/// Only `q`, Left and Right do anything: every other key leaves the state
/// as it is.
pub proof fn lemma_other_keys_change_nothing(state: AppState, code: KeyCode)
    requires
        code != KeyCode::Char('q'),
        code != KeyCode::Left,
        code != KeyCode::Right,
    ensures
        state.on_key(code) == Ok::<AppState, CounterError>(state),
        forall|key_event: KeyEvent|
            key_event.code == code ==> #[trigger] state.on_event(Event::Key(key_event)) == Ok::<
                AppState,
                KeyEventError,
            >(state),
{
}

/// Only key presses do anything: every other event leaves the state as it
/// is.
pub proof fn lemma_other_events_change_nothing(state: AppState, event: Event)
    requires
        event.key_press() is None,
    ensures
        state.on_event(event) == Ok::<AppState, KeyEventError>(state),
{
}

/// The press of `q` sets the stop flag and changes nothing else.
pub proof fn lemma_quit_sets_stop_flag(state: AppState)
    ensures
        state.on_event(Event::Key(KeyEvent::pressed(KeyCode::Char('q')))) == Ok::<
            AppState,
            KeyEventError,
        >(AppState { exited: true, ..state }),
{
}

/// A run ends well exactly when it leaves the application asked to stop:
/// every other way out of the loop is an error.
pub proof fn lemma_run_ends_well_iff_stopped(state: AppState, events: Seq<Event>)
    ensures
        state.run(events).result is Ok <==> state.run(events).end.exited,
    decreases events.len(),
{
    if !state.exited && events.len() > 0 {
        if let Ok(next) = state.on_event(events[0]) {
            lemma_run_ends_well_iff_stopped(next, events.drop_first());
        }
    }
}

/// A run that ends for want of input has taken every event, and would go
/// on if there were more: nothing was refused, and the application has not
/// been asked to stop.
pub proof fn lemma_input_ended_means_still_running(state: AppState, events: Seq<Event>)
    requires
        state.run(events).result == Err::<(), RunError>(RunError::InputEnded),
    ensures
        !state.run(events).end.exited,
        state.run(events).frames.len() == events.len() + 1,
    decreases events.len(),
{
    if !state.exited && events.len() > 0 {
        if let Ok(next) = state.on_event(events[0]) {
            lemma_input_ended_means_still_running(next, events.drop_first());
        }
    }
}

/// Once asked to stop, the loop draws nothing and takes no event.
pub proof fn lemma_stopped_draws_nothing(state: AppState, events: Seq<Event>)
    requires
        state.exited,
    ensures
        state.run(events) == (Run { frames: seq![], end: state, result: Ok(()) }),
{
}

/// Nothing is drawn after the press of `q`: whatever input follows it, the
/// run is the same as if the input had ended there.
pub proof fn lemma_nothing_drawn_after_quit(state: AppState, events: Seq<Event>)
    requires
        !state.exited,
    ensures
        state.run(seq![Event::Key(KeyEvent::pressed(KeyCode::Char('q')))] + events) == (Run {
            frames: seq![state.counter],
            end: state.exit(),
            result: Ok(()),
        }),
{
    let quit = Event::Key(KeyEvent::pressed(KeyCode::Char('q')));
    let all = seq![quit] + events;
    assert(all[0] == quit);
    assert(state.on_event(quit) == Ok::<AppState, KeyEventError>(state.exit()));
    lemma_stopped_draws_nothing(state.exit(), all.drop_first());
    assert(state.run(all).frames =~= seq![state.counter]);
}

/// Stopping is final. If a run over `events` leaves the application asked
/// to stop, input that follows changes nothing: no frame, no state, no
/// result.
pub proof fn lemma_input_after_stop_is_ignored(
    state: AppState,
    events: Seq<Event>,
    more: Seq<Event>,
)
    requires
        state.run(events).end.exited,
    ensures
        state.run(events + more) == state.run(events),
    decreases events.len(),
{
    if state.exited {
    } else if events.len() == 0 {
    } else {
        let all = events + more;
        assert(all[0] == events[0]);
        assert(all.drop_first() =~= events.drop_first() + more);
        if let Ok(next) = state.on_event(events[0]) {
            lemma_input_after_stop_is_ignored(next, events.drop_first(), more);
        }
    }
}

} // verus!
