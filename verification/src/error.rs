//! What can go wrong while the counter handles input.

use vstd::prelude::*;
use vstd::string::StringExecFns;
use crate::app::MAX_COUNTER;
use crate::decimal::{decimal, decimal_string};
use crate::event::KeyEvent;

verus! {

/// A change of the counter that was refused. The counter keeps its value.
#[derive(Debug, Clone, Copy, PartialEq, Eq, Structural)]
pub enum CounterError {
    /// Incrementing would have taken the counter to `value`, above
    /// [`MAX_COUNTER`].
    Overflow { value: u8 },
    /// The counter is 0 and cannot go lower.
    Underflow,
}

/// A refused change together with the key event that asked for it.
#[derive(Debug, Clone, Copy, PartialEq, Eq, Structural)]
pub struct KeyEventError {
    pub key_event: KeyEvent,
    pub source: CounterError,
}

/// Why a run of the loop ended without the application having been asked
/// to stop.
#[derive(Debug, Clone, Copy, PartialEq, Eq, Structural)]
pub enum RunError {
    /// A change of the counter was refused.
    Refused(KeyEventError),
    /// The input ended while the application was waiting for the next
    /// event.
    InputEnded,
}

impl CounterError {
    /// The text of [`CounterError::message`].
    pub open spec fn message_text(self) -> Seq<char> {
        match self {
            CounterError::Overflow { value } => "error: because "@ + decimal(value as nat)
                + " is more than "@ + decimal(MAX_COUNTER as nat),
            CounterError::Underflow => "error: because "@ + decimal(0) + " is the least value"@,
        }
    }

    /// The error in words, naming the value that was refused.
    pub fn message(&self) -> (text: String)
        ensures
            text@ == self.message_text(),
    {
        let mut text = String::from_str("error: because ");
        match self {
            CounterError::Overflow { value } => {
                text.append(decimal_string(*value).as_str());
                text.append(" is more than ");
                text.append(decimal_string(MAX_COUNTER).as_str());
            },
            CounterError::Underflow => {
                text.append(decimal_string(0).as_str());
                text.append(" is the least value");
            },
        }
        text
    }
}

} // verus!
