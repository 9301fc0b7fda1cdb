//! A flag shared between the input reader, the drawing and the collectors.
use vstd::prelude::*;

verus! {

/// The state of an event: a flag, or a request to wait until it is set.
#[derive(Clone, Copy, PartialEq, Eq, Structural)]
pub enum EventEnum {
    Flag(bool),
    Wait,
}

/// An event between threads.
#[derive(Clone, Copy, PartialEq, Eq, Structural)]
pub struct Event {
    pub t: EventEnum,
}

impl Event {
    /// Whether the flag is set.
    pub fn is_set(self) -> (r: bool)
        ensures
            r == (self.t == EventEnum::Flag(true)),
    {
        match self.t {
            EventEnum::Flag(true) => true,
            _ => false,
        }
    }

    /// Replaces the state of the event.
    pub fn replace_self(&mut self, replace: EventEnum)
        ensures
            final(self).t == replace,
    {
        self.t = replace;
    }
}

} // verus!
