//! The events that the calculator consumes, and the producer's decisions:
//! which event a key press stands for, how long to wait for the next key, and
//! when a tick is due.

use vstd::prelude::*;

verus! {

/// The interval between two ticks, in nanoseconds.
pub const TICK_NANOS: u64 = 200_000_000;

/// What a key press carries, as far as the calculator cares.
#[derive(Clone, Copy, Debug, PartialEq, Eq, Structural)]
pub enum KeyCode {
    Char(char),
    Backspace,
    Enter,
    /// Any other key.
    Other,
}

/// A key press: the key, and whether the control modifier was held.
#[derive(Clone, Copy, Debug, PartialEq, Eq, Structural)]
pub struct Key {
    pub code: KeyCode,
    pub control: bool,
}

/// An event of the consumer loop. There are no others.
#[derive(Debug, PartialEq, Eq)]
pub enum Event {
    /// A character was typed.
    Char(char),
    /// The last character of the input line is to go.
    Backspace,
    /// The input line is submitted.
    Submit,
    /// Time has passed; nothing changes but the display is drawn again.
    Tick,
    /// The loop ends.
    Quit,
    /// Stack, input line and previous text are cleared.
    Reset,
    /// The input line is cleared.
    ClearInput,
    /// A message joins the error queue.
    PushError(String),
    /// The oldest message leaves the error queue.
    PopError,
}

/// The mathematical value of an [`Event`].
pub enum EventView {
    Char(char),
    Backspace,
    Submit,
    Tick,
    Quit,
    Reset,
    ClearInput,
    PushError(Seq<char>),
    PopError,
}

impl View for Event {
    type V = EventView;

    open spec fn view(&self) -> EventView {
        match self {
            Event::Char(c) => EventView::Char(*c),
            Event::Backspace => EventView::Backspace,
            Event::Submit => EventView::Submit,
            Event::Tick => EventView::Tick,
            Event::Quit => EventView::Quit,
            Event::Reset => EventView::Reset,
            Event::ClearInput => EventView::ClearInput,
            Event::PushError(m) => EventView::PushError(m@),
            Event::PopError => EventView::PopError,
        }
    }
}

/// The value of an event that may be absent.
pub open spec fn event_view(event: Option<Event>) -> Option<EventView> {
    match event {
        Some(e) => Some(e@),
        None => None,
    }
}

/// The event that a key press stands for: control with `d` quits, control
/// with `w` clears the input line, control with `l` resets; otherwise enter
/// submits, backspace and characters edit the line, and other keys mean
/// nothing.
pub open spec fn decoded(key: Key) -> Option<EventView> {
    if key.control && key.code == KeyCode::Char('d') {
        Some(EventView::Quit)
    } else if key.control && key.code == KeyCode::Char('w') {
        Some(EventView::ClearInput)
    } else if key.control && key.code == KeyCode::Char('l') {
        Some(EventView::Reset)
    } else {
        match key.code {
            KeyCode::Enter => Some(EventView::Submit),
            KeyCode::Backspace => Some(EventView::Backspace),
            KeyCode::Char(c) => Some(EventView::Char(c)),
            KeyCode::Other => None,
        }
    }
}

/// Decodes a key press into the event it stands for.
pub fn decode(key: Key) -> (event: Option<Event>)
    ensures
        event_view(event) == decoded(key),
{
    match key.code {
        KeyCode::Char(c) => {
            if key.control && c == 'd' {
                Some(Event::Quit)
            } else if key.control && c == 'w' {
                Some(Event::ClearInput)
            } else if key.control && c == 'l' {
                Some(Event::Reset)
            } else {
                Some(Event::Char(c))
            }
        },
        KeyCode::Enter => Some(Event::Submit),
        KeyCode::Backspace => Some(Event::Backspace),
        KeyCode::Other => None,
    }
}

/// How long the producer may wait for a key, `elapsed` nanoseconds after the
/// last tick: the rest of the interval, and nothing once it is over.
pub fn poll_timeout(elapsed: u64) -> (timeout: u64)
    ensures
        timeout == if elapsed >= TICK_NANOS {
            0
        } else {
            TICK_NANOS - elapsed
        },
{
    if elapsed >= TICK_NANOS {
        0
    } else {
        TICK_NANOS - elapsed
    }
}

/// Whether the producer sends a tick after a wait: the interval is over and
/// the wait brought no key.
pub fn tick_due(elapsed: u64, key_consumed: bool) -> (due: bool)
    ensures
        due == (elapsed >= TICK_NANOS && !key_consumed),
{
    elapsed >= TICK_NANOS && !key_consumed
}

} // verus!
