//! The interceptor of one keyboard.
//!
//! A `KeyboardHandler` holds what the interceptor knows between two events and
//! decides what each event leads to. It touches no device: its caller opens
//! the physical keyboard and the virtual one, asks for exclusive access, reads
//! one record at a time, hands it to `handle_record`, and writes what comes
//! back to the virtual keyboard, in order, before it reads again.

use vstd::prelude::*;
use crate::kbd::event::{decode_event, decoded, InputEvent, EVENT_SIZE};
use crate::kbd::fault::Fault;
use crate::kbd::keys::{EV_KEY, KEY_CAPSLOCK};
use crate::kbd::remap::substitute;
use crate::kbd::trace::{render_trace, trace_text};
use crate::kbd::transition::{
    emitted,
    emitted_by,
    modifier_after,
    next_modifier,
};

verus! {

/// The control request that asks for, or gives up, exclusive access to an
/// input device; its argument is `GRAB` or `UNGRAB`.
pub const EVIOCGRAB: u64 = 0x4004_4590;

/// The argument of `EVIOCGRAB` that asks for exclusive access.
pub const GRAB: i32 = 1;

/// The argument of `EVIOCGRAB` that gives exclusive access up.
pub const UNGRAB: i32 = 0;

/// What a control request returns when it failed.
pub const REQUEST_FAILED: i32 = -1;

/// How long to wait before the grab, in seconds, so that the release of the
/// key that started the interceptor still reaches the rest of the system.
pub const GRAB_DELAY_SECS: u64 = 1;

/// What stands in front of the device path in the name of the virtual
/// keyboard.
pub open spec fn sink_name_prefix() -> Seq<char> {
    "C-HJKL Output for "@
}

/// The state of an interceptor as plain values.
pub struct HandlerState {
    /// The path of the physical keyboard.
    pub device_path: Seq<char>,
    /// Whether a trace line is wanted for each event.
    pub debug: bool,
    /// Whether exclusive access to the physical keyboard is held.
    pub grabbed: bool,
    /// Whether the modifier key is held down.
    pub modifier: bool,
}

impl HandlerState {
    /// This state with another modifier state.
    pub open spec fn with_modifier(self, modifier: bool) -> HandlerState {
        HandlerState {
            device_path: self.device_path,
            debug: self.debug,
            grabbed: self.grabbed,
            modifier,
        }
    }

    /// This state with another grab state.
    pub open spec fn with_grabbed(self, grabbed: bool) -> HandlerState {
        HandlerState {
            device_path: self.device_path,
            debug: self.debug,
            grabbed,
            modifier: self.modifier,
        }
    }

    /// The trace line that is due for `ev` in this state, if any.
    pub open spec fn trace(self, ev: InputEvent) -> Option<Seq<char>> {
        if self.debug {
            Some(trace_text(self.device_path, self.modifier, ev))
        } else {
            None
        }
    }
}

/// What the interceptor answers to one event.
pub struct Reaction {
    /// The line to print before anything is written, if tracing is on.
    pub trace: Option<String>,
    /// The events to write to the virtual keyboard, in this order.
    pub events: Vec<InputEvent>,
}

impl Reaction {
    /// The trace line as a sequence of characters.
    pub open spec fn trace_view(self) -> Option<Seq<char>> {
        match self.trace {
            Some(line) => Some(line@),
            None => None,
        }
    }
}

/// The interceptor of one keyboard.
pub struct KeyboardHandler {
    is_grabbed: bool,
    debug: bool,
    device_path: String,
    caps_pressed: bool,
}

impl View for KeyboardHandler {
    type V = HandlerState;

    closed spec fn view(&self) -> HandlerState {
        HandlerState {
            device_path: self.device_path@,
            debug: self.debug,
            grabbed: self.is_grabbed,
            modifier: self.caps_pressed,
        }
    }
}

impl KeyboardHandler {
    /// An interceptor for the keyboard at `device_path`: nothing grabbed yet,
    /// the modifier not held.
    pub fn new(device_path: &String, debug: bool) -> (handler: KeyboardHandler)
        ensures
            handler@ == (HandlerState {
                device_path: device_path@,
                debug,
                grabbed: false,
                modifier: false,
            }),
    {
        KeyboardHandler {
            device_path: device_path.clone(),
            is_grabbed: false,
            debug,
            caps_pressed: false,
        }
    }

    /// The path of the physical keyboard.
    pub fn device_path(&self) -> (path: &str)
        ensures
            path@ == self@.device_path,
    {
        self.device_path.as_str()
    }

    /// Whether a trace line is wanted for each event.
    pub fn debug(&self) -> (debug: bool)
        ensures
            debug == self@.debug,
    {
        self.debug
    }

    /// Whether exclusive access to the physical keyboard is held.
    pub fn is_grabbed(&self) -> (grabbed: bool)
        ensures
            grabbed == self@.grabbed,
    {
        self.is_grabbed
    }

    /// Whether the modifier key is held down.
    pub fn modifier_active(&self) -> (active: bool)
        ensures
            active == self@.modifier,
    {
        self.caps_pressed
    }

    /// The name under which the virtual keyboard is registered.
    pub fn sink_name(&self) -> (name: String)
        ensures
            name@ == sink_name_prefix() + self@.device_path,
    {
        let mut name = String::from_str("C-HJKL Output for ");
        name.append(self.device_path.as_str());
        name
    }

    /// Whether exclusive access is still to be asked for. Where it is held
    /// already, a grab is a no-op and no request is made.
    pub fn wants_grab(&self) -> (wanted: bool)
        ensures
            wanted == !self@.grabbed,
    {
        !self.is_grabbed
    }

    /// Takes note of what the request for exclusive access returned.
    ///
    /// Any status but `REQUEST_FAILED` means that access is now held. A
    /// refusal changes nothing and is reported as `Fault::Grab`, which is not
    /// fatal.
    pub fn grab_completed(&mut self, status: i32) -> (outcome: Result<(), Fault>)
        ensures
            final(self)@ == old(self)@.with_grabbed(old(self)@.grabbed || status != REQUEST_FAILED),
            final(self)@.grabbed ==> outcome == Ok::<(), Fault>(()),
            !final(self)@.grabbed ==> outcome == Err::<(), Fault>(Fault::Grab),
    {
        if status != REQUEST_FAILED {
            self.is_grabbed = true;
        }
        if self.is_grabbed {
            Ok(())
        } else {
            Err(Fault::Grab)
        }
    }

    /// Takes note that exclusive access was given up, whatever the request
    /// returned.
    pub fn ungrab_completed(&mut self)
        ensures
            final(self)@ == old(self)@.with_grabbed(false),
    {
        self.is_grabbed = false;
    }

    /// The trace line for `ev`, where tracing is on. It shows the modifier
    /// state before `ev` is handled.
    pub fn trace_line(&self, ev: &InputEvent) -> (line: Option<String>)
        ensures
            line.is_some() == self@.debug,
            line matches Some(text) ==> text@ == trace_text(
                self@.device_path,
                self@.modifier,
                *ev,
            ),
    {
        if self.debug {
            Some(render_trace(self.device_path.as_str(), self.caps_pressed, ev))
        } else {
            None
        }
    }

    /// Handles one event: updates the modifier state and returns what is to
    /// be written to the virtual keyboard, in order.
    ///
    /// An event of the modifier key sets the modifier state and yields
    /// nothing. A press or repeat of a trigger key while the modifier is held
    /// yields the press and the release of its substitute. Any other event is
    /// returned as it is.
    pub fn handle_event(&mut self, ev: InputEvent) -> (events: Vec<InputEvent>)
        ensures
            final(self)@ == old(self)@.with_modifier(next_modifier(old(self)@.modifier, ev)),
            events@ == emitted(old(self)@.modifier, ev),
    {
        let mut events: Vec<InputEvent> = Vec::new();
        if ev.kind == EV_KEY && ev.code == KEY_CAPSLOCK {
            self.caps_pressed = ev.value != 0;
            return events;
        }
        if ev.kind == EV_KEY && ev.value >= 1 && self.caps_pressed {
            match substitute(ev.code) {
                Some(key_to_press) => {
                    let mut output = ev;
                    output.code = key_to_press;
                    output.value = 1;
                    events.push(output);
                    output.value = 0;
                    events.push(output);
                    return events;
                },
                None => {},
            }
        }
        events.push(ev);
        events
    }

    /// Handles what one read from the physical keyboard delivered.
    ///
    /// Anything but one whole record is a partial read: the state stays as it
    /// was and nothing is to be written. A whole record is decoded, traced
    /// where tracing is on, and handled as `handle_event` does.
    pub fn handle_record(&mut self, bytes: &[u8]) -> (outcome: Result<Reaction, Fault>)
        ensures
            bytes@.len() != EVENT_SIZE ==> outcome is Err && final(self)@ == old(self)@,
            outcome matches Err(fault) ==> fault == Fault::PartialRead,
            bytes@.len() == EVENT_SIZE ==> outcome is Ok && final(self)@ == old(self)@.with_modifier(
                next_modifier(old(self)@.modifier, decoded(bytes@)),
            ),
            outcome matches Ok(reaction) ==> reaction.events@ == emitted(
                old(self)@.modifier,
                decoded(bytes@),
            ) && reaction.trace_view() == old(self)@.trace(decoded(bytes@)),
    {
        match decode_event(bytes) {
            Err(fault) => Err(fault),
            Ok(ev) => {
                let trace = self.trace_line(&ev);
                let events = self.handle_event(ev);
                Ok(Reaction { trace, events })
            },
        }
    }

    /// Handles a run of events, one by one and in order, and returns all that
    /// is to be written to the virtual keyboard, in order.
    pub fn handle_events(&mut self, input: &[InputEvent]) -> (events: Vec<InputEvent>)
        ensures
            final(self)@ == old(self)@.with_modifier(modifier_after(old(self)@.modifier, input@)),
            events@ == emitted_by(old(self)@.modifier, input@),
    {
        let mut events: Vec<InputEvent> = Vec::new();
        let mut i: usize = 0;
        while i < input.len()
            invariant
                i <= input@.len(),
                self@ == old(self)@.with_modifier(
                    modifier_after(old(self)@.modifier, input@.take(i as int)),
                ),
                events@ == emitted_by(old(self)@.modifier, input@.take(i as int)),
            decreases input@.len() - i,
        {
            let mut step = self.handle_event(input[i]);
            events.append(&mut step);
            assert(input@.take(i + 1).drop_last() =~= input@.take(i as int));
            i += 1;
        }
        assert(input@.take(i as int) =~= input@);
        events
    }
}

} // verus!
