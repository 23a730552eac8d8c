//! The bounded queue of input events that is handed to the plugin with
//! every processing call.

use vstd::prelude::*;
use vstd::string::*;
use crate::error::{Error, ErrorKind};

verus! {

/// The greatest number of events that the queue holds.
pub const MAX_EVENT_COUNT: usize = 256;

/// The kinds of events of the binary interface.
#[allow(non_camel_case_types)]
#[derive(Clone, Copy, Debug, PartialEq, Eq, Structural)]
pub enum EventTypes {
    kNoteOnEvent,
    kNoteOffEvent,
    kDataEvent,
    kPolyPressureEvent,
    kNoteExpressionValueEvent,
    kNoteExpressionTextEvent,
    kChordEvent,
    kScaleEvent,
    kLegacyMIDICCOutEvent,
}

impl EventTypes {
    /// The number by which the binary interface knows this kind of event.
    pub open spec fn code_spec(self) -> u16 {
        match self {
            EventTypes::kNoteOnEvent => 0,
            EventTypes::kNoteOffEvent => 1,
            EventTypes::kDataEvent => 2,
            EventTypes::kPolyPressureEvent => 3,
            EventTypes::kNoteExpressionValueEvent => 4,
            EventTypes::kNoteExpressionTextEvent => 5,
            EventTypes::kChordEvent => 6,
            EventTypes::kScaleEvent => 7,
            EventTypes::kLegacyMIDICCOutEvent => 65535,
        }
    }

    #[verifier::when_used_as_spec(code_spec)]
    pub fn code(self) -> (c: u16)
        ensures
            c == self.code_spec(),
    {
        match self {
            EventTypes::kNoteOnEvent => 0,
            EventTypes::kNoteOffEvent => 1,
            EventTypes::kDataEvent => 2,
            EventTypes::kPolyPressureEvent => 3,
            EventTypes::kNoteExpressionValueEvent => 4,
            EventTypes::kNoteExpressionTextEvent => 5,
            EventTypes::kChordEvent => 6,
            EventTypes::kScaleEvent => 7,
            EventTypes::kLegacyMIDICCOutEvent => 65535,
        }
    }
}

/// A note that starts. Tuning and velocity are single-precision numbers,
/// kept as their bit patterns.
#[derive(Clone, Copy, Debug, PartialEq, Eq, Structural)]
pub struct NoteOnEvent {
    pub channel: i16,
    pub pitch: i16,
    pub tuning: u32,
    pub velocity: u32,
    pub length: i32,
    pub note_id: i32,
}

/// A note that ends. Velocity and tuning are single-precision numbers, kept
/// as their bit patterns.
#[derive(Clone, Copy, Debug, PartialEq, Eq, Structural)]
pub struct NoteOffEvent {
    pub channel: i16,
    pub pitch: i16,
    pub velocity: u32,
    pub note_id: i32,
    pub tuning: u32,
}

/// What an event carries.
#[derive(Clone, Copy, Debug, PartialEq, Eq, Structural)]
pub enum EventData {
    NoteOn(NoteOnEvent),
    NoteOff(NoteOffEvent),
}

/// One input event. The musical position is a double-precision number, kept
/// as its bit pattern.
#[derive(Clone, Copy, Debug, PartialEq, Eq, Structural)]
pub struct Event {
    pub bus_index: i32,
    pub sample_offset: i32,
    pub ppq_position: u64,
    pub flags: u16,
    pub type_: u16,
    pub event: EventData,
}

/// The queue of input events, oldest first.
pub struct EventList {
    events: Vec<Event>,
}

impl View for EventList {
    type V = Seq<Event>;

    closed spec fn view(&self) -> Seq<Event> {
        self.events@
    }
}

impl EventList {
    /// The queue never holds more than [`MAX_EVENT_COUNT`] events.
    #[verifier::type_invariant]
    pub closed spec fn wf(&self) -> bool {
        self.events@.len() <= MAX_EVENT_COUNT
    }

    pub fn new() -> (list: Box<Self>)
        ensures
            list@ == Seq::<Event>::empty(),
    {
        Box::new(Self { events: Vec::new() })
    }

    /// Appends an event. A full queue refuses it and stays as it is.
    pub fn push_event(&mut self, event: Event) -> (r: Result<(), Error>)
        ensures
            old(self)@.len() <= MAX_EVENT_COUNT,
            match r {
                Ok(()) => old(self)@.len() < MAX_EVENT_COUNT && final(self)@ == old(self)@.push(
                    event,
                ),
                Err(e) => old(self)@.len() == MAX_EVENT_COUNT && final(self)@ == old(self)@ && e.is(
                    ErrorKind::QueueFull,
                    "event list overflow",
                ),
            },
    {
        proof {
            use_type_invariant(&*self);
        }
        if self.events.len() >= MAX_EVENT_COUNT {
            return Err(Error::new(ErrorKind::QueueFull, "event list overflow"));
        }
        let mut events: Vec<Event> = Vec::new();
        core::mem::swap(&mut events, &mut self.events);
        events.push(event);
        self.events = events;
        Ok(())
    }

    /// Removes all events.
    pub fn clear(&mut self) -> (r: Result<(), Error>)
        ensures
            r is Ok,
            final(self)@ == Seq::<Event>::empty(),
    {
        let mut events: Vec<Event> = Vec::new();
        core::mem::swap(&mut events, &mut self.events);
        events.clear();
        self.events = events;
        Ok(())
    }

    /// A note-on event for the first channel, untuned and of open length.
    /// The velocity is given as the bit pattern of a single-precision number.
    pub fn new_note_on_event(pitch: i16, velocity: u32) -> (data: EventData)
        ensures
            data == EventData::NoteOn(
                NoteOnEvent { channel: 0, pitch, tuning: 0, velocity, length: 0, note_id: -1i32 },
            ),
    {
        EventData::NoteOn(
            NoteOnEvent { channel: 0, pitch, tuning: 0, velocity, length: 0, note_id: -1 },
        )
    }

    /// A note-off event for the first channel, with velocity zero.
    pub fn new_note_off_event(pitch: i16) -> (data: EventData)
        ensures
            data == EventData::NoteOff(
                NoteOffEvent { channel: 0, pitch, velocity: 0, note_id: -1i32, tuning: 0 },
            ),
    {
        EventData::NoteOff(NoteOffEvent { channel: 0, pitch, velocity: 0, note_id: -1, tuning: 0 })
    }

    /// An event for the first bus, at the start of the block.
    pub fn new_event(event_data: EventData, event_type: EventTypes) -> (event: Event)
        ensures
            event == (Event {
                bus_index: 0,
                sample_offset: 0,
                ppq_position: 0,
                flags: 0,
                type_: event_type.code_spec(),
                event: event_data,
            }),
    {
        Event {
            bus_index: 0,
            sample_offset: 0,
            ppq_position: 0,
            flags: 0,
            type_: event_type.code(),
            event: event_data,
        }
    }

    /// The number of queued events.
    pub fn get_event_count(&self) -> (n: i32)
        ensures
            n == self@.len(),
    {
        proof {
            use_type_invariant(self);
        }
        self.events.len() as i32
    }

    /// What the plugin gets when it asks for the event at an index. Every
    /// valid index yields the oldest queued event; an index that is negative
    /// or beyond the queue yields nothing.
    pub fn get_event(&self, index: i32) -> (r: Option<Event>)
        ensures
            match r {
                Some(e) => 0 <= index < self@.len() && e == self@[0],
                None => !(0 <= index < self@.len()),
            },
    {
        if index < 0 || index as usize >= self.events.len() {
            return None;
        }
        Some(self.events[0])
    }

    /// The plugin may not add input events: the request is always refused.
    pub fn add_event(&self, _event: &Event) -> (status: i32)
        ensures
            status == crate::base::kResultFalse,
    {
        crate::base::kResultFalse
    }
}

} // verus!
