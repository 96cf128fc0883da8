//! The virtual keyboard that key presses are injected through.
//!
//! The keyboard here keeps the books: its name, whether it is open, and
//! which keys it was opened with. It says which events to write for a key;
//! writing them is the caller's part.

use vstd::prelude::*;
use crate::error::Error;

verus! {

/// A key of the virtual keyboard.
#[derive(Clone, Copy, Debug, PartialEq, Eq, Structural)]
pub enum Key {
    A,
    H,
    M,
    Insert,
    LeftCtrl,
    LeftShift,
    Down,
    Left,
    Right,
    Up,
}

/// Whether a key goes down or comes up.
#[derive(Clone, Copy, Debug, PartialEq, Eq, Structural)]
pub enum KeyState {
    Released,
    Pressed,
}

/// A key going down or coming up.
#[derive(Clone, Copy, Debug, PartialEq, Eq, Structural)]
pub struct KeyStroke {
    pub key: Key,
    pub state: KeyState,
}

/// A moment, in seconds and microseconds since the epoch.
#[derive(Clone, Copy, Debug, PartialEq, Eq, Structural)]
pub struct EventTime {
    pub seconds: i64,
    pub microseconds: i64,
}

/// An event as the kernel takes it.
#[derive(Clone, Copy, Debug, PartialEq, Eq, Structural)]
pub enum InputEvent {
    /// A key changed its state.
    Key { time: EventTime, stroke: KeyStroke },
    /// What came before belongs together.
    Synchronize { time: EventTime },
}

/// The moment to stamp events with: the time since the epoch if it is known
/// and its seconds fit, and the epoch itself otherwise.
pub open spec fn event_time(since_epoch: Option<(u64, u32)>) -> EventTime {
    match since_epoch {
        Some((seconds, microseconds)) => if seconds <= i64::MAX {
            EventTime { seconds: seconds as i64, microseconds: microseconds as i64 }
        } else {
            EventTime { seconds: 0, microseconds: 0 }
        },
        None => EventTime { seconds: 0, microseconds: 0 },
    }
}

/// The events that stand for a key going down or coming up at a moment: the
/// key, and the mark that ends a report.
pub open spec fn key_events(key: Key, value: KeyState, since_epoch: Option<(u64, u32)>) -> Seq<
    InputEvent,
> {
    seq![
        InputEvent::Key { time: event_time(since_epoch), stroke: KeyStroke { key, state: value } },
        InputEvent::Synchronize { time: event_time(since_epoch) },
    ]
}

/// The virtual keyboard.
pub struct UInputDevice {
    name: String,
    open: bool,
    keybits: Vec<Key>,
}

/// The keyboard, as contracts speak of it.
pub struct DeviceView {
    pub name: Seq<char>,
    pub open: bool,
    pub keybits: Seq<Key>,
}

fn same_key(a: Key, b: Key) -> (r: bool)
    ensures
        r == (a == b),
{
    match (a, b) {
        (Key::A, Key::A) => true,
        (Key::H, Key::H) => true,
        (Key::M, Key::M) => true,
        (Key::Insert, Key::Insert) => true,
        (Key::LeftCtrl, Key::LeftCtrl) => true,
        (Key::LeftShift, Key::LeftShift) => true,
        (Key::Down, Key::Down) => true,
        (Key::Left, Key::Left) => true,
        (Key::Right, Key::Right) => true,
        (Key::Up, Key::Up) => true,
        _ => false,
    }
}

impl UInputDevice {
    pub closed spec fn view(&self) -> DeviceView {
        DeviceView { name: self.name@, open: self.open, keybits: self.keybits@ }
    }

    /// A keyboard without a name, not yet open.
    pub fn new() -> (r: UInputDevice)
        ensures
            r@ == (DeviceView { name: Seq::empty(), open: false, keybits: Seq::empty() }),
    {
        UInputDevice { name: String::new(), open: false, keybits: Vec::new() }
    }

    /// Names the keyboard, which has to happen before it is opened.
    pub fn set_name(&mut self, name: String) -> (r: Result<(), Error>)
        ensures
            old(self)@.open ==> r == Err::<(), Error>(Error::AlreadyOpen) && final(self)@ == old(
                self,
            )@,
            !old(self)@.open ==> r is Ok && final(self)@ == (DeviceView {
                name: name@,
                ..old(self)@
            }),
    {
        if self.open {
            return Err(Error::AlreadyOpen);
        }
        self.name = name;
        Ok(())
    }

    /// Opens the keyboard with the keys it is to have. It opens once.
    pub fn open(&mut self, keybits: &[Key]) -> (r: Result<(), Error>)
        ensures
            old(self)@.open ==> r == Err::<(), Error>(Error::AlreadyOpen) && final(self)@ == old(
                self,
            )@,
            !old(self)@.open ==> r is Ok && final(self)@ == (DeviceView {
                open: true,
                keybits: keybits@,
                ..old(self)@
            }),
    {
        if self.open {
            return Err(Error::AlreadyOpen);
        }
        self.keybits = vstd::slice::slice_to_vec(keybits);
        self.open = true;
        Ok(())
    }

    /// Whether the keyboard has a key.
    pub fn has_key(&self, key: Key) -> (r: bool)
        ensures
            r == self@.keybits.contains(key),
    {
        let mut i: usize = 0;
        while i < self.keybits.len()
            invariant
                i <= self.keybits@.len(),
                forall|j: int| 0 <= j < i ==> self.keybits@[j] != key,
            decreases self.keybits@.len() - i,
        {
            if same_key(self.keybits[i], key) {
                return true;
            }
            i += 1;
        }
        false
    }

    /// The moment to stamp events with, given the time since the epoch in
    /// seconds and microseconds, if it is known.
    pub fn system_time(since_epoch: Option<(u64, u32)>) -> (r: EventTime)
        ensures
            r == event_time(since_epoch),
    {
        match since_epoch {
            Some((seconds, microseconds)) => {
                if seconds <= 0x7fff_ffff_ffff_ffff {
                    EventTime { seconds: seconds as i64, microseconds: microseconds as i64 }
                } else {
                    EventTime { seconds: 0, microseconds: 0 }
                }
            },
            None => EventTime { seconds: 0, microseconds: 0 },
        }
    }

    /// The events to write for a key going down or coming up: the key, and
    /// the mark that ends a report, both stamped with the same moment. A key
    /// that the keyboard does not have is refused.
    pub fn send_key_event(&self, key: Key, value: KeyState, since_epoch: Option<(u64, u32)>) -> (r:
        Result<[InputEvent; 2], Error>)
        ensures
            !self@.keybits.contains(key) ==> r == Err::<[InputEvent; 2], Error>(Error::NotFound),
            self@.keybits.contains(key) ==> r is Ok && r->Ok_0@ == key_events(
                key,
                value,
                since_epoch,
            ),
    {
        if !self.has_key(key) {
            return Err(Error::NotFound);
        }
        let time = Self::system_time(since_epoch);
        let events = [
            InputEvent::Key { time, stroke: KeyStroke { key, state: value } },
            InputEvent::Synchronize { time },
        ];
        assert(events@ =~= seq![
            InputEvent::Key { time, stroke: KeyStroke { key, state: value } },
            InputEvent::Synchronize { time },
        ]);
        Ok(events)
    }

    /// The events to write for a key going down.
    pub fn key_down(&self, key: Key, since_epoch: Option<(u64, u32)>) -> (r: Result<
        [InputEvent; 2],
        Error,
    >)
        ensures
            !self@.keybits.contains(key) ==> r == Err::<[InputEvent; 2], Error>(Error::NotFound),
            self@.keybits.contains(key) ==> r is Ok && r->Ok_0@ == key_events(
                key,
                KeyState::Pressed,
                since_epoch,
            ),
    {
        self.send_key_event(key, KeyState::Pressed, since_epoch)
    }

    /// The events to write for a key coming up.
    pub fn key_up(&self, key: Key, since_epoch: Option<(u64, u32)>) -> (r: Result<
        [InputEvent; 2],
        Error,
    >)
        ensures
            !self@.keybits.contains(key) ==> r == Err::<[InputEvent; 2], Error>(Error::NotFound),
            self@.keybits.contains(key) ==> r is Ok && r->Ok_0@ == key_events(
                key,
                KeyState::Released,
                since_epoch,
            ),
    {
        self.send_key_event(key, KeyState::Released, since_epoch)
    }
}

} // verus!
