//! The screen reader: its modes, its actions, and the keys that trigger them.

use vstd::prelude::*;
use vstd::string::StringSliceAdditionalSpecFns;
use crate::error::Error;
use crate::json::{member_at, names, path_set, Json, JsonView};
use crate::lease::str_eq;
use crate::uinput::{Key, KeyState, KeyStroke};
use crate::text::{eq_ignore_case, lemma_ascii_bytes, lowered};

verus! {

/// The mode of the screen reader.
#[derive(Clone, Copy, Debug, PartialEq, Eq, Structural)]
pub enum ScreenReaderMode {
    Browse,
    Focus,
}

impl ScreenReaderMode {
    /// The name that this mode is written with.
    pub open spec fn spec_name(self) -> &'static str {
        match self {
            ScreenReaderMode::Browse => "browse",
            ScreenReaderMode::Focus => "focus",
        }
    }

    /// The mode that a text names, if it names one. Letter case does not count.
    pub open spec fn parse(text: Seq<u8>) -> Option<ScreenReaderMode> {
        if lowered(text) == lowered("browse".spec_bytes()) {
            Some(ScreenReaderMode::Browse)
        } else if lowered(text) == lowered("focus".spec_bytes()) {
            Some(ScreenReaderMode::Focus)
        } else {
            None
        }
    }

    /// The name that this mode is written with.
    pub fn name(&self) -> (r: &'static str)
        ensures
            r@ == self.spec_name()@,
    {
        match self {
            ScreenReaderMode::Browse => "browse",
            ScreenReaderMode::Focus => "focus",
        }
    }

    /// The name that this mode is written with, as an owned string.
    pub fn to_string(&self) -> (r: String)
        ensures
            r@ == self.spec_name()@,
    {
        self.name().to_owned()
    }

    /// Reads a mode from its name. A text that names none is refused.
    pub fn from_str(s: &str) -> (r: Result<ScreenReaderMode, Error>)
        ensures
            r == match ScreenReaderMode::parse(s.spec_bytes()) {
                Some(v) => Ok::<ScreenReaderMode, Error>(v),
                None => Err(Error::InvalidData),
            },
    {
        ScreenReaderMode::from_bytes(s.as_bytes())
    }

    /// Reads a mode from the bytes of its name.
    pub fn from_bytes(text: &[u8]) -> (r: Result<ScreenReaderMode, Error>)
        ensures
            r == match ScreenReaderMode::parse(text@) {
                Some(v) => Ok::<ScreenReaderMode, Error>(v),
                None => Err(Error::InvalidData),
            },
    {
        if eq_ignore_case(text, "browse".as_bytes()) {
            Ok(ScreenReaderMode::Browse)
        } else if eq_ignore_case(text, "focus".as_bytes()) {
            Ok(ScreenReaderMode::Focus)
        } else {
            Err(Error::InvalidData)
        }
    }

    /// The number that stands for this mode on the bus.
    pub open spec fn spec_number(self) -> u32 {
        match self {
            ScreenReaderMode::Browse => 0,
            ScreenReaderMode::Focus => 1,
        }
    }

    /// The mode that a number stands for, if it stands for one.
    pub open spec fn of_number(number: u32) -> Option<ScreenReaderMode> {
        if number == 0 {
            Some(ScreenReaderMode::Browse)
        } else if number == 1 {
            Some(ScreenReaderMode::Focus)
        } else {
            None
        }
    }

    /// The number that stands for this mode on the bus.
    pub fn as_u32(&self) -> (r: u32)
        ensures
            r == self.spec_number(),
            ScreenReaderMode::of_number(r) == Some(*self),
    {
        match self {
            ScreenReaderMode::Browse => 0,
            ScreenReaderMode::Focus => 1,
        }
    }

    /// Reads a mode from its number. A number that stands for none is refused.
    pub fn try_from(number: u32) -> (r: Result<ScreenReaderMode, Error>)
        ensures
            r == match ScreenReaderMode::of_number(number) {
                Some(v) => Ok::<ScreenReaderMode, Error>(v),
                None => Err(Error::InvalidData),
            },
            r matches Ok(v) ==> v.spec_number() == number,
    {
        if number == 0 {
            Ok(ScreenReaderMode::Browse)
        } else if number == 1 {
            Ok(ScreenReaderMode::Focus)
        } else {
            Err(Error::InvalidData)
        }
    }
}

/// Writing the name of a mode and reading it back gives the mode.
pub proof fn lemma_screen_reader_mode_round_trip(v: ScreenReaderMode)
    ensures
        ScreenReaderMode::parse(v.spec_name().spec_bytes()) == Some(v),
{
    reveal_strlit("browse");
    reveal_strlit("focus");
    lemma_ascii_bytes("browse");
    lemma_ascii_bytes("focus");
    assert(lowered("browse".spec_bytes()).len() != lowered("focus".spec_bytes()).len());
}

/// Something the screen reader can be told to do.
#[derive(Clone, Copy, Debug, PartialEq, Eq, Structural)]
pub enum ScreenReaderAction {
    StopTalking,
    ReadNextWord,
    ReadPreviousWord,
    ReadNextItem,
    ReadPreviousItem,
    MoveToNextLandmark,
    MoveToPreviousLandmark,
    MoveToNextHeading,
    MoveToPreviousHeading,
    ToggleMode,
}

impl ScreenReaderAction {
    /// The name that this action is written with.
    pub open spec fn spec_name(self) -> &'static str {
        match self {
            ScreenReaderAction::StopTalking => "stop_talking",
            ScreenReaderAction::ReadNextWord => "read_next_word",
            ScreenReaderAction::ReadPreviousWord => "read_previous_word",
            ScreenReaderAction::ReadNextItem => "read_next_item",
            ScreenReaderAction::ReadPreviousItem => "read_previous_item",
            ScreenReaderAction::MoveToNextLandmark => "move_to_next_landmark",
            ScreenReaderAction::MoveToPreviousLandmark => "move_to_previous_landmark",
            ScreenReaderAction::MoveToNextHeading => "move_to_next_heading",
            ScreenReaderAction::MoveToPreviousHeading => "move_to_previous_heading",
            ScreenReaderAction::ToggleMode => "toggle_mode",
        }
    }

    /// The action that a text names, if it names one. Letter case does not count.
    pub open spec fn parse(text: Seq<u8>) -> Option<ScreenReaderAction> {
        if lowered(text) == lowered("stop_talking".spec_bytes()) {
            Some(ScreenReaderAction::StopTalking)
        } else if lowered(text) == lowered("read_next_word".spec_bytes()) {
            Some(ScreenReaderAction::ReadNextWord)
        } else if lowered(text) == lowered("read_previous_word".spec_bytes()) {
            Some(ScreenReaderAction::ReadPreviousWord)
        } else if lowered(text) == lowered("read_next_item".spec_bytes()) {
            Some(ScreenReaderAction::ReadNextItem)
        } else if lowered(text) == lowered("read_previous_item".spec_bytes()) {
            Some(ScreenReaderAction::ReadPreviousItem)
        } else if lowered(text) == lowered("move_to_next_landmark".spec_bytes()) {
            Some(ScreenReaderAction::MoveToNextLandmark)
        } else if lowered(text) == lowered("move_to_previous_landmark".spec_bytes()) {
            Some(ScreenReaderAction::MoveToPreviousLandmark)
        } else if lowered(text) == lowered("move_to_next_heading".spec_bytes()) {
            Some(ScreenReaderAction::MoveToNextHeading)
        } else if lowered(text) == lowered("move_to_previous_heading".spec_bytes()) {
            Some(ScreenReaderAction::MoveToPreviousHeading)
        } else if lowered(text) == lowered("toggle_mode".spec_bytes()) {
            Some(ScreenReaderAction::ToggleMode)
        } else {
            None
        }
    }

    /// The name that this action is written with.
    pub fn name(&self) -> (r: &'static str)
        ensures
            r@ == self.spec_name()@,
    {
        match self {
            ScreenReaderAction::StopTalking => "stop_talking",
            ScreenReaderAction::ReadNextWord => "read_next_word",
            ScreenReaderAction::ReadPreviousWord => "read_previous_word",
            ScreenReaderAction::ReadNextItem => "read_next_item",
            ScreenReaderAction::ReadPreviousItem => "read_previous_item",
            ScreenReaderAction::MoveToNextLandmark => "move_to_next_landmark",
            ScreenReaderAction::MoveToPreviousLandmark => "move_to_previous_landmark",
            ScreenReaderAction::MoveToNextHeading => "move_to_next_heading",
            ScreenReaderAction::MoveToPreviousHeading => "move_to_previous_heading",
            ScreenReaderAction::ToggleMode => "toggle_mode",
        }
    }

    /// The name that this action is written with, as an owned string.
    pub fn to_string(&self) -> (r: String)
        ensures
            r@ == self.spec_name()@,
    {
        self.name().to_owned()
    }

    /// Reads a action from its name. A text that names none is refused.
    pub fn from_str(s: &str) -> (r: Result<ScreenReaderAction, Error>)
        ensures
            r == match ScreenReaderAction::parse(s.spec_bytes()) {
                Some(v) => Ok::<ScreenReaderAction, Error>(v),
                None => Err(Error::InvalidData),
            },
    {
        ScreenReaderAction::from_bytes(s.as_bytes())
    }

    /// Reads a action from the bytes of its name.
    pub fn from_bytes(text: &[u8]) -> (r: Result<ScreenReaderAction, Error>)
        ensures
            r == match ScreenReaderAction::parse(text@) {
                Some(v) => Ok::<ScreenReaderAction, Error>(v),
                None => Err(Error::InvalidData),
            },
    {
        if eq_ignore_case(text, "stop_talking".as_bytes()) {
            Ok(ScreenReaderAction::StopTalking)
        } else if eq_ignore_case(text, "read_next_word".as_bytes()) {
            Ok(ScreenReaderAction::ReadNextWord)
        } else if eq_ignore_case(text, "read_previous_word".as_bytes()) {
            Ok(ScreenReaderAction::ReadPreviousWord)
        } else if eq_ignore_case(text, "read_next_item".as_bytes()) {
            Ok(ScreenReaderAction::ReadNextItem)
        } else if eq_ignore_case(text, "read_previous_item".as_bytes()) {
            Ok(ScreenReaderAction::ReadPreviousItem)
        } else if eq_ignore_case(text, "move_to_next_landmark".as_bytes()) {
            Ok(ScreenReaderAction::MoveToNextLandmark)
        } else if eq_ignore_case(text, "move_to_previous_landmark".as_bytes()) {
            Ok(ScreenReaderAction::MoveToPreviousLandmark)
        } else if eq_ignore_case(text, "move_to_next_heading".as_bytes()) {
            Ok(ScreenReaderAction::MoveToNextHeading)
        } else if eq_ignore_case(text, "move_to_previous_heading".as_bytes()) {
            Ok(ScreenReaderAction::MoveToPreviousHeading)
        } else if eq_ignore_case(text, "toggle_mode".as_bytes()) {
            Ok(ScreenReaderAction::ToggleMode)
        } else {
            Err(Error::InvalidData)
        }
    }

    /// The number that stands for this action on the bus.
    pub open spec fn spec_number(self) -> u32 {
        match self {
            ScreenReaderAction::StopTalking => 0,
            ScreenReaderAction::ReadNextWord => 1,
            ScreenReaderAction::ReadPreviousWord => 2,
            ScreenReaderAction::ReadNextItem => 3,
            ScreenReaderAction::ReadPreviousItem => 4,
            ScreenReaderAction::MoveToNextLandmark => 5,
            ScreenReaderAction::MoveToPreviousLandmark => 6,
            ScreenReaderAction::MoveToNextHeading => 7,
            ScreenReaderAction::MoveToPreviousHeading => 8,
            ScreenReaderAction::ToggleMode => 9,
        }
    }

    /// The action that a number stands for, if it stands for one.
    pub open spec fn of_number(number: u32) -> Option<ScreenReaderAction> {
        if number == 0 {
            Some(ScreenReaderAction::StopTalking)
        } else if number == 1 {
            Some(ScreenReaderAction::ReadNextWord)
        } else if number == 2 {
            Some(ScreenReaderAction::ReadPreviousWord)
        } else if number == 3 {
            Some(ScreenReaderAction::ReadNextItem)
        } else if number == 4 {
            Some(ScreenReaderAction::ReadPreviousItem)
        } else if number == 5 {
            Some(ScreenReaderAction::MoveToNextLandmark)
        } else if number == 6 {
            Some(ScreenReaderAction::MoveToPreviousLandmark)
        } else if number == 7 {
            Some(ScreenReaderAction::MoveToNextHeading)
        } else if number == 8 {
            Some(ScreenReaderAction::MoveToPreviousHeading)
        } else if number == 9 {
            Some(ScreenReaderAction::ToggleMode)
        } else {
            None
        }
    }

    /// The number that stands for this action on the bus.
    pub fn as_u32(&self) -> (r: u32)
        ensures
            r == self.spec_number(),
            ScreenReaderAction::of_number(r) == Some(*self),
    {
        match self {
            ScreenReaderAction::StopTalking => 0,
            ScreenReaderAction::ReadNextWord => 1,
            ScreenReaderAction::ReadPreviousWord => 2,
            ScreenReaderAction::ReadNextItem => 3,
            ScreenReaderAction::ReadPreviousItem => 4,
            ScreenReaderAction::MoveToNextLandmark => 5,
            ScreenReaderAction::MoveToPreviousLandmark => 6,
            ScreenReaderAction::MoveToNextHeading => 7,
            ScreenReaderAction::MoveToPreviousHeading => 8,
            ScreenReaderAction::ToggleMode => 9,
        }
    }

    /// Reads a action from its number. A number that stands for none is refused.
    pub fn try_from(number: u32) -> (r: Result<ScreenReaderAction, Error>)
        ensures
            r == match ScreenReaderAction::of_number(number) {
                Some(v) => Ok::<ScreenReaderAction, Error>(v),
                None => Err(Error::InvalidData),
            },
            r matches Ok(v) ==> v.spec_number() == number,
    {
        if number == 0 {
            Ok(ScreenReaderAction::StopTalking)
        } else if number == 1 {
            Ok(ScreenReaderAction::ReadNextWord)
        } else if number == 2 {
            Ok(ScreenReaderAction::ReadPreviousWord)
        } else if number == 3 {
            Ok(ScreenReaderAction::ReadNextItem)
        } else if number == 4 {
            Ok(ScreenReaderAction::ReadPreviousItem)
        } else if number == 5 {
            Ok(ScreenReaderAction::MoveToNextLandmark)
        } else if number == 6 {
            Ok(ScreenReaderAction::MoveToPreviousLandmark)
        } else if number == 7 {
            Ok(ScreenReaderAction::MoveToNextHeading)
        } else if number == 8 {
            Ok(ScreenReaderAction::MoveToPreviousHeading)
        } else if number == 9 {
            Ok(ScreenReaderAction::ToggleMode)
        } else {
            Err(Error::InvalidData)
        }
    }
}

/// Writing the name of a action and reading it back gives the action.
pub proof fn lemma_screen_reader_action_round_trip(v: ScreenReaderAction)
    ensures
        ScreenReaderAction::parse(v.spec_name().spec_bytes()) == Some(v),
{
    reveal_strlit("stop_talking");
    reveal_strlit("read_next_word");
    reveal_strlit("read_previous_word");
    reveal_strlit("read_next_item");
    reveal_strlit("read_previous_item");
    reveal_strlit("move_to_next_landmark");
    reveal_strlit("move_to_previous_landmark");
    reveal_strlit("move_to_next_heading");
    reveal_strlit("move_to_previous_heading");
    reveal_strlit("toggle_mode");
    lemma_ascii_bytes("stop_talking");
    lemma_ascii_bytes("read_next_word");
    lemma_ascii_bytes("read_previous_word");
    lemma_ascii_bytes("read_next_item");
    lemma_ascii_bytes("read_previous_item");
    lemma_ascii_bytes("move_to_next_landmark");
    lemma_ascii_bytes("move_to_previous_landmark");
    lemma_ascii_bytes("move_to_next_heading");
    lemma_ascii_bytes("move_to_previous_heading");
    lemma_ascii_bytes("toggle_mode");
    assert(lowered("stop_talking".spec_bytes()).len() != lowered("read_next_word".spec_bytes()).len());
    assert(lowered("stop_talking".spec_bytes()).len() != lowered("read_previous_word".spec_bytes()).len());
    assert(lowered("read_next_word".spec_bytes()).len() != lowered("read_previous_word".spec_bytes()).len());
    assert(lowered("stop_talking".spec_bytes()).len() != lowered("read_next_item".spec_bytes()).len());
    assert(lowered("read_next_word".spec_bytes())[10] != lowered("read_next_item".spec_bytes())[10]);
    assert(lowered("read_previous_word".spec_bytes()).len() != lowered("read_next_item".spec_bytes()).len());
    assert(lowered("stop_talking".spec_bytes()).len() != lowered("read_previous_item".spec_bytes()).len());
    assert(lowered("read_next_word".spec_bytes()).len() != lowered("read_previous_item".spec_bytes()).len());
    assert(lowered("read_previous_word".spec_bytes())[14] != lowered("read_previous_item".spec_bytes())[14]);
    assert(lowered("read_next_item".spec_bytes()).len() != lowered("read_previous_item".spec_bytes()).len());
    assert(lowered("stop_talking".spec_bytes()).len() != lowered("move_to_next_landmark".spec_bytes()).len());
    assert(lowered("read_next_word".spec_bytes()).len() != lowered("move_to_next_landmark".spec_bytes()).len());
    assert(lowered("read_previous_word".spec_bytes()).len() != lowered("move_to_next_landmark".spec_bytes()).len());
    assert(lowered("read_next_item".spec_bytes()).len() != lowered("move_to_next_landmark".spec_bytes()).len());
    assert(lowered("read_previous_item".spec_bytes()).len() != lowered("move_to_next_landmark".spec_bytes()).len());
    assert(lowered("stop_talking".spec_bytes()).len() != lowered("move_to_previous_landmark".spec_bytes()).len());
    assert(lowered("read_next_word".spec_bytes()).len() != lowered("move_to_previous_landmark".spec_bytes()).len());
    assert(lowered("read_previous_word".spec_bytes()).len() != lowered("move_to_previous_landmark".spec_bytes()).len());
    assert(lowered("read_next_item".spec_bytes()).len() != lowered("move_to_previous_landmark".spec_bytes()).len());
    assert(lowered("read_previous_item".spec_bytes()).len() != lowered("move_to_previous_landmark".spec_bytes()).len());
    assert(lowered("move_to_next_landmark".spec_bytes()).len() != lowered("move_to_previous_landmark".spec_bytes()).len());
    assert(lowered("stop_talking".spec_bytes()).len() != lowered("move_to_next_heading".spec_bytes()).len());
    assert(lowered("read_next_word".spec_bytes()).len() != lowered("move_to_next_heading".spec_bytes()).len());
    assert(lowered("read_previous_word".spec_bytes()).len() != lowered("move_to_next_heading".spec_bytes()).len());
    assert(lowered("read_next_item".spec_bytes()).len() != lowered("move_to_next_heading".spec_bytes()).len());
    assert(lowered("read_previous_item".spec_bytes()).len() != lowered("move_to_next_heading".spec_bytes()).len());
    assert(lowered("move_to_next_landmark".spec_bytes()).len() != lowered("move_to_next_heading".spec_bytes()).len());
    assert(lowered("move_to_previous_landmark".spec_bytes()).len() != lowered("move_to_next_heading".spec_bytes()).len());
    assert(lowered("stop_talking".spec_bytes()).len() != lowered("move_to_previous_heading".spec_bytes()).len());
    assert(lowered("read_next_word".spec_bytes()).len() != lowered("move_to_previous_heading".spec_bytes()).len());
    assert(lowered("read_previous_word".spec_bytes()).len() != lowered("move_to_previous_heading".spec_bytes()).len());
    assert(lowered("read_next_item".spec_bytes()).len() != lowered("move_to_previous_heading".spec_bytes()).len());
    assert(lowered("read_previous_item".spec_bytes()).len() != lowered("move_to_previous_heading".spec_bytes()).len());
    assert(lowered("move_to_next_landmark".spec_bytes()).len() != lowered("move_to_previous_heading".spec_bytes()).len());
    assert(lowered("move_to_previous_landmark".spec_bytes()).len() != lowered("move_to_previous_heading".spec_bytes()).len());
    assert(lowered("move_to_next_heading".spec_bytes()).len() != lowered("move_to_previous_heading".spec_bytes()).len());
    assert(lowered("stop_talking".spec_bytes()).len() != lowered("toggle_mode".spec_bytes()).len());
    assert(lowered("read_next_word".spec_bytes()).len() != lowered("toggle_mode".spec_bytes()).len());
    assert(lowered("read_previous_word".spec_bytes()).len() != lowered("toggle_mode".spec_bytes()).len());
    assert(lowered("read_next_item".spec_bytes()).len() != lowered("toggle_mode".spec_bytes()).len());
    assert(lowered("read_previous_item".spec_bytes()).len() != lowered("toggle_mode".spec_bytes()).len());
    assert(lowered("move_to_next_landmark".spec_bytes()).len() != lowered("toggle_mode".spec_bytes()).len());
    assert(lowered("move_to_previous_landmark".spec_bytes()).len() != lowered("toggle_mode".spec_bytes()).len());
    assert(lowered("move_to_next_heading".spec_bytes()).len() != lowered("toggle_mode".spec_bytes()).len());
    assert(lowered("move_to_previous_heading".spec_bytes()).len() != lowered("toggle_mode".spec_bytes()).len());
}

/// The name that the virtual keyboard goes by.
pub const KEYBOARD_NAME: &'static str = "steamos-manager";

/// A key going down.
pub open spec fn down(key: Key) -> Seq<KeyStroke> {
    seq![KeyStroke { key, state: KeyState::Pressed }]
}

/// A key coming up.
pub open spec fn up(key: Key) -> Seq<KeyStroke> {
    seq![KeyStroke { key, state: KeyState::Released }]
}

/// A key going down and coming up again.
pub open spec fn press(key: Key) -> Seq<KeyStroke> {
    down(key) + up(key)
}

/// A key pressed while another is held.
pub open spec fn chord(held: Key, key: Key) -> Seq<KeyStroke> {
    down(held) + press(key) + up(held)
}

/// The keys that put the screen reader into a mode and keep it there:
/// Insert held with A pressed twice for focus mode, three times for browse
/// mode.
pub open spec fn mode_keys(mode: ScreenReaderMode) -> Seq<KeyStroke> {
    match mode {
        ScreenReaderMode::Focus => down(Key::Insert) + press(Key::A) + press(Key::A) + up(
            Key::Insert,
        ),
        ScreenReaderMode::Browse => down(Key::Insert) + press(Key::A) + press(Key::A) + press(
            Key::A,
        ) + up(Key::Insert),
    }
}

/// The keys behind an action. To stop talking takes no key but a signal.
pub open spec fn action_keys(action: ScreenReaderAction) -> Seq<KeyStroke> {
    match action {
        ScreenReaderAction::StopTalking => Seq::empty(),
        ScreenReaderAction::ReadNextWord => chord(Key::LeftCtrl, Key::Right),
        ScreenReaderAction::ReadPreviousWord => chord(Key::LeftCtrl, Key::Left),
        ScreenReaderAction::ReadNextItem => press(Key::Down),
        ScreenReaderAction::ReadPreviousItem => press(Key::Up),
        ScreenReaderAction::MoveToNextLandmark => press(Key::M),
        ScreenReaderAction::MoveToPreviousLandmark => chord(Key::LeftShift, Key::M),
        ScreenReaderAction::MoveToNextHeading => press(Key::H),
        ScreenReaderAction::MoveToPreviousHeading => chord(Key::LeftShift, Key::H),
        ScreenReaderAction::ToggleMode => chord(Key::Insert, Key::A),
    }
}

/// The other mode.
pub open spec fn toggled(mode: ScreenReaderMode) -> ScreenReaderMode {
    match mode {
        ScreenReaderMode::Browse => ScreenReaderMode::Focus,
        ScreenReaderMode::Focus => ScreenReaderMode::Browse,
    }
}

fn push_down(keys: &mut Vec<KeyStroke>, key: Key)
    ensures
        final(keys)@ == old(keys)@ + down(key),
{
    keys.push(KeyStroke { key, state: KeyState::Pressed });
    assert(keys@ =~= old(keys)@ + down(key));
}

fn push_up(keys: &mut Vec<KeyStroke>, key: Key)
    ensures
        final(keys)@ == old(keys)@ + up(key),
{
    keys.push(KeyStroke { key, state: KeyState::Released });
    assert(keys@ =~= old(keys)@ + up(key));
}

fn push_press(keys: &mut Vec<KeyStroke>, key: Key)
    ensures
        final(keys)@ == old(keys)@ + press(key),
{
    push_down(keys, key);
    push_up(keys, key);
    assert(keys@ =~= old(keys)@ + press(key));
}

fn push_chord(keys: &mut Vec<KeyStroke>, held: Key, key: Key)
    ensures
        final(keys)@ == old(keys)@ + chord(held, key),
{
    push_down(keys, held);
    push_press(keys, key);
    push_up(keys, held);
    assert(keys@ =~= old(keys)@ + chord(held, key));
}

/// What has to happen for an action.
#[derive(Debug)]
pub enum ActionStep {
    /// Signal the screen reader to stop talking.
    Signal,
    /// Type these keys, in order.
    Keys(Vec<KeyStroke>),
}

/// What has to happen for the screen reader to be switched on or off.
#[derive(Clone, Copy, Debug, PartialEq, Eq, Structural)]
pub struct EnableSteps {
    /// The desktop's setting and the screen reader's own are to be changed.
    pub change_settings: bool,
    /// The screen reader's service is to be restarted; otherwise stopped.
    pub restart: bool,
}

/// The keys that the virtual keyboard is opened with.
pub fn keyboard_keys() -> (r: Vec<Key>)
    ensures
        r@ == seq![
            Key::A,
            Key::H,
            Key::M,
            Key::Insert,
            Key::LeftCtrl,
            Key::LeftShift,
            Key::Down,
            Key::Left,
            Key::Right,
            Key::Up,
        ],
{
    let mut keys: Vec<Key> = Vec::new();
    keys.push(Key::A);
    keys.push(Key::H);
    keys.push(Key::M);
    keys.push(Key::Insert);
    keys.push(Key::LeftCtrl);
    keys.push(Key::LeftShift);
    keys.push(Key::Down);
    keys.push(Key::Left);
    keys.push(Key::Right);
    keys.push(Key::Up);
    assert(keys@ =~= seq![
        Key::A,
        Key::H,
        Key::M,
        Key::Insert,
        Key::LeftCtrl,
        Key::LeftShift,
        Key::Down,
        Key::Left,
        Key::Right,
        Key::Up,
    ]);
    keys
}

/// The screen reader, as far as its state can be told without asking it.
pub struct OrcaManager {
    enabled: bool,
    mode: ScreenReaderMode,
}

/// The screen reader's state, as contracts speak of it.
pub struct OrcaView {
    pub enabled: bool,
    pub mode: ScreenReaderMode,
}

impl OrcaManager {
    pub closed spec fn view(&self) -> OrcaView {
        OrcaView { enabled: self.enabled, mode: self.mode }
    }

    /// A screen reader in browse mode, switched on or off as the desktop's
    /// setting says.
    pub fn new(enabled: bool) -> (r: OrcaManager)
        ensures
            r@ == (OrcaView { enabled, mode: ScreenReaderMode::Browse }),
    {
        OrcaManager { enabled, mode: ScreenReaderMode::Browse }
    }

    /// Whether the screen reader is switched on.
    pub fn enabled(&self) -> (r: bool)
        ensures
            r == self@.enabled,
    {
        self.enabled
    }

    /// The mode that the screen reader is in.
    pub fn mode(&self) -> (r: ScreenReaderMode)
        ensures
            r == self@.mode,
    {
        self.mode
    }

    /// What has to happen to switch the screen reader on or off. The settings
    /// change only where the state does; the service is restarted or stopped
    /// in any case.
    pub fn set_enabled_steps(&self, enable: bool) -> (r: EnableSteps)
        ensures
            r == (EnableSteps { change_settings: enable != self@.enabled, restart: enable }),
    {
        EnableSteps { change_settings: enable != self.enabled, restart: enable }
    }

    /// Whether a failure to change the screen reader's own settings ends the
    /// attempt: it does unless the settings file is merely missing.
    pub fn settings_failure_counts(missing: bool) -> (r: bool)
        ensures
            r == !missing,
    {
        !missing
    }

    /// Takes note that the screen reader was switched on or off.
    pub fn set_enabled(&mut self, enable: bool)
        ensures
            final(self)@ == (OrcaView { enabled: enable, ..old(self)@ }),
    {
        self.enabled = enable;
    }

    /// The keys to type to put the screen reader into a mode; none where it
    /// is in that mode.
    pub fn set_mode_keys(&self, mode: ScreenReaderMode) -> (r: Vec<KeyStroke>)
        ensures
            r@ == if self@.mode == mode {
                Seq::<KeyStroke>::empty()
            } else {
                mode_keys(mode)
            },
    {
        let mut keys: Vec<KeyStroke> = Vec::new();
        match (self.mode, mode) {
            (ScreenReaderMode::Browse, ScreenReaderMode::Focus) => {
                push_down(&mut keys, Key::Insert);
                push_press(&mut keys, Key::A);
                push_press(&mut keys, Key::A);
                push_up(&mut keys, Key::Insert);
                assert(keys@ =~= mode_keys(mode));
            },
            (ScreenReaderMode::Focus, ScreenReaderMode::Browse) => {
                push_down(&mut keys, Key::Insert);
                push_press(&mut keys, Key::A);
                push_press(&mut keys, Key::A);
                push_press(&mut keys, Key::A);
                push_up(&mut keys, Key::Insert);
                assert(keys@ =~= mode_keys(mode));
            },
            _ => {},
        }
        keys
    }

    /// Takes note that the keys for a mode were typed.
    pub fn set_mode(&mut self, mode: ScreenReaderMode)
        ensures
            final(self)@ == (OrcaView { mode, ..old(self)@ }),
    {
        self.mode = mode;
    }

    /// What has to happen for an action: a signal to stop talking, and keys
    /// for everything else.
    pub fn trigger_action_step(&self, action: ScreenReaderAction) -> (r: ActionStep)
        ensures
            action == ScreenReaderAction::StopTalking ==> r is Signal,
            action != ScreenReaderAction::StopTalking ==> r is Keys && r->Keys_0@ == action_keys(
                action,
            ),
    {
        let mut keys: Vec<KeyStroke> = Vec::new();
        match action {
            ScreenReaderAction::StopTalking => {
                return ActionStep::Signal;
            },
            ScreenReaderAction::ReadNextWord => push_chord(&mut keys, Key::LeftCtrl, Key::Right),
            ScreenReaderAction::ReadPreviousWord => push_chord(&mut keys, Key::LeftCtrl, Key::Left),
            ScreenReaderAction::ReadNextItem => push_press(&mut keys, Key::Down),
            ScreenReaderAction::ReadPreviousItem => push_press(&mut keys, Key::Up),
            ScreenReaderAction::MoveToNextLandmark => push_press(&mut keys, Key::M),
            ScreenReaderAction::MoveToPreviousLandmark => push_chord(
                &mut keys,
                Key::LeftShift,
                Key::M,
            ),
            ScreenReaderAction::MoveToNextHeading => push_press(&mut keys, Key::H),
            ScreenReaderAction::MoveToPreviousHeading => push_chord(
                &mut keys,
                Key::LeftShift,
                Key::H,
            ),
            ScreenReaderAction::ToggleMode => push_chord(&mut keys, Key::Insert, Key::A),
        }
        assert(keys@ =~= action_keys(action));
        ActionStep::Keys(keys)
    }

    /// Takes note that an action was carried out: toggling the mode leaves
    /// the screen reader in the other mode, and nothing else changes what is
    /// known of it.
    pub fn trigger_action(&mut self, action: ScreenReaderAction)
        ensures
            final(self)@ == if action == ScreenReaderAction::ToggleMode {
                OrcaView { mode: toggled(old(self)@.mode), ..old(self)@ }
            } else {
                old(self)@
            },
    {
        if let ScreenReaderAction::ToggleMode = action {
            self.mode = match self.mode {
                ScreenReaderMode::Browse => ScreenReaderMode::Focus,
                ScreenReaderMode::Focus => ScreenReaderMode::Browse,
            };
        }
    }
}

/// Toggling the mode twice leaves it as it was.
pub proof fn toggle_twice(mode: ScreenReaderMode)
    ensures
        toggled(toggled(mode)) == mode,
{
}

/// The setting of the voice's pitch.
pub const PITCH_SETTING: &'static str = "average-pitch";

/// The setting of the voice's rate.
pub const RATE_SETTING: &'static str = "rate";

/// The setting of the voice's volume.
pub const VOLUME_SETTING: &'static str = "gain";

/// The setting that says whether the screen reader speaks.
pub const ENABLE_SETTING: &'static str = "enableSpeech";

/// Where the settings of the default voice lie in the settings document.
pub open spec fn voice_path() -> Seq<Seq<char>> {
    seq!["profiles"@, "default"@, "voices"@, "default"@]
}

/// Whether a name is that of a setting of the voice.
pub open spec fn voice_setting(option: Seq<char>) -> bool {
    option == PITCH_SETTING@ || option == RATE_SETTING@ || option == VOLUME_SETTING@
}

impl OrcaManager {
    /// Whether a name is that of a setting of the voice.
    pub fn is_valid_option(option: &str) -> (r: bool)
        ensures
            r == voice_setting(option@),
    {
        str_eq(option, PITCH_SETTING) || str_eq(option, RATE_SETTING) || str_eq(
            option,
            VOLUME_SETTING,
        )
    }

    /// The settings document with speech switched on or off. The setting
    /// lies in the document's general part, which is made where it is
    /// missing. A document that is no object, or whose general part is none,
    /// cannot be changed.
    pub fn set_orca_enabled(document: Json, enabled: bool) -> (r: Result<Json, Error>)
        ensures
            match path_set(document@, seq!["general"@], ENABLE_SETTING@, JsonView::Bool(enabled)) {
                Ok(changed) => r is Ok && r->Ok_0@ == changed,
                Err(e) => r is Err && r->Err_0 == e,
            },
    {
        let path = ["general"];
        assert(names(path@) =~= seq!["general"@]);
        document.set_path(path.as_slice(), ENABLE_SETTING, Json::Bool(enabled))
    }

    /// The settings document with a setting of the default voice set to a
    /// value. The parts of the document that lead to the voice are made
    /// where they are missing. A name that is no setting of the voice is
    /// refused, and a document in which something on the way to the voice is
    /// no object cannot be changed.
    pub fn set_orca_option(document: Json, option: &str, value: Json) -> (r: Result<Json, Error>)
        ensures
            !voice_setting(option@) ==> r is Err && r->Err_0 == Error::InvalidData,
            voice_setting(option@) ==> match path_set(document@, voice_path(), option@, value@) {
                Ok(changed) => r is Ok && r->Ok_0@ == changed,
                Err(e) => r is Err && r->Err_0 == e,
            },
    {
        if !Self::is_valid_option(option) {
            return Err(Error::InvalidData);
        }
        let path = ["profiles", "default", "voices", "default"];
        assert(names(path@) =~= voice_path());
        document.set_path(path.as_slice(), option, value)
    }

    /// The settings of the default voice in the settings document, if it has any.
    pub fn default_voice(document: &Json) -> (r: Option<&Json>)
        ensures
            match member_at(document@, voice_path()) {
                Some(voice) => r is Some && r->Some_0@ == voice,
                None => r is None,
            },
    {
        let path = ["profiles", "default", "voices", "default"];
        assert(names(path@) =~= voice_path());
        document.get_path(path.as_slice())
    }
}

} // verus!
