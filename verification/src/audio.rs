//! The audio output's channel mode.

use vstd::prelude::*;
use vstd::string::StringSliceAdditionalSpecFns;
use crate::error::Error;
use crate::json::{lemma_trees, member, trees, Json, JsonView};
use crate::text::{bytes_eq, eq_ignore_case, lemma_ascii_bytes, lowered, trim, trimmed};

verus! {

/// How many channels the audio output has.
#[derive(Clone, Copy, Debug, PartialEq, Eq, Structural)]
pub enum Mode {
    Mono,
    Stereo,
}

impl Mode {
    /// The name that this mode is written with.
    pub open spec fn spec_name(self) -> &'static str {
        match self {
            Mode::Mono => "mono",
            Mode::Stereo => "stereo",
        }
    }

    /// The mode that a text names, if it names one. Letter case does not count.
    pub open spec fn parse(text: Seq<u8>) -> Option<Mode> {
        if lowered(text) == lowered("mono".spec_bytes()) {
            Some(Mode::Mono)
        } else if lowered(text) == lowered("stereo".spec_bytes()) {
            Some(Mode::Stereo)
        } else {
            None
        }
    }

    /// The name that this mode is written with.
    pub fn name(&self) -> (r: &'static str)
        ensures
            r@ == self.spec_name()@,
    {
        match self {
            Mode::Mono => "mono",
            Mode::Stereo => "stereo",
        }
    }

    /// The name that this mode is written with, as an owned string.
    pub fn to_string(&self) -> (r: String)
        ensures
            r@ == self.spec_name()@,
    {
        self.name().to_owned()
    }

    /// Reads a mode from its name. A text that names none is refused.
    pub fn from_str(s: &str) -> (r: Result<Mode, Error>)
        ensures
            r == match Mode::parse(s.spec_bytes()) {
                Some(v) => Ok::<Mode, Error>(v),
                None => Err(Error::InvalidData),
            },
    {
        Mode::from_bytes(s.as_bytes())
    }

    /// Reads a mode from the bytes of its name.
    pub fn from_bytes(text: &[u8]) -> (r: Result<Mode, Error>)
        ensures
            r == match Mode::parse(text@) {
                Some(v) => Ok::<Mode, Error>(v),
                None => Err(Error::InvalidData),
            },
    {
        if eq_ignore_case(text, "mono".as_bytes()) {
            Ok(Mode::Mono)
        } else if eq_ignore_case(text, "stereo".as_bytes()) {
            Ok(Mode::Stereo)
        } else {
            Err(Error::InvalidData)
        }
    }

    /// The number that stands for this mode on the bus.
    pub open spec fn spec_number(self) -> u32 {
        match self {
            Mode::Mono => 0,
            Mode::Stereo => 1,
        }
    }

    /// The mode that a number stands for, if it stands for one.
    pub open spec fn of_number(number: u32) -> Option<Mode> {
        if number == 0 {
            Some(Mode::Mono)
        } else if number == 1 {
            Some(Mode::Stereo)
        } else {
            None
        }
    }

    /// The number that stands for this mode on the bus.
    pub fn as_u32(&self) -> (r: u32)
        ensures
            r == self.spec_number(),
            Mode::of_number(r) == Some(*self),
    {
        match self {
            Mode::Mono => 0,
            Mode::Stereo => 1,
        }
    }

    /// Reads a mode from its number. A number that stands for none is refused.
    pub fn try_from(number: u32) -> (r: Result<Mode, Error>)
        ensures
            r == match Mode::of_number(number) {
                Some(v) => Ok::<Mode, Error>(v),
                None => Err(Error::InvalidData),
            },
            r matches Ok(v) ==> v.spec_number() == number,
    {
        if number == 0 {
            Ok(Mode::Mono)
        } else if number == 1 {
            Ok(Mode::Stereo)
        } else {
            Err(Error::InvalidData)
        }
    }
}

/// Writing the name of a mode and reading it back gives the mode.
pub proof fn lemma_mode_round_trip(v: Mode)
    ensures
        Mode::parse(v.spec_name().spec_bytes()) == Some(v),
{
    reveal_strlit("mono");
    reveal_strlit("stereo");
    lemma_ascii_bytes("mono");
    lemma_ascii_bytes("stereo");
    assert(lowered("mono".spec_bytes()).len() != lowered("stereo".spec_bytes()).len());
}

/// The mode that the output of the settings tool reports, if it reports one:
/// `Value: true` stands for mono and `Value: false` for stereo, white space
/// around them aside.
pub open spec fn reported_mode(output: Seq<u8>) -> Option<Mode> {
    if trimmed(output) == "Value: true".spec_bytes() {
        Some(Mode::Mono)
    } else if trimmed(output) == "Value: false".spec_bytes() {
        Some(Mode::Stereo)
    } else {
        None
    }
}

/// The value of the mono setting that brings a mode about.
pub open spec fn mono_value(mode: Mode) -> &'static str {
    match mode {
        Mode::Mono => "true",
        Mode::Stereo => "false",
    }
}

/// Keeps track of the audio output's channel mode.
pub struct AudioManager {
    mode: Option<Mode>,
}

impl AudioManager {
    /// The mode as far as it is known.
    pub closed spec fn view(&self) -> Option<Mode> {
        self.mode
    }

    /// A manager that starts from what the settings tool printed, or from
    /// nothing known where the tool could not be asked.
    pub fn new(output: Option<&str>) -> (r: AudioManager)
        ensures
            r@ == match output {
                Some(text) => reported_mode(text.spec_bytes()),
                None => None,
            },
    {
        let mut manager = AudioManager { mode: None };
        if let Some(text) = output {
            manager.load_values(text);
        }
        manager
    }

    /// The mode as far as it is known.
    pub fn mode(&self) -> (r: Option<Mode>)
        ensures
            r == self@,
    {
        self.mode
    }

    /// What to set the mono setting to for `mode`; nothing where the mode is
    /// in force already.
    pub fn mono_setting(&self, mode: Mode) -> (r: Option<&'static str>)
        ensures
            self@ == Some(mode) ==> r is None,
            self@ != Some(mode) ==> r is Some && r->Some_0@ == mono_value(mode)@,
    {
        if self.holds(mode) {
            return None;
        }
        match mode {
            Mode::Mono => Some("true"),
            Mode::Stereo => Some("false"),
        }
    }

    /// Takes note of a change of mode. `outcome` is how setting the mono
    /// setting ended; it does not count where the mode was in force already.
    /// The mode changes only if the setting was made.
    pub fn set_mode(&mut self, mode: Mode, outcome: Result<(), Error>) -> (r: Result<(), Error>)
        ensures
            old(self)@ == Some(mode) ==> r is Ok && final(self)@ == old(self)@,
            old(self)@ != Some(mode) ==> r == outcome && final(self)@ == if outcome is Ok {
                Some(mode)
            } else {
                old(self)@
            },
    {
        if self.holds(mode) {
            return Ok(());
        }
        if outcome.is_ok() {
            self.mode = Some(mode);
        }
        outcome
    }

    /// Takes the mode from what the settings tool printed. Output that names
    /// no mode changes nothing.
    pub fn load_values(&mut self, output: &str)
        ensures
            final(self)@ == match reported_mode(output.spec_bytes()) {
                Some(mode) => Some(mode),
                None => old(self)@,
            },
    {
        let text = trim(output.as_bytes());
        if bytes_eq(text, "Value: true".as_bytes()) {
            self.mode = Some(Mode::Mono);
        } else if bytes_eq(text, "Value: false".as_bytes()) {
            self.mode = Some(Mode::Stereo);
        }
    }

    fn holds(&self, mode: Mode) -> (r: bool)
        ensures
            r == (self@ == Some(mode)),
    {
        match self.mode {
            Some(Mode::Mono) => matches!(mode, Mode::Mono),
            Some(Mode::Stereo) => matches!(mode, Mode::Stereo),
            None => false,
        }
    }
}

/// The setting behind the mono mode.
pub const MONO_KEY: &'static str = "node.features.audio.mono";

/// Whether an entry of an object's metadata is the mono setting.
pub open spec fn names_mono(entry: JsonView) -> bool {
    member(entry, "key"@) == Some(JsonView::String(MONO_KEY@))
}

/// Whether one of the entries, from place `from` on, is the mono setting.
pub open spec fn some_names_mono(entries: Seq<JsonView>, from: int) -> bool
    decreases entries.len() - from,
{
    if from < 0 || from >= entries.len() {
        false
    } else {
        names_mono(entries[from]) || some_names_mono(entries, from + 1)
    }
}

/// Whether an object's metadata holds the mono setting.
pub open spec fn holds_mono(object: JsonView) -> bool {
    match member(object, "metadata"@) {
        Some(JsonView::Array(entries)) => some_names_mono(entries, 0),
        _ => false,
    }
}

/// Whether one of the objects, from place `from` on, holds the mono setting.
pub open spec fn some_holds_mono(objects: Seq<JsonView>, from: int) -> bool
    decreases objects.len() - from,
{
    if from < 0 || from >= objects.len() {
        false
    } else {
        holds_mono(objects[from]) || some_holds_mono(objects, from + 1)
    }
}

/// Whether a dump of the sound server's settings offers the mono setting:
/// the dump is an array, and the metadata of one of its objects has an entry
/// whose key is the setting.
pub open spec fn offers_mono(dump: JsonView) -> bool {
    match dump {
        JsonView::Array(objects) => some_holds_mono(objects, 0),
        _ => false,
    }
}

fn any_names_mono(entries: &Vec<Json>) -> (r: bool)
    ensures
        r == some_names_mono(trees(entries@, 0), 0),
{
    proof {
        lemma_trees(entries@, 0);
    }
    let mut i: usize = 0;
    while i < entries.len()
        invariant
            i <= entries@.len(),
            trees(entries@, 0).len() == entries@.len(),
            forall|k: int|
                0 <= k < entries@.len() ==> #[trigger] trees(entries@, 0)[k] == entries@[k]@,
            some_names_mono(trees(entries@, 0), 0) == some_names_mono(
                trees(entries@, 0),
                i as int,
            ),
        decreases entries@.len() - i,
    {
        if let Some(key) = entries[i].get("key") {
            if let Some(text) = key.as_str() {
                if crate::lease::str_eq(text, MONO_KEY) {
                    assert(names_mono(trees(entries@, 0)[i as int]));
                    return true;
                }
            }
        }
        assert(!names_mono(trees(entries@, 0)[i as int]));
        i += 1;
    }
    false
}

fn object_holds_mono(object: &Json) -> (r: bool)
    ensures
        r == holds_mono(object@),
{
    match object.get("metadata") {
        Some(metadata) => match metadata.as_array() {
            Some(entries) => any_names_mono(entries),
            None => false,
        },
        None => false,
    }
}

fn any_holds_mono(objects: &Vec<Json>) -> (r: bool)
    ensures
        r == some_holds_mono(trees(objects@, 0), 0),
{
    proof {
        lemma_trees(objects@, 0);
    }
    let mut i: usize = 0;
    while i < objects.len()
        invariant
            i <= objects@.len(),
            trees(objects@, 0).len() == objects@.len(),
            forall|k: int|
                0 <= k < objects@.len() ==> #[trigger] trees(objects@, 0)[k] == objects@[k]@,
            some_holds_mono(trees(objects@, 0), 0) == some_holds_mono(
                trees(objects@, 0),
                i as int,
            ),
        decreases objects@.len() - i,
    {
        if object_holds_mono(&objects[i]) {
            assert(holds_mono(trees(objects@, 0)[i as int]));
            return true;
        }
        assert(!holds_mono(trees(objects@, 0)[i as int]));
        i += 1;
    }
    false
}

impl AudioManager {
    /// Whether the mono mode can be had, given whether the settings tool is
    /// there and what the sound server's settings are. Without the tool
    /// there is no mono mode, and the settings are not looked at.
    pub fn is_supported(wpctl: Result<bool, Error>, dump: Result<&Json, Error>) -> (r: Result<
        bool,
        Error,
    >)
        ensures
            r == match wpctl {
                Err(e) => Err::<bool, Error>(e),
                Ok(false) => Ok(false),
                Ok(true) => match dump {
                    Err(e) => Err(e),
                    Ok(settings) => Ok(offers_mono(settings@)),
                },
            },
    {
        match wpctl {
            Err(e) => Err(e),
            Ok(false) => Ok(false),
            Ok(true) => match dump {
                Err(e) => Err(e),
                Ok(settings) => match settings.as_array() {
                    None => Ok(false),
                    Some(objects) => Ok(any_holds_mono(objects)),
                },
            },
        }
    }
}

} // verus!
