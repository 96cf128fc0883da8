//! GPU power profiles and performance levels.

use vstd::prelude::*;
use vstd::string::StringSliceAdditionalSpecFns;
use crate::error::Error;
use crate::hardware::RangeConfig;
use crate::text::{
    bytes_eq, decimal_digits, ends_with, eq_ignore_case, has_suffix, lemma_ascii_bytes, lines,
    lowered, parse_u32, pieces, split_inclusive, split_lines, split_words, to_lower, trim,
    trim_end_matches, trimmed, u32_digits, u32_of, views, without_suffixes, words,
};

verus! {

/// A power profile of the amdgpu driver.
#[derive(Clone, Copy, Debug, PartialEq, Eq, Structural)]
pub enum AmdgpuPowerProfile {
    FullScreen,
    Video,
    VR,
    Compute,
    Custom,
    Capped,
    Uncapped,
}

impl AmdgpuPowerProfile {
    /// The name that this profile is written with.
    pub open spec fn spec_name(self) -> &'static str {
        match self {
            AmdgpuPowerProfile::FullScreen => "3d_full_screen",
            AmdgpuPowerProfile::Video => "video",
            AmdgpuPowerProfile::VR => "vr",
            AmdgpuPowerProfile::Compute => "compute",
            AmdgpuPowerProfile::Custom => "custom",
            AmdgpuPowerProfile::Capped => "capped",
            AmdgpuPowerProfile::Uncapped => "uncapped",
        }
    }

    /// The profile that a text names, if it names one. Letter case counts.
    pub open spec fn parse(text: Seq<u8>) -> Option<AmdgpuPowerProfile> {
        if text == "3d_full_screen".spec_bytes() {
            Some(AmdgpuPowerProfile::FullScreen)
        } else if text == "video".spec_bytes() {
            Some(AmdgpuPowerProfile::Video)
        } else if text == "vr".spec_bytes() {
            Some(AmdgpuPowerProfile::VR)
        } else if text == "compute".spec_bytes() {
            Some(AmdgpuPowerProfile::Compute)
        } else if text == "custom".spec_bytes() {
            Some(AmdgpuPowerProfile::Custom)
        } else if text == "capped".spec_bytes() {
            Some(AmdgpuPowerProfile::Capped)
        } else if text == "uncapped".spec_bytes() {
            Some(AmdgpuPowerProfile::Uncapped)
        } else {
            None
        }
    }

    /// The name that this profile is written with.
    pub fn name(&self) -> (r: &'static str)
        ensures
            r@ == self.spec_name()@,
    {
        match self {
            AmdgpuPowerProfile::FullScreen => "3d_full_screen",
            AmdgpuPowerProfile::Video => "video",
            AmdgpuPowerProfile::VR => "vr",
            AmdgpuPowerProfile::Compute => "compute",
            AmdgpuPowerProfile::Custom => "custom",
            AmdgpuPowerProfile::Capped => "capped",
            AmdgpuPowerProfile::Uncapped => "uncapped",
        }
    }

    /// The name that this profile is written with, as an owned string.
    pub fn to_string(&self) -> (r: String)
        ensures
            r@ == self.spec_name()@,
    {
        self.name().to_owned()
    }

    /// Reads a profile from its name. A text that names none is refused.
    pub fn from_str(s: &str) -> (r: Result<AmdgpuPowerProfile, Error>)
        ensures
            r == match AmdgpuPowerProfile::parse(s.spec_bytes()) {
                Some(v) => Ok::<AmdgpuPowerProfile, Error>(v),
                None => Err(Error::InvalidData),
            },
    {
        AmdgpuPowerProfile::from_bytes(s.as_bytes())
    }

    /// Reads a profile from the bytes of its name.
    pub fn from_bytes(text: &[u8]) -> (r: Result<AmdgpuPowerProfile, Error>)
        ensures
            r == match AmdgpuPowerProfile::parse(text@) {
                Some(v) => Ok::<AmdgpuPowerProfile, Error>(v),
                None => Err(Error::InvalidData),
            },
    {
        if bytes_eq(text, "3d_full_screen".as_bytes()) {
            Ok(AmdgpuPowerProfile::FullScreen)
        } else if bytes_eq(text, "video".as_bytes()) {
            Ok(AmdgpuPowerProfile::Video)
        } else if bytes_eq(text, "vr".as_bytes()) {
            Ok(AmdgpuPowerProfile::VR)
        } else if bytes_eq(text, "compute".as_bytes()) {
            Ok(AmdgpuPowerProfile::Compute)
        } else if bytes_eq(text, "custom".as_bytes()) {
            Ok(AmdgpuPowerProfile::Custom)
        } else if bytes_eq(text, "capped".as_bytes()) {
            Ok(AmdgpuPowerProfile::Capped)
        } else if bytes_eq(text, "uncapped".as_bytes()) {
            Ok(AmdgpuPowerProfile::Uncapped)
        } else {
            Err(Error::InvalidData)
        }
    }

    /// The number that stands for this profile on the bus.
    pub open spec fn spec_number(self) -> u32 {
        match self {
            AmdgpuPowerProfile::FullScreen => 1,
            AmdgpuPowerProfile::Video => 3,
            AmdgpuPowerProfile::VR => 4,
            AmdgpuPowerProfile::Compute => 5,
            AmdgpuPowerProfile::Custom => 6,
            AmdgpuPowerProfile::Capped => 8,
            AmdgpuPowerProfile::Uncapped => 9,
        }
    }

    /// The profile that a number stands for, if it stands for one.
    pub open spec fn of_number(number: u32) -> Option<AmdgpuPowerProfile> {
        if number == 1 {
            Some(AmdgpuPowerProfile::FullScreen)
        } else if number == 3 {
            Some(AmdgpuPowerProfile::Video)
        } else if number == 4 {
            Some(AmdgpuPowerProfile::VR)
        } else if number == 5 {
            Some(AmdgpuPowerProfile::Compute)
        } else if number == 6 {
            Some(AmdgpuPowerProfile::Custom)
        } else if number == 8 {
            Some(AmdgpuPowerProfile::Capped)
        } else if number == 9 {
            Some(AmdgpuPowerProfile::Uncapped)
        } else {
            None
        }
    }

    /// The number that stands for this profile on the bus.
    pub fn as_u32(&self) -> (r: u32)
        ensures
            r == self.spec_number(),
            AmdgpuPowerProfile::of_number(r) == Some(*self),
    {
        match self {
            AmdgpuPowerProfile::FullScreen => 1,
            AmdgpuPowerProfile::Video => 3,
            AmdgpuPowerProfile::VR => 4,
            AmdgpuPowerProfile::Compute => 5,
            AmdgpuPowerProfile::Custom => 6,
            AmdgpuPowerProfile::Capped => 8,
            AmdgpuPowerProfile::Uncapped => 9,
        }
    }

    /// Reads a profile from its number. A number that stands for none is refused.
    pub fn try_from(number: u32) -> (r: Result<AmdgpuPowerProfile, Error>)
        ensures
            r == match AmdgpuPowerProfile::of_number(number) {
                Some(v) => Ok::<AmdgpuPowerProfile, Error>(v),
                None => Err(Error::InvalidData),
            },
            r matches Ok(v) ==> v.spec_number() == number,
    {
        if number == 1 {
            Ok(AmdgpuPowerProfile::FullScreen)
        } else if number == 3 {
            Ok(AmdgpuPowerProfile::Video)
        } else if number == 4 {
            Ok(AmdgpuPowerProfile::VR)
        } else if number == 5 {
            Ok(AmdgpuPowerProfile::Compute)
        } else if number == 6 {
            Ok(AmdgpuPowerProfile::Custom)
        } else if number == 8 {
            Ok(AmdgpuPowerProfile::Capped)
        } else if number == 9 {
            Ok(AmdgpuPowerProfile::Uncapped)
        } else {
            Err(Error::InvalidData)
        }
    }
}

/// Writing the name of a profile and reading it back gives the profile.
pub proof fn lemma_amdgpu_power_profile_round_trip(v: AmdgpuPowerProfile)
    ensures
        AmdgpuPowerProfile::parse(v.spec_name().spec_bytes()) == Some(v),
{
    reveal_strlit("3d_full_screen");
    reveal_strlit("video");
    reveal_strlit("vr");
    reveal_strlit("compute");
    reveal_strlit("custom");
    reveal_strlit("capped");
    reveal_strlit("uncapped");
    lemma_ascii_bytes("3d_full_screen");
    lemma_ascii_bytes("video");
    lemma_ascii_bytes("vr");
    lemma_ascii_bytes("compute");
    lemma_ascii_bytes("custom");
    lemma_ascii_bytes("capped");
    lemma_ascii_bytes("uncapped");
    assert("custom".spec_bytes()[1] != "capped".spec_bytes()[1]);
}

/// A performance level of the amdgpu driver.
#[derive(Clone, Copy, Debug, PartialEq, Eq, Structural)]
pub enum AmdgpuPerformanceLevel {
    Auto,
    Low,
    High,
    Manual,
    ProfilePeak,
}

impl AmdgpuPerformanceLevel {
    /// The name that this level is written with.
    pub open spec fn spec_name(self) -> &'static str {
        match self {
            AmdgpuPerformanceLevel::Auto => "auto",
            AmdgpuPerformanceLevel::Low => "low",
            AmdgpuPerformanceLevel::High => "high",
            AmdgpuPerformanceLevel::Manual => "manual",
            AmdgpuPerformanceLevel::ProfilePeak => "profile_peak",
        }
    }

    /// The level that a text names, if it names one. Letter case counts.
    pub open spec fn parse(text: Seq<u8>) -> Option<AmdgpuPerformanceLevel> {
        if text == "auto".spec_bytes() {
            Some(AmdgpuPerformanceLevel::Auto)
        } else if text == "low".spec_bytes() {
            Some(AmdgpuPerformanceLevel::Low)
        } else if text == "high".spec_bytes() {
            Some(AmdgpuPerformanceLevel::High)
        } else if text == "manual".spec_bytes() {
            Some(AmdgpuPerformanceLevel::Manual)
        } else if text == "profile_peak".spec_bytes() {
            Some(AmdgpuPerformanceLevel::ProfilePeak)
        } else {
            None
        }
    }

    /// The name that this level is written with.
    pub fn name(&self) -> (r: &'static str)
        ensures
            r@ == self.spec_name()@,
    {
        match self {
            AmdgpuPerformanceLevel::Auto => "auto",
            AmdgpuPerformanceLevel::Low => "low",
            AmdgpuPerformanceLevel::High => "high",
            AmdgpuPerformanceLevel::Manual => "manual",
            AmdgpuPerformanceLevel::ProfilePeak => "profile_peak",
        }
    }

    /// The name that this level is written with, as an owned string.
    pub fn to_string(&self) -> (r: String)
        ensures
            r@ == self.spec_name()@,
    {
        self.name().to_owned()
    }

    /// Reads a level from its name. A text that names none is refused.
    pub fn from_str(s: &str) -> (r: Result<AmdgpuPerformanceLevel, Error>)
        ensures
            r == match AmdgpuPerformanceLevel::parse(s.spec_bytes()) {
                Some(v) => Ok::<AmdgpuPerformanceLevel, Error>(v),
                None => Err(Error::InvalidData),
            },
    {
        AmdgpuPerformanceLevel::from_bytes(s.as_bytes())
    }

    /// Reads a level from the bytes of its name.
    pub fn from_bytes(text: &[u8]) -> (r: Result<AmdgpuPerformanceLevel, Error>)
        ensures
            r == match AmdgpuPerformanceLevel::parse(text@) {
                Some(v) => Ok::<AmdgpuPerformanceLevel, Error>(v),
                None => Err(Error::InvalidData),
            },
    {
        if bytes_eq(text, "auto".as_bytes()) {
            Ok(AmdgpuPerformanceLevel::Auto)
        } else if bytes_eq(text, "low".as_bytes()) {
            Ok(AmdgpuPerformanceLevel::Low)
        } else if bytes_eq(text, "high".as_bytes()) {
            Ok(AmdgpuPerformanceLevel::High)
        } else if bytes_eq(text, "manual".as_bytes()) {
            Ok(AmdgpuPerformanceLevel::Manual)
        } else if bytes_eq(text, "profile_peak".as_bytes()) {
            Ok(AmdgpuPerformanceLevel::ProfilePeak)
        } else {
            Err(Error::InvalidData)
        }
    }
}

/// Writing the name of a level and reading it back gives the level.
pub proof fn lemma_amdgpu_performance_level_round_trip(v: AmdgpuPerformanceLevel)
    ensures
        AmdgpuPerformanceLevel::parse(v.spec_name().spec_bytes()) == Some(v),
{
    reveal_strlit("auto");
    reveal_strlit("low");
    reveal_strlit("high");
    reveal_strlit("manual");
    reveal_strlit("profile_peak");
    lemma_ascii_bytes("auto");
    lemma_ascii_bytes("low");
    lemma_ascii_bytes("high");
    lemma_ascii_bytes("manual");
    lemma_ascii_bytes("profile_peak");
    assert("auto".spec_bytes()[0] != "high".spec_bytes()[0]);
}

/// The driver that GPU power profiles go through.
#[derive(Clone, Copy, Debug, PartialEq, Eq, Structural)]
pub enum GpuPowerProfileDriverType {
    Amdgpu,
}

impl GpuPowerProfileDriverType {
    /// The name that this driver is written with.
    pub open spec fn spec_name(self) -> &'static str {
        match self {
            GpuPowerProfileDriverType::Amdgpu => "amdgpu",
        }
    }

    /// The driver that a text names, if it names one. Letter case does not count.
    pub open spec fn parse(text: Seq<u8>) -> Option<GpuPowerProfileDriverType> {
        if lowered(text) == lowered("amdgpu".spec_bytes()) {
            Some(GpuPowerProfileDriverType::Amdgpu)
        } else {
            None
        }
    }

    /// The name that this driver is written with.
    pub fn name(&self) -> (r: &'static str)
        ensures
            r@ == self.spec_name()@,
    {
        match self {
            GpuPowerProfileDriverType::Amdgpu => "amdgpu",
        }
    }

    /// The name that this driver is written with, as an owned string.
    pub fn to_string(&self) -> (r: String)
        ensures
            r@ == self.spec_name()@,
    {
        self.name().to_owned()
    }

    /// Reads a driver from its name. A text that names none is refused.
    pub fn from_str(s: &str) -> (r: Result<GpuPowerProfileDriverType, Error>)
        ensures
            r == match GpuPowerProfileDriverType::parse(s.spec_bytes()) {
                Some(v) => Ok::<GpuPowerProfileDriverType, Error>(v),
                None => Err(Error::InvalidData),
            },
    {
        GpuPowerProfileDriverType::from_bytes(s.as_bytes())
    }

    /// Reads a driver from the bytes of its name.
    pub fn from_bytes(text: &[u8]) -> (r: Result<GpuPowerProfileDriverType, Error>)
        ensures
            r == match GpuPowerProfileDriverType::parse(text@) {
                Some(v) => Ok::<GpuPowerProfileDriverType, Error>(v),
                None => Err(Error::InvalidData),
            },
    {
        if eq_ignore_case(text, "amdgpu".as_bytes()) {
            Ok(GpuPowerProfileDriverType::Amdgpu)
        } else {
            Err(Error::InvalidData)
        }
    }

    /// The names of every driver, in the order of declaration.
    pub fn variants() -> (r: Vec<&'static str>)
        ensures
            r@.len() == 1,
            r@[0]@ == GpuPowerProfileDriverType::Amdgpu.spec_name()@,
    {
        let mut out: Vec<&'static str> = Vec::new();
        out.push("amdgpu");
        out
    }
}

/// Writing the name of a driver and reading it back gives the driver.
pub proof fn lemma_gpu_power_profile_driver_type_round_trip(v: GpuPowerProfileDriverType)
    ensures
        GpuPowerProfileDriverType::parse(v.spec_name().spec_bytes()) == Some(v),
{
    reveal_strlit("amdgpu");
    lemma_ascii_bytes("amdgpu");
}

/// The driver that GPU performance levels go through.
#[derive(Clone, Copy, Debug, PartialEq, Eq, Structural)]
pub enum GpuPerformanceLevelDriverType {
    Amdgpu,
}

impl GpuPerformanceLevelDriverType {
    /// The name that this driver is written with.
    pub open spec fn spec_name(self) -> &'static str {
        match self {
            GpuPerformanceLevelDriverType::Amdgpu => "amdgpu",
        }
    }

    /// The driver that a text names, if it names one. Letter case does not count.
    pub open spec fn parse(text: Seq<u8>) -> Option<GpuPerformanceLevelDriverType> {
        if lowered(text) == lowered("amdgpu".spec_bytes()) {
            Some(GpuPerformanceLevelDriverType::Amdgpu)
        } else {
            None
        }
    }

    /// The name that this driver is written with.
    pub fn name(&self) -> (r: &'static str)
        ensures
            r@ == self.spec_name()@,
    {
        match self {
            GpuPerformanceLevelDriverType::Amdgpu => "amdgpu",
        }
    }

    /// The name that this driver is written with, as an owned string.
    pub fn to_string(&self) -> (r: String)
        ensures
            r@ == self.spec_name()@,
    {
        self.name().to_owned()
    }

    /// Reads a driver from its name. A text that names none is refused.
    pub fn from_str(s: &str) -> (r: Result<GpuPerformanceLevelDriverType, Error>)
        ensures
            r == match GpuPerformanceLevelDriverType::parse(s.spec_bytes()) {
                Some(v) => Ok::<GpuPerformanceLevelDriverType, Error>(v),
                None => Err(Error::InvalidData),
            },
    {
        GpuPerformanceLevelDriverType::from_bytes(s.as_bytes())
    }

    /// Reads a driver from the bytes of its name.
    pub fn from_bytes(text: &[u8]) -> (r: Result<GpuPerformanceLevelDriverType, Error>)
        ensures
            r == match GpuPerformanceLevelDriverType::parse(text@) {
                Some(v) => Ok::<GpuPerformanceLevelDriverType, Error>(v),
                None => Err(Error::InvalidData),
            },
    {
        if eq_ignore_case(text, "amdgpu".as_bytes()) {
            Ok(GpuPerformanceLevelDriverType::Amdgpu)
        } else {
            Err(Error::InvalidData)
        }
    }

    /// The names of every driver, in the order of declaration.
    pub fn variants() -> (r: Vec<&'static str>)
        ensures
            r@.len() == 1,
            r@[0]@ == GpuPerformanceLevelDriverType::Amdgpu.spec_name()@,
    {
        let mut out: Vec<&'static str> = Vec::new();
        out.push("amdgpu");
        out
    }
}

/// Writing the name of a driver and reading it back gives the driver.
pub proof fn lemma_gpu_performance_level_driver_type_round_trip(v: GpuPerformanceLevelDriverType)
    ensures
        GpuPerformanceLevelDriverType::parse(v.spec_name().spec_bytes()) == Some(v),
{
    reveal_strlit("amdgpu");
    lemma_ascii_bytes("amdgpu");
}

/// A GPU power profile, whatever the driver.
#[derive(Clone, Copy, Debug, PartialEq, Eq, Structural)]
pub enum GpuPowerProfile {
    Amdgpu(AmdgpuPowerProfile),
}

/// A GPU performance level, whatever the driver.
#[derive(Clone, Copy, Debug, PartialEq, Eq, Structural)]
pub enum GpuPerformanceLevel {
    Amdgpu(AmdgpuPerformanceLevel),
}

impl GpuPowerProfile {
    /// The name that the profile is written with.
    pub fn to_string(&self) -> (r: String)
        ensures
            r@ == match self {
                GpuPowerProfile::Amdgpu(v) => v.spec_name()@,
            },
    {
        match self {
            GpuPowerProfile::Amdgpu(v) => v.to_string(),
        }
    }
}

impl GpuPerformanceLevel {
    /// The name that the level is written with.
    pub fn to_string(&self) -> (r: String)
        ensures
            r@ == match self {
                GpuPerformanceLevel::Amdgpu(v) => v.spec_name()@,
            },
    {
        match self {
            GpuPerformanceLevel::Amdgpu(v) => v.to_string(),
        }
    }
}

/// The hardware monitor of the amdgpu driver goes by this name.
pub const AMDGPU_HWMON_NAME: &'static str = "amdgpu";

/// A line of the table of power profiles: white space, the profile's number,
/// white space, its name, and a star if the profile is in force.
pub const AMDGPU_POWER_PROFILE_REGEX: &'static str =
    r"^\s*(?<value>[0-9]+)\s+(?<name>[0-9A-Za-z_]+)(?<active>\*)?";

/// A line of the table of clock levels: white space, the level's place, a
/// colon and a space, and the clock in megahertz.
pub const AMDGPU_CLOCK_LEVELS_REGEX: &'static str = r"^\s*(?<index>[0-9]+): (?<value>[0-9]+)Mhz";

/// What `regex::Regex::captures` finds of a pattern in a line: nothing where
/// the line does not match, and otherwise the text of each capture group that
/// took part in the match, the whole match first. A pattern that is none, or
/// a line that is no text, gives nothing.
pub uninterp spec fn regex_captures(pattern: Seq<char>, line: Seq<u8>) -> Option<
    Seq<Option<Seq<u8>>>,
>;

/// The capture groups by their views.
pub open spec fn groups_view(groups: Option<Vec<Option<Vec<u8>>>>) -> Option<Seq<Option<Seq<u8>>>> {
    match groups {
        None => None,
        Some(found) => Some(
            Seq::new(
                found@.len(),
                |i: int|
                    match found@[i] {
                        Some(text) => Some(text@),
                        None => None,
                    },
            ),
        ),
    }
}

/// Matches a line against a pattern with `regex::Regex::new` and
/// `regex::Regex::captures`, and copies out what the capture groups hold.
/// The contract only gives the outcome its name; nothing is claimed of what
/// a given pattern finds in a given line.
#[verifier::external_body]
fn captures(pattern: &str, line: &[u8]) -> (r: Option<Vec<Option<Vec<u8>>>>)
    ensures
        groups_view(r) == regex_captures(pattern@, line@),
{
    let text = std::str::from_utf8(line).ok()?;
    let found = regex::Regex::new(pattern).ok()?.captures(text)?;
    Some(found.iter().map(|m| m.map(|m| m.as_str().as_bytes().to_vec())).collect())
}

/// What the capture groups of every line hold.
pub open spec fn captured(pattern: Seq<char>, rows: Seq<Seq<u8>>) -> Seq<
    Option<Seq<Option<Seq<u8>>>>,
> {
    Seq::new(rows.len(), |i: int| regex_captures(pattern, rows[i]))
}

/// The capture groups of every line, by their views.
pub open spec fn rows_view(rows: Seq<Option<Vec<Option<Vec<u8>>>>>) -> Seq<
    Option<Seq<Option<Seq<u8>>>>,
> {
    Seq::new(rows.len(), |i: int| groups_view(rows[i]))
}

/// Matches every line of `contents` against a pattern.
fn captures_of_lines(pattern: &str, contents: &str) -> (r: Vec<Option<Vec<Option<Vec<u8>>>>>)
    ensures
        rows_view(r@) == captured(pattern@, lines(contents.spec_bytes())),
{
    let rows = split_lines(contents.as_bytes());
    let mut out: Vec<Option<Vec<Option<Vec<u8>>>>> = Vec::new();
    let mut i: usize = 0;
    while i < rows.len()
        invariant
            i <= rows@.len(),
            views(rows@) == lines(contents.spec_bytes()),
            out@.len() == i,
            forall|k: int|
                0 <= k < i ==> groups_view(#[trigger] out@[k]) == regex_captures(
                    pattern@,
                    rows@[k]@,
                ),
        decreases rows@.len() - i,
    {
        out.push(captures(pattern, rows[i].as_slice()));
        i += 1;
    }
    assert(rows_view(out@) =~= captured(pattern@, lines(contents.spec_bytes())));
    out
}

/// The group in a given place, if the line matched and the group took part.
pub open spec fn group(found: Option<Seq<Option<Seq<u8>>>>, place: int) -> Option<Seq<u8>> {
    match found {
        Some(groups) => if 0 <= place < groups.len() {
            groups[place]
        } else {
            None
        },
        None => None,
    }
}

fn get_group(found: &Option<Vec<Option<Vec<u8>>>>, place: usize) -> (r: Option<&Vec<u8>>)
    ensures
        match group(groups_view(*found), place as int) {
            Some(text) => r is Some && r->Some_0@ == text,
            None => r is None,
        },
{
    match found {
        Some(groups) => {
            if place < groups.len() {
                match &groups[place] {
                    Some(text) => Some(text),
                    None => None,
                }
            } else {
                None
            }
        },
        None => None,
    }
}

/// The profile in force according to the lines of the table, from line
/// `from` on: the one that the first starred line names, letter case aside.
/// A starred line with an unknown name is a failure, and so is a table
/// without a starred line.
pub open spec fn profile_in_force(rows: Seq<Option<Seq<Option<Seq<u8>>>>>, from: int) -> Result<
    GpuPowerProfile,
    Error,
>
    decreases rows.len() - from,
{
    if from < 0 || from >= rows.len() {
        Err(Error::NotFound)
    } else if group(rows[from], 2) is Some && group(rows[from], 3) is Some {
        match AmdgpuPowerProfile::parse(lowered(group(rows[from], 2)->Some_0)) {
            Some(profile) => Ok(GpuPowerProfile::Amdgpu(profile)),
            None => Err(Error::InvalidData),
        }
    } else {
        profile_in_force(rows, from + 1)
    }
}

/// The profiles that the lines of the table offer, from line `from` on, each
/// with its number. On a Steam Deck only the capped and the uncapped profile
/// are offered. A number that does not fit is a failure.
pub open spec fn profiles_offered(
    rows: Seq<Option<Seq<Option<Seq<u8>>>>>,
    deck: bool,
    from: int,
) -> Result<Seq<(u32, Seq<u8>)>, Error>
    decreases rows.len() - from,
{
    if from < 0 || from >= rows.len() {
        Ok(Seq::empty())
    } else if group(rows[from], 1) is Some && group(rows[from], 2) is Some {
        match u32_of(group(rows[from], 1)->Some_0) {
            None => Err(Error::InvalidData),
            Some(value) => match profiles_offered(rows, deck, from + 1) {
                Err(e) => Err(e),
                Ok(rest) => if !deck || value == 8 || value == 9 {
                    Ok(seq![(value, group(rows[from], 2)->Some_0)] + rest)
                } else {
                    Ok(rest)
                },
            },
        }
    } else {
        profiles_offered(rows, deck, from + 1)
    }
}

/// The least and the greatest clock among the lines of the table, from line
/// `from` on, starting from the least and greatest so far.
pub open spec fn clock_bounds(
    rows: Seq<Option<Seq<Option<Seq<u8>>>>>,
    from: int,
    min: u32,
    max: u32,
) -> Result<(u32, u32), Error>
    decreases rows.len() - from,
{
    if from < 0 || from >= rows.len() {
        Ok((min, max))
    } else if group(rows[from], 2) is Some {
        match u32_of(group(rows[from], 2)->Some_0) {
            None => Err(Error::InvalidData),
            Some(value) => clock_bounds(
                rows,
                from + 1,
                if value < min {
                    value
                } else {
                    min
                },
                if value > max {
                    value
                } else {
                    max
                },
            ),
        }
    } else {
        clock_bounds(rows, from + 1, min, max)
    }
}

/// The range of clocks: the configured one if there is one, and otherwise
/// from the least to the greatest clock of the table, none of which counts
/// as more than a million. A table without a clock is a failure.
pub open spec fn clocks_range(
    configured: Option<RangeConfig<u32>>,
    rows: Seq<Option<Seq<Option<Seq<u8>>>>>,
) -> Result<(u32, u32), Error> {
    match configured {
        Some(range) => Ok((range.min, range.max)),
        None => match clock_bounds(rows, 0, 1_000_000, 0) {
            Err(e) => Err(e),
            Ok((min, max)) => if min <= max {
                Ok((min, max))
            } else {
                Err(Error::NotFound)
            },
        },
    }
}

/// The clock set by hand according to the pieces of the overdrive table,
/// from piece `from` on: the second word of the line after the first line
/// that reads `OD_SCLK:`, without the `Mhz` that ends it. Without such a
/// line, or where the line after it is of another form, the clock is zero.
pub open spec fn manual_clock(rows: Seq<Seq<u8>>, from: int) -> Result<u32, Error>
    decreases rows.len() - from,
{
    if from < 0 || from >= rows.len() {
        Ok(0)
    } else if rows[from] != "OD_SCLK:\n".spec_bytes() {
        manual_clock(rows, from + 1)
    } else if from + 1 >= rows.len() {
        Ok(0)
    } else {
        let found = words(rows[from + 1]);
        if found.len() < 2 || !has_suffix(found[1], "Mhz".spec_bytes()) {
            Ok(0)
        } else {
            match u32_of(without_suffixes(found[1], "Mhz".spec_bytes())) {
                Some(clock) => Ok(clock),
                None => Err(Error::InvalidData),
            }
        }
    }
}

/// The driver of power profiles for amdgpu.
#[derive(Debug)]
pub struct AmdgpuPowerProfileDriver {
}

/// The driver of performance levels for amdgpu.
#[derive(Debug)]
pub struct AmdgpuPerformanceLevelDriver {
}

/// The driver of power profiles that the configuration names.
pub fn gpu_power_profile_driver(driver: Option<&GpuPowerProfileDriverType>) -> (r: Result<
    AmdgpuPowerProfileDriver,
    Error,
>)
    ensures
        driver is Some <==> r is Ok,
        driver is None ==> r == Err::<AmdgpuPowerProfileDriver, Error>(Error::Config),
{
    match driver {
        Some(GpuPowerProfileDriverType::Amdgpu) => Ok(AmdgpuPowerProfileDriver {  }),
        None => Err(Error::Config),
    }
}

/// The driver of performance levels that the configuration names.
pub fn gpu_performance_level_driver(driver: Option<&GpuPerformanceLevelDriverType>) -> (r: Result<
    AmdgpuPerformanceLevelDriver,
    Error,
>)
    ensures
        driver is Some <==> r is Ok,
        driver is None ==> r == Err::<AmdgpuPerformanceLevelDriver, Error>(Error::Config),
{
    match driver {
        Some(GpuPerformanceLevelDriverType::Amdgpu) => Ok(AmdgpuPerformanceLevelDriver {  }),
        None => Err(Error::Config),
    }
}

impl AmdgpuPowerProfileDriver {
    /// The file that holds the table of power profiles.
    pub fn power_profile_suffix() -> (r: &'static str)
        ensures
            r@ == "device/pp_power_profile_mode"@,
    {
        "device/pp_power_profile_mode"
    }

    /// Reads a profile from its name.
    pub fn power_profile_from_str(&self, value: &str) -> (r: Result<GpuPowerProfile, Error>)
        ensures
            r == match AmdgpuPowerProfile::parse(value.spec_bytes()) {
                Some(v) => Ok::<GpuPowerProfile, Error>(GpuPowerProfile::Amdgpu(v)),
                None => Err(Error::InvalidData),
            },
    {
        match AmdgpuPowerProfile::from_str(value) {
            Ok(v) => Ok(GpuPowerProfile::Amdgpu(v)),
            Err(e) => Err(e),
        }
    }

    /// The profile in force, given what the capture groups of every line of
    /// the table hold.
    pub fn power_profile_of(&self, rows: &Vec<Option<Vec<Option<Vec<u8>>>>>) -> (r: Result<
        GpuPowerProfile,
        Error,
    >)
        ensures
            r == profile_in_force(rows_view(rows@), 0),
    {
        let mut i: usize = 0;
        while i < rows.len()
            invariant
                i <= rows@.len(),
                profile_in_force(rows_view(rows@), 0) == profile_in_force(
                    rows_view(rows@),
                    i as int,
                ),
            decreases rows@.len() - i,
        {
            let name = get_group(&rows[i], 2);
            let active = get_group(&rows[i], 3);
            if let Some(text) = name {
                if active.is_some() {
                    let lower = to_lower(text.as_slice());
                    return match AmdgpuPowerProfile::from_bytes(lower.as_slice()) {
                        Ok(v) => Ok(GpuPowerProfile::Amdgpu(v)),
                        Err(_) => Err(Error::InvalidData),
                    };
                }
            }
            i += 1;
        }
        Err(Error::NotFound)
    }

    /// The profile in force according to the table of power profiles.
    pub fn get_power_profile(&self, contents: &str) -> (r: Result<GpuPowerProfile, Error>)
        ensures
            r == profile_in_force(
                captured(AMDGPU_POWER_PROFILE_REGEX@, lines(contents.spec_bytes())),
                0,
            ),
    {
        let rows = captures_of_lines(AMDGPU_POWER_PROFILE_REGEX, contents);
        self.power_profile_of(&rows)
    }

    /// The profiles on offer, given what the capture groups of every line of
    /// the table hold.
    pub fn available_power_profiles_of(
        &self,
        rows: &Vec<Option<Vec<Option<Vec<u8>>>>>,
        deck: bool,
    ) -> (r: Result<Vec<(u32, Vec<u8>)>, Error>)
        ensures
            match profiles_offered(rows_view(rows@), deck, 0) {
                Ok(offered) => r is Ok && profiles_view(r->Ok_0@) == offered,
                Err(e) => r == Err::<Vec<(u32, Vec<u8>)>, Error>(e),
            },
    {
        let mut offered: Vec<(u32, Vec<u8>)> = Vec::new();
        let mut i: usize = 0;
        assert(profiles_view(offered@) =~= Seq::<(u32, Seq<u8>)>::empty());
        while i < rows.len()
            invariant
                i <= rows@.len(),
                profiles_offered(rows_view(rows@), deck, 0) == joined(
                    profiles_view(offered@),
                    profiles_offered(rows_view(rows@), deck, i as int),
                ),
            decreases rows@.len() - i,
        {
            let value = get_group(&rows[i], 1);
            let name = get_group(&rows[i], 2);
            if let Some(digits) = value {
                if let Some(text) = name {
                    match parse_u32(digits.as_slice()) {
                        None => {
                            return Err(Error::InvalidData);
                        },
                        Some(number) => {
                            if !deck || number == 8 || number == 9 {
                                let ghost before = profiles_view(offered@);
                                let ghost rest = profiles_offered(rows_view(rows@), deck, i + 1);
                                offered.push((number, text.clone()));
                                proof {
                                    assert(profiles_view(offered@) =~= before + seq![
                                        (number, text@),
                                    ]);
                                    if let Ok(later) = rest {
                                        assert(before + (seq![(number, text@)] + later) =~= (before
                                            + seq![(number, text@)]) + later);
                                    }
                                }
                            }
                        },
                    }
                }
            }
            i += 1;
        }
        assert(profiles_view(offered@) + Seq::<(u32, Seq<u8>)>::empty() =~= profiles_view(
            offered@,
        ));
        Ok(offered)
    }

    /// The profiles on offer according to the table of power profiles.
    pub fn get_available_power_profiles(&self, contents: &str, deck: bool) -> (r: Result<
        Vec<(u32, Vec<u8>)>,
        Error,
    >)
        ensures
            match profiles_offered(
                captured(AMDGPU_POWER_PROFILE_REGEX@, lines(contents.spec_bytes())),
                deck,
                0,
            ) {
                Ok(offered) => r is Ok && profiles_view(r->Ok_0@) == offered,
                Err(e) => r == Err::<Vec<(u32, Vec<u8>)>, Error>(e),
            },
    {
        let rows = captures_of_lines(AMDGPU_POWER_PROFILE_REGEX, contents);
        self.available_power_profiles_of(&rows, deck)
    }

    /// What to write to the table's file to put a profile in force: its number.
    pub fn set_power_profile(&self, value: GpuPowerProfile) -> (r: Vec<u8>)
        ensures
            r@ == match value {
                GpuPowerProfile::Amdgpu(v) => decimal_digits(v.spec_number() as nat),
            },
    {
        match value {
            GpuPowerProfile::Amdgpu(v) => u32_digits(v.as_u32()),
        }
    }
}

/// What was gathered, followed by what is still to come; a failure to come
/// is a failure of the whole.
pub open spec fn joined(
    gathered: Seq<(u32, Seq<u8>)>,
    rest: Result<Seq<(u32, Seq<u8>)>, Error>,
) -> Result<Seq<(u32, Seq<u8>)>, Error> {
    match rest {
        Ok(later) => Ok(gathered + later),
        Err(e) => Err(e),
    }
}

/// The profiles with their names by their views.
pub open spec fn profiles_view(profiles: Seq<(u32, Vec<u8>)>) -> Seq<(u32, Seq<u8>)> {
    Seq::new(profiles.len(), |i: int| (profiles[i].0, profiles[i].1@))
}

impl AmdgpuPerformanceLevelDriver {
    /// The file through which the clock is set by hand.
    pub fn clocks_suffix() -> (r: &'static str)
        ensures
            r@ == "device/pp_od_clk_voltage"@,
    {
        "device/pp_od_clk_voltage"
    }

    /// The file that holds the table of clock levels.
    pub fn clock_levels_suffix() -> (r: &'static str)
        ensures
            r@ == "device/pp_dpm_sclk"@,
    {
        "device/pp_dpm_sclk"
    }

    /// The file that holds the performance level.
    pub fn performance_level_suffix() -> (r: &'static str)
        ensures
            r@ == "device/power_dpm_force_performance_level"@,
    {
        "device/power_dpm_force_performance_level"
    }

    /// Reads a level from its name.
    pub fn performance_level_from_str(&self, value: &str) -> (r: Result<GpuPerformanceLevel, Error>)
        ensures
            r == match AmdgpuPerformanceLevel::parse(value.spec_bytes()) {
                Some(v) => Ok::<GpuPerformanceLevel, Error>(GpuPerformanceLevel::Amdgpu(v)),
                None => Err(Error::InvalidData),
            },
    {
        match AmdgpuPerformanceLevel::from_str(value) {
            Ok(v) => Ok(GpuPerformanceLevel::Amdgpu(v)),
            Err(e) => Err(e),
        }
    }

    /// The levels on offer: all of them where the file of the level exists,
    /// and none where it does not.
    pub fn get_available_performance_levels(&self, exists: bool) -> (r: Vec<GpuPerformanceLevel>)
        ensures
            !exists ==> r@.len() == 0,
            exists ==> r@ == seq![
                GpuPerformanceLevel::Amdgpu(AmdgpuPerformanceLevel::Auto),
                GpuPerformanceLevel::Amdgpu(AmdgpuPerformanceLevel::Low),
                GpuPerformanceLevel::Amdgpu(AmdgpuPerformanceLevel::High),
                GpuPerformanceLevel::Amdgpu(AmdgpuPerformanceLevel::Manual),
                GpuPerformanceLevel::Amdgpu(AmdgpuPerformanceLevel::ProfilePeak),
            ],
    {
        let mut levels: Vec<GpuPerformanceLevel> = Vec::new();
        if exists {
            levels.push(GpuPerformanceLevel::Amdgpu(AmdgpuPerformanceLevel::Auto));
            levels.push(GpuPerformanceLevel::Amdgpu(AmdgpuPerformanceLevel::Low));
            levels.push(GpuPerformanceLevel::Amdgpu(AmdgpuPerformanceLevel::High));
            levels.push(GpuPerformanceLevel::Amdgpu(AmdgpuPerformanceLevel::Manual));
            levels.push(GpuPerformanceLevel::Amdgpu(AmdgpuPerformanceLevel::ProfilePeak));
            assert(levels@ =~= seq![
                GpuPerformanceLevel::Amdgpu(AmdgpuPerformanceLevel::Auto),
                GpuPerformanceLevel::Amdgpu(AmdgpuPerformanceLevel::Low),
                GpuPerformanceLevel::Amdgpu(AmdgpuPerformanceLevel::High),
                GpuPerformanceLevel::Amdgpu(AmdgpuPerformanceLevel::Manual),
                GpuPerformanceLevel::Amdgpu(AmdgpuPerformanceLevel::ProfilePeak),
            ]);
        }
        levels
    }

    /// The level that the file of the level holds.
    pub fn get_performance_level(&self, contents: &str) -> (r: Result<GpuPerformanceLevel, Error>)
        ensures
            r == match AmdgpuPerformanceLevel::parse(trimmed(contents.spec_bytes())) {
                Some(v) => Ok::<GpuPerformanceLevel, Error>(GpuPerformanceLevel::Amdgpu(v)),
                None => Err(Error::InvalidData),
            },
    {
        match AmdgpuPerformanceLevel::from_bytes(trim(contents.as_bytes())) {
            Ok(v) => Ok(GpuPerformanceLevel::Amdgpu(v)),
            Err(e) => Err(e),
        }
    }

    /// What to write to the file of the level to select a level: its name.
    pub fn set_performance_level(&self, level: GpuPerformanceLevel) -> (r: String)
        ensures
            r@ == match level {
                GpuPerformanceLevel::Amdgpu(v) => v.spec_name()@,
            },
    {
        level.to_string()
    }

    /// The range of clocks, given what the capture groups of every line of
    /// the table of clock levels hold.
    pub fn clocks_range_of(
        &self,
        configured: Option<RangeConfig<u32>>,
        rows: &Vec<Option<Vec<Option<Vec<u8>>>>>,
    ) -> (r: Result<(u32, u32), Error>)
        ensures
            r == clocks_range(configured, rows_view(rows@)),
    {
        if let Some(range) = configured {
            return Ok((range.min, range.max));
        }
        let mut min: u32 = 1_000_000;
        let mut max: u32 = 0;
        let mut i: usize = 0;
        while i < rows.len()
            invariant
                i <= rows@.len(),
                configured is None,
                clock_bounds(rows_view(rows@), 0, 1_000_000, 0) == clock_bounds(
                    rows_view(rows@),
                    i as int,
                    min,
                    max,
                ),
            decreases rows@.len() - i,
        {
            if let Some(digits) = get_group(&rows[i], 2) {
                match parse_u32(digits.as_slice()) {
                    None => {
                        return Err(Error::InvalidData);
                    },
                    Some(value) => {
                        if value < min {
                            min = value;
                        }
                        if value > max {
                            max = value;
                        }
                    },
                }
            }
            i += 1;
        }
        if min <= max {
            Ok((min, max))
        } else {
            Err(Error::NotFound)
        }
    }

    /// The range of clocks: the configured one, or the one that the table of
    /// clock levels spans. The table is not looked at where a range is
    /// configured.
    pub fn get_clocks_range(&self, configured: Option<RangeConfig<u32>>, contents: &str) -> (r:
        Result<(u32, u32), Error>)
        ensures
            r == clocks_range(
                configured,
                captured(AMDGPU_CLOCK_LEVELS_REGEX@, lines(contents.spec_bytes())),
            ),
    {
        if let Some(range) = configured {
            return Ok((range.min, range.max));
        }
        let rows = captures_of_lines(AMDGPU_CLOCK_LEVELS_REGEX, contents);
        self.clocks_range_of(None, &rows)
    }

    /// What to write to the overdrive table, one write after the other, to
    /// set the clock by hand: the least clock, the greatest, and the commit.
    pub fn set_clocks(&self, clocks: u32) -> (r: Vec<Vec<u8>>)
        ensures
            r@.len() == 3,
            r@[0]@ == "s 0 ".spec_bytes() + decimal_digits(clocks as nat) + "\n".spec_bytes(),
            r@[1]@ == "s 1 ".spec_bytes() + decimal_digits(clocks as nat) + "\n".spec_bytes(),
            r@[2]@ == "c\n".spec_bytes(),
    {
        let digits = u32_digits(clocks);
        let mut least: Vec<u8> = Vec::new();
        least.extend_from_slice("s 0 ".as_bytes());
        least.extend_from_slice(digits.as_slice());
        least.extend_from_slice("\n".as_bytes());
        let mut greatest: Vec<u8> = Vec::new();
        greatest.extend_from_slice("s 1 ".as_bytes());
        greatest.extend_from_slice(digits.as_slice());
        greatest.extend_from_slice("\n".as_bytes());
        let mut commit: Vec<u8> = Vec::new();
        commit.extend_from_slice("c\n".as_bytes());
        let mut writes: Vec<Vec<u8>> = Vec::new();
        writes.push(least);
        writes.push(greatest);
        writes.push(commit);
        writes
    }

    /// The clock set by hand according to the overdrive table.
    pub fn get_clocks(&self, contents: &str) -> (r: Result<u32, Error>)
        ensures
            r == manual_clock(pieces(contents.spec_bytes(), 0x0a), 0),
    {
        let rows = split_inclusive(contents.as_bytes(), 0x0a);
        let mut i: usize = 0;
        while i < rows.len()
            invariant
                i <= rows@.len(),
                views(rows@) == pieces(contents.spec_bytes(), 0x0a),
                manual_clock(views(rows@), 0) == manual_clock(views(rows@), i as int),
            decreases rows@.len() - i,
        {
            if bytes_eq(rows[i].as_slice(), "OD_SCLK:\n".as_bytes()) {
                if i + 1 >= rows.len() {
                    return Ok(0);
                }
                let found = split_words(rows[i + 1].as_slice());
                if found.len() < 2 || !ends_with(found[1].as_slice(), "Mhz".as_bytes()) {
                    return Ok(0);
                }
                let digits = trim_end_matches(found[1].as_slice(), "Mhz".as_bytes());
                return match parse_u32(digits) {
                    Some(clock) => Ok(clock),
                    None => Err(Error::InvalidData),
                };
            }
            i += 1;
        }
        Ok(0)
    }
}

} // verus!
