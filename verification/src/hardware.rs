//! What is known of the device: its model, its fan, and what its
//! configuration allows.

use vstd::prelude::*;
use vstd::string::StringSliceAdditionalSpecFns;
use vstd::utf8::encode_utf8;
use crate::error::Error;
use crate::platform::{ScriptConfig, ServiceConfig};
use crate::power::TdpLimitingMethod;
use crate::text::{bytes_eq, eq_ignore_case, lemma_ascii_bytes, lowered, trim_end, trimmed_end};

verus! {

/// Who controls the fan.
#[derive(Clone, Copy, Debug, PartialEq, Eq, Structural)]
pub enum FanControlState {
    /// The firmware.
    Bios,
    /// The operating system.
    Os,
}

impl FanControlState {
    /// The name that this state is written with.
    pub open spec fn spec_name(self) -> &'static str {
        match self {
            FanControlState::Bios => "BIOS",
            FanControlState::Os => "OS",
        }
    }

    /// The state that a text names, if it names one. Letter case does not count.
    pub open spec fn parse(text: Seq<u8>) -> Option<FanControlState> {
        if lowered(text) == lowered("BIOS".spec_bytes()) {
            Some(FanControlState::Bios)
        } else if lowered(text) == lowered("OS".spec_bytes()) {
            Some(FanControlState::Os)
        } else {
            None
        }
    }

    /// The name that this state is written with.
    pub fn name(&self) -> (r: &'static str)
        ensures
            r@ == self.spec_name()@,
    {
        match self {
            FanControlState::Bios => "BIOS",
            FanControlState::Os => "OS",
        }
    }

    /// The name that this state is written with, as an owned string.
    pub fn to_string(&self) -> (r: String)
        ensures
            r@ == self.spec_name()@,
    {
        self.name().to_owned()
    }

    /// Reads a state from its name. A text that names none is refused.
    pub fn from_str(s: &str) -> (r: Result<FanControlState, Error>)
        ensures
            r == match FanControlState::parse(s.spec_bytes()) {
                Some(v) => Ok::<FanControlState, Error>(v),
                None => Err(Error::InvalidData),
            },
    {
        FanControlState::from_bytes(s.as_bytes())
    }

    /// Reads a state from the bytes of its name.
    pub fn from_bytes(text: &[u8]) -> (r: Result<FanControlState, Error>)
        ensures
            r == match FanControlState::parse(text@) {
                Some(v) => Ok::<FanControlState, Error>(v),
                None => Err(Error::InvalidData),
            },
    {
        if eq_ignore_case(text, "BIOS".as_bytes()) {
            Ok(FanControlState::Bios)
        } else if eq_ignore_case(text, "OS".as_bytes()) {
            Ok(FanControlState::Os)
        } else {
            Err(Error::InvalidData)
        }
    }

    /// The number that stands for this state on the bus.
    pub open spec fn spec_number(self) -> u32 {
        match self {
            FanControlState::Bios => 0,
            FanControlState::Os => 1,
        }
    }

    /// The state that a number stands for, if it stands for one.
    pub open spec fn of_number(number: u32) -> Option<FanControlState> {
        if number == 0 {
            Some(FanControlState::Bios)
        } else if number == 1 {
            Some(FanControlState::Os)
        } else {
            None
        }
    }

    /// The number that stands for this state on the bus.
    pub fn as_u32(&self) -> (r: u32)
        ensures
            r == self.spec_number(),
            FanControlState::of_number(r) == Some(*self),
    {
        match self {
            FanControlState::Bios => 0,
            FanControlState::Os => 1,
        }
    }

    /// Reads a state from its number. A number that stands for none is refused.
    pub fn try_from(number: u32) -> (r: Result<FanControlState, Error>)
        ensures
            r == match FanControlState::of_number(number) {
                Some(v) => Ok::<FanControlState, Error>(v),
                None => Err(Error::InvalidData),
            },
            r matches Ok(v) ==> v.spec_number() == number,
    {
        if number == 0 {
            Ok(FanControlState::Bios)
        } else if number == 1 {
            Ok(FanControlState::Os)
        } else {
            Err(Error::InvalidData)
        }
    }
}

/// Writing the name of a state and reading it back gives the state.
pub proof fn lemma_fan_control_state_round_trip(v: FanControlState)
    ensures
        FanControlState::parse(v.spec_name().spec_bytes()) == Some(v),
{
    reveal_strlit("BIOS");
    reveal_strlit("OS");
    lemma_ascii_bytes("BIOS");
    lemma_ascii_bytes("OS");
    assert(lowered("BIOS".spec_bytes()).len() != lowered("OS".spec_bytes()).len());
}

/// What a factory reset wipes.
#[derive(Clone, Copy, Debug, PartialEq, Eq, Structural)]
pub enum FactoryResetKind {
    User,
    OS,
    All,
}

impl FactoryResetKind {
    /// The name that this kind is written with.
    pub open spec fn spec_name(self) -> &'static str {
        match self {
            FactoryResetKind::User => "User",
            FactoryResetKind::OS => "OS",
            FactoryResetKind::All => "All",
        }
    }

    /// The kind that a text names, if it names one. Letter case does not count.
    pub open spec fn parse(text: Seq<u8>) -> Option<FactoryResetKind> {
        if lowered(text) == lowered("User".spec_bytes()) {
            Some(FactoryResetKind::User)
        } else if lowered(text) == lowered("OS".spec_bytes()) {
            Some(FactoryResetKind::OS)
        } else if lowered(text) == lowered("All".spec_bytes()) {
            Some(FactoryResetKind::All)
        } else {
            None
        }
    }

    /// The name that this kind is written with.
    pub fn name(&self) -> (r: &'static str)
        ensures
            r@ == self.spec_name()@,
    {
        match self {
            FactoryResetKind::User => "User",
            FactoryResetKind::OS => "OS",
            FactoryResetKind::All => "All",
        }
    }

    /// The name that this kind is written with, as an owned string.
    pub fn to_string(&self) -> (r: String)
        ensures
            r@ == self.spec_name()@,
    {
        self.name().to_owned()
    }

    /// Reads a kind from its name. A text that names none is refused.
    pub fn from_str(s: &str) -> (r: Result<FactoryResetKind, Error>)
        ensures
            r == match FactoryResetKind::parse(s.spec_bytes()) {
                Some(v) => Ok::<FactoryResetKind, Error>(v),
                None => Err(Error::InvalidData),
            },
    {
        FactoryResetKind::from_bytes(s.as_bytes())
    }

    /// Reads a kind from the bytes of its name.
    pub fn from_bytes(text: &[u8]) -> (r: Result<FactoryResetKind, Error>)
        ensures
            r == match FactoryResetKind::parse(text@) {
                Some(v) => Ok::<FactoryResetKind, Error>(v),
                None => Err(Error::InvalidData),
            },
    {
        if eq_ignore_case(text, "User".as_bytes()) {
            Ok(FactoryResetKind::User)
        } else if eq_ignore_case(text, "OS".as_bytes()) {
            Ok(FactoryResetKind::OS)
        } else if eq_ignore_case(text, "All".as_bytes()) {
            Ok(FactoryResetKind::All)
        } else {
            Err(Error::InvalidData)
        }
    }

    /// The number that stands for this kind on the bus.
    pub open spec fn spec_number(self) -> u32 {
        match self {
            FactoryResetKind::User => 1,
            FactoryResetKind::OS => 2,
            FactoryResetKind::All => 3,
        }
    }

    /// The kind that a number stands for, if it stands for one.
    pub open spec fn of_number(number: u32) -> Option<FactoryResetKind> {
        if number == 1 {
            Some(FactoryResetKind::User)
        } else if number == 2 {
            Some(FactoryResetKind::OS)
        } else if number == 3 {
            Some(FactoryResetKind::All)
        } else {
            None
        }
    }

    /// The number that stands for this kind on the bus.
    pub fn as_u32(&self) -> (r: u32)
        ensures
            r == self.spec_number(),
            FactoryResetKind::of_number(r) == Some(*self),
    {
        match self {
            FactoryResetKind::User => 1,
            FactoryResetKind::OS => 2,
            FactoryResetKind::All => 3,
        }
    }

    /// Reads a kind from its number. A number that stands for none is refused.
    pub fn try_from(number: u32) -> (r: Result<FactoryResetKind, Error>)
        ensures
            r == match FactoryResetKind::of_number(number) {
                Some(v) => Ok::<FactoryResetKind, Error>(v),
                None => Err(Error::InvalidData),
            },
            r matches Ok(v) ==> v.spec_number() == number,
    {
        if number == 1 {
            Ok(FactoryResetKind::User)
        } else if number == 2 {
            Ok(FactoryResetKind::OS)
        } else if number == 3 {
            Ok(FactoryResetKind::All)
        } else {
            Err(Error::InvalidData)
        }
    }
}

/// Writing the name of a kind and reading it back gives the kind.
pub proof fn lemma_factory_reset_kind_round_trip(v: FactoryResetKind)
    ensures
        FactoryResetKind::parse(v.spec_name().spec_bytes()) == Some(v),
{
    reveal_strlit("User");
    reveal_strlit("OS");
    reveal_strlit("All");
    lemma_ascii_bytes("User");
    lemma_ascii_bytes("OS");
    lemma_ascii_bytes("All");
    assert(lowered("User".spec_bytes()).len() != lowered("OS".spec_bytes()).len());
    assert(lowered("User".spec_bytes()).len() != lowered("All".spec_bytes()).len());
    assert(lowered("OS".spec_bytes()).len() != lowered("All".spec_bytes()).len());
}

/// The model of a Steam Deck.
#[derive(Clone, Copy, Debug, PartialEq, Eq, Structural)]
pub enum SteamDeckVariant {
    Unknown,
    Jupiter,
    Galileo,
}

impl SteamDeckVariant {
    /// The name that this model is written with.
    pub open spec fn spec_name(self) -> &'static str {
        match self {
            SteamDeckVariant::Unknown => "unknown",
            SteamDeckVariant::Jupiter => "jupiter",
            SteamDeckVariant::Galileo => "galileo",
        }
    }

    /// The model that a text names, if it names one. Letter case does not count.
    pub open spec fn parse(text: Seq<u8>) -> Option<SteamDeckVariant> {
        if lowered(text) == lowered("unknown".spec_bytes()) {
            Some(SteamDeckVariant::Unknown)
        } else if lowered(text) == lowered("jupiter".spec_bytes()) {
            Some(SteamDeckVariant::Jupiter)
        } else if lowered(text) == lowered("galileo".spec_bytes()) {
            Some(SteamDeckVariant::Galileo)
        } else {
            None
        }
    }

    /// The name that this model is written with.
    pub fn name(&self) -> (r: &'static str)
        ensures
            r@ == self.spec_name()@,
    {
        match self {
            SteamDeckVariant::Unknown => "unknown",
            SteamDeckVariant::Jupiter => "jupiter",
            SteamDeckVariant::Galileo => "galileo",
        }
    }

    /// The name that this model is written with, as an owned string.
    pub fn to_string(&self) -> (r: String)
        ensures
            r@ == self.spec_name()@,
    {
        self.name().to_owned()
    }

    /// Reads a model from its name. A text that names none is refused.
    pub fn from_str(s: &str) -> (r: Result<SteamDeckVariant, Error>)
        ensures
            r == match SteamDeckVariant::parse(s.spec_bytes()) {
                Some(v) => Ok::<SteamDeckVariant, Error>(v),
                None => Err(Error::InvalidData),
            },
    {
        SteamDeckVariant::from_bytes(s.as_bytes())
    }

    /// Reads a model from the bytes of its name.
    pub fn from_bytes(text: &[u8]) -> (r: Result<SteamDeckVariant, Error>)
        ensures
            r == match SteamDeckVariant::parse(text@) {
                Some(v) => Ok::<SteamDeckVariant, Error>(v),
                None => Err(Error::InvalidData),
            },
    {
        if eq_ignore_case(text, "unknown".as_bytes()) {
            Ok(SteamDeckVariant::Unknown)
        } else if eq_ignore_case(text, "jupiter".as_bytes()) {
            Ok(SteamDeckVariant::Jupiter)
        } else if eq_ignore_case(text, "galileo".as_bytes()) {
            Ok(SteamDeckVariant::Galileo)
        } else {
            Err(Error::InvalidData)
        }
    }
}

/// Writing the name of a model and reading it back gives the model.
pub proof fn lemma_steam_deck_variant_round_trip(v: SteamDeckVariant)
    ensures
        SteamDeckVariant::parse(v.spec_name().spec_bytes()) == Some(v),
{
    reveal_strlit("unknown");
    reveal_strlit("jupiter");
    reveal_strlit("galileo");
    lemma_ascii_bytes("unknown");
    lemma_ascii_bytes("jupiter");
    lemma_ascii_bytes("galileo");
    assert(lowered("unknown".spec_bytes())[0] != lowered("jupiter".spec_bytes())[0]);
    assert(lowered("unknown".spec_bytes())[0] != lowered("galileo".spec_bytes())[0]);
    assert(lowered("jupiter".spec_bytes())[0] != lowered("galileo".spec_bytes())[0]);
}

impl Default for SteamDeckVariant {
    fn default() -> (r: SteamDeckVariant)
        ensures
            r == SteamDeckVariant::Unknown,
    {
        SteamDeckVariant::Unknown
    }
}

/// The least and the greatest value of a setting.
#[derive(Clone, Debug)]
pub struct RangeConfig<T: Clone> {
    pub min: T,
    pub max: T,
}

impl<T: Copy> Copy for RangeConfig<T> {
}

impl<T: Clone> RangeConfig<T> {
    /// The range from `min` to `max`.
    pub fn new(min: T, max: T) -> (r: RangeConfig<T>)
        ensures
            r.min == min,
            r.max == max,
    {
        RangeConfig { min, max }
    }
}

/// How the battery's charge limit is reached.
#[derive(Clone, Debug)]
pub struct BatteryChargeLimitConfig {
    pub suggested_minimum_limit: Option<i32>,
    pub hwmon_name: String,
    pub attribute: String,
}

/// What the firmware says of a machine that a configuration is meant for.
#[derive(Clone, Debug)]
pub struct DmiMatch {
    pub sys_vendor: String,
    pub board_name: Option<String>,
    pub product_name: Option<String>,
}

/// A machine that a configuration is meant for.
#[derive(Clone, Debug)]
pub struct DeviceMatch {
    pub dmi: Option<DmiMatch>,
    pub device: String,
    pub variant: String,
}

/// The firmware attribute behind the TDP limit.
#[derive(Clone, Debug)]
pub struct FirmwareAttributeConfig {
    pub attribute: String,
    /// The platform profile that has to be selected for the limit to count.
    pub performance_profile: Option<String>,
}

/// The platform profile behind performance profiles.
#[derive(Clone, Debug)]
pub struct PerformanceProfileConfig {
    pub suggested_default: String,
    pub platform_profile_name: String,
}

/// How the TDP limit is handled.
#[derive(Clone, Debug)]
pub struct TdpLimitConfig {
    pub method: TdpLimitingMethod,
    pub range: Option<RangeConfig<u32>>,
    /// The limit that download mode forces; never zero.
    pub download_mode_limit: Option<u32>,
    pub firmware_attribute: Option<FirmwareAttributeConfig>,
}

/// Everything a device's configuration says.
#[derive(Clone, Debug)]
pub struct DeviceConfig {
    pub device: Vec<DeviceMatch>,
    pub tdp_limit: Option<TdpLimitConfig>,
    pub gpu_clocks: Option<RangeConfig<u32>>,
    pub battery_charge_limit: Option<BatteryChargeLimitConfig>,
    pub performance_profile: Option<PerformanceProfileConfig>,
}

/// What the firmware says of this machine, each text without the white space
/// that ends it.
pub struct Dmi {
    pub sys_vendor: Seq<u8>,
    pub board_name: Seq<u8>,
    pub product_name: Seq<u8>,
}

/// The machine as read from the three firmware files.
pub open spec fn dmi_of(sys_vendor: &str, board_name: &str, product_name: &str) -> Dmi {
    Dmi {
        sys_vendor: trimmed_end(sys_vendor.spec_bytes()),
        board_name: trimmed_end(board_name.spec_bytes()),
        product_name: trimmed_end(product_name.spec_bytes()),
    }
}

/// Whether a configuration is meant for this machine: it names the
/// machine's vendor, and either its board or its product.
pub open spec fn device_matches(device: DeviceMatch, dmi: Dmi) -> bool {
    match device.dmi {
        None => false,
        Some(wanted) => {
            &&& encode_utf8(wanted.sys_vendor@) == dmi.sys_vendor
            &&& {
                ||| wanted.board_name is Some && encode_utf8(wanted.board_name->Some_0@)
                    == dmi.board_name
                ||| wanted.product_name is Some && encode_utf8(wanted.product_name->Some_0@)
                    == dmi.product_name
            }
        },
    }
}

/// The place of the first entry, from `from` on, that is meant for this machine.
pub open spec fn first_match(devices: Seq<DeviceMatch>, dmi: Dmi, from: int) -> Option<int>
    decreases devices.len() - from,
{
    if from < 0 || from >= devices.len() {
        None
    } else if device_matches(devices[from], dmi) {
        Some(from)
    } else {
        first_match(devices, dmi, from + 1)
    }
}

fn option_is(wanted: &Option<String>, found: &[u8]) -> (r: bool)
    ensures
        r == (wanted is Some && encode_utf8(wanted->Some_0@) == found@),
{
    match wanted {
        Some(text) => bytes_eq(text.as_str().as_bytes(), found),
        None => false,
    }
}

impl DeviceConfig {
    /// A configuration that says nothing.
    pub fn default() -> (r: DeviceConfig)
        ensures
            r.device@.len() == 0,
            r.tdp_limit is None,
            r.gpu_clocks is None,
            r.battery_charge_limit is None,
            r.performance_profile is None,
    {
        DeviceConfig {
            device: Vec::new(),
            tdp_limit: None,
            gpu_clocks: None,
            battery_charge_limit: None,
            performance_profile: None,
        }
    }

    /// The first entry of the configuration that is meant for the machine
    /// which the three firmware files describe.
    pub fn device_match(&self, sys_vendor: &str, board_name: &str, product_name: &str) -> (r:
        Option<&DeviceMatch>)
        ensures
            match first_match(self.device@, dmi_of(sys_vendor, board_name, product_name), 0) {
                Some(i) => r == Some(&self.device@[i]),
                None => r is None,
            },
    {
        let vendor = trim_end(sys_vendor.as_bytes());
        let board = trim_end(board_name.as_bytes());
        let product = trim_end(product_name.as_bytes());
        let ghost dmi = dmi_of(sys_vendor, board_name, product_name);
        let mut i: usize = 0;
        while i < self.device.len()
            invariant
                i <= self.device@.len(),
                dmi == dmi_of(sys_vendor, board_name, product_name),
                vendor@ == dmi.sys_vendor,
                board@ == dmi.board_name,
                product@ == dmi.product_name,
                first_match(self.device@, dmi, 0) == first_match(self.device@, dmi, i as int),
            decreases self.device@.len() - i,
        {
            let device = &self.device[i];
            if let Some(wanted) = &device.dmi {
                if bytes_eq(wanted.sys_vendor.as_str().as_bytes(), vendor) {
                    if option_is(&wanted.board_name, board) {
                        assert(device_matches(self.device@[i as int], dmi));
                        return Some(device);
                    }
                    if option_is(&wanted.product_name, product) {
                        assert(device_matches(self.device@[i as int], dmi));
                        return Some(device);
                    }
                }
            }
            assert(!device_matches(self.device@[i as int], dmi));
            i += 1;
        }
        None
    }

    /// The device and the variant that this machine is, or `unknown` twice
    /// where no entry of the configuration is meant for it.
    pub fn device_variant(&self, sys_vendor: &str, board_name: &str, product_name: &str) -> (r: (
        String,
        String,
    ))
        ensures
            match first_match(self.device@, dmi_of(sys_vendor, board_name, product_name), 0) {
                Some(i) => r.0@ == self.device@[i].device@ && r.1@ == self.device@[i].variant@,
                None => r.0@ == "unknown"@ && r.1@ == "unknown"@,
            },
    {
        match self.device_match(sys_vendor, board_name, product_name) {
            Some(device) => (device.device.clone(), device.variant.clone()),
            None => ("unknown".to_owned(), "unknown".to_owned()),
        }
    }
}

/// The device and the variant of a machine without a configuration.
pub fn unknown_device() -> (r: (String, String))
    ensures
        r.0@ == "unknown"@,
        r.1@ == "unknown"@,
{
    ("unknown".to_owned(), "unknown".to_owned())
}

/// The model of Steam Deck that the firmware describes: unknown unless the
/// vendor is Valve, and then the model that the board's name names, if any.
pub open spec fn deck_variant(sys_vendor: Seq<u8>, board_name: Seq<u8>) -> SteamDeckVariant {
    if trimmed_end(sys_vendor) != "Valve".spec_bytes() {
        SteamDeckVariant::Unknown
    } else {
        match SteamDeckVariant::parse(trimmed_end(board_name)) {
            Some(v) => v,
            None => SteamDeckVariant::Unknown,
        }
    }
}

/// The model of Steam Deck that the firmware describes.
pub fn steam_deck_variant(sys_vendor: &str, board_name: &str) -> (r: SteamDeckVariant)
    ensures
        r == deck_variant(sys_vendor.spec_bytes(), board_name.spec_bytes()),
{
    if !bytes_eq(trim_end(sys_vendor.as_bytes()), "Valve".as_bytes()) {
        return SteamDeckVariant::Unknown;
    }
    match SteamDeckVariant::from_bytes(trim_end(board_name.as_bytes())) {
        Ok(v) => v,
        Err(_) => SteamDeckVariant::Unknown,
    }
}

/// What to do to bring the fan under the control asked for.
#[derive(Debug)]
pub enum FanControlAction<'a> {
    StartUnit(&'a String),
    StopUnit(&'a String),
    RunScript(&'a ScriptConfig),
}

/// Where the state of fan control is to be had from.
#[derive(Debug)]
pub enum FanControlQuery<'a> {
    /// Whether the unit is active.
    UnitActive(&'a String),
    /// The exit code of the script.
    ScriptExitCode(&'a ScriptConfig),
}

/// The state of fan control that an exit code of the status script stands
/// for. A negative code stands for a script that did not exit by itself.
pub open spec fn exit_code_state(code: i32) -> Result<FanControlState, Error> {
    if code < 0 {
        Err(Error::Io)
    } else {
        match FanControlState::of_number(code as u32) {
            Some(v) => Ok(v),
            None => Err(Error::InvalidData),
        }
    }
}

/// The state of fan control. Behind a unit, the operating system has the
/// fan while the unit is active. Behind scripts, the exit code of the status
/// script tells. Without a configuration nothing can be told.
pub open spec fn fan_state(
    config: Option<&ServiceConfig>,
    unit_active: Result<bool, Error>,
    exit_code: Result<i32, Error>,
) -> Result<FanControlState, Error> {
    match config {
        Some(ServiceConfig::Systemd(_)) => match unit_active {
            Ok(active) => Ok(
                if active {
                    FanControlState::Os
                } else {
                    FanControlState::Bios
                },
            ),
            Err(e) => Err(e),
        },
        Some(ServiceConfig::Script { .. }) => match exit_code {
            Ok(code) => exit_code_state(code),
            Err(e) => Err(e),
        },
        None => Err(Error::Config),
    }
}

/// Fan control.
pub struct FanControl {
}

impl FanControl {
    pub fn new() -> FanControl {
        FanControl {  }
    }

    /// Where the state of fan control is to be had from; a failure where fan
    /// control is not configured.
    pub fn state_query<'a>(&self, config: Option<&'a ServiceConfig>) -> (r: Result<
        FanControlQuery<'a>,
        Error,
    >)
        ensures
            match config {
                Some(ServiceConfig::Systemd(unit)) => r == Ok::<FanControlQuery<'a>, Error>(
                    FanControlQuery::UnitActive(unit),
                ),
                Some(ServiceConfig::Script { start, stop, status }) => r == Ok::<
                    FanControlQuery<'a>,
                    Error,
                >(FanControlQuery::ScriptExitCode(status)),
                None => r == Err::<FanControlQuery<'a>, Error>(Error::Config),
            },
    {
        match config {
            Some(ServiceConfig::Systemd(unit)) => Ok(FanControlQuery::UnitActive(unit)),
            Some(ServiceConfig::Script { start: _, stop: _, status }) => Ok(
                FanControlQuery::ScriptExitCode(status),
            ),
            None => Err(Error::Config),
        }
    }

    /// The state of fan control, given what was learned of the unit or the
    /// status script that the configuration names. What was learned of the
    /// other does not count.
    pub fn get_state(
        &self,
        config: Option<&ServiceConfig>,
        unit_active: Result<bool, Error>,
        exit_code: Result<i32, Error>,
    ) -> (r: Result<FanControlState, Error>)
        ensures
            r == fan_state(config, unit_active, exit_code),
    {
        match config {
            Some(ServiceConfig::Systemd(_)) => match unit_active {
                Ok(active) => Ok(self.state_of_unit(active)),
                Err(e) => Err(e),
            },
            Some(ServiceConfig::Script { .. }) => match exit_code {
                Ok(code) => self.state_of_exit_code(code),
                Err(e) => Err(e),
            },
            None => Err(Error::Config),
        }
    }

    /// The state of fan control behind a unit: the operating system has it
    /// while the unit is active.
    pub fn state_of_unit(&self, active: bool) -> (r: FanControlState)
        ensures
            r == if active {
                FanControlState::Os
            } else {
                FanControlState::Bios
            },
    {
        if active {
            FanControlState::Os
        } else {
            FanControlState::Bios
        }
    }

    /// The state of fan control that a status script reports by its exit
    /// code. A negative code stands for a script that did not exit by itself.
    pub fn state_of_exit_code(&self, code: i32) -> (r: Result<FanControlState, Error>)
        ensures
            r == exit_code_state(code),
    {
        if code < 0 {
            return Err(Error::Io);
        }
        FanControlState::try_from(code as u32)
    }

    /// What to do to hand the fan to the operating system or to the firmware;
    /// a failure where fan control is not configured.
    pub fn set_state<'a>(&self, config: Option<&'a ServiceConfig>, state: FanControlState) -> (r:
        Result<FanControlAction<'a>, Error>)
        ensures
            match config {
                Some(ServiceConfig::Systemd(unit)) => r == Ok::<FanControlAction<'a>, Error>(
                    match state {
                        FanControlState::Os => FanControlAction::StartUnit(unit),
                        FanControlState::Bios => FanControlAction::StopUnit(unit),
                    },
                ),
                Some(ServiceConfig::Script { start, stop, status }) => r == Ok::<
                    FanControlAction<'a>,
                    Error,
                >(
                    match state {
                        FanControlState::Os => FanControlAction::RunScript(start),
                        FanControlState::Bios => FanControlAction::RunScript(stop),
                    },
                ),
                None => r == Err::<FanControlAction<'a>, Error>(Error::Config),
            },
    {
        match config {
            Some(ServiceConfig::Systemd(unit)) => Ok(
                match state {
                    FanControlState::Os => FanControlAction::StartUnit(unit),
                    FanControlState::Bios => FanControlAction::StopUnit(unit),
                },
            ),
            Some(ServiceConfig::Script { start, stop, status: _ }) => Ok(
                match state {
                    FanControlState::Os => FanControlAction::RunScript(start),
                    FanControlState::Bios => FanControlAction::RunScript(stop),
                },
            ),
            None => Err(Error::Config),
        }
    }
}

} // verus!
