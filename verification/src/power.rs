//! CPU and power settings: their names, their numbers, and the text of the
//! kernel attributes that hold them.

use vstd::prelude::*;
use vstd::string::StringSliceAdditionalSpecFns;
use crate::error::Error;
use crate::text::{
    bytes_eq, decimal_digits, eq_ignore_case, fields, i32_of, lemma_ascii_bytes, lowered, parse_i32,
    split_fields, split_words, starts_with, has_prefix, trim, trimmed, u32_digits, views, words,
};

verus! {

/// How the kernel picks the CPU's frequency.
#[derive(Clone, Copy, Debug, PartialEq, Eq, Hash, Structural)]
pub enum CPUScalingGovernor {
    Conservative,
    OnDemand,
    UserSpace,
    PowerSave,
    Performance,
    SchedUtil,
}

impl CPUScalingGovernor {
    /// The name that this governor is written with.
    pub open spec fn spec_name(self) -> &'static str {
        match self {
            CPUScalingGovernor::Conservative => "conservative",
            CPUScalingGovernor::OnDemand => "ondemand",
            CPUScalingGovernor::UserSpace => "userspace",
            CPUScalingGovernor::PowerSave => "powersave",
            CPUScalingGovernor::Performance => "performance",
            CPUScalingGovernor::SchedUtil => "schedutil",
        }
    }

    /// The governor that a text names, if it names one. Letter case counts.
    pub open spec fn parse(text: Seq<u8>) -> Option<CPUScalingGovernor> {
        if text == "conservative".spec_bytes() {
            Some(CPUScalingGovernor::Conservative)
        } else if text == "ondemand".spec_bytes() {
            Some(CPUScalingGovernor::OnDemand)
        } else if text == "userspace".spec_bytes() {
            Some(CPUScalingGovernor::UserSpace)
        } else if text == "powersave".spec_bytes() {
            Some(CPUScalingGovernor::PowerSave)
        } else if text == "performance".spec_bytes() {
            Some(CPUScalingGovernor::Performance)
        } else if text == "schedutil".spec_bytes() {
            Some(CPUScalingGovernor::SchedUtil)
        } else {
            None
        }
    }

    /// The name that this governor is written with.
    pub fn name(&self) -> (r: &'static str)
        ensures
            r@ == self.spec_name()@,
    {
        match self {
            CPUScalingGovernor::Conservative => "conservative",
            CPUScalingGovernor::OnDemand => "ondemand",
            CPUScalingGovernor::UserSpace => "userspace",
            CPUScalingGovernor::PowerSave => "powersave",
            CPUScalingGovernor::Performance => "performance",
            CPUScalingGovernor::SchedUtil => "schedutil",
        }
    }

    /// The name that this governor is written with, as an owned string.
    pub fn to_string(&self) -> (r: String)
        ensures
            r@ == self.spec_name()@,
    {
        self.name().to_owned()
    }

    /// Reads a governor from its name. A text that names none is refused.
    pub fn from_str(s: &str) -> (r: Result<CPUScalingGovernor, Error>)
        ensures
            r == match CPUScalingGovernor::parse(s.spec_bytes()) {
                Some(v) => Ok::<CPUScalingGovernor, Error>(v),
                None => Err(Error::InvalidData),
            },
    {
        CPUScalingGovernor::from_bytes(s.as_bytes())
    }

    /// Reads a governor from the bytes of its name.
    pub fn from_bytes(text: &[u8]) -> (r: Result<CPUScalingGovernor, Error>)
        ensures
            r == match CPUScalingGovernor::parse(text@) {
                Some(v) => Ok::<CPUScalingGovernor, Error>(v),
                None => Err(Error::InvalidData),
            },
    {
        if bytes_eq(text, "conservative".as_bytes()) {
            Ok(CPUScalingGovernor::Conservative)
        } else if bytes_eq(text, "ondemand".as_bytes()) {
            Ok(CPUScalingGovernor::OnDemand)
        } else if bytes_eq(text, "userspace".as_bytes()) {
            Ok(CPUScalingGovernor::UserSpace)
        } else if bytes_eq(text, "powersave".as_bytes()) {
            Ok(CPUScalingGovernor::PowerSave)
        } else if bytes_eq(text, "performance".as_bytes()) {
            Ok(CPUScalingGovernor::Performance)
        } else if bytes_eq(text, "schedutil".as_bytes()) {
            Ok(CPUScalingGovernor::SchedUtil)
        } else {
            Err(Error::InvalidData)
        }
    }
}

/// Writing the name of a governor and reading it back gives the governor.
pub proof fn lemma_cpu_scaling_governor_round_trip(v: CPUScalingGovernor)
    ensures
        CPUScalingGovernor::parse(v.spec_name().spec_bytes()) == Some(v),
{
    reveal_strlit("conservative");
    reveal_strlit("ondemand");
    reveal_strlit("userspace");
    reveal_strlit("powersave");
    reveal_strlit("performance");
    reveal_strlit("schedutil");
    lemma_ascii_bytes("conservative");
    lemma_ascii_bytes("ondemand");
    lemma_ascii_bytes("userspace");
    lemma_ascii_bytes("powersave");
    lemma_ascii_bytes("performance");
    lemma_ascii_bytes("schedutil");
    assert("userspace".spec_bytes()[0] != "powersave".spec_bytes()[0]);
    assert("userspace".spec_bytes()[0] != "schedutil".spec_bytes()[0]);
    assert("powersave".spec_bytes()[0] != "schedutil".spec_bytes()[0]);
}

/// Whether the CPU may run above its base frequency.
#[derive(Clone, Copy, Debug, PartialEq, Eq, Structural)]
pub enum CPUBoostState {
    Disabled,
    Enabled,
}

impl CPUBoostState {
    /// The name that this state is written with.
    pub open spec fn spec_name(self) -> &'static str {
        match self {
            CPUBoostState::Disabled => "disabled",
            CPUBoostState::Enabled => "enabled",
        }
    }

    /// The state that a text names, if it names one. Letter case does not count.
    pub open spec fn parse(text: Seq<u8>) -> Option<CPUBoostState> {
        if lowered(text) == lowered("disabled".spec_bytes())
            || lowered(text) == lowered("off".spec_bytes())
            || lowered(text) == lowered("disable".spec_bytes())
            || lowered(text) == lowered("0".spec_bytes()) {
            Some(CPUBoostState::Disabled)
        } else if lowered(text) == lowered("enabled".spec_bytes())
            || lowered(text) == lowered("on".spec_bytes())
            || lowered(text) == lowered("enable".spec_bytes())
            || lowered(text) == lowered("1".spec_bytes()) {
            Some(CPUBoostState::Enabled)
        } else {
            None
        }
    }

    /// The name that this state is written with.
    pub fn name(&self) -> (r: &'static str)
        ensures
            r@ == self.spec_name()@,
    {
        match self {
            CPUBoostState::Disabled => "disabled",
            CPUBoostState::Enabled => "enabled",
        }
    }

    /// The name that this state is written with, as an owned string.
    pub fn to_string(&self) -> (r: String)
        ensures
            r@ == self.spec_name()@,
    {
        self.name().to_owned()
    }

    /// Reads a state from its name. A text that names none is refused.
    pub fn from_str(s: &str) -> (r: Result<CPUBoostState, Error>)
        ensures
            r == match CPUBoostState::parse(s.spec_bytes()) {
                Some(v) => Ok::<CPUBoostState, Error>(v),
                None => Err(Error::InvalidData),
            },
    {
        CPUBoostState::from_bytes(s.as_bytes())
    }

    /// Reads a state from the bytes of its name.
    pub fn from_bytes(text: &[u8]) -> (r: Result<CPUBoostState, Error>)
        ensures
            r == match CPUBoostState::parse(text@) {
                Some(v) => Ok::<CPUBoostState, Error>(v),
                None => Err(Error::InvalidData),
            },
    {
        if eq_ignore_case(text, "disabled".as_bytes())
            || eq_ignore_case(text, "off".as_bytes())
            || eq_ignore_case(text, "disable".as_bytes())
            || eq_ignore_case(text, "0".as_bytes()) {
            Ok(CPUBoostState::Disabled)
        } else if eq_ignore_case(text, "enabled".as_bytes())
            || eq_ignore_case(text, "on".as_bytes())
            || eq_ignore_case(text, "enable".as_bytes())
            || eq_ignore_case(text, "1".as_bytes()) {
            Ok(CPUBoostState::Enabled)
        } else {
            Err(Error::InvalidData)
        }
    }

    /// The number that stands for this state on the bus.
    pub open spec fn spec_number(self) -> u32 {
        match self {
            CPUBoostState::Disabled => 0,
            CPUBoostState::Enabled => 1,
        }
    }

    /// The state that a number stands for, if it stands for one.
    pub open spec fn of_number(number: u32) -> Option<CPUBoostState> {
        if number == 0 {
            Some(CPUBoostState::Disabled)
        } else if number == 1 {
            Some(CPUBoostState::Enabled)
        } else {
            None
        }
    }

    /// The number that stands for this state on the bus.
    pub fn as_u32(&self) -> (r: u32)
        ensures
            r == self.spec_number(),
            CPUBoostState::of_number(r) == Some(*self),
    {
        match self {
            CPUBoostState::Disabled => 0,
            CPUBoostState::Enabled => 1,
        }
    }

    /// Reads a state from its number. A number that stands for none is refused.
    pub fn try_from(number: u32) -> (r: Result<CPUBoostState, Error>)
        ensures
            r == match CPUBoostState::of_number(number) {
                Some(v) => Ok::<CPUBoostState, Error>(v),
                None => Err(Error::InvalidData),
            },
            r matches Ok(v) ==> v.spec_number() == number,
    {
        if number == 0 {
            Ok(CPUBoostState::Disabled)
        } else if number == 1 {
            Ok(CPUBoostState::Enabled)
        } else {
            Err(Error::InvalidData)
        }
    }
}

/// Writing the name of a state and reading it back gives the state.
pub proof fn lemma_cpu_boost_state_round_trip(v: CPUBoostState)
    ensures
        CPUBoostState::parse(v.spec_name().spec_bytes()) == Some(v),
{
    reveal_strlit("disabled");
    reveal_strlit("off");
    reveal_strlit("disable");
    reveal_strlit("0");
    reveal_strlit("enabled");
    reveal_strlit("on");
    reveal_strlit("enable");
    reveal_strlit("1");
    lemma_ascii_bytes("disabled");
    lemma_ascii_bytes("off");
    lemma_ascii_bytes("disable");
    lemma_ascii_bytes("0");
    lemma_ascii_bytes("enabled");
    lemma_ascii_bytes("on");
    lemma_ascii_bytes("enable");
    lemma_ascii_bytes("1");
    assert(lowered("disabled".spec_bytes()).len() != lowered("enabled".spec_bytes()).len());
    assert(lowered("off".spec_bytes()).len() != lowered("enabled".spec_bytes()).len());
    assert(lowered("disable".spec_bytes())[0] != lowered("enabled".spec_bytes())[0]);
    assert(lowered("0".spec_bytes()).len() != lowered("enabled".spec_bytes()).len());
}

/// The way in which the TDP limit is read and set.
#[derive(Clone, Copy, Debug, PartialEq, Eq, Structural)]
pub enum TdpLimitingMethod {
    /// Through the power cap of the GPU's hardware monitor.
    AmdgpuHwmon,
    /// Through attributes that the firmware exposes.
    FirmwareAttribute,
}

impl TdpLimitingMethod {
    /// The name that this method is written with.
    pub open spec fn spec_name(self) -> &'static str {
        match self {
            TdpLimitingMethod::AmdgpuHwmon => "amdgpu_hwmon",
            TdpLimitingMethod::FirmwareAttribute => "firmware_attribute",
        }
    }

    /// The method that a text names, if it names one. Letter case counts.
    pub open spec fn parse(text: Seq<u8>) -> Option<TdpLimitingMethod> {
        if text == "amdgpu_hwmon".spec_bytes() {
            Some(TdpLimitingMethod::AmdgpuHwmon)
        } else if text == "firmware_attribute".spec_bytes() {
            Some(TdpLimitingMethod::FirmwareAttribute)
        } else {
            None
        }
    }

    /// The name that this method is written with.
    pub fn name(&self) -> (r: &'static str)
        ensures
            r@ == self.spec_name()@,
    {
        match self {
            TdpLimitingMethod::AmdgpuHwmon => "amdgpu_hwmon",
            TdpLimitingMethod::FirmwareAttribute => "firmware_attribute",
        }
    }

    /// The name that this method is written with, as an owned string.
    pub fn to_string(&self) -> (r: String)
        ensures
            r@ == self.spec_name()@,
    {
        self.name().to_owned()
    }

    /// Reads a method from its name. A text that names none is refused.
    pub fn from_str(s: &str) -> (r: Result<TdpLimitingMethod, Error>)
        ensures
            r == match TdpLimitingMethod::parse(s.spec_bytes()) {
                Some(v) => Ok::<TdpLimitingMethod, Error>(v),
                None => Err(Error::InvalidData),
            },
    {
        TdpLimitingMethod::from_bytes(s.as_bytes())
    }

    /// Reads a method from the bytes of its name.
    pub fn from_bytes(text: &[u8]) -> (r: Result<TdpLimitingMethod, Error>)
        ensures
            r == match TdpLimitingMethod::parse(text@) {
                Some(v) => Ok::<TdpLimitingMethod, Error>(v),
                None => Err(Error::InvalidData),
            },
    {
        if bytes_eq(text, "amdgpu_hwmon".as_bytes()) {
            Ok(TdpLimitingMethod::AmdgpuHwmon)
        } else if bytes_eq(text, "firmware_attribute".as_bytes()) {
            Ok(TdpLimitingMethod::FirmwareAttribute)
        } else {
            Err(Error::InvalidData)
        }
    }

    /// The names of every method, in the order of declaration.
    pub fn variants() -> (r: Vec<&'static str>)
        ensures
            r@.len() == 2,
            r@[0]@ == TdpLimitingMethod::AmdgpuHwmon.spec_name()@,
            r@[1]@ == TdpLimitingMethod::FirmwareAttribute.spec_name()@,
    {
        let mut out: Vec<&'static str> = Vec::new();
        out.push("amdgpu_hwmon");
        out.push("firmware_attribute");
        out
    }
}

/// Writing the name of a method and reading it back gives the method.
pub proof fn lemma_tdp_limiting_method_round_trip(v: TdpLimitingMethod)
    ensures
        TdpLimitingMethod::parse(v.spec_name().spec_bytes()) == Some(v),
{
    reveal_strlit("amdgpu_hwmon");
    reveal_strlit("firmware_attribute");
    lemma_ascii_bytes("amdgpu_hwmon");
    lemma_ascii_bytes("firmware_attribute");
}

/// The driver behind the CPU's boost switch.
#[derive(Clone, Copy, Debug, PartialEq, Eq, Structural)]
pub enum CpuBoostDriver {
    /// The switch reads 0 for boost and 1 for none.
    IntelPstate,
    /// The switch reads 1 for boost and 0 for none.
    CpuFreq,
}

/// The governors among the words, in their order. Words that name no
/// governor are passed over.
pub open spec fn governors_of(names: Seq<Seq<u8>>) -> Seq<CPUScalingGovernor>
    decreases names.len(),
{
    if names.len() == 0 {
        Seq::empty()
    } else {
        match CPUScalingGovernor::parse(names.last()) {
            Some(governor) => governors_of(names.drop_last()).push(governor),
            None => governors_of(names.drop_last()),
        }
    }
}

/// The governors that the kernel's list of available governors names.
pub fn get_available_cpu_scaling_governors(contents: &str) -> (r: Vec<CPUScalingGovernor>)
    ensures
        r@ == governors_of(words(contents.spec_bytes())),
{
    let names = split_words(contents.as_bytes());
    let mut result: Vec<CPUScalingGovernor> = Vec::new();
    let mut i: usize = 0;
    while i < names.len()
        invariant
            i <= names@.len(),
            result@ == governors_of(views(names@).take(i as int)),
        decreases names@.len() - i,
    {
        let ghost upto = views(names@).take(i + 1);
        assert(upto.drop_last() =~= views(names@).take(i as int));
        assert(upto.last() == names@[i as int]@);
        match CPUScalingGovernor::from_bytes(names[i].as_slice()) {
            Ok(governor) => result.push(governor),
            Err(_) => {},
        }
        i += 1;
    }
    assert(views(names@).take(names@.len() as int) =~= views(names@));
    result
}

/// The governor that the kernel's governor attribute names.
pub fn get_cpu_scaling_governor(contents: &str) -> (r: Result<CPUScalingGovernor, Error>)
    ensures
        r == match CPUScalingGovernor::parse(trimmed(contents.spec_bytes())) {
            Some(v) => Ok::<CPUScalingGovernor, Error>(v),
            None => Err(Error::InvalidData),
        },
{
    CPUScalingGovernor::from_bytes(trim(contents.as_bytes()))
}

/// What to write to the kernel's governor attribute to select a governor.
pub fn set_cpu_scaling_governor(governor: CPUScalingGovernor) -> (r: String)
    ensures
        r@ == governor.spec_name()@,
{
    governor.to_string()
}

/// Where the governor is written: the directory entries known by name, up
/// to the first whose name is no text, that belong to a frequency policy.
pub open spec fn policy_entries(entries: Seq<Option<String>>, from: int) -> Seq<int>
    decreases entries.len() - from,
{
    if from < 0 || from >= entries.len() {
        Seq::empty()
    } else {
        match entries[from] {
            None => Seq::empty(),
            Some(name) => if has_prefix(vstd::utf8::encode_utf8(name@), "policy".spec_bytes()) {
                seq![from] + policy_entries(entries, from + 1)
            } else {
                policy_entries(entries, from + 1)
            },
        }
    }
}

/// Whether some entry has a name that is no text.
pub open spec fn has_unnamed(entries: Seq<Option<String>>) -> bool {
    exists|i: int| 0 <= i < entries.len() && entries[i] is None
}

/// The plan for writing a governor to every frequency policy.
pub struct GovernorWrites {
    /// The places, among the directory's entries, of those to write to, in order.
    pub targets: Vec<usize>,
    /// What the whole comes to once every write went well.
    pub result: Result<(), Error>,
}

/// Plans the writing of a governor, given the entries of the directory of
/// frequency policies; an entry whose name is no text is `None`. Every entry
/// whose name begins with `policy` is written to, up to the first entry
/// without a name, which is a failure. To have written nothing is a failure
/// too.
pub fn write_cpu_governor_sysfs_contents(entries: &Vec<Option<String>>) -> (r: GovernorWrites)
    ensures
        r.targets@.map_values(|i: usize| i as int) == policy_entries(entries@, 0),
        r.result == if has_unnamed(entries@) {
            Err::<(), Error>(Error::InvalidData)
        } else if policy_entries(entries@, 0).len() == 0 {
            Err(Error::NotFound)
        } else {
            Ok(())
        },
{
    let mut targets: Vec<usize> = Vec::new();
    let mut i: usize = 0;
    while i < entries.len()
        invariant
            i <= entries@.len(),
            forall|j: int| 0 <= j < i ==> entries@[j] is Some,
            targets@.map_values(|k: usize| k as int) + policy_entries(entries@, i as int)
                == policy_entries(entries@, 0),
        decreases entries@.len() - i,
    {
        match &entries[i] {
            None => {
                assert(targets@.map_values(|k: usize| k as int) + Seq::<int>::empty()
                    =~= targets@.map_values(|k: usize| k as int));
                return GovernorWrites { targets, result: Err(Error::InvalidData) };
            },
            Some(name) => {
                if starts_with(name.as_str().as_bytes(), "policy".as_bytes()) {
                    let ghost before = targets@.map_values(|k: usize| k as int);
                    targets.push(i);
                    assert(targets@.map_values(|k: usize| k as int) =~= before + seq![i as int]);
                    assert(before + (seq![i as int] + policy_entries(entries@, i + 1)) =~= (before
                        + seq![i as int]) + policy_entries(entries@, i + 1));
                }
            },
        }
        i += 1;
    }
    assert(targets@.map_values(|k: usize| k as int) + Seq::<int>::empty()
        =~= targets@.map_values(|k: usize| k as int));
    let result = if targets.len() == 0 {
        Err(Error::NotFound)
    } else {
        Ok(())
    };
    GovernorWrites { targets, result }
}

/// The driver behind the boost switch, given whether the switch of cpufreq
/// and that of intel_pstate exist. The first is preferred, and the second is
/// looked at only where the first does not exist.
pub open spec fn boost_driver(cpufreq: Result<bool, Error>, intel_pstate: Result<bool, Error>)
    -> Result<CpuBoostDriver, Error> {
    match cpufreq {
        Err(e) => Err(e),
        Ok(true) => Ok(CpuBoostDriver::CpuFreq),
        Ok(false) => match intel_pstate {
            Err(e) => Err(e),
            Ok(true) => Ok(CpuBoostDriver::IntelPstate),
            Ok(false) => Err(Error::NotFound),
        },
    }
}

/// Finds the driver behind the boost switch.
pub fn find_cpu_boost_driver(cpufreq: Result<bool, Error>, intel_pstate: Result<bool, Error>) -> (r:
    Result<CpuBoostDriver, Error>)
    ensures
        r == boost_driver(cpufreq, intel_pstate),
{
    match cpufreq {
        Err(e) => Err(e),
        Ok(true) => Ok(CpuBoostDriver::CpuFreq),
        Ok(false) => match intel_pstate {
            Err(e) => Err(e),
            Ok(true) => Ok(CpuBoostDriver::IntelPstate),
            Ok(false) => Err(Error::NotFound),
        },
    }
}

/// What the boost switch reads for a state: cpufreq's switch says whether
/// boost is on, intel_pstate's whether it is off.
pub open spec fn boost_text(driver: CpuBoostDriver, state: CPUBoostState) -> &'static str {
    match (driver, state) {
        (CpuBoostDriver::CpuFreq, CPUBoostState::Enabled) => "1",
        (CpuBoostDriver::CpuFreq, CPUBoostState::Disabled) => "0",
        (CpuBoostDriver::IntelPstate, CPUBoostState::Enabled) => "0",
        (CpuBoostDriver::IntelPstate, CPUBoostState::Disabled) => "1",
    }
}

/// The state that the boost switch reads, white space around it aside.
pub open spec fn boost_state(driver: CpuBoostDriver, contents: Seq<u8>) -> Option<CPUBoostState> {
    if trimmed(contents) == boost_text(driver, CPUBoostState::Enabled).spec_bytes() {
        Some(CPUBoostState::Enabled)
    } else if trimmed(contents) == boost_text(driver, CPUBoostState::Disabled).spec_bytes() {
        Some(CPUBoostState::Disabled)
    } else {
        None
    }
}

/// Reads the boost state from the contents of the switch.
pub fn get_cpu_boost_state(driver: CpuBoostDriver, contents: &str) -> (r: Result<
    CPUBoostState,
    Error,
>)
    ensures
        r == match boost_state(driver, contents.spec_bytes()) {
            Some(v) => Ok::<CPUBoostState, Error>(v),
            None => Err(Error::InvalidData),
        },
{
    let text = trim(contents.as_bytes());
    let on = set_cpu_boost_state(driver, CPUBoostState::Enabled);
    let off = set_cpu_boost_state(driver, CPUBoostState::Disabled);
    if bytes_eq(text, on.as_bytes()) {
        Ok(CPUBoostState::Enabled)
    } else if bytes_eq(text, off.as_bytes()) {
        Ok(CPUBoostState::Disabled)
    } else {
        Err(Error::InvalidData)
    }
}

/// What to write to the boost switch to bring a state about.
pub fn set_cpu_boost_state(driver: CpuBoostDriver, state: CPUBoostState) -> (r: &'static str)
    ensures
        r@ == boost_text(driver, state)@,
{
    match (driver, state) {
        (CpuBoostDriver::CpuFreq, CPUBoostState::Enabled) => "1",
        (CpuBoostDriver::CpuFreq, CPUBoostState::Disabled) => "0",
        (CpuBoostDriver::IntelPstate, CPUBoostState::Enabled) => "0",
        (CpuBoostDriver::IntelPstate, CPUBoostState::Disabled) => "1",
    }
}

/// What came of reading the name file of a directory.
#[derive(Debug)]
pub struct SysDir {
    pub path: String,
    /// The contents of the directory's `name` file, or why they could not be read.
    pub name: Result<String, Error>,
}

/// The search for the directory that goes by a name. Directories are looked
/// at in order. One whose name cannot be read ends the search with that
/// failure; one whose name, white space around it aside, is the name looked
/// for ends it with success.
pub open spec fn sysdir_from(dirs: Seq<SysDir>, expected: Seq<u8>, from: int) -> Result<int, Error>
    decreases dirs.len() - from,
{
    if from < 0 || from >= dirs.len() {
        Err(Error::NotFound)
    } else {
        match dirs[from].name {
            Err(e) => Err(e),
            Ok(name) => if trimmed(vstd::utf8::encode_utf8(name@)) == expected {
                Ok(from)
            } else {
                sysdir_from(dirs, expected, from + 1)
            },
        }
    }
}

/// Finds the directory that goes by the name `expected`, and gives its place
/// among `dirs`.
pub fn find_sysdir(dirs: &Vec<SysDir>, expected: &str) -> (r: Result<usize, Error>)
    ensures
        match r {
            Ok(i) => i < dirs@.len() && sysdir_from(dirs@, expected.spec_bytes(), 0) == Ok::<
                int,
                Error,
            >(i as int),
            Err(e) => sysdir_from(dirs@, expected.spec_bytes(), 0) == Err::<int, Error>(e),
        },
{
    let mut i: usize = 0;
    while i < dirs.len()
        invariant
            i <= dirs@.len(),
            sysdir_from(dirs@, expected.spec_bytes(), 0) == sysdir_from(
                dirs@,
                expected.spec_bytes(),
                i as int,
            ),
        decreases dirs@.len() - i,
    {
        match &dirs[i].name {
            Err(e) => {
                return Err(*e);
            },
            Ok(name) => {
                if bytes_eq(trim(name.as_str().as_bytes()), expected.as_bytes()) {
                    return Ok(i);
                }
            },
        }
        i += 1;
    }
    Err(Error::NotFound)
}

/// The charge level that the battery's attribute holds.
pub fn get_max_charge_level(contents: &str) -> (r: Result<i32, Error>)
    ensures
        r == match i32_of(trimmed(contents.spec_bytes())) {
            Some(v) => Ok::<i32, Error>(v),
            None => Err(Error::InvalidData),
        },
{
    match parse_i32(trim(contents.as_bytes())) {
        Some(v) => Ok(v),
        None => Err(Error::InvalidData),
    }
}

/// What to write to the battery's attribute to limit the charge to `limit`
/// per cent. A limit that is no percentage is refused.
pub fn set_max_charge_level(limit: i32) -> (r: Result<Vec<u8>, Error>)
    ensures
        0 <= limit <= 100 ==> r is Ok && r->Ok_0@ == decimal_digits(limit as nat),
        !(0 <= limit <= 100) ==> r == Err::<Vec<u8>, Error>(Error::Range),
{
    if limit < 0 || limit > 100 {
        return Err(Error::Range);
    }
    Ok(u32_digits(limit as u32))
}

/// The charge level as the bus reports it: a level that is not positive
/// stands for no limit, and is reported as -1.
pub fn reported_charge_level(level: i32) -> (r: i32)
    ensures
        r == if level <= 0 {
            -1
        } else {
            level as int
        },
{
    if level <= 0 {
        -1
    } else {
        level
    }
}

/// The least charge limit to suggest: the configured one, or 10 per cent.
pub fn suggested_minimum_limit(configured: Option<i32>) -> (r: i32)
    ensures
        r == match configured {
            Some(v) => v,
            None => 10,
        },
{
    match configured {
        Some(v) => v,
        None => 10,
    }
}

/// The platform profiles that the kernel's list of choices names: what
/// stands between the spaces of the list, white space around the list aside.
pub fn get_available_platform_profiles(contents: &str) -> (r: Vec<Vec<u8>>)
    ensures
        views(r@) == fields(trimmed(contents.spec_bytes()), 0x20),
{
    split_fields(trim(contents.as_bytes()), 0x20)
}

/// The platform profile that the kernel's profile attribute holds.
pub fn get_platform_profile(contents: &str) -> (r: Vec<u8>)
    ensures
        r@ == trimmed(contents.spec_bytes()),
{
    vstd::slice::slice_to_vec(trim(contents.as_bytes()))
}

} // verus!
