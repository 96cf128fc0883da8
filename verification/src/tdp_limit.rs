//! The ways of reading and setting the TDP limit.
//!
//! The limit is always spoken of in watts. The GPU's hardware monitor holds
//! it in microwatts; the firmware's attributes hold it in watts.

use vstd::prelude::*;
use vstd::string::StringSliceAdditionalSpecFns;
use crate::error::Error;
use crate::hardware::{DeviceConfig, TdpLimitConfig};
use crate::power::TdpLimitingMethod;
use crate::text::{
    bytes_eq, decimal_digits, decimal_value, all_digits, lemma_decimal_round_trip, parse_u32,
    trim, trim_end, trimmed, trimmed_end, u32_digits, u32_of,
};

verus! {

/// The limit that goes through the power cap of the GPU's hardware monitor.
#[derive(Debug)]
pub struct AmdgpuHwmonTdpLimitManager {
}

/// The limit that goes through attributes of the firmware.
#[derive(Debug)]
pub struct FirmwareAttributeLimitManager {
    pub attribute: String,
    /// The platform profile that has to be selected for the limit to count.
    pub performance_profile: Option<String>,
}

/// A way of reading and setting the TDP limit.
#[derive(Debug)]
pub enum TdpLimitManager {
    AmdgpuHwmon(AmdgpuHwmonTdpLimitManager),
    FirmwareAttribute(FirmwareAttributeLimitManager),
}

/// The TDP limit's part of a device's configuration, if it has one.
pub open spec fn tdp_config(config: Option<&DeviceConfig>) -> Option<TdpLimitConfig> {
    match config {
        Some(c) => c.tdp_limit,
        None => None,
    }
}

/// Whether a way of limiting is the one that a configuration of the limit
/// names: the hardware monitor's for that method, and for the firmware's
/// method the one with the configured attribute and profile.
pub open spec fn is_manager_for(limit: TdpLimitConfig, manager: TdpLimitManager) -> bool {
    match limit.method {
        TdpLimitingMethod::AmdgpuHwmon => manager is AmdgpuHwmon,
        TdpLimitingMethod::FirmwareAttribute => match limit.firmware_attribute {
            None => false,
            Some(firmware) => {
                &&& manager is FirmwareAttribute
                &&& manager->FirmwareAttribute_0.attribute@ == firmware.attribute@
                &&& match firmware.performance_profile {
                    Some(profile) => {
                        &&& manager->FirmwareAttribute_0.performance_profile is Some
                        &&& manager->FirmwareAttribute_0.performance_profile->Some_0@ == profile@
                    },
                    None => manager->FirmwareAttribute_0.performance_profile is None,
                }
            },
        },
    }
}

/// Whether a configuration names a way of limiting that can be had: it
/// configures the limit, and for the firmware's method the attribute too.
pub open spec fn has_manager(config: Option<&DeviceConfig>) -> bool {
    match tdp_config(config) {
        None => false,
        Some(limit) => limit.method == TdpLimitingMethod::AmdgpuHwmon
            || limit.firmware_attribute is Some,
    }
}

/// Picks the way of limiting that the configuration names. Without a
/// configuration of the limit there is none; the firmware's way needs its
/// attribute configured as well.
pub fn tdp_limit_manager(config: Option<&DeviceConfig>) -> (r: Result<TdpLimitManager, Error>)
    ensures
        !has_manager(config) ==> r is Err && r->Err_0 == Error::Config,
        has_manager(config) ==> r is Ok && is_manager_for(tdp_config(config)->Some_0, r->Ok_0),
{
    let limit = match config {
        Some(c) => match &c.tdp_limit {
            Some(limit) => limit,
            None => {
                return Err(Error::Config);
            },
        },
        None => {
            return Err(Error::Config);
        },
    };
    match limit.method {
        TdpLimitingMethod::FirmwareAttribute => {
            match &limit.firmware_attribute {
                None => Err(Error::Config),
                Some(firmware) => {
                    let performance_profile = match &firmware.performance_profile {
                        Some(profile) => Some(profile.clone()),
                        None => None,
                    };
                    Ok(
                        TdpLimitManager::FirmwareAttribute(
                            FirmwareAttributeLimitManager {
                                attribute: firmware.attribute.clone(),
                                performance_profile,
                            },
                        ),
                    )
                },
            }
        },
        TdpLimitingMethod::AmdgpuHwmon => Ok(
            TdpLimitManager::AmdgpuHwmon(AmdgpuHwmonTdpLimitManager {  }),
        ),
    }
}

/// The limit in watts that a power cap in microwatts stands for. White space
/// after the number does not count, and a part of a watt is dropped.
pub open spec fn hwmon_limit(contents: Seq<u8>) -> Option<u32> {
    match u32_of(trimmed_end(contents)) {
        Some(microwatts) => Some((microwatts / 1_000_000) as u32),
        None => None,
    }
}

/// The power cap in microwatts that stands for a limit in watts: the watts,
/// and six zeros.
pub open spec fn hwmon_text(limit: u32) -> Seq<u8> {
    decimal_digits(limit as nat) + "000000".spec_bytes()
}

impl AmdgpuHwmonTdpLimitManager {
    /// The file that holds the limit.
    pub fn limit_file() -> (r: &'static str)
        ensures
            r@ == "power1_cap"@,
    {
        "power1_cap"
    }

    /// The file that holds the limit a second time, on hardware that has it.
    pub fn second_limit_file() -> (r: &'static str)
        ensures
            r@ == "power2_cap"@,
    {
        "power2_cap"
    }

    /// The limit in watts that the contents of the power cap stand for.
    pub fn get_tdp_limit(&self, contents: &str) -> (r: Result<u32, Error>)
        ensures
            r == match hwmon_limit(contents.spec_bytes()) {
                Some(v) => Ok::<u32, Error>(v),
                None => Err(Error::InvalidData),
            },
    {
        match parse_u32(trim_end(contents.as_bytes())) {
            Some(microwatts) => Ok(microwatts / 1_000_000),
            None => Err(Error::InvalidData),
        }
    }

    /// What to write to the power cap to set a limit in watts. Whether the
    /// limit may be set is not this method's to say: whoever sets it has
    /// held it against the range.
    pub fn set_tdp_limit(&self, limit: u32) -> (r: Vec<u8>)
        ensures
            r@ == hwmon_text(limit),
    {
        let mut data = u32_digits(limit);
        data.extend_from_slice("000000".as_bytes());
        data
    }

    /// The range of the limit: the configured one.
    pub fn get_tdp_limit_range(&self, config: Option<&DeviceConfig>) -> (r: Result<
        (u32, u32),
        Error,
    >)
        ensures
            r == match tdp_config(config) {
                None => Err::<(u32, u32), Error>(Error::Config),
                Some(limit) => match limit.range {
                    None => Err(Error::Config),
                    Some(range) => Ok((range.min, range.max)),
                },
            },
    {
        match config {
            Some(c) => match &c.tdp_limit {
                Some(limit) => match &limit.range {
                    Some(range) => Ok((range.min, range.max)),
                    None => Err(Error::Config),
                },
                None => Err(Error::Config),
            },
            None => Err(Error::Config),
        }
    }

    /// The method is always usable.
    pub fn is_active(&self) -> (r: Result<bool, Error>)
        ensures
            r == Ok::<bool, Error>(true),
    {
        Ok(true)
    }
}

/// The number that an attribute of the firmware holds, white space around it aside.
pub open spec fn attribute_value(contents: Seq<u8>) -> Result<u32, Error> {
    match u32_of(trimmed(contents)) {
        Some(v) => Ok(v),
        None => Err(Error::InvalidData),
    }
}

fn read_attribute(contents: &str) -> (r: Result<u32, Error>)
    ensures
        r == attribute_value(contents.spec_bytes()),
{
    match parse_u32(trim(contents.as_bytes())) {
        Some(v) => Ok(v),
        None => Err(Error::InvalidData),
    }
}

/// What being active comes to for reading or setting the limit: a method
/// that is not active is refused.
pub open spec fn ensured_active(active: Result<bool, Error>) -> Result<(), Error> {
    match active {
        Err(e) => Err(e),
        Ok(false) => Err(Error::DriverInactive),
        Ok(true) => Ok(()),
    }
}

fn ensure_active(active: Result<bool, Error>) -> (r: Result<(), Error>)
    ensures
        r == ensured_active(active),
{
    match active {
        Err(e) => Err(e),
        Ok(false) => Err(Error::DriverInactive),
        Ok(true) => Ok(()),
    }
}

impl FirmwareAttributeLimitManager {
    /// The directory of the firmware's attributes.
    pub fn prefix() -> (r: &'static str)
        ensures
            r@ == "/sys/class/firmware-attributes"@,
    {
        "/sys/class/firmware-attributes"
    }

    /// The attribute of the sustained limit, which is the one read.
    pub fn spl_suffix() -> (r: &'static str)
        ensures
            r@ == "ppt_pl1_spl"@,
    {
        "ppt_pl1_spl"
    }

    /// The attribute of the slow boost limit.
    pub fn sppt_suffix() -> (r: &'static str)
        ensures
            r@ == "ppt_pl2_sppt"@,
    {
        "ppt_pl2_sppt"
    }

    /// The attribute of the fast boost limit.
    pub fn fppt_suffix() -> (r: &'static str)
        ensures
            r@ == "ppt_pl3_fppt"@,
    {
        "ppt_pl3_fppt"
    }

    /// Whether the profile in force has to be asked for: it has where this
    /// method is tied to a profile and the device has platform profiles.
    pub fn needs_profile(&self, config: Option<&DeviceConfig>) -> (r: bool)
        ensures
            r == (self.performance_profile is Some && config is Some
                && config->Some_0.performance_profile is Some),
    {
        if self.performance_profile.is_none() {
            return false;
        }
        match config {
            Some(c) => c.performance_profile.is_some(),
            None => false,
        }
    }

    /// Whether the method can be used. It always can where it is tied to no
    /// profile, or the device has no platform profiles. Otherwise it can
    /// while the profile in force is the one it is tied to.
    pub fn is_active(&self, config: Option<&DeviceConfig>, profile: Result<&[u8], Error>) -> (r:
        Result<bool, Error>)
        ensures
            r == if self.performance_profile is Some && config is Some
                && config->Some_0.performance_profile is Some {
                match profile {
                    Err(e) => Err::<bool, Error>(e),
                    Ok(current) => Ok(
                        current@ == vstd::utf8::encode_utf8(self.performance_profile->Some_0@),
                    ),
                }
            } else {
                Ok(true)
            },
    {
        if !self.needs_profile(config) {
            return Ok(true);
        }
        match profile {
            Err(e) => Err(e),
            Ok(current) => match &self.performance_profile {
                Some(wanted) => Ok(bytes_eq(current, wanted.as_str().as_bytes())),
                None => Ok(true),
            },
        }
    }

    /// The limit that the contents of the sustained limit's attribute stand
    /// for. A method that is not active reads nothing.
    pub fn get_tdp_limit(&self, active: Result<bool, Error>, contents: &str) -> (r: Result<
        u32,
        Error,
    >)
        ensures
            r == match ensured_active(active) {
                Err(e) => Err::<u32, Error>(e),
                Ok(_) => attribute_value(contents.spec_bytes()),
            },
    {
        if let Err(e) = ensure_active(active) {
            return Err(e);
        }
        read_attribute(contents)
    }

    /// What to write to each of the three attributes to set a limit. A
    /// method that is not active sets nothing. Whether the limit may be set
    /// is not this method's to say: whoever sets it has held it against the
    /// range.
    pub fn set_tdp_limit(&self, active: Result<bool, Error>, limit: u32) -> (r: Result<
        Vec<u8>,
        Error,
    >)
        ensures
            match ensured_active(active) {
                Err(e) => r == Err::<Vec<u8>, Error>(e),
                Ok(_) => r is Ok && r->Ok_0@ == decimal_digits(limit as nat),
            },
    {
        if let Err(e) = ensure_active(active) {
            return Err(e);
        }
        Ok(u32_digits(limit))
    }

    /// The range of the limit, from the contents of the attribute's least
    /// and greatest value. The greatest is not looked at where the least
    /// cannot be read.
    pub fn get_tdp_limit_range(
        &self,
        min_contents: Result<&str, Error>,
        max_contents: Result<&str, Error>,
    ) -> (r: Result<(u32, u32), Error>)
        ensures
            r == match min_contents {
                Err(e) => Err::<(u32, u32), Error>(e),
                Ok(least) => match attribute_value(least.spec_bytes()) {
                    Err(e) => Err(e),
                    Ok(min) => match max_contents {
                        Err(e) => Err(e),
                        Ok(greatest) => match attribute_value(greatest.spec_bytes()) {
                            Err(e) => Err(e),
                            Ok(max) => Ok((min, max)),
                        },
                    },
                },
            },
    {
        let min = match min_contents {
            Err(e) => {
                return Err(e);
            },
            Ok(least) => match read_attribute(least) {
                Err(e) => {
                    return Err(e);
                },
                Ok(v) => v,
            },
        };
        let max = match max_contents {
            Err(e) => {
                return Err(e);
            },
            Ok(greatest) => match read_attribute(greatest) {
                Err(e) => {
                    return Err(e);
                },
                Ok(v) => v,
            },
        };
        Ok((min, max))
    }
}

/// A digit string followed by a zero denotes ten times as much.
proof fn lemma_append_zero(digits: Seq<u8>)
    requires
        all_digits(digits),
    ensures
        all_digits(digits.push(0x30)),
        decimal_value(digits.push(0x30)) == decimal_value(digits) * 10,
{
    let longer = digits.push(0x30);
    assert(longer.drop_last() =~= digits);
    assert forall|i: int| 0 <= i < longer.len() implies crate::text::is_digit(
        #[trigger] longer[i],
    ) by {
        if i < digits.len() {
            assert(crate::text::is_digit(digits[i]));
        }
    }
}

/// Watts survive the power cap. A limit written to the hardware monitor and
/// read back is the limit written, as long as its microwatts fit the cap.
pub proof fn hwmon_round_trip(limit: u32)
    requires
        limit * 1_000_000 <= u32::MAX,
    ensures
        hwmon_limit(hwmon_text(limit)) == Some(limit),
{
    reveal_strlit("000000");
    crate::text::lemma_ascii_bytes("000000");
    lemma_decimal_round_trip(limit as nat);
    let d0 = decimal_digits(limit as nat);
    let d1 = d0.push(0x30);
    let d2 = d1.push(0x30);
    let d3 = d2.push(0x30);
    let d4 = d3.push(0x30);
    let d5 = d4.push(0x30);
    let d6 = d5.push(0x30);
    lemma_append_zero(d0);
    lemma_append_zero(d1);
    lemma_append_zero(d2);
    lemma_append_zero(d3);
    lemma_append_zero(d4);
    lemma_append_zero(d5);
    assert(hwmon_text(limit) =~= d6);
    assert(decimal_value(d6) == limit * 1_000_000);
    assert(d6.len() >= 7 && d6[d6.len() - 1] == 0x30 && d6[d6.len() - 2] == 0x30 && d6[d6.len()
        - 3] == 0x30);
    assert(trimmed_end(d6) == d6);
    assert(d6[0] == d0[0]);
}

/// Watts survive the firmware's attributes. A limit written to an attribute
/// and read back is the limit written.
pub proof fn attribute_round_trip(limit: u32)
    ensures
        attribute_value(decimal_digits(limit as nat)) == Ok::<u32, Error>(limit),
{
    lemma_decimal_round_trip(limit as nat);
    let d = decimal_digits(limit as nat);
    assert(crate::text::is_digit(d[0]));
    assert(crate::text::is_digit(d[d.len() - 1]));
    if d.len() >= 2 {
        assert(crate::text::is_digit(d[d.len() - 2]));
    }
    if d.len() >= 3 {
        assert(crate::text::is_digit(d[d.len() - 3]));
    }
    assert(crate::text::trimmed_start(d) == d);
    assert(trimmed_end(d) == d);
}

} // verus!
