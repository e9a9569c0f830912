//! Static machine information, read once when the engine starts.

use vstd::prelude::*;
use vstd::utf8::{decode_utf8, valid_utf8};
use std::string::FromUtf8Error;

verus! {

/// What the engine knows of the host for as long as it runs.
#[derive(Debug, Clone)]
pub struct SysctlInfo {
    pub cpu_brand: String,
    pub cpu_cores: u32,
    pub cpu_cores_perf: u32,
    pub cpu_cores_eff: u32,
    pub physical_memory: u64,
    pub page_size: u64,
}

/// The mathematical content of a [`SysctlInfo`].
pub ghost struct SysctlInfoView {
    pub cpu_brand: Seq<char>,
    pub cpu_cores: u32,
    pub cpu_cores_perf: u32,
    pub cpu_cores_eff: u32,
    pub physical_memory: u64,
    pub page_size: u64,
}

impl View for SysctlInfo {
    type V = SysctlInfoView;

    open spec fn view(&self) -> SysctlInfoView {
        SysctlInfoView {
            cpu_brand: self.cpu_brand@,
            cpu_cores: self.cpu_cores,
            cpu_cores_perf: self.cpu_cores_perf,
            cpu_cores_eff: self.cpu_cores_eff,
            physical_memory: self.physical_memory,
            page_size: self.page_size,
        }
    }
}

/// The values read from the kernel, each `None` where the read failed.
#[derive(Debug, Clone)]
pub struct SysctlReadings {
    pub cpu_brand: Option<String>,
    pub cpu_cores: Option<u32>,
    pub cpu_cores_perf: Option<u32>,
    pub cpu_cores_eff: Option<u32>,
    pub physical_memory: Option<u64>,
    pub page_size: Option<u64>,
}

/// The static information is available: both sizes that every figure rests on, the
/// page size and the size of physical memory, could be read.
pub open spec fn static_info_available(readings: SysctlReadings) -> bool {
    readings.page_size is Some && readings.physical_memory is Some
}

/// The machine information that a set of readings stands for, where it is available.
///
/// A brand that could not be read is `Unknown`, and a core count zero. The two sizes
/// have no default: nothing is ever computed from a size that was made up.
pub open spec fn info_of_readings(readings: SysctlReadings) -> SysctlInfoView
    recommends
        static_info_available(readings),
{
    SysctlInfoView {
        cpu_brand: match readings.cpu_brand {
            Some(brand) => brand@,
            None => "Unknown"@,
        },
        cpu_cores: readings.cpu_cores.unwrap_or(0),
        cpu_cores_perf: readings.cpu_cores_perf.unwrap_or(0),
        cpu_cores_eff: readings.cpu_cores_eff.unwrap_or(0),
        physical_memory: readings.physical_memory->Some_0,
        page_size: readings.page_size->Some_0,
    }
}

/// Why the static information is not available: the first size that is missing, the
/// page size before the memory size.
pub open spec fn unavailable_reason(readings: SysctlReadings) -> Seq<char>
    recommends
        !static_info_available(readings),
{
    if readings.page_size is None {
        "page size is not available"@
    } else {
        "physical memory size is not available"@
    }
}

impl SysctlInfo {
    /// Builds the machine information from what could be read.
    ///
    /// Fails where the page size or the size of physical memory could not be read:
    /// without them there is no engine.
    pub fn new(readings: SysctlReadings) -> (info: Result<Self, String>)
        ensures
            info is Ok <==> static_info_available(readings),
            info is Ok ==> info->Ok_0@ == info_of_readings(readings),
            info is Err ==> info->Err_0@ == unavailable_reason(readings),
    {
        let page_size = match readings.page_size {
            Some(size) => size,
            None => {
                return Err("page size is not available".to_owned());
            },
        };
        let physical_memory = match readings.physical_memory {
            Some(size) => size,
            None => {
                return Err("physical memory size is not available".to_owned());
            },
        };
        Ok(
            Self {
                cpu_brand: match readings.cpu_brand {
                    Some(brand) => brand,
                    None => "Unknown".to_owned(),
                },
                cpu_cores: readings.cpu_cores.unwrap_or(0),
                cpu_cores_perf: readings.cpu_cores_perf.unwrap_or(0),
                cpu_cores_eff: readings.cpu_cores_eff.unwrap_or(0),
                physical_memory,
                page_size,
            },
        )
    }
}

/// The bytes of a kernel string without the NUL that may end them.
pub open spec fn without_terminator(bytes: Seq<u8>) -> Seq<u8> {
    if bytes.len() > 0 && bytes.last() == 0 {
        bytes.drop_last()
    } else {
        bytes
    }
}

/// The bytes of a kernel string are not UTF-8.
#[derive(Debug, Clone, Copy, PartialEq, Eq, Structural)]
pub struct InvalidUtf8;

/// Decodes the bytes that the kernel returned for a string value.
///
/// One NUL at the end is dropped; what is left must be UTF-8.
pub fn sysctl_string(bytes: Vec<u8>) -> (text: Result<String, InvalidUtf8>)
    ensures
        text is Ok <==> valid_utf8(without_terminator(bytes@)),
        text is Ok ==> text->Ok_0@ == decode_utf8(without_terminator(bytes@)),
{
    let mut bytes = bytes;
    let n: usize = bytes.len();
    if n > 0 && bytes[n - 1] == 0 {
        bytes.pop();
    }
    match String::from_utf8(bytes) {
        Ok(text) => Ok(text),
        Err(_) => Err(InvalidUtf8),
    }
}

/// `String::from_utf8` of std: succeeds exactly on bytes that are UTF-8 and then
/// returns the text that they encode.
pub assume_specification[ String::from_utf8 ](vec: Vec<u8>) -> (text: Result<String, FromUtf8Error>)
    ensures
        text is Ok <==> valid_utf8(vec@),
        text is Ok ==> text->Ok_0@ == decode_utf8(vec@),
;

/// The error of `String::from_utf8` of std, carried through unread.
#[verifier::external_type_specification]
#[verifier::external_body]
pub struct ExFromUtf8Error(FromUtf8Error);

} // verus!
