//! The patch formats the tool can write, and the flag that selects each.

use vstd::prelude::*;

verus! {

/// A patch file format understood by the tool.
#[derive(Debug, Clone, Copy)]
pub enum PatchType {
    /// IPS.
    Ips,
    /// BPS.
    Bps,
    /// BPS, delta encoding.
    BpsDelta,
    /// BPS, linear encoding.
    BpsLinear,
    /// BPS, delta encoding, the variant that uses more memory.
    BPSDeltaMoreMemory,
}

impl PatchType {
    /// The command-line token that asks the tool for this format.
    pub open spec fn flag_spec(self) -> Seq<char> {
        match self {
            PatchType::Ips => "--ips"@,
            PatchType::Bps => "--bps"@,
            PatchType::BpsDelta => "--bps-delta"@,
            PatchType::BpsLinear => "--bps-linear"@,
            PatchType::BPSDeltaMoreMemory => "--bps-delta-moremem"@,
        }
    }

    /// The flag as a string slice.
    pub fn flag(&self) -> (s: &'static str)
        ensures
            s@ == self.flag_spec(),
    {
        match self {
            PatchType::Ips => "--ips",
            PatchType::Bps => "--bps",
            PatchType::BpsDelta => "--bps-delta",
            PatchType::BpsLinear => "--bps-linear",
            PatchType::BPSDeltaMoreMemory => "--bps-delta-moremem",
        }
    }

    /// The flag as an owned string, ready to be pushed onto an argument list.
    pub fn to_string(&self) -> (s: String)
        ensures
            s@ == self.flag_spec(),
    {
        self.flag().to_owned()
    }
}

} // verus!
