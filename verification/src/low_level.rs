//! CPU and boot-ROM introspection capabilities.

use vstd::prelude::*;

verus! {

/// Byte order of the running processor.
///
/// `Undefined` is the explicit sentinel for "not probed yet": a backend that
/// cannot determine the byte order must report `Undefined` rather than guess.
#[derive(Clone, Copy, Debug, PartialEq, Eq, Structural)]
pub enum Endianness {
    Little,
    Big,
    Undefined,
}

impl Default for Endianness {
    /// Until hardware has been probed the byte order is `Undefined`.
    fn default() -> (r: Self)
        ensures
            r == Endianness::Undefined,
    {
        Endianness::Undefined
    }
}

/// Introspection over the running processor.
pub trait BaseCpuProvider {
    /// Byte order the backend has probed, `Undefined` when it has not.
    spec fn endianness_view(&self) -> Endianness;

    /// Number of cores the backend has probed; always at least one.
    spec fn num_cores_view(&self) -> u8;

    /// Pure read of the probed byte order; no failure mode.
    fn get_endianness(&self) -> (r: Endianness)
        ensures
            r == self.endianness_view(),
    ;

    /// Pure read of the core count; a running processor has at least one core.
    fn get_num_cores(&self) -> (r: u8)
        ensures
            r == self.num_cores_view(),
            r >= 1,
    ;
}

/// Introspection over the boot ROM / firmware.
pub trait BromProvider {
    /// The boot-ROM version string the backend reports.
    spec fn brom_version_view(&self) -> Seq<char>;

    /// Pure read of the boot-ROM version string.
    fn get_brom_version(&self) -> (r: &'static str)
        ensures
            r@ == self.brom_version_view(),
    ;
}

/// Processor facts sampled once at boot.
pub struct CpuInfo {
    endianness: Endianness,
    num_cores: u8,
}

impl CpuInfo {
    /// A probed processor always has at least one core.
    #[verifier::type_invariant]
    spec fn core_count_positive(&self) -> bool {
        self.num_cores >= 1
    }

    /// Record probed processor facts.
    ///
    /// A probe that found no cores is meaningless; the boot stage runs on at
    /// least one.
    pub fn new(endianness: Endianness, num_cores: u8) -> (r: CpuInfo)
        requires
            num_cores >= 1,
        ensures
            r.endianness_view() == endianness,
            r.num_cores_view() == num_cores,
    {
        CpuInfo { endianness, num_cores }
    }
}

impl BaseCpuProvider for CpuInfo {
    closed spec fn endianness_view(&self) -> Endianness {
        self.endianness
    }

    closed spec fn num_cores_view(&self) -> u8 {
        self.num_cores
    }

    fn get_endianness(&self) -> (r: Endianness) {
        self.endianness
    }

    fn get_num_cores(&self) -> (r: u8) {
        proof {
            use_type_invariant(self);
        }
        self.num_cores
    }
}

/// Boot-ROM facts sampled once at boot.
pub struct BromInfo {
    version: &'static str,
}

impl BromInfo {
    /// Record the reported boot-ROM version.
    pub fn new(version: &'static str) -> (r: BromInfo)
        ensures
            r.brom_version_view() == version@,
    {
        BromInfo { version }
    }
}

impl BromProvider for BromInfo {
    closed spec fn brom_version_view(&self) -> Seq<char> {
        self.version@
    }

    fn get_brom_version(&self) -> (r: &'static str) {
        self.version
    }
}

} // verus!
