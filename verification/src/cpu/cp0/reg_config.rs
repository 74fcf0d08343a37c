use crate::bits::{bit_set, extract, field, lemma_field_of_placed, test_bit};
use crate::error::CpuError;
use vstd::prelude::*;
use vstd::std_specs::convert::{FromSpecImpl, TryFromSpecImpl};

verus! {

/// EP, the data transfer pattern, occupies bits 27:24.
pub const EP_SHIFT: u32 = 24;

/// EP is four bits wide.
pub const EP_MASK: u32 = 0xf;

/// The EP code of the normal pattern, one doubleword per cycle.
pub const EP_NORMAL: u32 = 0;

/// The EP code of the pattern with two idle cycles after each doubleword.
pub const EP_DXXDXX: u32 = 6;

/// BE, the endianness, is bit 15.
pub const BE_BIT: u32 = 15;

/// CU, reserved for future use, is bit 3.
pub const CU_BIT: u32 = 3;

/// K0, the coherency algorithm of kseg0, occupies bits 2:0.
pub const K0_SHIFT: u32 = 0;

/// K0 is three bits wide.
pub const K0_MASK: u32 = 0b111;

/// The one K0 code that turns the cache off for kseg0.
pub const K0_UNCACHED: u32 = 0b010;

/// How doublewords of a block are paced on the system bus.
#[derive(Clone, Copy, Debug, PartialEq, Eq, Structural)]
pub enum DataTransferPattern {
    /// One doubleword in each cycle.
    Normal,
    /// Two idle cycles after each doubleword.
    DxxDxx,
}

/// The byte order of memory accesses.
#[derive(Clone, Copy, Debug, PartialEq, Eq, Structural)]
pub enum Endianness {
    Little,
    Big,
}

/// The Config register, field by field.
#[derive(Clone, Copy, Debug, PartialEq, Eq, Structural)]
pub struct RegConfig {
    /// EP
    pub data_transfer_pattern: DataTransferPattern,
    /// BE
    pub endianness: Endianness,
    /// CU, reserved for future use
    pub cu: bool,
    /// K0: whether accesses through kseg0 go through the cache
    pub kseg0_cache_enabled: bool,
}

impl Default for DataTransferPattern {
    fn default() -> (r: DataTransferPattern)
        ensures
            r == DataTransferPattern::Normal,
    {
        DataTransferPattern::Normal
    }
}

impl DataTransferPattern {
    /// The pattern that the EP field of a Config word selects. Only two of
    /// the sixteen codes are defined; the others are rejected.
    pub open spec fn decoded(data: u32) -> Result<DataTransferPattern, CpuError> {
        let code = field(data, EP_SHIFT, EP_MASK);
        if code == EP_NORMAL {
            Ok(DataTransferPattern::Normal)
        } else if code == EP_DXXDXX {
            Ok(DataTransferPattern::DxxDxx)
        } else {
            Err(CpuError::InvalidFieldValue)
        }
    }
}

impl TryFromSpecImpl<u32> for DataTransferPattern {
    open spec fn obeys_try_from_spec() -> bool {
        true
    }

    open spec fn try_from_spec(data: u32) -> Result<DataTransferPattern, CpuError> {
        DataTransferPattern::decoded(data)
    }
}

impl TryFrom<u32> for DataTransferPattern {
    type Error = CpuError;

    /// Reads the EP field of a Config word.
    fn try_from(data: u32) -> (r: Result<DataTransferPattern, CpuError>)
        ensures
            r == DataTransferPattern::decoded(data),
    {
        let code: u32 = extract(data, EP_SHIFT, EP_MASK);
        if code == EP_NORMAL {
            Ok(DataTransferPattern::Normal)
        } else if code == EP_DXXDXX {
            Ok(DataTransferPattern::DxxDxx)
        } else {
            Err(CpuError::InvalidFieldValue)
        }
    }
}

impl Default for Endianness {
    fn default() -> (r: Endianness)
        ensures
            r == Endianness::Big,
    {
        Endianness::Big
    }
}

impl Endianness {
    /// The byte order that the BE bit of a Config word selects.
    pub open spec fn decoded(data: u32) -> Endianness {
        if bit_set(data, BE_BIT) {
            Endianness::Big
        } else {
            Endianness::Little
        }
    }
}

impl FromSpecImpl<u32> for Endianness {
    open spec fn obeys_from_spec() -> bool {
        true
    }

    open spec fn from_spec(data: u32) -> Endianness {
        Endianness::decoded(data)
    }
}

impl From<u32> for Endianness {
    /// Reads the BE bit of a Config word.
    fn from(data: u32) -> (r: Endianness)
        ensures
            r == Endianness::decoded(data),
    {
        if test_bit(data, BE_BIT) {
            Endianness::Big
        } else {
            Endianness::Little
        }
    }
}

impl Default for RegConfig {
    /// The register before anything was written to it: normal transfer
    /// pattern, big-endian, both flags clear.
    fn default() -> (r: RegConfig)
        ensures
            r.data_transfer_pattern == DataTransferPattern::Normal,
            r.endianness == Endianness::Big,
            !r.cu,
            !r.kseg0_cache_enabled,
    {
        RegConfig {
            data_transfer_pattern: DataTransferPattern::Normal,
            endianness: Endianness::Big,
            cu: false,
            kseg0_cache_enabled: false,
        }
    }
}

impl TryFromSpecImpl<u32> for RegConfig {
    open spec fn obeys_try_from_spec() -> bool {
        true
    }

    open spec fn try_from_spec(data: u32) -> Result<RegConfig, CpuError> {
        RegConfig::decoded(data)
    }
}

impl TryFrom<u32> for RegConfig {
    type Error = CpuError;

    /// Decodes a raw Config word.
    fn try_from(data: u32) -> (r: Result<RegConfig, CpuError>)
        ensures
            r == RegConfig::decoded(data),
    {
        match DataTransferPattern::try_from(data) {
            Ok(pattern) => Ok(
                RegConfig {
                    data_transfer_pattern: pattern,
                    endianness: Endianness::from(data),
                    cu: test_bit(data, CU_BIT),
                    kseg0_cache_enabled: extract(data, K0_SHIFT, K0_MASK) != K0_UNCACHED,
                },
            ),
            Err(e) => Err(e),
        }
    }
}

impl RegConfig {
    /// The fields that a Config word holds. The word is rejected exactly
    /// when its EP field is.
    pub open spec fn decoded(data: u32) -> Result<RegConfig, CpuError> {
        match DataTransferPattern::decoded(data) {
            Ok(pattern) => Ok(
                RegConfig {
                    data_transfer_pattern: pattern,
                    endianness: Endianness::decoded(data),
                    cu: bit_set(data, CU_BIT),
                    kseg0_cache_enabled: field(data, K0_SHIFT, K0_MASK) != K0_UNCACHED,
                },
            ),
            Err(e) => Err(e),
        }
    }

    /// What a power-on reset does to the register: the transfer pattern and
    /// the byte order are hard-wired, the other fields keep their values.
    pub fn power_on_reset(&mut self)
        ensures
            final(self).data_transfer_pattern == DataTransferPattern::Normal,
            final(self).endianness == Endianness::Big,
            final(self).cu == old(self).cu,
            final(self).kseg0_cache_enabled == old(self).kseg0_cache_enabled,
    {
        self.data_transfer_pattern = DataTransferPattern::Normal;
        self.endianness = Endianness::Big;
    }

    /// A write to the register after reset. Which bits such a write may
    /// change is not settled, so every write is refused with
    /// `NotImplemented` and the register stays as it was.
    pub fn write(&mut self, data: u32) -> (r: Result<(), CpuError>)
        ensures
            r == Err::<(), CpuError>(CpuError::NotImplemented),
            *final(self) == *old(self),
    {
        Err(CpuError::NotImplemented)
    }
}

/// Of the sixteen codes that the EP field can hold, two select a pattern and
/// the other fourteen make the word undecodable, whatever its other bits are.
pub proof fn lemma_pattern_by_code(rest: u32, code: u32)
    requires
        code <= EP_MASK,
        rest & (EP_MASK << EP_SHIFT) == 0,
    ensures
        DataTransferPattern::decoded(rest | (code << EP_SHIFT)) == (if code == EP_NORMAL {
            Ok::<DataTransferPattern, CpuError>(DataTransferPattern::Normal)
        } else if code == EP_DXXDXX {
            Ok(DataTransferPattern::DxxDxx)
        } else {
            Err(CpuError::InvalidFieldValue)
        }),
        RegConfig::decoded(rest | (code << EP_SHIFT)) is Ok <==> code == EP_NORMAL || code
            == EP_DXXDXX,
        RegConfig::decoded(rest | (code << EP_SHIFT)) is Err ==> RegConfig::decoded(
            rest | (code << EP_SHIFT),
        ) == Err::<RegConfig, CpuError>(CpuError::InvalidFieldValue),
{
    assert((EP_MASK << EP_SHIFT) >> EP_SHIFT == EP_MASK) by (bit_vector);
    assert(code & EP_MASK == code) by (bit_vector)
        requires
            code <= EP_MASK,
    ;
    lemma_field_of_placed(rest, EP_SHIFT, EP_MASK, code);
}

} // verus!
