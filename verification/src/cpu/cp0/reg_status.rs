use crate::bits::{bit_set, extract, field, lemma_field_of_placed, test_bit};
use crate::error::CpuError;
use vstd::prelude::*;
use vstd::std_specs::convert::{FromSpecImpl, TryFromSpecImpl};

verus! {

/// CU0 to CU3, one usability bit per coprocessor, are bits 28 to 31.
pub const CU0_BIT: u32 = 28;

pub const CU1_BIT: u32 = 29;

pub const CU2_BIT: u32 = 30;

pub const CU3_BIT: u32 = 31;

/// RP, reduced power, is bit 27.
pub const RP_BIT: u32 = 27;

/// FR, the additional floating-point registers, is bit 26.
pub const FR_BIT: u32 = 26;

/// RE, reverse endian, is bit 25.
pub const RE_BIT: u32 = 25;

/// ITS, instruction trace support, is bit 24.
pub const ITS_BIT: u32 = 24;

/// BEV, the location of the exception vectors, is bit 23.
pub const BEV_BIT: u32 = 23;

/// TS, TLB shutdown, is bit 22.
pub const TS_BIT: u32 = 22;

/// SR, soft reset or non-maskable interrupt, is bit 21.
pub const SR_BIT: u32 = 21;

/// CH, the condition bit, is bit 19.
pub const CH_BIT: u32 = 19;

/// IM7, the timer interrupt, is bit 15.
pub const IM7_BIT: u32 = 15;

/// IM6 down to IM2, the external interrupts, are bits 14 down to 10.
pub const IM6_BIT: u32 = 14;

pub const IM5_BIT: u32 = 13;

pub const IM4_BIT: u32 = 12;

pub const IM3_BIT: u32 = 11;

pub const IM2_BIT: u32 = 10;

/// IM1 and IM0, the software interrupts, are bits 9 and 8.
pub const IM1_BIT: u32 = 9;

pub const IM0_BIT: u32 = 8;

/// KX, 64-bit addressing in kernel mode, is bit 6.
pub const KX_BIT: u32 = 6;

/// SX, 64-bit addressing in supervisor mode, is bit 5.
pub const SX_BIT: u32 = 5;

/// UX, 64-bit addressing in user mode, is bit 4, which KSU reads as well.
pub const UX_BIT: u32 = 4;

/// KSU, the privilege mode, occupies bits 4:3.
pub const KSU_SHIFT: u32 = 3;

/// KSU is two bits wide.
pub const KSU_MASK: u32 = 0b11;

pub const KSU_KERNEL: u32 = 0b00;

pub const KSU_SUPERVISOR: u32 = 0b01;

pub const KSU_USER: u32 = 0b10;

/// ERL, the error level, is bit 2.
pub const ERL_BIT: u32 = 2;

/// EXL, the exception level, is bit 1.
pub const EXL_BIT: u32 = 1;

/// IE, the global interrupt enable, is bit 0.
pub const IE_BIT: u32 = 0;

/// Where the TLB refill and general exception vectors lie.
#[derive(Clone, Copy, Debug, PartialEq, Eq, Structural)]
pub enum TLBGeneralExceptionVectorLocation {
    Normal,
    Bootstrap,
}

/// The privilege mode that the processor runs in.
#[derive(Clone, Copy, Debug, PartialEq, Eq, Structural)]
pub enum Mode {
    Kernel,
    Supervisor,
    User,
}

/// DS, the diagnostic part of the Status register.
#[derive(Clone, Copy, Debug, PartialEq, Eq, Structural)]
pub struct DiagnosticStatus {
    /// ITS
    pub instruction_trace_support: bool,
    /// BEV
    pub tlb_general_exception_vector_location: TLBGeneralExceptionVectorLocation,
    /// TS
    pub tlb_shutdown: bool,
    /// SR
    pub soft_reset_or_nmi_occurred: bool,
    /// CH
    pub condition_bit: bool,
}

/// IM, the interrupt mask of the Status register.
#[derive(Clone, Copy, Debug, PartialEq, Eq)]
pub struct InterruptMask {
    /// IM(7)
    pub timer_interrupt: bool,
    /// IM(6:2), lowest bit first
    pub external_interrupt_write_req: [bool; 5],
    /// IM(1:0), lowest bit first
    pub software_interrupts_cause_reg: [bool; 2],
}

/// The Status register, field by field.
#[derive(Clone, Copy, Debug, PartialEq, Eq)]
pub struct RegStatus {
    /// CU, indexed by the number of the coprocessor
    pub coprocessor_usability: [bool; 4],
    /// RP
    pub low_power: bool,
    /// FR
    pub additional_fp_regs: bool,
    /// RE
    pub reverse_endian: bool,
    /// DS
    pub diagnostic_status: DiagnosticStatus,
    /// IM
    pub interrupt_mask: InterruptMask,
    /// KX
    pub kernel_mode_64bit_addressing: bool,
    /// SX
    pub supervisor_mode_64bit_addressing: bool,
    /// UX
    pub user_mode_64bit_addressing: bool,
    /// KSU
    pub mode: Mode,
    /// ERL
    pub error_level: bool,
    /// EXL
    pub exception_level: bool,
    /// IE
    pub interrupts_enabled: bool,
}

impl TLBGeneralExceptionVectorLocation {
    /// The location that the BEV bit of a Status word selects.
    pub open spec fn decoded(data: u32) -> TLBGeneralExceptionVectorLocation {
        if bit_set(data, BEV_BIT) {
            TLBGeneralExceptionVectorLocation::Bootstrap
        } else {
            TLBGeneralExceptionVectorLocation::Normal
        }
    }
}

impl Default for TLBGeneralExceptionVectorLocation {
    fn default() -> (r: TLBGeneralExceptionVectorLocation)
        ensures
            r == TLBGeneralExceptionVectorLocation::Normal,
    {
        TLBGeneralExceptionVectorLocation::Normal
    }
}

impl FromSpecImpl<u32> for TLBGeneralExceptionVectorLocation {
    open spec fn obeys_from_spec() -> bool {
        true
    }

    open spec fn from_spec(data: u32) -> TLBGeneralExceptionVectorLocation {
        TLBGeneralExceptionVectorLocation::decoded(data)
    }
}

impl From<u32> for TLBGeneralExceptionVectorLocation {
    /// Reads the BEV bit of a Status word.
    fn from(data: u32) -> (r: TLBGeneralExceptionVectorLocation)
        ensures
            r == TLBGeneralExceptionVectorLocation::decoded(data),
    {
        if test_bit(data, BEV_BIT) {
            TLBGeneralExceptionVectorLocation::Bootstrap
        } else {
            TLBGeneralExceptionVectorLocation::Normal
        }
    }
}

impl Mode {
    /// The mode that the KSU field of a Status word selects. The fourth code
    /// of the field is reserved and rejected.
    pub open spec fn decoded(data: u32) -> Result<Mode, CpuError> {
        let code = field(data, KSU_SHIFT, KSU_MASK);
        if code == KSU_KERNEL {
            Ok(Mode::Kernel)
        } else if code == KSU_SUPERVISOR {
            Ok(Mode::Supervisor)
        } else if code == KSU_USER {
            Ok(Mode::User)
        } else {
            Err(CpuError::InvalidFieldValue)
        }
    }
}

impl Default for Mode {
    fn default() -> (r: Mode)
        ensures
            r == Mode::Kernel,
    {
        Mode::Kernel
    }
}

impl TryFromSpecImpl<u32> for Mode {
    open spec fn obeys_try_from_spec() -> bool {
        true
    }

    open spec fn try_from_spec(data: u32) -> Result<Mode, CpuError> {
        Mode::decoded(data)
    }
}

impl TryFrom<u32> for Mode {
    type Error = CpuError;

    /// Reads the KSU field of a Status word.
    fn try_from(data: u32) -> (r: Result<Mode, CpuError>)
        ensures
            r == Mode::decoded(data),
    {
        let code: u32 = extract(data, KSU_SHIFT, KSU_MASK);
        if code == KSU_KERNEL {
            Ok(Mode::Kernel)
        } else if code == KSU_SUPERVISOR {
            Ok(Mode::Supervisor)
        } else if code == KSU_USER {
            Ok(Mode::User)
        } else {
            Err(CpuError::InvalidFieldValue)
        }
    }
}

impl DiagnosticStatus {
    /// The diagnostic fields that a Status word holds.
    pub open spec fn decoded(data: u32) -> DiagnosticStatus {
        DiagnosticStatus {
            instruction_trace_support: bit_set(data, ITS_BIT),
            tlb_general_exception_vector_location: TLBGeneralExceptionVectorLocation::decoded(
                data,
            ),
            tlb_shutdown: bit_set(data, TS_BIT),
            soft_reset_or_nmi_occurred: bit_set(data, SR_BIT),
            condition_bit: bit_set(data, CH_BIT),
        }
    }

    /// The diagnostic fields with every flag clear.
    pub open spec fn initial() -> DiagnosticStatus {
        DiagnosticStatus {
            instruction_trace_support: false,
            tlb_general_exception_vector_location: TLBGeneralExceptionVectorLocation::Normal,
            tlb_shutdown: false,
            soft_reset_or_nmi_occurred: false,
            condition_bit: false,
        }
    }
}

impl Default for DiagnosticStatus {
    fn default() -> (r: DiagnosticStatus)
        ensures
            r == DiagnosticStatus::initial(),
    {
        DiagnosticStatus {
            instruction_trace_support: false,
            tlb_general_exception_vector_location: TLBGeneralExceptionVectorLocation::Normal,
            tlb_shutdown: false,
            soft_reset_or_nmi_occurred: false,
            condition_bit: false,
        }
    }
}

impl FromSpecImpl<u32> for DiagnosticStatus {
    open spec fn obeys_from_spec() -> bool {
        true
    }

    open spec fn from_spec(data: u32) -> DiagnosticStatus {
        DiagnosticStatus::decoded(data)
    }
}

impl From<u32> for DiagnosticStatus {
    /// Reads the diagnostic fields of a Status word.
    fn from(data: u32) -> (r: DiagnosticStatus)
        ensures
            r == DiagnosticStatus::decoded(data),
    {
        DiagnosticStatus {
            instruction_trace_support: test_bit(data, ITS_BIT),
            tlb_general_exception_vector_location: TLBGeneralExceptionVectorLocation::from(data),
            tlb_shutdown: test_bit(data, TS_BIT),
            soft_reset_or_nmi_occurred: test_bit(data, SR_BIT),
            condition_bit: test_bit(data, CH_BIT),
        }
    }
}

impl InterruptMask {
    /// The interrupt mask that a Status word holds.
    pub open spec fn decoded(data: u32) -> InterruptMask {
        InterruptMask {
            timer_interrupt: bit_set(data, IM7_BIT),
            external_interrupt_write_req: [
                bit_set(data, IM2_BIT),
                bit_set(data, IM3_BIT),
                bit_set(data, IM4_BIT),
                bit_set(data, IM5_BIT),
                bit_set(data, IM6_BIT),
            ],
            software_interrupts_cause_reg: [bit_set(data, IM0_BIT), bit_set(data, IM1_BIT)],
        }
    }

    /// The interrupt mask with every interrupt masked.
    pub open spec fn initial() -> InterruptMask {
        InterruptMask {
            timer_interrupt: false,
            external_interrupt_write_req: [false, false, false, false, false],
            software_interrupts_cause_reg: [false, false],
        }
    }
}

impl Default for InterruptMask {
    fn default() -> (r: InterruptMask)
        ensures
            r == InterruptMask::initial(),
    {
        InterruptMask {
            timer_interrupt: false,
            external_interrupt_write_req: [false, false, false, false, false],
            software_interrupts_cause_reg: [false, false],
        }
    }
}

impl FromSpecImpl<u32> for InterruptMask {
    open spec fn obeys_from_spec() -> bool {
        true
    }

    open spec fn from_spec(data: u32) -> InterruptMask {
        InterruptMask::decoded(data)
    }
}

impl From<u32> for InterruptMask {
    /// Reads the interrupt mask of a Status word.
    fn from(data: u32) -> (r: InterruptMask)
        ensures
            r == InterruptMask::decoded(data),
    {
        InterruptMask {
            timer_interrupt: test_bit(data, IM7_BIT),
            external_interrupt_write_req: [
                test_bit(data, IM2_BIT),
                test_bit(data, IM3_BIT),
                test_bit(data, IM4_BIT),
                test_bit(data, IM5_BIT),
                test_bit(data, IM6_BIT),
            ],
            software_interrupts_cause_reg: [test_bit(data, IM0_BIT), test_bit(data, IM1_BIT)],
        }
    }
}

impl RegStatus {
    /// The fields that a Status word holds. The word is rejected exactly
    /// when its KSU field is.
    pub open spec fn decoded(data: u32) -> Result<RegStatus, CpuError> {
        match Mode::decoded(data) {
            Ok(mode) => Ok(
                RegStatus {
                    coprocessor_usability: [
                        bit_set(data, CU0_BIT),
                        bit_set(data, CU1_BIT),
                        bit_set(data, CU2_BIT),
                        bit_set(data, CU3_BIT),
                    ],
                    low_power: bit_set(data, RP_BIT),
                    additional_fp_regs: bit_set(data, FR_BIT),
                    reverse_endian: bit_set(data, RE_BIT),
                    diagnostic_status: DiagnosticStatus::decoded(data),
                    interrupt_mask: InterruptMask::decoded(data),
                    kernel_mode_64bit_addressing: bit_set(data, KX_BIT),
                    supervisor_mode_64bit_addressing: bit_set(data, SX_BIT),
                    user_mode_64bit_addressing: bit_set(data, UX_BIT),
                    mode,
                    error_level: bit_set(data, ERL_BIT),
                    exception_level: bit_set(data, EXL_BIT),
                    interrupts_enabled: bit_set(data, IE_BIT),
                },
            ),
            Err(e) => Err(e),
        }
    }

    /// The register with every flag clear, in kernel mode.
    pub open spec fn initial() -> RegStatus {
        RegStatus {
            coprocessor_usability: [false, false, false, false],
            low_power: false,
            additional_fp_regs: false,
            reverse_endian: false,
            diagnostic_status: DiagnosticStatus::initial(),
            interrupt_mask: InterruptMask::initial(),
            kernel_mode_64bit_addressing: false,
            supervisor_mode_64bit_addressing: false,
            user_mode_64bit_addressing: false,
            mode: Mode::Kernel,
            error_level: false,
            exception_level: false,
            interrupts_enabled: false,
        }
    }
}

impl Default for RegStatus {
    fn default() -> (r: RegStatus)
        ensures
            r == RegStatus::initial(),
    {
        RegStatus {
            coprocessor_usability: [false, false, false, false],
            low_power: false,
            additional_fp_regs: false,
            reverse_endian: false,
            diagnostic_status: DiagnosticStatus::default(),
            interrupt_mask: InterruptMask::default(),
            kernel_mode_64bit_addressing: false,
            supervisor_mode_64bit_addressing: false,
            user_mode_64bit_addressing: false,
            mode: Mode::Kernel,
            error_level: false,
            exception_level: false,
            interrupts_enabled: false,
        }
    }
}

impl TryFromSpecImpl<u32> for RegStatus {
    open spec fn obeys_try_from_spec() -> bool {
        true
    }

    open spec fn try_from_spec(data: u32) -> Result<RegStatus, CpuError> {
        RegStatus::decoded(data)
    }
}

impl TryFrom<u32> for RegStatus {
    type Error = CpuError;

    /// Decodes a raw Status word.
    fn try_from(data: u32) -> (r: Result<RegStatus, CpuError>)
        ensures
            r == RegStatus::decoded(data),
    {
        match Mode::try_from(data) {
            Ok(mode) => Ok(
                RegStatus {
                    coprocessor_usability: [
                        test_bit(data, CU0_BIT),
                        test_bit(data, CU1_BIT),
                        test_bit(data, CU2_BIT),
                        test_bit(data, CU3_BIT),
                    ],
                    low_power: test_bit(data, RP_BIT),
                    additional_fp_regs: test_bit(data, FR_BIT),
                    reverse_endian: test_bit(data, RE_BIT),
                    diagnostic_status: DiagnosticStatus::from(data),
                    interrupt_mask: InterruptMask::from(data),
                    kernel_mode_64bit_addressing: test_bit(data, KX_BIT),
                    supervisor_mode_64bit_addressing: test_bit(data, SX_BIT),
                    user_mode_64bit_addressing: test_bit(data, UX_BIT),
                    mode,
                    error_level: test_bit(data, ERL_BIT),
                    exception_level: test_bit(data, EXL_BIT),
                    interrupts_enabled: test_bit(data, IE_BIT),
                },
            ),
            Err(e) => Err(e),
        }
    }
}

/// Of the four codes that the KSU field can hold, three select a mode and
/// the fourth makes the word undecodable, whatever its other bits are.
pub proof fn lemma_mode_by_code(rest: u32, code: u32)
    requires
        code <= KSU_MASK,
        rest & (KSU_MASK << KSU_SHIFT) == 0,
    ensures
        Mode::decoded(rest | (code << KSU_SHIFT)) == (if code == KSU_KERNEL {
            Ok::<Mode, CpuError>(Mode::Kernel)
        } else if code == KSU_SUPERVISOR {
            Ok(Mode::Supervisor)
        } else if code == KSU_USER {
            Ok(Mode::User)
        } else {
            Err(CpuError::InvalidFieldValue)
        }),
        RegStatus::decoded(rest | (code << KSU_SHIFT)) is Ok <==> code != KSU_MASK,
        RegStatus::decoded(rest | (code << KSU_SHIFT)) is Err ==> RegStatus::decoded(
            rest | (code << KSU_SHIFT),
        ) == Err::<RegStatus, CpuError>(CpuError::InvalidFieldValue),
{
    assert((KSU_MASK << KSU_SHIFT) >> KSU_SHIFT == KSU_MASK) by (bit_vector);
    assert(code & KSU_MASK == code) by (bit_vector)
        requires
            code <= KSU_MASK,
    ;
    lemma_field_of_placed(rest, KSU_SHIFT, KSU_MASK, code);
}

} // verus!
