//! The registers of the synthetic interrupt controller: their layouts, the
//! MSRs and register names they are reached by, and the errors of an access.

use vstd::prelude::*;

verus! {

/// The number of synthetic interrupt sources of a virtual processor.
pub const NUM_SINTS: usize = 16;

/// The number of synthetic timers of a virtual processor.
pub const NUM_TIMERS: usize = 4;

/// The source through which intercepts are delivered.
pub const HV_SYNIC_INTERCEPTION_SINT_INDEX: u8 = 0;

pub const HV_X64_MSR_SCONTROL: u32 = 0x4000_0080;

pub const HV_X64_MSR_SVERSION: u32 = 0x4000_0081;

pub const HV_X64_MSR_SIEFP: u32 = 0x4000_0082;

pub const HV_X64_MSR_SIMP: u32 = 0x4000_0083;

pub const HV_X64_MSR_EOM: u32 = 0x4000_0084;

pub const HV_X64_MSR_SINT0: u32 = 0x4000_0090;

pub const HV_X64_MSR_SINT15: u32 = 0x4000_009f;

pub const HV_X64_MSR_STIMER0_CONFIG: u32 = 0x4000_00b0;

pub const HV_X64_MSR_STIMER3_COUNT: u32 = 0x4000_00b7;

pub const HV_REGISTER_SINT0: u32 = 0x000a_0000;

pub const HV_REGISTER_SINT15: u32 = 0x000a_000f;

pub const HV_REGISTER_SCONTROL: u32 = 0x000a_0010;

pub const HV_REGISTER_SVERSION: u32 = 0x000a_0011;

pub const HV_REGISTER_SIFP: u32 = 0x000a_0012;

pub const HV_REGISTER_SIPP: u32 = 0x000a_0013;

pub const HV_REGISTER_EOM: u32 = 0x000a_0014;

pub const HV_REGISTER_STIMER0_CONFIG: u32 = 0x000b_0000;

pub const HV_REGISTER_STIMER3_COUNT: u32 = 0x000b_0007;

pub const HV_REGISTER_VSM_VINA: u32 = 0x000d_0005;

/// Why an MSR access failed.
#[derive(Clone, Copy, Debug, PartialEq, Eq, Structural)]
pub enum MsrError {
    /// The MSR is not one of the controller's.
    Unknown,
    /// The MSR does not take this access, or not this value.
    InvalidAccess,
}

/// Why a hypercall-level operation failed.
#[derive(Clone, Copy, Debug, PartialEq, Eq, Structural)]
pub enum HvError {
    InvalidParameter,
    InvalidSynicState,
    ObjectInUse,
    UnknownRegisterName,
}

/// The index of a virtual processor in its partition.
#[derive(Clone, Copy, Debug, PartialEq, Eq, Structural)]
pub struct VpIndex {
    pub number: u32,
}

impl VpIndex {
    pub fn new(number: u32) -> (vp: Self)
        ensures
            vp.number == number,
    {
        VpIndex { number }
    }

    pub fn index(self) -> (number: u32)
        ensures
            number == self.number,
    {
        self.number
    }
}

/// The name of a virtual processor register.
#[derive(Clone, Copy, Debug, PartialEq, Eq, Structural)]
pub struct HvRegisterName {
    pub number: u32,
}

/// The value of a virtual processor register, wide enough for any of them.
#[derive(Clone, Copy, Debug, PartialEq, Eq, Structural)]
pub struct HvRegisterValue {
    pub bits: u128,
}

impl HvRegisterValue {
    /// The low half of the value.
    #[verifier::allow_in_spec]
    pub fn as_u64(self) -> u64
        returns
            (self.bits & 0xffff_ffff_ffff_ffff) as u64,
    {
        (self.bits & 0xffff_ffff_ffff_ffff) as u64
    }

    /// The value whose low half is `v` and whose high half is zero.
    pub fn from_u64(v: u64) -> (value: Self)
        ensures
            value.bits == v,
            value.as_u64() == v,
    {
        assert(((v as u128) & 0xffff_ffff_ffff_ffff) as u64 == v) by (bit_vector);
        HvRegisterValue { bits: v as u128 }
    }
}

/// `SIMP` and `SIEFP`: where the message page and the event flags page lie.
#[derive(Clone, Copy, Debug, PartialEq, Eq, Structural)]
pub struct HvSynicSimpSiefp {
    pub bits: u64,
}

impl HvSynicSimpSiefp {
    #[verifier::allow_in_spec]
    pub fn enabled(self) -> bool
        returns
            self.bits & 1 != 0,
    {
        self.bits & 1 != 0
    }

    /// The guest page number of the page.
    #[verifier::allow_in_spec]
    pub fn base_gpn(self) -> u64
        returns
            self.bits >> 12,
    {
        self.bits >> 12
    }
}

/// `SCONTROL`: the switch of the whole controller.
#[derive(Clone, Copy, Debug, PartialEq, Eq, Structural)]
pub struct HvSynicScontrol {
    pub bits: u64,
}

impl HvSynicScontrol {
    #[verifier::allow_in_spec]
    pub fn enabled(self) -> bool
        returns
            self.bits & 1 != 0,
    {
        self.bits & 1 != 0
    }
}

/// `SINTx`: how one interrupt source is delivered.
#[derive(Clone, Copy, Debug, PartialEq, Eq, Structural)]
pub struct HvSynicSint {
    pub bits: u64,
}

impl HvSynicSint {
    /// The interrupt vector that the source raises.
    #[verifier::allow_in_spec]
    pub fn vector(self) -> u8
        returns
            (self.bits & 0xff) as u8,
    {
        (self.bits & 0xff) as u8
    }

    /// Nothing is delivered through a masked source.
    #[verifier::allow_in_spec]
    pub fn masked(self) -> bool
        returns
            self.bits & 0x1_0000 != 0,
    {
        self.bits & 0x1_0000 != 0
    }

    #[verifier::allow_in_spec]
    pub fn auto_eoi(self) -> bool
        returns
            self.bits & 0x2_0000 != 0,
    {
        self.bits & 0x2_0000 != 0
    }

    /// The guest polls the source: no interrupt is raised for it.
    #[verifier::allow_in_spec]
    pub fn polling(self) -> bool
        returns
            self.bits & 0x4_0000 != 0,
    {
        self.bits & 0x4_0000 != 0
    }

    /// The source is served by the host.
    #[verifier::allow_in_spec]
    pub fn proxy(self) -> bool
        returns
            self.bits & 0x10_0000 != 0,
    {
        self.bits & 0x10_0000 != 0
    }
}

/// `STIMERx_CONFIG`: how one synthetic timer runs and delivers.
#[derive(Clone, Copy, Debug, PartialEq, Eq, Structural)]
pub struct HvSynicStimerConfig {
    pub bits: u64,
}

impl HvSynicStimerConfig {
    #[verifier::allow_in_spec]
    pub fn enabled(self) -> bool
        returns
            self.bits & 1 != 0,
    {
        self.bits & 1 != 0
    }

    #[verifier::allow_in_spec]
    pub fn periodic(self) -> bool
        returns
            self.bits & 2 != 0,
    {
        self.bits & 2 != 0
    }

    /// A write of a nonzero count enables the timer.
    #[verifier::allow_in_spec]
    pub fn auto_enable(self) -> bool
        returns
            self.bits & 8 != 0,
    {
        self.bits & 8 != 0
    }

    /// The interrupt vector raised in direct mode.
    #[verifier::allow_in_spec]
    pub fn apic_vector(self) -> u8
        returns
            ((self.bits >> 4) & 0xff) as u8,
    {
        ((self.bits >> 4) & 0xff) as u8
    }

    /// The timer raises its own vector in place of posting a message.
    #[verifier::allow_in_spec]
    pub fn direct_mode(self) -> bool
        returns
            self.bits & 0x1000 != 0,
    {
        self.bits & 0x1000 != 0
    }

    /// The source to which the timer posts its messages.
    #[verifier::allow_in_spec]
    pub fn sint(self) -> u8
        returns
            ((self.bits >> 16) & 0xf) as u8,
    {
        ((self.bits >> 16) & 0xf) as u8
    }

    /// The same configuration with the enable bit as given.
    #[verifier::allow_in_spec]
    pub fn with_enabled(self, enabled: bool) -> Self
        returns
            (HvSynicStimerConfig {
                bits: if enabled {
                    self.bits | 1
                } else {
                    self.bits & !1u64
                },
            }),
    {
        let bits: u64 = if enabled {
            self.bits | 1
        } else {
            self.bits & !1u64
        };
        HvSynicStimerConfig { bits }
    }
}

/// `VSM_VINA`: how a higher virtual trust level is told of interrupts.
#[derive(Clone, Copy, Debug, PartialEq, Eq, Structural)]
pub struct HvRegisterVsmVina {
    pub bits: u64,
}

impl HvRegisterVsmVina {
    /// The bits that have no meaning yet.
    #[verifier::allow_in_spec]
    pub fn reserved(self) -> u64
        returns
            self.bits >> 11,
    {
        self.bits >> 11
    }
}

/// A timer's source is one of the sixteen.
pub proof fn lemma_timer_sint_in_range(config: HvSynicStimerConfig)
    ensures
        config.sint() < NUM_SINTS,
{
    let bits = config.bits;
    assert((((bits >> 16) & 0xf) as u8) < 16) by (bit_vector);
}

/// The enable bit reads back as it was set, and no other bit moves with it.
pub proof fn lemma_with_enabled(config: HvSynicStimerConfig, enabled: bool)
    ensures
        config.with_enabled(enabled).enabled() == enabled,
        config.with_enabled(enabled).periodic() == config.periodic(),
        config.with_enabled(enabled).auto_enable() == config.auto_enable(),
        config.with_enabled(enabled).direct_mode() == config.direct_mode(),
        config.with_enabled(enabled).apic_vector() == config.apic_vector(),
        config.with_enabled(enabled).sint() == config.sint(),
{
    let bits = config.bits;
    let changed = config.with_enabled(enabled).bits;
    assert(changed & 1 == (if enabled { 1u64 } else { 0u64 }) && changed >> 1 == bits >> 1) by (
        bit_vector)
        requires
            changed == (if enabled { bits | 1 } else { bits & !1u64 }),
    ;
    assert(changed & 2 == bits & 2 && changed & 8 == bits & 8 && changed & 0x1000 == bits & 0x1000
        && changed >> 4 == bits >> 4 && changed >> 16 == bits >> 16) by (bit_vector)
        requires
            changed >> 1 == bits >> 1,
    ;
}

/// The source `sint` is in the set that `mask` stands for.
pub open spec fn has_sint(mask: u16, sint: u8) -> bool {
    mask & (1u16 << sint) != 0
}

/// How membership follows the operations on masks.
pub proof fn lemma_has_sint(a: u16, b: u16, sint: u8, other: u8)
    requires
        sint < NUM_SINTS,
        other < NUM_SINTS,
    ensures
        !has_sint(0, sint),
        has_sint(a & b, sint) == (has_sint(a, sint) && has_sint(b, sint)),
        has_sint(a & !b, sint) == (has_sint(a, sint) && !has_sint(b, sint)),
        has_sint(a | (1u16 << other), sint) == (has_sint(a, sint) || sint == other),
        has_sint(a & !(1u16 << other), sint) == (has_sint(a, sint) && sint != other),
{
    assert(0u16 & (1u16 << sint) == 0) by (bit_vector);
    assert(((a & b) & (1u16 << sint) != 0) == ((a & (1u16 << sint) != 0) && (b & (1u16 << sint)
        != 0))) by (bit_vector)
        requires
            sint < 16,
    ;
    assert(((a & !b) & (1u16 << sint) != 0) == ((a & (1u16 << sint) != 0) && (b & (1u16 << sint)
        == 0))) by (bit_vector)
        requires
            sint < 16,
    ;
    assert(((a | (1u16 << other)) & (1u16 << sint) != 0) == ((a & (1u16 << sint) != 0) || sint
        == other)) by (bit_vector)
        requires
            sint < 16,
            other < 16,
    ;
    assert(((a & !(1u16 << other)) & (1u16 << sint) != 0) == ((a & (1u16 << sint) != 0) && sint
        != other)) by (bit_vector)
        requires
            sint < 16,
            other < 16,
    ;
}

/// A mask without a source is empty.
pub proof fn lemma_empty_mask(mask: u16)
    requires
        forall|sint: u8| sint < NUM_SINTS ==> !#[trigger] has_sint(mask, sint),
    ensures
        mask == 0,
{
    assert(!has_sint(mask, 0)
        && !has_sint(mask, 1)
        && !has_sint(mask, 2)
        && !has_sint(mask, 3)
        && !has_sint(mask, 4)
        && !has_sint(mask, 5)
        && !has_sint(mask, 6)
        && !has_sint(mask, 7)
        && !has_sint(mask, 8)
        && !has_sint(mask, 9)
        && !has_sint(mask, 10)
        && !has_sint(mask, 11)
        && !has_sint(mask, 12)
        && !has_sint(mask, 13)
        && !has_sint(mask, 14)
        && !has_sint(mask, 15));
    assert(mask == 0) by (bit_vector)
        requires
            mask & (1u16 << 0u8) == 0,
            mask & (1u16 << 1u8) == 0,
            mask & (1u16 << 2u8) == 0,
            mask & (1u16 << 3u8) == 0,
            mask & (1u16 << 4u8) == 0,
            mask & (1u16 << 5u8) == 0,
            mask & (1u16 << 6u8) == 0,
            mask & (1u16 << 7u8) == 0,
            mask & (1u16 << 8u8) == 0,
            mask & (1u16 << 9u8) == 0,
            mask & (1u16 << 10u8) == 0,
            mask & (1u16 << 11u8) == 0,
            mask & (1u16 << 12u8) == 0,
            mask & (1u16 << 13u8) == 0,
            mask & (1u16 << 14u8) == 0,
            mask & (1u16 << 15u8) == 0,
    ;
}

} // verus!
