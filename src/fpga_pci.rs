//! Interface to AWS FPGAs.
//!
//! This module gives typed forms of the arguments that the SDK's
//! `fpga_pci_attach` takes, their integer encodings, and the decision that
//! turns the status code and handle of an attach call into an `FpgaContext`
//! or an `Error`. The call itself is made by the host process.
use vstd::prelude::*;
use crate::errors::{is_sdk_code, Error, SdkError};

verus! {

/// Options for attaching to a BAR, as a set of bits.
///
/// Bit 0 asks for a burst-capable mapping; the other 31 bits are reserved
/// by the SDK.
#[derive(Clone, Copy, Debug, PartialEq, Eq, Structural)]
pub struct AttachFlags {
    bits: u32,
}

impl View for AttachFlags {
    type V = u32;

    closed spec fn view(&self) -> u32 {
        self.bits
    }
}

/// The bit that asks for a burst-capable mapping.
pub const BURST_CAPABLE_BIT: u32 = 0x1;

/// The bits that the SDK reserves.
pub const RESERVED_BITS: u32 = 0xfffffffe;

impl AttachFlags {
    /// No option set.
    pub fn empty() -> (r: AttachFlags)
        ensures
            r@ == 0,
    {
        AttachFlags { bits: 0 }
    }

    /// Only the burst-capable bit.
    pub fn burst_capable() -> (r: AttachFlags)
        ensures
            r@ == BURST_CAPABLE_BIT,
    {
        AttachFlags { bits: BURST_CAPABLE_BIT }
    }

    /// Only the reserved bits.
    pub fn reserved() -> (r: AttachFlags)
        ensures
            r@ == RESERVED_BITS,
    {
        AttachFlags { bits: RESERVED_BITS }
    }

    /// The raw bits, as `fpga_pci_attach` takes them.
    pub fn bits(&self) -> (r: u32)
        ensures
            r == self@,
    {
        self.bits
    }

    /// The flags set in either `self` or `other`.
    pub fn union(self, other: AttachFlags) -> (r: AttachFlags)
        ensures
            r@ == self@ | other@,
    {
        AttachFlags { bits: self.bits | other.bits }
    }

    /// Whether every flag of `other` is set in `self`.
    pub fn contains(&self, other: AttachFlags) -> (r: bool)
        ensures
            r == (self@ & other@ == other@),
    {
        self.bits & other.bits == other.bits
    }
}

/// Adding the burst-capable bit to any flags, on either side, keeps it set
/// and leaves every other bit as it was: from no flags it gives exactly bit
/// 0, and combined with the reserved bits it is not cleared.
pub proof fn lemma_burst_capable_composition(f: AttachFlags)
    ensures
        (BURST_CAPABLE_BIT | f@) & BURST_CAPABLE_BIT == BURST_CAPABLE_BIT,
        (f@ | BURST_CAPABLE_BIT) & BURST_CAPABLE_BIT == BURST_CAPABLE_BIT,
        (BURST_CAPABLE_BIT | f@) & RESERVED_BITS == f@ & RESERVED_BITS,
        (f@ | BURST_CAPABLE_BIT) & RESERVED_BITS == f@ & RESERVED_BITS,
        f@ == 0 ==> (BURST_CAPABLE_BIT | f@) == 1 && (f@ | BURST_CAPABLE_BIT) == 1,
{
    let x = f@;
    assert((1u32 | x) & 1u32 == 1u32) by (bit_vector);
    assert((x | 1u32) & 1u32 == 1u32) by (bit_vector);
    assert((1u32 | x) & 0xfffffffeu32 == x & 0xfffffffeu32) by (bit_vector);
    assert((x | 1u32) & 0xfffffffeu32 == x & 0xfffffffeu32) by (bit_vector);
    assert(x == 0u32 ==> (1u32 | x) == 1u32 && (x | 1u32) == 1u32) by (bit_vector);
}

/// Physical function definitions.
#[derive(Clone, Copy, Debug, PartialEq, Eq, Structural)]
pub enum PhysicalFunction {
    App,
    Management,
}

impl PhysicalFunction {
    /// The SDK's integer encoding of the physical function.
    pub open spec fn code_spec(self) -> u32 {
        match self {
            PhysicalFunction::App => 0,
            PhysicalFunction::Management => 1,
        }
    }

    /// The physical function that an encoding up to 1 stands for.
    pub open spec fn from_code_spec(c: u32) -> PhysicalFunction
        recommends
            c <= 1,
    {
        if c == 0 {
            PhysicalFunction::App
        } else {
            PhysicalFunction::Management
        }
    }

    /// Decodes the SDK's integer encoding of a physical function.
    pub fn from_code(c: u32) -> (r: PhysicalFunction)
        requires
            c <= 1,
        ensures
            r == PhysicalFunction::from_code_spec(c),
            r.code_spec() == c,
    {
        if c == 0 {
            PhysicalFunction::App
        } else {
            PhysicalFunction::Management
        }
    }
}

impl From<PhysicalFunction> for u32 {
    fn from(f: PhysicalFunction) -> (r: u32)
        ensures
            r == f.code_spec(),
    {
        match f {
            PhysicalFunction::App => 0,
            PhysicalFunction::Management => 1,
        }
    }
}

impl vstd::std_specs::convert::FromSpecImpl<PhysicalFunction> for u32 {
    open spec fn obeys_from_spec() -> bool {
        true
    }

    open spec fn from_spec(f: PhysicalFunction) -> u32 {
        f.code_spec()
    }
}

/// Encoding a physical function and decoding the result gives it back, and
/// the two encodings are the only ones.
pub proof fn lemma_physical_function_round_trip(f: PhysicalFunction, c: u32)
    ensures
        PhysicalFunction::from_code_spec(f.code_spec()) == f,
        f.code_spec() <= 1,
        c <= 1 ==> PhysicalFunction::from_code_spec(c).code_spec() == c,
{
}

/// Base Address Registers.
///
/// The application BARs go with `PhysicalFunction::App` and the management
/// BARs with `PhysicalFunction::Management`; the SDK encodes both kinds in
/// the same parameter, with overlapping values.
#[derive(Clone, Copy, Debug, PartialEq, Eq, Structural)]
pub enum BaseAddressRegister {
    AppBar0,
    AppBar1,
    AppBar4,
    ManagementBar0,
    ManagementBar2,
    ManagementBar4,
}

impl BaseAddressRegister {
    /// The SDK's integer encoding of the BAR: its number.
    pub open spec fn code_spec(self) -> u32 {
        match self {
            BaseAddressRegister::AppBar0 => 0,
            BaseAddressRegister::AppBar1 => 1,
            BaseAddressRegister::AppBar4 => 4,
            BaseAddressRegister::ManagementBar0 => 0,
            BaseAddressRegister::ManagementBar2 => 2,
            BaseAddressRegister::ManagementBar4 => 4,
        }
    }
}

impl From<BaseAddressRegister> for u32 {
    fn from(b: BaseAddressRegister) -> (r: u32)
        ensures
            r == b.code_spec(),
    {
        match b {
            BaseAddressRegister::AppBar0 => 0,
            BaseAddressRegister::AppBar1 => 1,
            BaseAddressRegister::AppBar4 => 4,
            BaseAddressRegister::ManagementBar0 => 0,
            BaseAddressRegister::ManagementBar2 => 2,
            BaseAddressRegister::ManagementBar4 => 4,
        }
    }
}

impl vstd::std_specs::convert::FromSpecImpl<BaseAddressRegister> for u32 {
    open spec fn obeys_from_spec() -> bool {
        true
    }

    open spec fn from_spec(b: BaseAddressRegister) -> u32 {
        b.code_spec()
    }
}

/// A logical slot: the index of an FPGA as the SDK numbers them.
pub struct Slot(i32);

impl View for Slot {
    type V = i32;

    closed spec fn view(&self) -> i32 {
        self.0
    }
}

impl From<i32> for Slot {
    fn from(id: i32) -> (r: Slot)
        ensures
            r@ == id,
    {
        Slot(id)
    }
}

impl vstd::std_specs::convert::FromSpecImpl<i32> for Slot {
    open spec fn obeys_from_spec() -> bool {
        true
    }

    closed spec fn from_spec(id: i32) -> Slot {
        Slot(id)
    }
}

/// The integer arguments of one call to the SDK's `fpga_pci_attach`.
#[derive(Clone, Copy, Debug, PartialEq, Eq, Structural)]
pub struct AttachRequest {
    pub slot: i32,
    pub physical_function: i32,
    pub bar: i32,
    pub flags: u32,
}

impl AttachRequest {
    /// Encodes the typed attach arguments as the SDK expects them.
    pub fn new(
        slot: Slot,
        pf: PhysicalFunction,
        bar: BaseAddressRegister,
        flags: AttachFlags,
    ) -> (r: AttachRequest)
        ensures
            r.slot == slot@,
            r.physical_function as int == pf.code_spec() as int,
            r.bar as int == bar.code_spec() as int,
            r.flags == flags@,
    {
        let pf_code: u32 = pf.into();
        let bar_code: u32 = bar.into();
        AttachRequest {
            slot: slot.0,
            physical_function: pf_code as i32,
            bar: bar_code as i32,
            flags: flags.bits(),
        }
    }
}

/// An FPGA context: the handle of a BAR that an attach call has mapped.
///
/// It is owned by whoever attached it and is never copied.
pub struct FpgaContext(i32);

impl View for FpgaContext {
    type V = i32;

    closed spec fn view(&self) -> i32 {
        self.0
    }
}

/// Whether a status code returned by `fpga_pci_attach` is one that the SDK
/// documents: success, or a documented failure.
pub open spec fn is_attach_status(status: i32) -> bool {
    status == 0 || is_sdk_code(status as int)
}

impl FpgaContext {
    /// Decides the outcome of an attach call from the status code that it
    /// returned and the handle that it wrote.
    ///
    /// Status 0 is success and the handle becomes the context; a documented
    /// failure code becomes `Error::AwsSdkError` with the matching error. Any
    /// other status is a defect of the SDK and is ruled out here: check it
    /// with `SdkError::try_from_code` first.
    pub fn from_attach_status(status: i32, handle: i32) -> (r: Result<FpgaContext, Error>)
        requires
            is_attach_status(status),
        ensures
            status == 0 ==> (r matches Ok(ctx) && ctx@ == handle),
            status != 0 ==> (r matches Err(Error::AwsSdkError(e)) && e.code_spec() as int
                == status as int),
    {
        if status == 0 {
            Ok(FpgaContext(handle))
        } else {
            Err(Error::from(SdkError::from_code(status as u32)))
        }
    }

    /// The SDK's handle of the attached BAR.
    pub fn handle(&self) -> (r: i32)
        ensures
            r == self@,
    {
        self.0
    }
}

} // verus!
