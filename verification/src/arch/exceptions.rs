//! Exception handling decisions: which exception came, what the
//! syndrome register says, where an interrupt goes, and how a failed
//! hardware probe is recovered. Reading system registers and printing are
//! the caller's.
use vstd::prelude::*;

verus! {

/// Size of an instruction; a recovered probe resumes after the faulting
/// one.
pub const ARM_INSTRUCTION_SIZE: u64 = 4;

/// Exception class of a data abort taken at the same exception level.
pub const EC_DATA_ABORT_SAME_EL: u32 = 0x25;

/// Registers saved on exception entry, in the order the entry code
/// stores them.
#[derive(Debug, Clone, Copy, PartialEq, Eq, Structural)]
pub struct ExceptionContext {
    pub elr_el1: u64,
    pub x30: u64,
    pub spsr_el1: u64,
    pub x28: u64,
    pub x29: u64,
    pub x26: u64,
    pub x27: u64,
    pub x24: u64,
    pub x25: u64,
    pub x22: u64,
    pub x23: u64,
    pub x20: u64,
    pub x21: u64,
    pub x18: u64,
    pub x19: u64,
    pub x16: u64,
    pub x17: u64,
    pub x14: u64,
    pub x15: u64,
    pub x12: u64,
    pub x13: u64,
    pub x10: u64,
    pub x11: u64,
    pub x8: u64,
    pub x9: u64,
    pub x6: u64,
    pub x7: u64,
    pub x4: u64,
    pub x5: u64,
    pub x2: u64,
    pub x3: u64,
    pub x0: u64,
    pub x1: u64,
}

/// The kind of exception, as the vector entry reports it.
#[derive(Debug, Clone, Copy, PartialEq, Eq, Structural)]
pub enum ExceptionType {
    Synchronous,
    Irq,
    Fiq,
    SError,
}

impl ExceptionType {
    /// The kind reported as `value`: 0 synchronous, 1 IRQ, 2 FIQ, 3
    /// SError; anything else is taken as synchronous.
    pub fn from_u64(value: u64) -> (t: Self)
        ensures
            t == (if value == 1 { ExceptionType::Irq } else if value == 2 { ExceptionType::Fiq } else if value == 3 { ExceptionType::SError } else { ExceptionType::Synchronous }),
    {
        match value {
            0 => ExceptionType::Synchronous,
            1 => ExceptionType::Irq,
            2 => ExceptionType::Fiq,
            3 => ExceptionType::SError,
            _ => ExceptionType::Synchronous,
        }
    }
}

/// The exception syndrome: exception class and instruction-specific
/// syndrome.
#[derive(Debug, Clone, Copy, PartialEq, Eq, Structural)]
pub struct ExceptionSyndrome {
    pub ec: u32,
    pub iss: u32,
}

/// The name of an exception class.
pub open spec fn spec_exception_class_str(ec: u32) -> &'static str {
    match ec {
        0x00 => "Unknown reason",
        0x01 => "Trapped WFI/WFE",
        0x03 => "Trapped MCR/MRC (CP15)",
        0x04 => "Trapped MCRR/MRRC (CP15)",
        0x05 => "Trapped MCR/MRC (CP14)",
        0x06 => "Trapped LDC/STC",
        0x07 => "Trapped FP/SIMD",
        0x0C => "Trapped MRRC (CP14)",
        0x0E => "Illegal Execution State",
        0x11 => "SVC instruction (AArch32)",
        0x12 => "HVC instruction (AArch32)",
        0x13 => "SMC instruction (AArch32)",
        0x15 => "SVC instruction (AArch64)",
        0x16 => "HVC instruction (AArch64)",
        0x17 => "SMC instruction (AArch64)",
        0x18 => "Trapped MSR/MRS/System instruction",
        0x1F => "Implementation defined (EL3)",
        0x20 => "Instruction Abort (lower EL)",
        0x21 => "Instruction Abort (same EL)",
        0x22 => "PC alignment fault",
        0x24 => "Data Abort (lower EL)",
        0x25 => "Data Abort (same EL)",
        0x26 => "SP alignment fault",
        0x28 => "Trapped FP (AArch32)",
        0x2C => "Trapped FP (AArch64)",
        0x2F => "SError",
        0x30 => "Breakpoint (lower EL)",
        0x31 => "Breakpoint (same EL)",
        0x32 => "Software Step (lower EL)",
        0x33 => "Software Step (same EL)",
        0x34 => "Watchpoint (lower EL)",
        0x35 => "Watchpoint (same EL)",
        0x38 => "BKPT instruction (AArch32)",
        0x3A => "Vector Catch (AArch32)",
        0x3C => "BRK instruction (AArch64)",
        _ => "Reserved/Unknown",
    }
}

impl ExceptionSyndrome {
    /// Decode an ESR value: class in bits 31..26, syndrome in bits 24..0.
    pub fn from_esr(esr: u64) -> (s: Self)
        ensures
            s.ec == (esr >> 26u64) & 0x3F,
            s.iss == esr & 0x1FF_FFFF,
    {
        let ec = (esr >> 26) & 0x3F;
        let iss = esr & 0x1FF_FFFF;
        assert((esr >> 26u64) & 0x3F <= 0x3F) by (bit_vector);
        assert(esr & 0x1FF_FFFF <= 0x1FF_FFFF) by (bit_vector);
        ExceptionSyndrome { ec: ec as u32, iss: iss as u32 }
    }

    /// The name of the exception class.
    pub fn exception_class_str(&self) -> (s: &'static str)
        ensures
            s == spec_exception_class_str(self.ec),
    {
        match self.ec {
            0x00 => "Unknown reason",
            0x01 => "Trapped WFI/WFE",
            0x03 => "Trapped MCR/MRC (CP15)",
            0x04 => "Trapped MCRR/MRRC (CP15)",
            0x05 => "Trapped MCR/MRC (CP14)",
            0x06 => "Trapped LDC/STC",
            0x07 => "Trapped FP/SIMD",
            0x0C => "Trapped MRRC (CP14)",
            0x0E => "Illegal Execution State",
            0x11 => "SVC instruction (AArch32)",
            0x12 => "HVC instruction (AArch32)",
            0x13 => "SMC instruction (AArch32)",
            0x15 => "SVC instruction (AArch64)",
            0x16 => "HVC instruction (AArch64)",
            0x17 => "SMC instruction (AArch64)",
            0x18 => "Trapped MSR/MRS/System instruction",
            0x1F => "Implementation defined (EL3)",
            0x20 => "Instruction Abort (lower EL)",
            0x21 => "Instruction Abort (same EL)",
            0x22 => "PC alignment fault",
            0x24 => "Data Abort (lower EL)",
            0x25 => "Data Abort (same EL)",
            0x26 => "SP alignment fault",
            0x28 => "Trapped FP (AArch32)",
            0x2C => "Trapped FP (AArch64)",
            0x2F => "SError",
            0x30 => "Breakpoint (lower EL)",
            0x31 => "Breakpoint (same EL)",
            0x32 => "Software Step (lower EL)",
            0x33 => "Software Step (same EL)",
            0x34 => "Watchpoint (lower EL)",
            0x35 => "Watchpoint (same EL)",
            0x38 => "BKPT instruction (AArch32)",
            0x3A => "Vector Catch (AArch32)",
            0x3C => "BRK instruction (AArch64)",
            _ => "Reserved/Unknown",
        }
    }
}

/// The exception level in a CurrentEL value (bits 3..2).
pub fn current_el(current_el_reg: u64) -> (el: u8)
    ensures
        el == (current_el_reg >> 2u64) & 3,
{
    assert((current_el_reg >> 2u64) & 3 <= 3) by (bit_vector);
    ((current_el_reg >> 2) & 3) as u8
}

/// Where an acknowledged interrupt goes.
#[derive(Debug, Clone, Copy, PartialEq, Eq, Structural)]
pub enum IrqRoute {
    /// No interrupt was pending; no end-of-interrupt is signalled.
    Spurious,
    /// The UART's receive handler.
    Uart,
    /// The Ethernet controller's handler.
    Genet,
    /// An interrupt nobody handles.
    Unknown,
}

/// Route an acknowledged interrupt ID.
pub fn route_irq(int_id: u32) -> (r: IrqRoute)
    ensures
        r == (if int_id == crate::drivers::gic::SPURIOUS_INTERRUPT { IrqRoute::Spurious }
            else if int_id == crate::drivers::gic::IRQ_UART0 { IrqRoute::Uart }
            else if int_id == crate::drivers::gic::IRQ_GENET_0 || int_id == crate::drivers::gic::IRQ_GENET_1 { IrqRoute::Genet }
            else { IrqRoute::Unknown }),
{
    if int_id == crate::drivers::gic::SPURIOUS_INTERRUPT {
        IrqRoute::Spurious
    } else if int_id == crate::drivers::gic::IRQ_UART0 {
        IrqRoute::Uart
    } else if int_id == crate::drivers::gic::IRQ_GENET_0 || int_id == crate::drivers::gic::IRQ_GENET_1 {
        IrqRoute::Genet
    } else {
        IrqRoute::Unknown
    }
}

/// What the handler for the current level does with an exception.
#[derive(Debug, Clone, Copy, PartialEq, Eq, Structural)]
pub enum ExceptionAction {
    /// Handle the interrupt and return.
    HandleIrq,
    /// A probe read faulted: end probing, skip the faulting instruction
    /// with result 0, and return.
    RecoverProbe,
    /// Report and halt.
    Fatal,
}

/// Decide on an exception taken at the current level, given whether a
/// hardware probe is under way and the ESR value: interrupts are handled;
/// a synchronous data abort at the same level during a probe is
/// recovered; anything else is fatal.
pub fn exception_action(exc_type: ExceptionType, probing: bool, esr: u64) -> (a: ExceptionAction)
    ensures
        exc_type == ExceptionType::Irq ==> a == ExceptionAction::HandleIrq,
        exc_type == ExceptionType::Synchronous && probing && (esr >> 26u64) & 0x3F == 0x25 ==> a == ExceptionAction::RecoverProbe,
        exc_type != ExceptionType::Irq && !(exc_type == ExceptionType::Synchronous && probing && (esr >> 26u64) & 0x3F == 0x25) ==> a == ExceptionAction::Fatal,
{
    match exc_type {
        ExceptionType::Irq => ExceptionAction::HandleIrq,
        ExceptionType::Synchronous => {
            if probing && (esr >> 26) & 0x3F == 0x25 {
                ExceptionAction::RecoverProbe
            } else {
                ExceptionAction::Fatal
            }
        },
        _ => ExceptionAction::Fatal,
    }
}

/// Recover from a faulted probe read: resume after the faulting
/// instruction with 0 as the value read.
pub fn recover_probe(ctx: &mut ExceptionContext)
    requires
        old(ctx).elr_el1 + ARM_INSTRUCTION_SIZE <= u64::MAX,
    ensures
        *final(ctx) == (ExceptionContext { elr_el1: (old(ctx).elr_el1 + 4) as u64, x0: 0u64, ..*old(ctx) }),
{
    ctx.elr_el1 = ctx.elr_el1 + ARM_INSTRUCTION_SIZE;
    ctx.x0 = 0;
}

} // verus!
