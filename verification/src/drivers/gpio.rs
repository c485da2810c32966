//! BCM2711 GPIO: pin function selection, pull resistors and digital I/O.
//! Each operation says which register access it needs.
use vstd::prelude::*;
use super::mmio::{RegOp, RegTest};

verus! {

/// Physical base address of the GPIO block.
pub const GPIO_BASE: u64 = 0xFE20_0000;

/// Number of GPIO pins (0..=57).
pub const NUM_GPIOS: u32 = 58;

/// Offset of the first function-select register (10 pins each, 3 bits
/// per pin).
pub const GPFSEL0: u64 = 0x00;

/// Offset of the first output-set register (32 pins each).
pub const GPSET0: u64 = 0x1C;

/// Offset of the first output-clear register (32 pins each).
pub const GPCLR0: u64 = 0x28;

/// Offset of the first pin-level register (32 pins each).
pub const GPLEV0: u64 = 0x34;

/// Offset of the first pull-up/down control register (16 pins each, 2
/// bits per pin).
pub const GPIO_PUP_PDN_CNTRL_REG0: u64 = 0xE4;

/// Pin function.
#[derive(Debug, Clone, Copy, PartialEq, Eq, Structural)]
pub enum Function {
    Input,
    Output,
    Alt0,
    Alt1,
    Alt2,
    Alt3,
    Alt4,
    Alt5,
}

/// The 3-bit function-select code of a function.
pub open spec fn spec_function_bits(f: Function) -> u32 {
    match f {
        Function::Input => 0b000,
        Function::Output => 0b001,
        Function::Alt0 => 0b100,
        Function::Alt1 => 0b101,
        Function::Alt2 => 0b110,
        Function::Alt3 => 0b111,
        Function::Alt4 => 0b011,
        Function::Alt5 => 0b010,
    }
}

impl Function {
    /// The 3-bit function-select code.
    pub fn bits(&self) -> (b: u32)
        ensures
            b == spec_function_bits(*self),
            b < 8,
    {
        match self {
            Function::Input => 0b000,
            Function::Output => 0b001,
            Function::Alt0 => 0b100,
            Function::Alt1 => 0b101,
            Function::Alt2 => 0b110,
            Function::Alt3 => 0b111,
            Function::Alt4 => 0b011,
            Function::Alt5 => 0b010,
        }
    }
}

/// Pull resistor setting.
#[derive(Debug, Clone, Copy, PartialEq, Eq, Structural)]
pub enum Pull {
    /// No pull resistor.
    NoPull,
    Up,
    Down,
}

/// The 2-bit pull code of a setting.
pub open spec fn spec_pull_bits(p: Pull) -> u32 {
    match p {
        Pull::NoPull => 0b00,
        Pull::Up => 0b01,
        Pull::Down => 0b10,
    }
}

/// The pull codes are those of the BCM2711 GPIO_PUP_PDN_CNTRL registers
/// (none 0b00, pull-up 0b01, pull-down 0b10), so different pulls get
/// different codes; and the function codes are the GPFSEL codes (input
/// 0b000, output 0b001, alt0..alt3 0b100..0b111, alt4 0b011, alt5
/// 0b010), different for different functions.
pub proof fn lemma_hardware_codes(p: Pull, q: Pull, f: Function, g: Function)
    ensures
        spec_pull_bits(Pull::NoPull) == 0,
        spec_pull_bits(Pull::Up) == 1,
        spec_pull_bits(Pull::Down) == 2,
        spec_pull_bits(p) == spec_pull_bits(q) ==> p == q,
        spec_function_bits(Function::Input) == 0,
        spec_function_bits(Function::Output) == 1,
        spec_function_bits(Function::Alt0) == 4,
        spec_function_bits(Function::Alt1) == 5,
        spec_function_bits(Function::Alt2) == 6,
        spec_function_bits(Function::Alt3) == 7,
        spec_function_bits(Function::Alt4) == 3,
        spec_function_bits(Function::Alt5) == 2,
        spec_function_bits(f) == spec_function_bits(g) ==> f == g,
{
}

impl Pull {
    /// The 2-bit pull code.
    pub fn bits(&self) -> (b: u32)
        ensures
            b == spec_pull_bits(*self),
            b < 4,
    {
        match self {
            Pull::NoPull => 0b00,
            Pull::Up => 0b01,
            Pull::Down => 0b10,
        }
    }
}

/// The GPIO controller.
pub struct Gpio {
    base: u64,
}

impl Gpio {
    /// Base address of the registers.
    pub closed spec fn spec_base(&self) -> u64 {
        self.base
    }

    /// The controller at `GPIO_BASE`.
    pub fn new() -> (g: Self)
        ensures
            g.spec_base() == GPIO_BASE,
    {
        Gpio { base: GPIO_BASE }
    }

    /// Select the function of `pin` (< 58): replace its 3 bits in
    /// function-select register `pin / 10`, at bit `(pin % 10) * 3`.
    pub fn set_function(&self, pin: u32, function: Function) -> (op: RegOp)
        requires
            self.spec_base() == GPIO_BASE,
            pin < NUM_GPIOS,
        ensures
            op == (RegOp::Modify {
                addr: (GPIO_BASE + GPFSEL0 + 4 * (pin / 10)) as u64,
                mask: 7u32 << ((pin % 10) * 3),
                value: spec_function_bits(function) << ((pin % 10) * 3),
            }),
    {
        let reg_index = (pin / 10) as u64;
        let bit_offset = (pin % 10) * 3;
        let mask = 0b111u32 << bit_offset;
        let value = function.bits() << bit_offset;
        RegOp::Modify { addr: self.base + GPFSEL0 + reg_index * 4, mask, value }
    }

    /// Set the pull resistor of `pin` (< 58): replace its 2 bits in pull
    /// control register `pin / 16`, at bit `(pin % 16) * 2`.
    pub fn set_pull(&self, pin: u32, pull: Pull) -> (op: RegOp)
        requires
            self.spec_base() == GPIO_BASE,
            pin < NUM_GPIOS,
        ensures
            op == (RegOp::Modify {
                addr: (GPIO_BASE + GPIO_PUP_PDN_CNTRL_REG0 + 4 * (pin / 16)) as u64,
                mask: 3u32 << ((pin % 16) * 2),
                value: spec_pull_bits(pull) << ((pin % 16) * 2),
            }),
    {
        let reg_index = (pin / 16) as u64;
        let bit_offset = (pin % 16) * 2;
        let mask = 0b11u32 << bit_offset;
        let value = pull.bits() << bit_offset;
        RegOp::Modify { addr: self.base + GPIO_PUP_PDN_CNTRL_REG0 + reg_index * 4, mask, value }
    }

    /// Drive output `pin` (< 58) high: write its bit to output-set
    /// register `pin / 32`.
    pub fn set(&self, pin: u32) -> (op: RegOp)
        requires
            self.spec_base() == GPIO_BASE,
            pin < NUM_GPIOS,
        ensures
            op == (RegOp::Write32 { addr: (GPIO_BASE + GPSET0 + 4 * (pin / 32)) as u64, value: 1u32 << (pin % 32) }),
    {
        let reg_index = (pin / 32) as u64;
        RegOp::Write32 { addr: self.base + GPSET0 + reg_index * 4, value: 1u32 << (pin % 32) }
    }

    /// Drive output `pin` (< 58) low: write its bit to output-clear
    /// register `pin / 32`.
    pub fn clear(&self, pin: u32) -> (op: RegOp)
        requires
            self.spec_base() == GPIO_BASE,
            pin < NUM_GPIOS,
        ensures
            op == (RegOp::Write32 { addr: (GPIO_BASE + GPCLR0 + 4 * (pin / 32)) as u64, value: 1u32 << (pin % 32) }),
    {
        let reg_index = (pin / 32) as u64;
        RegOp::Write32 { addr: self.base + GPCLR0 + reg_index * 4, value: 1u32 << (pin % 32) }
    }

    /// Read the level of `pin` (< 58): its bit in pin-level register
    /// `pin / 32`.
    pub fn read(&self, pin: u32) -> (t: RegTest)
        requires
            self.spec_base() == GPIO_BASE,
            pin < NUM_GPIOS,
        ensures
            t == (RegTest { addr: (GPIO_BASE + GPLEV0 + 4 * (pin / 32)) as u64, mask: 1u32 << (pin % 32) }),
    {
        let reg_index = (pin / 32) as u64;
        RegTest { addr: self.base + GPLEV0 + reg_index * 4, mask: 1u32 << (pin % 32) }
    }

    /// Invert output `pin` (< 58) whose current level is `level`: clear
    /// it when high, set it when low.
    pub fn toggle(&self, pin: u32, level: bool) -> (op: RegOp)
        requires
            self.spec_base() == GPIO_BASE,
            pin < NUM_GPIOS,
        ensures
            level ==> op == (RegOp::Write32 { addr: (GPIO_BASE + GPCLR0 + 4 * (pin / 32)) as u64, value: 1u32 << (pin % 32) }),
            !level ==> op == (RegOp::Write32 { addr: (GPIO_BASE + GPSET0 + 4 * (pin / 32)) as u64, value: 1u32 << (pin % 32) }),
    {
        if level {
            self.clear(pin)
        } else {
            self.set(pin)
        }
    }

    /// Drive output `pin` (< 58) high (`value`) or low.
    pub fn write(&self, pin: u32, value: bool) -> (op: RegOp)
        requires
            self.spec_base() == GPIO_BASE,
            pin < NUM_GPIOS,
        ensures
            value ==> op == (RegOp::Write32 { addr: (GPIO_BASE + GPSET0 + 4 * (pin / 32)) as u64, value: 1u32 << (pin % 32) }),
            !value ==> op == (RegOp::Write32 { addr: (GPIO_BASE + GPCLR0 + 4 * (pin / 32)) as u64, value: 1u32 << (pin % 32) }),
    {
        if value {
            self.set(pin)
        } else {
            self.clear(pin)
        }
    }
}

impl Default for Gpio {
    fn default() -> (g: Self)
        ensures
            g.spec_base() == GPIO_BASE,
    {
        Gpio::new()
    }
}

/// Selecting a function writes its code into the pin's 3-bit field of
/// the function-select register and leaves every other bit as it was.
pub proof fn lemma_set_function_field(current: u32, pin: u32, function: Function)
    requires
        pin < NUM_GPIOS,
    ensures
        ({
            let shift = ((pin % 10) * 3) as u32;
            let r = super::mmio::spec_modified(current, 7u32 << shift, spec_function_bits(function) << shift);
            &&& (r >> shift) & 7u32 == spec_function_bits(function)
            &&& forall|j: u32| j < 32 && !(shift <= j < shift + 3) ==> #[trigger] super::mmio::bit_of(r, j) == super::mmio::bit_of(current, j)
        }),
{
    super::mmio::lemma_modify_field3(current, ((pin % 10) * 3) as u32, spec_function_bits(function));
}

/// Setting a pull writes its code into the pin's 2-bit field of the pull
/// control register and leaves every other bit as it was.
pub proof fn lemma_set_pull_field(current: u32, pin: u32, pull: Pull)
    requires
        pin < NUM_GPIOS,
    ensures
        ({
            let shift = ((pin % 16) * 2) as u32;
            let r = super::mmio::spec_modified(current, 3u32 << shift, spec_pull_bits(pull) << shift);
            &&& (r >> shift) & 3u32 == spec_pull_bits(pull)
            &&& forall|j: u32| j < 32 && !(shift <= j < shift + 2) ==> #[trigger] super::mmio::bit_of(r, j) == super::mmio::bit_of(current, j)
        }),
{
    super::mmio::lemma_modify_field2(current, ((pin % 16) * 2) as u32, spec_pull_bits(pull));
}

} // verus!
