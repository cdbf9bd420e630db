use vstd::prelude::*;

verus! {

/// The memory-mapped registers of the STM32F072 that the firmware programs
/// directly.
#[derive(Clone, Copy, Debug, PartialEq, Eq, Structural)]
pub enum Register {
    RccCr,
    RccCfgr,
    RccCir,
    RccApb2rstr,
    RccApb1rstr,
    RccAhbenr,
    RccApb2enr,
    RccApb1enr,
    RccBdcr,
    RccCsr,
    RccAhbrstr,
    RccCfgr2,
    RccCfgr3,
    RccCr2,
    Tim6Cr2,
    DacCr,
    DacDhr12r1,
    DacDhr12rd,
    Dma1Ccr3,
    Dma1Cndtr3,
    Dma1Cpar3,
    Dma1Cmar3,
}

/// Base address of the reset and clock control registers.
pub const RCC_BASE: u32 = 0x4002_1000;

/// Base address of basic timer 6.
pub const TIM6_BASE: u32 = 0x4000_1000;

/// Base address of the DAC.
pub const DAC_BASE: u32 = 0x4000_7400;

/// Base address of DMA controller 1.
pub const DMA1_BASE: u32 = 0x4002_0000;

/// Address of `r` in the STM32F0x2 memory map.
pub open spec fn register_address(r: Register) -> u32 {
    match r {
        Register::RccCr => (RCC_BASE + 0x00) as u32,
        Register::RccCfgr => (RCC_BASE + 0x04) as u32,
        Register::RccCir => (RCC_BASE + 0x08) as u32,
        Register::RccApb2rstr => (RCC_BASE + 0x0c) as u32,
        Register::RccApb1rstr => (RCC_BASE + 0x10) as u32,
        Register::RccAhbenr => (RCC_BASE + 0x14) as u32,
        Register::RccApb2enr => (RCC_BASE + 0x18) as u32,
        Register::RccApb1enr => (RCC_BASE + 0x1c) as u32,
        Register::RccBdcr => (RCC_BASE + 0x20) as u32,
        Register::RccCsr => (RCC_BASE + 0x24) as u32,
        Register::RccAhbrstr => (RCC_BASE + 0x28) as u32,
        Register::RccCfgr2 => (RCC_BASE + 0x2c) as u32,
        Register::RccCfgr3 => (RCC_BASE + 0x30) as u32,
        Register::RccCr2 => (RCC_BASE + 0x34) as u32,
        Register::Tim6Cr2 => (TIM6_BASE + 0x04) as u32,
        Register::DacCr => (DAC_BASE + 0x00) as u32,
        Register::DacDhr12r1 => (DAC_BASE + 0x08) as u32,
        Register::DacDhr12rd => (DAC_BASE + 0x20) as u32,
        Register::Dma1Ccr3 => (DMA1_BASE + 0x30) as u32,
        Register::Dma1Cndtr3 => (DMA1_BASE + 0x34) as u32,
        Register::Dma1Cpar3 => (DMA1_BASE + 0x38) as u32,
        Register::Dma1Cmar3 => (DMA1_BASE + 0x3c) as u32,
    }
}

impl Register {
    /// The register's address.
    pub fn address(&self) -> (a: u32)
        ensures
            a == register_address(*self),
    {
        match self {
            Register::RccCr => RCC_BASE + 0x00,
            Register::RccCfgr => RCC_BASE + 0x04,
            Register::RccCir => RCC_BASE + 0x08,
            Register::RccApb2rstr => RCC_BASE + 0x0c,
            Register::RccApb1rstr => RCC_BASE + 0x10,
            Register::RccAhbenr => RCC_BASE + 0x14,
            Register::RccApb2enr => RCC_BASE + 0x18,
            Register::RccApb1enr => RCC_BASE + 0x1c,
            Register::RccBdcr => RCC_BASE + 0x20,
            Register::RccCsr => RCC_BASE + 0x24,
            Register::RccAhbrstr => RCC_BASE + 0x28,
            Register::RccCfgr2 => RCC_BASE + 0x2c,
            Register::RccCfgr3 => RCC_BASE + 0x30,
            Register::RccCr2 => RCC_BASE + 0x34,
            Register::Tim6Cr2 => TIM6_BASE + 0x04,
            Register::DacCr => DAC_BASE + 0x00,
            Register::DacDhr12r1 => DAC_BASE + 0x08,
            Register::DacDhr12rd => DAC_BASE + 0x20,
            Register::Dma1Ccr3 => DMA1_BASE + 0x30,
            Register::Dma1Cndtr3 => DMA1_BASE + 0x34,
            Register::Dma1Cpar3 => DMA1_BASE + 0x38,
            Register::Dma1Cmar3 => DMA1_BASE + 0x3c,
        }
    }
}

/// One access to a register.
#[derive(Clone, Copy, Debug, PartialEq, Eq, Structural)]
pub enum RegisterOp {
    /// Store the word in the register.
    Write(Register, u32),
    /// Read the register and store it back with these bits set.
    SetBits(Register, u32),
}

} // verus!
