use vstd::prelude::*;
use crate::registers::{Register, RegisterOp, RCC_BASE, register_address};

verus! {

/// The RCC registers and the values they hold after a reset (RM0091), in
/// the order they are restored before jumping to the bootloader. The backup
/// domain control register gets `0x18`: LSE drive at its highest level.
pub open spec fn rcc_default_ops() -> Seq<RegisterOp> {
    seq![
        RegisterOp::Write(Register::RccCr, 0x0000_0083u32),
        RegisterOp::Write(Register::RccCfgr, 0u32),
        RegisterOp::Write(Register::RccCir, 0u32),
        RegisterOp::Write(Register::RccApb2rstr, 0u32),
        RegisterOp::Write(Register::RccApb1rstr, 0u32),
        RegisterOp::Write(Register::RccAhbenr, 0x0000_0014u32),
        RegisterOp::Write(Register::RccApb2enr, 0u32),
        RegisterOp::Write(Register::RccApb1enr, 0u32),
        RegisterOp::Write(Register::RccBdcr, 0x0000_0018u32),
        RegisterOp::Write(Register::RccCsr, 0x0c00_0000u32),
        RegisterOp::Write(Register::RccAhbrstr, 0u32),
        RegisterOp::Write(Register::RccCfgr2, 0u32),
        RegisterOp::Write(Register::RccCfgr3, 0u32),
        RegisterOp::Write(Register::RccCr2, 0x0000_0080u32),
    ]
}

/// The writes that put the clock controller back to its reset state.
pub fn rcc_set_defaults() -> (ops: Vec<RegisterOp>)
    ensures
        ops@ == rcc_default_ops(),
{
    let ops = vec![
        RegisterOp::Write(Register::RccCr, 0x0000_0083u32),
        RegisterOp::Write(Register::RccCfgr, 0u32),
        RegisterOp::Write(Register::RccCir, 0u32),
        RegisterOp::Write(Register::RccApb2rstr, 0u32),
        RegisterOp::Write(Register::RccApb1rstr, 0u32),
        RegisterOp::Write(Register::RccAhbenr, 0x0000_0014u32),
        RegisterOp::Write(Register::RccApb2enr, 0u32),
        RegisterOp::Write(Register::RccApb1enr, 0u32),
        RegisterOp::Write(Register::RccBdcr, 0x0000_0018u32),
        RegisterOp::Write(Register::RccCsr, 0x0c00_0000u32),
        RegisterOp::Write(Register::RccAhbrstr, 0u32),
        RegisterOp::Write(Register::RccCfgr2, 0u32),
        RegisterOp::Write(Register::RccCfgr3, 0u32),
        RegisterOp::Write(Register::RccCr2, 0x0000_0080u32),
    ];
    assert(ops@ =~= rcc_default_ops());
    ops
}

/// Every clock controller register is restored exactly once, and each write
/// goes to a register of the clock controller.
pub proof fn lemma_rcc_defaults_cover_each_register_once()
    ensures
        rcc_default_ops().len() == 14,
        forall|i: int, j: int|
            0 <= i < j < 14 ==> (#[trigger] rcc_default_ops()[i])->Write_0 != (#[trigger] rcc_default_ops()[j])->Write_0,
        forall|i: int|
            0 <= i < 14 ==> RCC_BASE <= #[trigger] register_address(rcc_default_ops()[i]->Write_0) < RCC_BASE + 0x38,
{
}

/// The value RM0091 gives each clock controller register after a reset
/// (for the backup domain control register: LSE drive at its highest level,
/// bits 4:3 set); every register not listed resets to 0.
pub open spec fn rcc_reset_value(r: Register) -> u32 {
    match r {
        Register::RccCr => 0x0000_0083,
        Register::RccAhbenr => 0x0000_0014,
        Register::RccBdcr => 0x0000_0018,
        Register::RccCsr => 0x0c00_0000,
        Register::RccCr2 => 0x0000_0080,
        _ => 0,
    }
}

/// Whether `r` is one of the clock controller registers.
pub open spec fn is_rcc_register(r: Register) -> bool {
    RCC_BASE <= register_address(r) < RCC_BASE + 0x38
}

/// Restoring the defaults writes every clock controller register exactly
/// once, each with its reset value: `0x83` to RCC_CR (HSI on, trim 16),
/// `0x14` to RCC_AHBENR (SRAM and flash interface clocks), `0x18` to
/// RCC_BDCR, `0x0c00_0000` to RCC_CSR, `0x80` to RCC_CR2 (HSI14 trim 16),
/// and 0 to every other one; nothing else is touched.
pub proof fn lemma_rcc_defaults_are_reset_values()
    ensures
        forall|i: int|
            0 <= i < rcc_default_ops().len() ==> #[trigger] rcc_default_ops()[i] == RegisterOp::Write(
                rcc_default_ops()[i]->Write_0,
                rcc_reset_value(rcc_default_ops()[i]->Write_0),
            ),
        forall|r: Register|
            is_rcc_register(r) ==> exists|i: int|
                0 <= i < rcc_default_ops().len() && #[trigger] rcc_default_ops()[i]->Write_0 == r,
        forall|i: int|
            0 <= i < rcc_default_ops().len() ==> {
                let r = (#[trigger] rcc_default_ops()[i])->Write_0;
                &&& is_rcc_register(r)
                &&& (r != Register::RccCr && r != Register::RccAhbenr && r != Register::RccBdcr && r
                    != Register::RccCsr && r != Register::RccCr2) ==> rcc_default_ops()[i]
                    == RegisterOp::Write(r, 0u32)
            },
        rcc_default_ops()[0] == RegisterOp::Write(Register::RccCr, 0x0000_0083u32),
        rcc_default_ops()[5] == RegisterOp::Write(Register::RccAhbenr, 0x0000_0014u32),
        rcc_default_ops()[8] == RegisterOp::Write(Register::RccBdcr, 0x0000_0018u32),
        rcc_default_ops()[9] == RegisterOp::Write(Register::RccCsr, 0x0c00_0000u32),
        rcc_default_ops()[13] == RegisterOp::Write(Register::RccCr2, 0x0000_0080u32),
{
    let ops = rcc_default_ops();
    assert forall|r: Register| is_rcc_register(r) implies exists|i: int|
        0 <= i < ops.len() && #[trigger] ops[i]->Write_0 == r by {
        match r {
            Register::RccCr => assert(ops[0]->Write_0 == r),
            Register::RccCfgr => assert(ops[1]->Write_0 == r),
            Register::RccCir => assert(ops[2]->Write_0 == r),
            Register::RccApb2rstr => assert(ops[3]->Write_0 == r),
            Register::RccApb1rstr => assert(ops[4]->Write_0 == r),
            Register::RccAhbenr => assert(ops[5]->Write_0 == r),
            Register::RccApb2enr => assert(ops[6]->Write_0 == r),
            Register::RccApb1enr => assert(ops[7]->Write_0 == r),
            Register::RccBdcr => assert(ops[8]->Write_0 == r),
            Register::RccCsr => assert(ops[9]->Write_0 == r),
            Register::RccAhbrstr => assert(ops[10]->Write_0 == r),
            Register::RccCfgr2 => assert(ops[11]->Write_0 == r),
            Register::RccCfgr3 => assert(ops[12]->Write_0 == r),
            Register::RccCr2 => assert(ops[13]->Write_0 == r),
            _ => {},
        }
    }
}

} // verus!
