//! Register offsets within the peripheral window, and the conversions between
//! the ARM physical, I/O peripheral and VideoCore bus address spaces.
use vstd::prelude::*;

verus! {

/// Auxiliary interrupt status, as an offset into the peripheral window.
pub const AUX_IRQ: u32 = 0x215000;
/// Auxiliary enables.
pub const AUX_ENABLES: u32 = 0x215004;
/// Mini UART I/O data.
pub const AUX_MU_IO_REG: u32 = 0x215040;
/// Mini UART interrupt enable.
pub const AUX_MU_IER_REG: u32 = 0x215044;
/// Mini UART interrupt identify.
pub const AUX_MU_IIR_REG: u32 = 0x215048;
/// Mini UART line control.
pub const AUX_MU_LCR_REG: u32 = 0x21504c;
/// Mini UART modem control.
pub const AUX_MU_MCR_REG: u32 = 0x215050;
/// Mini UART line status.
pub const AUX_MU_LSR_REG: u32 = 0x215054;
/// Mini UART modem status.
pub const AUX_MU_MSR_REG: u32 = 0x215058;
/// Mini UART scratch.
pub const AUX_MU_SCRATCH: u32 = 0x21505c;
/// Mini UART extra control.
pub const AUX_MU_CNTL_REG: u32 = 0x215060;
/// Mini UART extra status.
pub const AUX_MU_STAT_REG: u32 = 0x215064;
/// Mini UART baud rate.
pub const AUX_MU_BAUD_REG: u32 = 0x215068;

/// GPIO function select, first register.
pub const GPFSEL0: u32 = 0x200000;
/// GPIO pin output set, first register.
pub const GPSET0: u32 = 0x20001C;
/// GPIO pin output clear, first register.
pub const GPCLR0: u32 = 0x200028;
/// GPIO pull-up / pull-down select, first register.
pub const GPPUPPDN0: u32 = 0x2000E4;

/// Bits that select the bus alias of an address.
pub const BUS_ALIAS_MASK: u32 = 0xC0000000;
/// Bits of an address that lie within the 16 MiB peripheral block.
pub const IO_OFFSET_MASK: u32 = 0xFFFFFF;
/// Start of the peripherals as the VideoCore bus sees them.
pub const IO_BUS_BASE: u32 = 0x7E000000;
/// Start of the peripherals as the ARM sees them on the legacy map.
pub const IO_PHYS_BASE: u32 = 0x3F000000;

/// Converts a physical address to a bus address (uncached alias).
pub fn phys_to_bus(paddr: u32) -> (r: u32)
    ensures
        r == paddr | BUS_ALIAS_MASK,
        r & !BUS_ALIAS_MASK == paddr & !BUS_ALIAS_MASK,
        r >= BUS_ALIAS_MASK,
{
    let r = paddr | BUS_ALIAS_MASK;
    assert(r & !0xC0000000u32 == paddr & !0xC0000000u32 && r >= 0xC0000000u32) by (bit_vector)
        requires r == paddr | 0xC0000000u32;
    r
}

/// Converts a bus address back to a physical address.
pub fn bus_to_phys(baddr: u32) -> (r: u32)
    ensures
        r == baddr & !BUS_ALIAS_MASK,
        r < 0x40000000,
{
    let r = baddr & !BUS_ALIAS_MASK;
    assert(r < 0x40000000u32) by (bit_vector)
        requires r == baddr & !0xC0000000u32;
    r
}

/// Converts an I/O peripheral address to its bus address.
pub fn io_to_bus(paddr: u32) -> (r: u32)
    ensures
        r == (paddr & IO_OFFSET_MASK) | IO_BUS_BASE,
        r & IO_OFFSET_MASK == paddr & IO_OFFSET_MASK,
        r & !IO_OFFSET_MASK == IO_BUS_BASE,
{
    let r = (paddr & IO_OFFSET_MASK) | IO_BUS_BASE;
    assert(r & 0xFFFFFFu32 == paddr & 0xFFFFFFu32 && r & !0xFFFFFFu32 == 0x7E000000u32)
        by (bit_vector)
        requires r == (paddr & 0xFFFFFFu32) | 0x7E000000u32;
    r
}

/// Converts a bus address to its I/O peripheral address.
pub fn bus_to_io(baddr: u32) -> (r: u32)
    ensures
        r == (baddr & IO_OFFSET_MASK) | IO_PHYS_BASE,
        r & IO_OFFSET_MASK == baddr & IO_OFFSET_MASK,
        r & !IO_OFFSET_MASK == IO_PHYS_BASE,
{
    let r = (baddr & IO_OFFSET_MASK) | IO_PHYS_BASE;
    assert(r & 0xFFFFFFu32 == baddr & 0xFFFFFFu32 && r & !0xFFFFFFu32 == 0x3F000000u32)
        by (bit_vector)
        requires r == (baddr & 0xFFFFFFu32) | 0x3F000000u32;
    r
}

/// A physical address below the bus alias bits survives the trip to the bus
/// and back.
pub proof fn lemma_phys_bus_round_trip(paddr: u32)
    requires
        paddr < 0x40000000,
    ensures
        (paddr | BUS_ALIAS_MASK) & !BUS_ALIAS_MASK == paddr,
{
    assert((paddr | 0xC0000000u32) & !0xC0000000u32 == paddr) by (bit_vector)
        requires paddr < 0x40000000u32;
}

/// The peripheral offset of an address survives the trip to the bus and back.
pub proof fn lemma_io_bus_round_trip(paddr: u32)
    ensures
        (((paddr & IO_OFFSET_MASK) | IO_BUS_BASE) & IO_OFFSET_MASK) | IO_PHYS_BASE
            == (paddr & IO_OFFSET_MASK) | IO_PHYS_BASE,
{
    assert((((paddr & 0xFFFFFFu32) | 0x7E000000u32) & 0xFFFFFFu32) | 0x3F000000u32
        == (paddr & 0xFFFFFFu32) | 0x3F000000u32) by (bit_vector);
}

} // verus!
