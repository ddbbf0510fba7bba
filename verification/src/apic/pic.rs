//! The legacy 8259 PIC pair, remapped and then masked off.
use vstd::prelude::*;

verus! {

pub const PIC1_COMMAND: u16 = 0x20;
pub const PIC1_DATA: u16 = 0x21;
pub const PIC2_COMMAND: u16 = 0xA0;
pub const PIC2_DATA: u16 = 0xA1;
pub const PIC1_VECTOR_OFFSET: u8 = 0x20;
pub const PIC2_VECTOR_OFFSET: u8 = 0x28;
pub const ICW1_INIT: u8 = 0x10;
pub const ICW1_ICW4: u8 = 0x01;
pub const ICW1_INIT_ICW4: u8 = 0x11;
pub const ICW3_MASTER_IRQ2: u8 = 0x04;
pub const ICW3_SLAVE_ID_2: u8 = 0x02;
pub const ICW4_8086: u8 = 0x01;
pub const PIC_MASK_ALL: u8 = 0xFF;

/// The port writes that disable the PICs, in order: initialise both,
/// move their vectors above the exceptions, chain the second to the
/// first's line 2, select 8086 mode, and mask every line.
pub open spec fn pic_disable_spec() -> Seq<(u16, u8)> {
    seq![
        (PIC1_COMMAND, ICW1_INIT_ICW4),
        (PIC2_COMMAND, ICW1_INIT_ICW4),
        (PIC1_DATA, PIC1_VECTOR_OFFSET),
        (PIC2_DATA, PIC2_VECTOR_OFFSET),
        (PIC1_DATA, ICW3_MASTER_IRQ2),
        (PIC2_DATA, ICW3_SLAVE_ID_2),
        (PIC1_DATA, ICW4_8086),
        (PIC2_DATA, ICW4_8086),
        (PIC1_DATA, PIC_MASK_ALL),
        (PIC2_DATA, PIC_MASK_ALL),
    ]
}

/// The port writes that disable the PICs.
pub fn disable_pic() -> (r: Vec<(u16, u8)>)
    ensures
        r@ == pic_disable_spec(),
{
    let mut r: Vec<(u16, u8)> = Vec::new();
    r.push((PIC1_COMMAND, ICW1_INIT_ICW4));
    r.push((PIC2_COMMAND, ICW1_INIT_ICW4));
    r.push((PIC1_DATA, PIC1_VECTOR_OFFSET));
    r.push((PIC2_DATA, PIC2_VECTOR_OFFSET));
    r.push((PIC1_DATA, ICW3_MASTER_IRQ2));
    r.push((PIC2_DATA, ICW3_SLAVE_ID_2));
    r.push((PIC1_DATA, ICW4_8086));
    r.push((PIC2_DATA, ICW4_8086));
    r.push((PIC1_DATA, PIC_MASK_ALL));
    r.push((PIC2_DATA, PIC_MASK_ALL));
    assert(r@ =~= pic_disable_spec());
    r
}

} // verus!
