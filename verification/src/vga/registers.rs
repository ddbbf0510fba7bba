//! The register values of the VGA modes, and the port accesses that load
//! them.
use vstd::prelude::*;

verus! {

pub const VGA_CRT_CONTROL_INDEX: u16 = 0x03D4;
pub const VGA_CRT_CONTROL_DATA: u16 = 0x03D5;
pub const VGA_AC_INDEX: u16 = 0x03C0;
pub const VGA_AC_WRITE: u16 = 0x03C0;
pub const VGA_AC_READ: u16 = 0x03C1;
pub const VGA_INSTAT_READ: u16 = 0x03DA;
pub const VGA_SEQUENCER_INDEX: u16 = 0x03C4;
pub const VGA_SEQUENCER_DATA: u16 = 0x03C5;
pub const VGA_MISC_OUTPUT_INDEX: u16 = 0x03C2;
pub const VGA_MISC_OUTPUT_READ: u16 = 0x03CC;
pub const VGA_GRAPHICS_CONTROLLER_INDEX: u16 = 0x03CE;
pub const VGA_GRAPHICS_CONTROLLER_DATA: u16 = 0x03CF;
pub const VGA_DAC_READ_INDEX: u16 = 0x03C7;
pub const VGA_DAC_WRITE_INDEX: u16 = 0x03C8;
pub const VGA_DAC_DATA: u16 = 0x03C9;

/// One access to an I/O port.
#[derive(Clone, Copy, Debug, PartialEq, Eq, Structural)]
pub enum PortIo {
    OutB(u16, u8),
    OutW(u16, u16),
    InB(u16),
}

/// The registers of a VGA mode: miscellaneous output, CRT controller,
/// sequencer and graphics controller (each word the value in its high byte
/// and the index in its low byte), and the attribute controller's values.
#[derive(Clone, Copy, Debug)]
pub struct VgaModeRegs {
    pub misc_output: u8,
    pub crt_control: [u16; 18],
    pub sequencer: [u16; 5],
    pub graphics_controller: [u16; 9],
    pub attribute_controller: [u8; 21],
}

/// The port accesses that load a mode's registers, in order: miscellaneous
/// output; the CRT word at index 17 first, then the others in order; the
/// sequencer and graphics controller words; each attribute register, by
/// resetting the flip-flop, writing its index and then its value; and last
/// the palette locked and the display unblanked.
pub open spec fn mode_writes(misc: u8, crt: Seq<u16>, sequencer: Seq<u16>, gc: Seq<u16>, ac: Seq<u8>) -> Seq<PortIo> {
    Seq::new(98, |k: int|
        if k == 0 {
            PortIo::OutB(VGA_MISC_OUTPUT_INDEX, misc)
        } else if k == 1 {
            PortIo::OutW(VGA_CRT_CONTROL_INDEX, crt[17])
        } else if k < 19 {
            PortIo::OutW(VGA_CRT_CONTROL_INDEX, crt[k - 2])
        } else if k < 24 {
            PortIo::OutW(VGA_SEQUENCER_INDEX, sequencer[k - 19])
        } else if k < 33 {
            PortIo::OutW(VGA_GRAPHICS_CONTROLLER_INDEX, gc[k - 24])
        } else if k < 96 {
            if (k - 33) % 3 == 0 {
                PortIo::InB(VGA_INSTAT_READ)
            } else if (k - 33) % 3 == 1 {
                PortIo::OutB(VGA_AC_INDEX, ((k - 33) / 3) as u8)
            } else {
                PortIo::OutB(VGA_AC_WRITE, ac[(k - 33) / 3])
            }
        } else if k == 96 {
            PortIo::InB(VGA_INSTAT_READ)
        } else {
            PortIo::OutB(VGA_AC_INDEX, 0x20)
        }
    )
}

/// The port accesses that load `regs`.
pub fn set_reg_values(regs: &VgaModeRegs) -> (r: Vec<PortIo>)
    ensures
        r@ == mode_writes(regs.misc_output, regs.crt_control@, regs.sequencer@,
            regs.graphics_controller@, regs.attribute_controller@),
{
    let ghost target = mode_writes(regs.misc_output, regs.crt_control@, regs.sequencer@,
        regs.graphics_controller@, regs.attribute_controller@);
    let mut r: Vec<PortIo> = Vec::new();
    r.push(PortIo::OutB(VGA_MISC_OUTPUT_INDEX, regs.misc_output));
    r.push(PortIo::OutW(VGA_CRT_CONTROL_INDEX, regs.crt_control[17]));
    let mut i: usize = 0;
    while i < 18
        invariant
            i <= 18,
            r@.len() == if i <= 17 { 2 + i } else { 19 },
            target == mode_writes(regs.misc_output, regs.crt_control@, regs.sequencer@,
                regs.graphics_controller@, regs.attribute_controller@),
            forall|k: int| 0 <= k < r@.len() ==> r@[k] == target[k],
        decreases 18 - i,
    {
        if i != 17 {
            r.push(PortIo::OutW(VGA_CRT_CONTROL_INDEX, regs.crt_control[i]));
        }
        i = i + 1;
    }
    let mut i: usize = 0;
    while i < 5
        invariant
            i <= 5,
            r@.len() == 19 + i,
            target == mode_writes(regs.misc_output, regs.crt_control@, regs.sequencer@,
                regs.graphics_controller@, regs.attribute_controller@),
            forall|k: int| 0 <= k < r@.len() ==> r@[k] == target[k],
        decreases 5 - i,
    {
        r.push(PortIo::OutW(VGA_SEQUENCER_INDEX, regs.sequencer[i]));
        i = i + 1;
    }
    let mut i: usize = 0;
    while i < 9
        invariant
            i <= 9,
            r@.len() == 24 + i,
            target == mode_writes(regs.misc_output, regs.crt_control@, regs.sequencer@,
                regs.graphics_controller@, regs.attribute_controller@),
            forall|k: int| 0 <= k < r@.len() ==> r@[k] == target[k],
        decreases 9 - i,
    {
        r.push(PortIo::OutW(VGA_GRAPHICS_CONTROLLER_INDEX, regs.graphics_controller[i]));
        i = i + 1;
    }
    let mut i: usize = 0;
    while i < 21
        invariant
            i <= 21,
            r@.len() == 33 + 3 * i,
            target == mode_writes(regs.misc_output, regs.crt_control@, regs.sequencer@,
                regs.graphics_controller@, regs.attribute_controller@),
            forall|k: int| 0 <= k < r@.len() ==> r@[k] == target[k],
        decreases 21 - i,
    {
        let val = regs.attribute_controller[i];
        r.push(PortIo::InB(VGA_INSTAT_READ));
        r.push(PortIo::OutB(VGA_AC_INDEX, i as u8));
        r.push(PortIo::OutB(VGA_AC_WRITE, val));
        proof {
            let b = 33 + 3 * i as int;
            assert((b - 33) % 3 == 0 && (b - 33) / 3 == i as int);
            assert((b + 1 - 33) % 3 == 1 && (b + 1 - 33) / 3 == i as int);
            assert((b + 2 - 33) % 3 == 2 && (b + 2 - 33) / 3 == i as int);
        }
        i = i + 1;
    }
    r.push(PortIo::InB(VGA_INSTAT_READ));
    r.push(PortIo::OutB(VGA_AC_INDEX, 0x20));
    assert(r@ =~= target);
    r
}

/// The registers of mode 13h, 320 by 200 pixels in 256 colours.
pub fn vga_13h_mode_regs() -> (r: VgaModeRegs)
    ensures
        r.misc_output == 0x63u8,
        r.crt_control@ == seq![0x5F00u16, 0x4F01u16, 0x5002u16, 0x8203u16, 0x5404u16, 0x8005u16, 0xBF06u16, 0x1F07u16, 0x0008u16, 0x4109u16, 0x9C10u16, 0x0E11u16, 0x8F12u16, 0x2813u16, 0x4014u16, 0x9615u16, 0xB916u16, 0xA317u16],
        r.sequencer@ == seq![0x0100u16, 0x0101u16, 0x0F02u16, 0x0003u16, 0x0E04u16],
        r.graphics_controller@ == seq![0x0000u16, 0x0001u16, 0x0002u16, 0x0003u16, 0x0004u16, 0x4005u16, 0x0506u16, 0x0F07u16, 0xFF08u16],
        r.attribute_controller@ == seq![0x00u8, 0x01u8, 0x02u8, 0x03u8, 0x04u8, 0x05u8, 0x06u8, 0x07u8, 0x08u8, 0x09u8, 0x0Au8, 0x0Bu8, 0x0Cu8, 0x0Du8, 0x0Eu8, 0x0Fu8, 0x41u8, 0x00u8, 0x0Fu8, 0x00u8, 0x00u8],
{
    let r = VgaModeRegs {
        misc_output: 0x63,
        crt_control: [0x5F00, 0x4F01, 0x5002, 0x8203, 0x5404, 0x8005, 0xBF06, 0x1F07, 0x0008, 0x4109, 0x9C10, 0x0E11, 0x8F12, 0x2813, 0x4014, 0x9615, 0xB916, 0xA317],
        sequencer: [0x0100, 0x0101, 0x0F02, 0x0003, 0x0E04],
        graphics_controller: [0x0000, 0x0001, 0x0002, 0x0003, 0x0004, 0x4005, 0x0506, 0x0F07, 0xFF08],
        attribute_controller: [0x00, 0x01, 0x02, 0x03, 0x04, 0x05, 0x06, 0x07, 0x08, 0x09, 0x0A, 0x0B, 0x0C, 0x0D, 0x0E, 0x0F, 0x41, 0x00, 0x0F, 0x00, 0x00],
    };
    assert(r.crt_control@ =~= seq![0x5F00u16, 0x4F01u16, 0x5002u16, 0x8203u16, 0x5404u16, 0x8005u16, 0xBF06u16, 0x1F07u16, 0x0008u16, 0x4109u16, 0x9C10u16, 0x0E11u16, 0x8F12u16, 0x2813u16, 0x4014u16, 0x9615u16, 0xB916u16, 0xA317u16]);
    assert(r.sequencer@ =~= seq![0x0100u16, 0x0101u16, 0x0F02u16, 0x0003u16, 0x0E04u16]);
    assert(r.graphics_controller@ =~= seq![0x0000u16, 0x0001u16, 0x0002u16, 0x0003u16, 0x0004u16, 0x4005u16, 0x0506u16, 0x0F07u16, 0xFF08u16]);
    assert(r.attribute_controller@ =~= seq![0x00u8, 0x01u8, 0x02u8, 0x03u8, 0x04u8, 0x05u8, 0x06u8, 0x07u8, 0x08u8, 0x09u8, 0x0Au8, 0x0Bu8, 0x0Cu8, 0x0Du8, 0x0Eu8, 0x0Fu8, 0x41u8, 0x00u8, 0x0Fu8, 0x00u8, 0x00u8]);
    r
}

/// The port accesses that load the registers of mode 13h.
pub open spec fn mode_13h_writes() -> Seq<PortIo> {
    mode_writes(0x63u8, seq![0x5F00u16, 0x4F01u16, 0x5002u16, 0x8203u16, 0x5404u16, 0x8005u16, 0xBF06u16, 0x1F07u16, 0x0008u16, 0x4109u16, 0x9C10u16, 0x0E11u16, 0x8F12u16, 0x2813u16, 0x4014u16, 0x9615u16, 0xB916u16, 0xA317u16], seq![0x0100u16, 0x0101u16, 0x0F02u16, 0x0003u16, 0x0E04u16], seq![0x0000u16, 0x0001u16, 0x0002u16, 0x0003u16, 0x0004u16, 0x4005u16, 0x0506u16, 0x0F07u16, 0xFF08u16], seq![0x00u8, 0x01u8, 0x02u8, 0x03u8, 0x04u8, 0x05u8, 0x06u8, 0x07u8, 0x08u8, 0x09u8, 0x0Au8, 0x0Bu8, 0x0Cu8, 0x0Du8, 0x0Eu8, 0x0Fu8, 0x41u8, 0x00u8, 0x0Fu8, 0x00u8, 0x00u8])
}

/// The port accesses that switch to mode 13h, 320 by 200 pixels in 256 colours.
pub fn set_13h_mode_regs() -> (r: Vec<PortIo>)
    ensures
        r@ == mode_13h_writes(),
{
    let regs = vga_13h_mode_regs();
    set_reg_values(&regs)
}

/// The registers of the unchained 320 by 200 mode in 256 colours ("mode
/// X" at 200 lines): those of mode 13h, with the sequencer's memory mode at
/// 0x06 (chain-4 off), the CRT underline location at 0x00 (doubleword mode
/// off) and the CRT mode control at 0xE3 (byte mode on).
pub fn vga_320_200_mode_x_regs() -> (r: VgaModeRegs)
    ensures
        r.misc_output == 0x63u8,
        r.crt_control@ == seq![0x5F00u16, 0x4F01u16, 0x5002u16, 0x8203u16, 0x5404u16, 0x8005u16, 0xBF06u16, 0x1F07u16, 0x0008u16, 0x4109u16, 0x9C10u16, 0x0E11u16, 0x8F12u16, 0x2813u16, 0x0014u16, 0x9615u16, 0xB916u16, 0xE317u16],
        r.sequencer@ == seq![0x0100u16, 0x0101u16, 0x0F02u16, 0x0003u16, 0x0604u16],
        r.graphics_controller@ == seq![0x0000u16, 0x0001u16, 0x0002u16, 0x0003u16, 0x0004u16, 0x4005u16, 0x0506u16, 0x0F07u16, 0xFF08u16],
        r.attribute_controller@ == seq![0x00u8, 0x01u8, 0x02u8, 0x03u8, 0x04u8, 0x05u8, 0x06u8, 0x07u8, 0x08u8, 0x09u8, 0x0Au8, 0x0Bu8, 0x0Cu8, 0x0Du8, 0x0Eu8, 0x0Fu8, 0x41u8, 0x00u8, 0x0Fu8, 0x00u8, 0x00u8],
{
    let mut r = vga_13h_mode_regs();
    r.crt_control[14] = 0x0014;
    r.crt_control[17] = 0xE317;
    r.sequencer[4] = 0x0604;
    assert(r.crt_control@ =~= seq![0x5F00u16, 0x4F01u16, 0x5002u16, 0x8203u16, 0x5404u16, 0x8005u16, 0xBF06u16, 0x1F07u16, 0x0008u16, 0x4109u16, 0x9C10u16, 0x0E11u16, 0x8F12u16, 0x2813u16, 0x0014u16, 0x9615u16, 0xB916u16, 0xE317u16]);
    assert(r.sequencer@ =~= seq![0x0100u16, 0x0101u16, 0x0F02u16, 0x0003u16, 0x0604u16]);
    r
}

/// The port accesses that load the registers of the unchained 320 by 200
/// mode.
pub open spec fn mode_x_320_200_writes() -> Seq<PortIo> {
    mode_writes(0x63u8, seq![0x5F00u16, 0x4F01u16, 0x5002u16, 0x8203u16, 0x5404u16, 0x8005u16, 0xBF06u16, 0x1F07u16, 0x0008u16, 0x4109u16, 0x9C10u16, 0x0E11u16, 0x8F12u16, 0x2813u16, 0x0014u16, 0x9615u16, 0xB916u16, 0xE317u16], seq![0x0100u16, 0x0101u16, 0x0F02u16, 0x0003u16, 0x0604u16], seq![0x0000u16, 0x0001u16, 0x0002u16, 0x0003u16, 0x0004u16, 0x4005u16, 0x0506u16, 0x0F07u16, 0xFF08u16], seq![0x00u8, 0x01u8, 0x02u8, 0x03u8, 0x04u8, 0x05u8, 0x06u8, 0x07u8, 0x08u8, 0x09u8, 0x0Au8, 0x0Bu8, 0x0Cu8, 0x0Du8, 0x0Eu8, 0x0Fu8, 0x41u8, 0x00u8, 0x0Fu8, 0x00u8, 0x00u8])
}

/// The port accesses that switch to the unchained 320 by 200 mode.
pub fn set_320_200_mode_x_mode_regs() -> (r: Vec<PortIo>)
    ensures
        r@ == mode_x_320_200_writes(),
{
    let regs = vga_320_200_mode_x_regs();
    set_reg_values(&regs)
}

/// The registers of mode 12h, 640 by 480 pixels in 16 colours.
pub fn vga_12h_mode_regs() -> (r: VgaModeRegs)
    ensures
        r.misc_output == 0xE3u8,
        r.crt_control@ == seq![0x5F00u16, 0x4F01u16, 0x5002u16, 0x8203u16, 0x5404u16, 0x8005u16, 0x0B06u16, 0x3E07u16, 0x0008u16, 0x4009u16, 0xEA10u16, 0x0C11u16, 0xDF12u16, 0x2813u16, 0x0014u16, 0xE715u16, 0x0416u16, 0xE317u16],
        r.sequencer@ == seq![0x0300u16, 0x0101u16, 0x0802u16, 0x0003u16, 0x0604u16],
        r.graphics_controller@ == seq![0x0000u16, 0x0001u16, 0x0002u16, 0x0003u16, 0x0304u16, 0x0005u16, 0x0506u16, 0x0F07u16, 0xFF08u16],
        r.attribute_controller@ == seq![0x00u8, 0x01u8, 0x02u8, 0x03u8, 0x04u8, 0x05u8, 0x14u8, 0x07u8, 0x38u8, 0x39u8, 0x3Au8, 0x3Bu8, 0x3Cu8, 0x3Du8, 0x3Eu8, 0x3Fu8, 0x01u8, 0x00u8, 0x0Fu8, 0x00u8, 0x00u8],
{
    let r = VgaModeRegs {
        misc_output: 0xE3,
        crt_control: [0x5F00, 0x4F01, 0x5002, 0x8203, 0x5404, 0x8005, 0x0B06, 0x3E07, 0x0008, 0x4009, 0xEA10, 0x0C11, 0xDF12, 0x2813, 0x0014, 0xE715, 0x0416, 0xE317],
        sequencer: [0x0300, 0x0101, 0x0802, 0x0003, 0x0604],
        graphics_controller: [0x0000, 0x0001, 0x0002, 0x0003, 0x0304, 0x0005, 0x0506, 0x0F07, 0xFF08],
        attribute_controller: [0x00, 0x01, 0x02, 0x03, 0x04, 0x05, 0x14, 0x07, 0x38, 0x39, 0x3A, 0x3B, 0x3C, 0x3D, 0x3E, 0x3F, 0x01, 0x00, 0x0F, 0x00, 0x00],
    };
    assert(r.crt_control@ =~= seq![0x5F00u16, 0x4F01u16, 0x5002u16, 0x8203u16, 0x5404u16, 0x8005u16, 0x0B06u16, 0x3E07u16, 0x0008u16, 0x4009u16, 0xEA10u16, 0x0C11u16, 0xDF12u16, 0x2813u16, 0x0014u16, 0xE715u16, 0x0416u16, 0xE317u16]);
    assert(r.sequencer@ =~= seq![0x0300u16, 0x0101u16, 0x0802u16, 0x0003u16, 0x0604u16]);
    assert(r.graphics_controller@ =~= seq![0x0000u16, 0x0001u16, 0x0002u16, 0x0003u16, 0x0304u16, 0x0005u16, 0x0506u16, 0x0F07u16, 0xFF08u16]);
    assert(r.attribute_controller@ =~= seq![0x00u8, 0x01u8, 0x02u8, 0x03u8, 0x04u8, 0x05u8, 0x14u8, 0x07u8, 0x38u8, 0x39u8, 0x3Au8, 0x3Bu8, 0x3Cu8, 0x3Du8, 0x3Eu8, 0x3Fu8, 0x01u8, 0x00u8, 0x0Fu8, 0x00u8, 0x00u8]);
    r
}

/// The port accesses that load the registers of mode 12h.
pub open spec fn mode_12h_writes() -> Seq<PortIo> {
    mode_writes(0xE3u8, seq![0x5F00u16, 0x4F01u16, 0x5002u16, 0x8203u16, 0x5404u16, 0x8005u16, 0x0B06u16, 0x3E07u16, 0x0008u16, 0x4009u16, 0xEA10u16, 0x0C11u16, 0xDF12u16, 0x2813u16, 0x0014u16, 0xE715u16, 0x0416u16, 0xE317u16], seq![0x0300u16, 0x0101u16, 0x0802u16, 0x0003u16, 0x0604u16], seq![0x0000u16, 0x0001u16, 0x0002u16, 0x0003u16, 0x0304u16, 0x0005u16, 0x0506u16, 0x0F07u16, 0xFF08u16], seq![0x00u8, 0x01u8, 0x02u8, 0x03u8, 0x04u8, 0x05u8, 0x14u8, 0x07u8, 0x38u8, 0x39u8, 0x3Au8, 0x3Bu8, 0x3Cu8, 0x3Du8, 0x3Eu8, 0x3Fu8, 0x01u8, 0x00u8, 0x0Fu8, 0x00u8, 0x00u8])
}

/// The port accesses that switch to mode 12h, 640 by 480 pixels in 16 colours.
pub fn set_12h_mode_regs() -> (r: Vec<PortIo>)
    ensures
        r@ == mode_12h_writes(),
{
    let regs = vga_12h_mode_regs();
    set_reg_values(&regs)
}

/// The registers of mode 03h, 80 by 25 characters of text.
pub fn vga_03h_mode_regs() -> (r: VgaModeRegs)
    ensures
        r.misc_output == 0x67u8,
        r.crt_control@ == seq![0x5F00u16, 0x4F01u16, 0x5002u16, 0x8203u16, 0x5504u16, 0x8105u16, 0xBF06u16, 0x1F07u16, 0x0008u16, 0x4F09u16, 0x9C10u16, 0x8E11u16, 0x8F12u16, 0x2813u16, 0x1F14u16, 0x9615u16, 0xB916u16, 0xA317u16],
        r.sequencer@ == seq![0x0300u16, 0x0001u16, 0x0302u16, 0x0003u16, 0x0204u16],
        r.graphics_controller@ == seq![0x0000u16, 0x0001u16, 0x0002u16, 0x0003u16, 0x0004u16, 0x1005u16, 0x0E06u16, 0x0007u16, 0x0F08u16],
        r.attribute_controller@ == seq![0x00u8, 0x01u8, 0x02u8, 0x03u8, 0x04u8, 0x05u8, 0x14u8, 0x07u8, 0x38u8, 0x39u8, 0x3Au8, 0x3Bu8, 0x3Cu8, 0x3Du8, 0x3Eu8, 0x3Fu8, 0x0Cu8, 0x00u8, 0x0Fu8, 0x08u8, 0x00u8],
{
    let r = VgaModeRegs {
        misc_output: 0x67,
        crt_control: [0x5F00, 0x4F01, 0x5002, 0x8203, 0x5504, 0x8105, 0xBF06, 0x1F07, 0x0008, 0x4F09, 0x9C10, 0x8E11, 0x8F12, 0x2813, 0x1F14, 0x9615, 0xB916, 0xA317],
        sequencer: [0x0300, 0x0001, 0x0302, 0x0003, 0x0204],
        graphics_controller: [0x0000, 0x0001, 0x0002, 0x0003, 0x0004, 0x1005, 0x0E06, 0x0007, 0x0F08],
        attribute_controller: [0x00, 0x01, 0x02, 0x03, 0x04, 0x05, 0x14, 0x07, 0x38, 0x39, 0x3A, 0x3B, 0x3C, 0x3D, 0x3E, 0x3F, 0x0C, 0x00, 0x0F, 0x08, 0x00],
    };
    assert(r.crt_control@ =~= seq![0x5F00u16, 0x4F01u16, 0x5002u16, 0x8203u16, 0x5504u16, 0x8105u16, 0xBF06u16, 0x1F07u16, 0x0008u16, 0x4F09u16, 0x9C10u16, 0x8E11u16, 0x8F12u16, 0x2813u16, 0x1F14u16, 0x9615u16, 0xB916u16, 0xA317u16]);
    assert(r.sequencer@ =~= seq![0x0300u16, 0x0001u16, 0x0302u16, 0x0003u16, 0x0204u16]);
    assert(r.graphics_controller@ =~= seq![0x0000u16, 0x0001u16, 0x0002u16, 0x0003u16, 0x0004u16, 0x1005u16, 0x0E06u16, 0x0007u16, 0x0F08u16]);
    assert(r.attribute_controller@ =~= seq![0x00u8, 0x01u8, 0x02u8, 0x03u8, 0x04u8, 0x05u8, 0x14u8, 0x07u8, 0x38u8, 0x39u8, 0x3Au8, 0x3Bu8, 0x3Cu8, 0x3Du8, 0x3Eu8, 0x3Fu8, 0x0Cu8, 0x00u8, 0x0Fu8, 0x08u8, 0x00u8]);
    r
}

/// The port accesses that load the registers of mode 03h.
pub open spec fn mode_03h_writes() -> Seq<PortIo> {
    mode_writes(0x67u8, seq![0x5F00u16, 0x4F01u16, 0x5002u16, 0x8203u16, 0x5504u16, 0x8105u16, 0xBF06u16, 0x1F07u16, 0x0008u16, 0x4F09u16, 0x9C10u16, 0x8E11u16, 0x8F12u16, 0x2813u16, 0x1F14u16, 0x9615u16, 0xB916u16, 0xA317u16], seq![0x0300u16, 0x0001u16, 0x0302u16, 0x0003u16, 0x0204u16], seq![0x0000u16, 0x0001u16, 0x0002u16, 0x0003u16, 0x0004u16, 0x1005u16, 0x0E06u16, 0x0007u16, 0x0F08u16], seq![0x00u8, 0x01u8, 0x02u8, 0x03u8, 0x04u8, 0x05u8, 0x14u8, 0x07u8, 0x38u8, 0x39u8, 0x3Au8, 0x3Bu8, 0x3Cu8, 0x3Du8, 0x3Eu8, 0x3Fu8, 0x0Cu8, 0x00u8, 0x0Fu8, 0x08u8, 0x00u8])
}

/// The port accesses that switch to mode 03h, 80 by 25 characters of text.
pub fn set_03h_mode_regs() -> (r: Vec<PortIo>)
    ensures
        r@ == mode_03h_writes(),
{
    let regs = vga_03h_mode_regs();
    set_reg_values(&regs)
}

/// A palette component (0 to 255) on the DAC's scale (0 to 63).
pub open spec fn to_dac_spec(val: u8) -> u8 {
    (val >> 2u8) & 0x3F
}

/// A palette component on the DAC's scale.
pub fn to_dac(val: u8) -> (r: u8)
    ensures
        r == to_dac_spec(val),
{
    (val >> 2) & 0x3F
}

/// The standard sixteen text colours, as red, green and blue from 0 to 255.
pub open spec fn palette_4bit(i: int) -> (u8, u8, u8) {
    if i == 0 { (0, 0, 0) }
    else if i == 1 { (0, 0, 168) }
    else if i == 2 { (0, 168, 0) }
    else if i == 3 { (0, 168, 168) }
    else if i == 4 { (168, 0, 0) }
    else if i == 5 { (168, 0, 168) }
    else if i == 6 { (168, 84, 0) }
    else if i == 7 { (168, 168, 168) }
    else if i == 8 { (84, 84, 84) }
    else if i == 9 { (84, 84, 252) }
    else if i == 10 { (84, 252, 84) }
    else if i == 11 { (84, 252, 252) }
    else if i == 12 { (252, 84, 84) }
    else if i == 13 { (252, 84, 252) }
    else if i == 14 { (252, 168, 84) }
    else { (252, 252, 252) }
}

/// Component `c` (0 red, 1 green, 2 blue) of a colour.
pub open spec fn component(rgb: (u8, u8, u8), c: int) -> u8 {
    if c == 0 {
        rgb.0
    } else if c == 1 {
        rgb.1
    } else {
        rgb.2
    }
}

/// The port accesses that load the sixteen colours into the DAC: unmask
/// the palette, start at colour 0, and write every colour's three
/// components on the DAC's scale, the whole table sixteen times over.
pub open spec fn palette_4bit_writes() -> Seq<PortIo> {
    Seq::new(770, |k: int|
        if k == 0 {
            PortIo::OutB(0x03C6, 0xFF)
        } else if k == 1 {
            PortIo::OutB(VGA_DAC_WRITE_INDEX, 0)
        } else {
            PortIo::OutB(VGA_DAC_DATA, to_dac_spec(component(palette_4bit(((k - 2) % 48) / 3), (k - 2) % 3)))
        }
    )
}

fn palette_4bit_entry(i: usize) -> (r: (u8, u8, u8))
    requires
        i < 16,
    ensures
        r == palette_4bit(i as int),
{
    if i == 0 { (0, 0, 0) }
    else if i == 1 { (0, 0, 168) }
    else if i == 2 { (0, 168, 0) }
    else if i == 3 { (0, 168, 168) }
    else if i == 4 { (168, 0, 0) }
    else if i == 5 { (168, 0, 168) }
    else if i == 6 { (168, 84, 0) }
    else if i == 7 { (168, 168, 168) }
    else if i == 8 { (84, 84, 84) }
    else if i == 9 { (84, 84, 252) }
    else if i == 10 { (84, 252, 84) }
    else if i == 11 { (84, 252, 252) }
    else if i == 12 { (252, 84, 84) }
    else if i == 13 { (252, 84, 252) }
    else if i == 14 { (252, 168, 84) }
    else { (252, 252, 252) }
}

/// Where the `j`-th component of colour `c` in round `rep` lands among the
/// palette writes.
proof fn lemma_palette_index(rep: int, c: int, j: int)
    requires
        0 <= rep < 16,
        0 <= c < 16,
        0 <= j < 3,
    ensures
        ((2 + rep * 48 + c * 3 + j) - 2) % 48 == c * 3 + j,
        (((2 + rep * 48 + c * 3 + j) - 2) % 48) / 3 == c,
        ((2 + rep * 48 + c * 3 + j) - 2) % 3 == j,
{
    let x = rep * 48 + c * 3 + j;
    vstd::arithmetic::div_mod::lemma_fundamental_div_mod_converse(x, 48, rep, c * 3 + j);
    vstd::arithmetic::div_mod::lemma_fundamental_div_mod_converse(c * 3 + j, 3, c, j);
    vstd::arithmetic::div_mod::lemma_fundamental_div_mod_converse(x, 3, rep * 16 + c, j);
}

/// The port accesses that load the sixteen text colours into the DAC.
pub fn load_4bit_color_palette_into_dac() -> (r: Vec<PortIo>)
    ensures
        r@ == palette_4bit_writes(),
{
    let mut r: Vec<PortIo> = Vec::new();
    r.push(PortIo::OutB(0x03C6, 0xFF));
    r.push(PortIo::OutB(VGA_DAC_WRITE_INDEX, 0x00));
    let mut rep: usize = 0;
    while rep < 16
        invariant
            rep <= 16,
            r@.len() == 2 + rep * 48,
            forall|k: int| 0 <= k < r@.len() ==> r@[k] == palette_4bit_writes()[k],
        decreases 16 - rep,
    {
        let mut c: usize = 0;
        while c < 16
            invariant
                rep < 16,
                c <= 16,
                r@.len() == 2 + rep * 48 + c * 3,
                forall|k: int| 0 <= k < r@.len() ==> r@[k] == palette_4bit_writes()[k],
            decreases 16 - c,
        {
            let (red, green, blue) = palette_4bit_entry(c);
            proof {
                lemma_palette_index(rep as int, c as int, 0);
                lemma_palette_index(rep as int, c as int, 1);
                lemma_palette_index(rep as int, c as int, 2);
            }
            r.push(PortIo::OutB(VGA_DAC_DATA, to_dac(red)));
            r.push(PortIo::OutB(VGA_DAC_DATA, to_dac(green)));
            r.push(PortIo::OutB(VGA_DAC_DATA, to_dac(blue)));
            c = c + 1;
        }
        rep = rep + 1;
    }
    assert(r@ =~= palette_4bit_writes());
    r
}

/// The port accesses that load the 256-colour palette into the DAC: unmask
/// the palette, start at colour 0, and for every colour, red in 3 bits,
/// green in 3 and blue in 2 (in that order of significance), write each
/// component scaled to the DAC's 0 to 63.
pub open spec fn palette_8bit_writes() -> Seq<PortIo> {
    Seq::new(770, |k: int|
        if k == 0 {
            PortIo::OutB(0x03C6, 0xFF)
        } else if k == 1 {
            PortIo::OutB(VGA_DAC_WRITE_INDEX, 0)
        } else {
            let color = (k - 2) / 3;
            let c = (k - 2) % 3;
            PortIo::OutB(VGA_DAC_DATA, if c == 0 {
                ((color / 32) * 63 / 7) as u8
            } else if c == 1 {
                (((color / 4) % 8) * 63 / 7) as u8
            } else {
                ((color % 4) * 63 / 3) as u8
            })
        }
    )
}

/// The port accesses that load the 256-colour palette into the DAC.
pub fn load_8bit_color_pallet_into_dac() -> (r: Vec<PortIo>)
    ensures
        r@ == palette_8bit_writes(),
{
    let mut r: Vec<PortIo> = Vec::new();
    r.push(PortIo::OutB(0x03C6, 0xFF));
    r.push(PortIo::OutB(VGA_DAC_WRITE_INDEX, 0x00));
    let mut red: u32 = 0;
    while red < 8
        invariant
            red <= 8,
            r@.len() == 2 + red * 96,
            forall|k: int| 0 <= k < r@.len() ==> r@[k] == palette_8bit_writes()[k],
        decreases 8 - red,
    {
        let mut green: u32 = 0;
        while green < 8
            invariant
                red < 8,
                green <= 8,
                r@.len() == 2 + red * 96 + green * 12,
                forall|k: int| 0 <= k < r@.len() ==> r@[k] == palette_8bit_writes()[k],
            decreases 8 - green,
        {
            let mut blue: u32 = 0;
            while blue < 4
                invariant
                    red < 8,
                    green < 8,
                    blue <= 4,
                    r@.len() == 2 + red * 96 + green * 12 + blue * 3,
                    forall|k: int| 0 <= k < r@.len() ==> r@[k] == palette_8bit_writes()[k],
                decreases 4 - blue,
            {
                let r6 = (red * 63 / 7) as u8;
                let g6 = (green * 63 / 7) as u8;
                let b6 = (blue * 63 / 3) as u8;
                proof {
                    let color = red * 32 + green * 4 + blue;
                    let base = 2 + red * 96 + green * 12 + blue * 3;
                    assert(base == 2 + color * 3);
                    vstd::arithmetic::div_mod::lemma_fundamental_div_mod_converse(color * 3, 3, color as int, 0);
                    vstd::arithmetic::div_mod::lemma_fundamental_div_mod_converse(color * 3 + 1, 3, color as int, 1);
                    vstd::arithmetic::div_mod::lemma_fundamental_div_mod_converse(color * 3 + 2, 3, color as int, 2);
                    vstd::arithmetic::div_mod::lemma_fundamental_div_mod_converse(color as int, 32, red as int, green * 4 + blue);
                    vstd::arithmetic::div_mod::lemma_fundamental_div_mod_converse(color as int, 4, red * 8 + green as int, blue as int);
                    vstd::arithmetic::div_mod::lemma_fundamental_div_mod_converse(red * 8 + green as int, 8, red as int, green as int);
                }
                r.push(PortIo::OutB(VGA_DAC_DATA, r6));
                r.push(PortIo::OutB(VGA_DAC_DATA, g6));
                r.push(PortIo::OutB(VGA_DAC_DATA, b6));
                blue = blue + 1;
            }
            green = green + 1;
        }
        red = red + 1;
    }
    assert(r@ =~= palette_8bit_writes());
    r
}

/// `b` with its bits in reverse order, as the font planes hold glyph rows.
pub fn reverse_bits(b: u8) -> (r: u8)
    ensures
        forall|i: u8| i < 8 ==> #[trigger] ((r >> i) & 1) == (b >> (7 - i) as u8) & 1,
{
    let b1 = (b & 0xF0) >> 4 | (b & 0x0F) << 4;
    let b2 = (b1 & 0xCC) >> 2 | (b1 & 0x33) << 2;
    let b3 = (b2 & 0xAA) >> 1 | (b2 & 0x55) << 1;
    assert(forall|i: u8| i < 8 ==> #[trigger] ((b3 >> i) & 1) == (b >> (7 - i) as u8) & 1) by (bit_vector)
        requires
            b1 == (b & 0xF0) >> 4 | (b & 0x0F) << 4,
            b2 == (b1 & 0xCC) >> 2 | (b1 & 0x33) << 2,
            b3 == (b2 & 0xAA) >> 1 | (b2 & 0x55) << 1,
    ;
    b3
}

} // verus!
