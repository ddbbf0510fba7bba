//! The multiboot2 tag kinds, and the framebuffer and ACPI tags.
use vstd::prelude::*;
use crate::acpi::tables::rsdp::{RSDP, XSDP};
use crate::boot::multiboot::{
    MultibootMemoryMapTag, MultibootModulesTag, MultibootTagBase, multiboot_tag_base_at,
};
use crate::bytes::{le32, le64, read_u32_le, read_u64_le};

verus! {

/// The tag types of multiboot2.
#[derive(Debug, Copy, Clone, PartialEq, Eq, Structural)]
pub enum MultibootTagType {
    BootCommandLine,
    BootloaderName,
    Modules,
    Flags,
    Framebuffer,
    MemoryMap,
    VbeInfo,
    FramebufferInfo,
    ElfSymbols,
    ApmTable,
    Efi32BitSystemTablePointer,
    Efi64BitSystemTablePointer,
    SmbiosTables,
    AcpiOldRsdp,
    AcpiNewRsdp,
    NetworkingInformation,
    EfiMemoryMap,
    EfiBootServicesNotTerminated,
    Efi32BitImageHandlePointer,
    Efi64BitImageHandlePointer,
    ImageLoadBasePhysicalAddress,
}

/// The tag type that a type value names.
pub open spec fn tag_type_of(value: u32) -> Option<MultibootTagType> {
    if value == 1 {
        Some(MultibootTagType::BootCommandLine)
    }     else if value == 2 {
        Some(MultibootTagType::BootloaderName)
    }     else if value == 3 {
        Some(MultibootTagType::Modules)
    }     else if value == 4 {
        Some(MultibootTagType::Flags)
    }     else if value == 5 {
        Some(MultibootTagType::Framebuffer)
    }     else if value == 6 {
        Some(MultibootTagType::MemoryMap)
    }     else if value == 7 {
        Some(MultibootTagType::VbeInfo)
    }     else if value == 8 {
        Some(MultibootTagType::FramebufferInfo)
    }     else if value == 9 {
        Some(MultibootTagType::ElfSymbols)
    }     else if value == 10 {
        Some(MultibootTagType::ApmTable)
    }     else if value == 11 {
        Some(MultibootTagType::Efi32BitSystemTablePointer)
    }     else if value == 12 {
        Some(MultibootTagType::Efi64BitSystemTablePointer)
    }     else if value == 13 {
        Some(MultibootTagType::SmbiosTables)
    }     else if value == 14 {
        Some(MultibootTagType::AcpiOldRsdp)
    }     else if value == 15 {
        Some(MultibootTagType::AcpiNewRsdp)
    }     else if value == 16 {
        Some(MultibootTagType::NetworkingInformation)
    }     else if value == 17 {
        Some(MultibootTagType::EfiMemoryMap)
    }     else if value == 18 {
        Some(MultibootTagType::EfiBootServicesNotTerminated)
    }     else if value == 19 {
        Some(MultibootTagType::Efi32BitImageHandlePointer)
    }     else if value == 20 {
        Some(MultibootTagType::Efi64BitImageHandlePointer)
    }     else if value == 21 {
        Some(MultibootTagType::ImageLoadBasePhysicalAddress)
    } else {
        None
    }
}

/// The type value that names the tag type `t`.
pub open spec fn tag_type_number(t: MultibootTagType) -> u32 {
    match t {
        MultibootTagType::BootCommandLine => 1,
        MultibootTagType::BootloaderName => 2,
        MultibootTagType::Modules => 3,
        MultibootTagType::Flags => 4,
        MultibootTagType::Framebuffer => 5,
        MultibootTagType::MemoryMap => 6,
        MultibootTagType::VbeInfo => 7,
        MultibootTagType::FramebufferInfo => 8,
        MultibootTagType::ElfSymbols => 9,
        MultibootTagType::ApmTable => 10,
        MultibootTagType::Efi32BitSystemTablePointer => 11,
        MultibootTagType::Efi64BitSystemTablePointer => 12,
        MultibootTagType::SmbiosTables => 13,
        MultibootTagType::AcpiOldRsdp => 14,
        MultibootTagType::AcpiNewRsdp => 15,
        MultibootTagType::NetworkingInformation => 16,
        MultibootTagType::EfiMemoryMap => 17,
        MultibootTagType::EfiBootServicesNotTerminated => 18,
        MultibootTagType::Efi32BitImageHandlePointer => 19,
        MultibootTagType::Efi64BitImageHandlePointer => 20,
        MultibootTagType::ImageLoadBasePhysicalAddress => 21,
    }
}

/// A tag type's value names it again, and a value that names a tag type is
/// that type's value: `try_from` and `number` undo each other.
pub proof fn law_tag_type_number_roundtrip(t: MultibootTagType, v: u32)
    ensures
        tag_type_of(tag_type_number(t)) == Some(t),
        tag_type_of(v) == Some(t) ==> tag_type_number(t) == v,
        tag_type_of(v) is Some <==> 1 <= v <= 21,
{
}

impl MultibootTagType {
    /// The type value of this tag type, as the multiboot2 tags carry it.
    pub fn number(&self) -> (n: u32)
        ensures
            n == tag_type_number(*self),
    {
        match self {
            Self::BootCommandLine => 1,
            Self::BootloaderName => 2,
            Self::Modules => 3,
            Self::Flags => 4,
            Self::Framebuffer => 5,
            Self::MemoryMap => 6,
            Self::VbeInfo => 7,
            Self::FramebufferInfo => 8,
            Self::ElfSymbols => 9,
            Self::ApmTable => 10,
            Self::Efi32BitSystemTablePointer => 11,
            Self::Efi64BitSystemTablePointer => 12,
            Self::SmbiosTables => 13,
            Self::AcpiOldRsdp => 14,
            Self::AcpiNewRsdp => 15,
            Self::NetworkingInformation => 16,
            Self::EfiMemoryMap => 17,
            Self::EfiBootServicesNotTerminated => 18,
            Self::Efi32BitImageHandlePointer => 19,
            Self::Efi64BitImageHandlePointer => 20,
            Self::ImageLoadBasePhysicalAddress => 21,
        }
    }

    /// The tag type that `value` names; the value itself back where it
    /// names none.
    pub fn try_from(value: u32) -> (r: Result<Self, u32>)
        ensures
            match tag_type_of(value) {
                Some(t) => r == Ok::<MultibootTagType, u32>(t),
                None => r == Err::<MultibootTagType, u32>(value),
            },
    {
        match value {
            1 => Ok(Self::BootCommandLine),
            2 => Ok(Self::BootloaderName),
            3 => Ok(Self::Modules),
            4 => Ok(Self::Flags),
            5 => Ok(Self::Framebuffer),
            6 => Ok(Self::MemoryMap),
            7 => Ok(Self::VbeInfo),
            8 => Ok(Self::FramebufferInfo),
            9 => Ok(Self::ElfSymbols),
            10 => Ok(Self::ApmTable),
            11 => Ok(Self::Efi32BitSystemTablePointer),
            12 => Ok(Self::Efi64BitSystemTablePointer),
            13 => Ok(Self::SmbiosTables),
            14 => Ok(Self::AcpiOldRsdp),
            15 => Ok(Self::AcpiNewRsdp),
            16 => Ok(Self::NetworkingInformation),
            17 => Ok(Self::EfiMemoryMap),
            18 => Ok(Self::EfiBootServicesNotTerminated),
            19 => Ok(Self::Efi32BitImageHandlePointer),
            20 => Ok(Self::Efi64BitImageHandlePointer),
            21 => Ok(Self::ImageLoadBasePhysicalAddress),
            _ => Err(value),
        }
    }
}

/// The boot loader name tag (type 2): a zero-terminated string follows its
/// header.
pub struct MultibootBootloaderName(pub u8);

/// The framebuffer info tag (type 8).
#[derive(Clone, Copy, Debug)]
pub struct MultibootFramebufferInfoTag {
    pub header: MultibootTagBase,
    pub framebuffer_addr: u64,
    pub framebuffer_pitch: u32,
    pub framebuffer_width: u32,
    pub framebuffer_height: u32,
    pub framebuffer_bpp: u8,
    pub framebuffer_type: u8,
    pub _reserved: u8,
}

/// `v` holds the 31-byte record stored in `s` at `off`.
pub open spec fn multiboot_framebuffer_info_tag_at(v: MultibootFramebufferInfoTag, s: Seq<u8>, off: int) -> bool {
    &&& 0 <= off && off + 31 <= s.len()
    &&& multiboot_tag_base_at(v.header, s, off)
    &&& v.framebuffer_addr == le64(s, off + 8)
    &&& v.framebuffer_pitch == le32(s, off + 16)
    &&& v.framebuffer_width == le32(s, off + 20)
    &&& v.framebuffer_height == le32(s, off + 24)
    &&& v.framebuffer_bpp == s[off + 28]
    &&& v.framebuffer_type == s[off + 29]
    &&& v._reserved == s[off + 30]
}

impl MultibootFramebufferInfoTag {
    /// Size of the record in bytes.
    pub const SIZE: usize = 31;

    /// Decodes the record stored in `data` at `off`.
    pub fn read_from(data: &[u8], off: usize) -> (r: MultibootFramebufferInfoTag)
        requires
            off + 31 <= data@.len(),
        ensures
            multiboot_framebuffer_info_tag_at(r, data@, off as int),
    {
        let _n = data.len();
        MultibootFramebufferInfoTag {
            header: MultibootTagBase::read_from(data, off),
            framebuffer_addr: read_u64_le(data, off + 8),
            framebuffer_pitch: read_u32_le(data, off + 16),
            framebuffer_width: read_u32_le(data, off + 20),
            framebuffer_height: read_u32_le(data, off + 24),
            framebuffer_bpp: data[off + 28],
            framebuffer_type: data[off + 29],
            _reserved: data[off + 30],
        }
    }
}

/// One palette colour.
#[derive(Clone, Copy, Debug)]
pub struct MultibootFbColorDescriptor {
    pub red_value: u8,
    pub green_value: u8,
    pub blue_value: u8,
}

/// `v` holds the 3-byte record stored in `s` at `off`.
pub open spec fn multiboot_fb_color_descriptor_at(v: MultibootFbColorDescriptor, s: Seq<u8>, off: int) -> bool {
    &&& 0 <= off && off + 3 <= s.len()
    &&& v.red_value == s[off]
    &&& v.green_value == s[off + 1]
    &&& v.blue_value == s[off + 2]
}

impl MultibootFbColorDescriptor {
    /// Size of the record in bytes.
    pub const SIZE: usize = 3;

    /// Decodes the record stored in `data` at `off`.
    pub fn read_from(data: &[u8], off: usize) -> (r: MultibootFbColorDescriptor)
        requires
            off + 3 <= data@.len(),
        ensures
            multiboot_fb_color_descriptor_at(r, data@, off as int),
    {
        let _n = data.len();
        MultibootFbColorDescriptor {
            red_value: data[off],
            green_value: data[off + 1],
            blue_value: data[off + 2],
        }
    }
}

/// Where each colour channel lies in a direct colour pixel.
#[derive(Clone, Copy, Debug)]
pub struct MultibootFramebufferRgbInfo {
    pub red_pos: u8,
    pub red_mask_size: u8,
    pub green_pos: u8,
    pub green_mask_size: u8,
    pub blue_pos: u8,
    pub blue_mask_size: u8,
}

/// `v` holds the 6-byte record stored in `s` at `off`.
pub open spec fn multiboot_framebuffer_rgb_info_at(v: MultibootFramebufferRgbInfo, s: Seq<u8>, off: int) -> bool {
    &&& 0 <= off && off + 6 <= s.len()
    &&& v.red_pos == s[off]
    &&& v.red_mask_size == s[off + 1]
    &&& v.green_pos == s[off + 2]
    &&& v.green_mask_size == s[off + 3]
    &&& v.blue_pos == s[off + 4]
    &&& v.blue_mask_size == s[off + 5]
}

impl MultibootFramebufferRgbInfo {
    /// Size of the record in bytes.
    pub const SIZE: usize = 6;

    /// Decodes the record stored in `data` at `off`.
    pub fn read_from(data: &[u8], off: usize) -> (r: MultibootFramebufferRgbInfo)
        requires
            off + 6 <= data@.len(),
        ensures
            multiboot_framebuffer_rgb_info_at(r, data@, off as int),
    {
        let _n = data.len();
        MultibootFramebufferRgbInfo {
            red_pos: data[off],
            red_mask_size: data[off + 1],
            green_pos: data[off + 2],
            green_mask_size: data[off + 3],
            blue_pos: data[off + 4],
            blue_mask_size: data[off + 5],
        }
    }
}

pub const FRAMEBUFFER_TYPE_INDEXED: u8 = 0;
pub const FRAMEBUFFER_TYPE_RGB: u8 = 1;
pub const FRAMEBUFFER_TYPE_EGA_TEXT: u8 = 2;
/// Offset of the colour info in the tag: one byte past the fixed part.
pub const FRAMEBUFFER_COLOR_INFO_OFFSET: usize = 32;

/// How a framebuffer's pixels give colours.
pub enum MultibootFramebufferColorInfo {
    Indexed { num_colors: u32, palette: Vec<MultibootFbColorDescriptor> },
    Rgb { info: MultibootFramebufferRgbInfo },
    EgaText,
    Unknown(u8),
}

/// The colour info of a tag of framebuffer type `t` whose bytes are `s`
/// can be read: the palette, or the channel layout, lies in `s`.
pub open spec fn color_info_fits(t: u8, s: Seq<u8>) -> bool {
    if t == 0 {
        36 <= s.len() && 36 + 3 * le32(s, 32) <= s.len()
    } else if t == 1 {
        38 <= s.len()
    } else {
        true
    }
}

impl MultibootFramebufferInfoTag {
    /// The colour info that follows the fixed part of the tag whose bytes
    /// are `tag`: a palette for indexed colour, the channel layout for
    /// direct colour, nothing for EGA text.
    pub fn color_info(&self, tag: &[u8]) -> (r: MultibootFramebufferColorInfo)
        requires
            color_info_fits(self.framebuffer_type, tag@),
        ensures
            self.framebuffer_type == 0 ==> (r matches MultibootFramebufferColorInfo::Indexed {
                num_colors,
                palette,
            } && num_colors == le32(tag@, 32) && palette@.len() == num_colors && (forall|i: int|
                0 <= i < num_colors ==> multiboot_fb_color_descriptor_at(
                    #[trigger] palette@[i],
                    tag@,
                    36 + 3 * i,
                ))),
            self.framebuffer_type == 1 ==> (r matches MultibootFramebufferColorInfo::Rgb { info }
                && multiboot_framebuffer_rgb_info_at(info, tag@, 32)),
            self.framebuffer_type == 2 ==> r is EgaText,
            self.framebuffer_type > 2 ==> r == MultibootFramebufferColorInfo::Unknown(
                self.framebuffer_type,
            ),
    {
        let _n = tag.len();
        match self.framebuffer_type {
            FRAMEBUFFER_TYPE_INDEXED => {
                let num_colors = read_u32_le(tag, FRAMEBUFFER_COLOR_INFO_OFFSET);
                let mut palette: Vec<MultibootFbColorDescriptor> = Vec::new();
                let mut i: usize = 0;
                while i < num_colors as usize
                    invariant
                        i <= num_colors,
                        36 + 3 * num_colors <= tag@.len(),
                        _n == tag@.len(),
                        palette@.len() == i,
                        forall|k: int|
                            0 <= k < i ==> multiboot_fb_color_descriptor_at(
                                #[trigger] palette@[k],
                                tag@,
                                36 + 3 * k,
                            ),
                    decreases num_colors - i,
                {
                    palette.push(MultibootFbColorDescriptor::read_from(tag, 36 + 3 * i));
                    i = i + 1;
                }
                MultibootFramebufferColorInfo::Indexed { num_colors, palette }
            },
            FRAMEBUFFER_TYPE_RGB => {
                let info = MultibootFramebufferRgbInfo::read_from(tag, FRAMEBUFFER_COLOR_INFO_OFFSET);
                MultibootFramebufferColorInfo::Rgb { info }
            },
            FRAMEBUFFER_TYPE_EGA_TEXT => MultibootFramebufferColorInfo::EgaText,
            other => MultibootFramebufferColorInfo::Unknown(other),
        }
    }
}

/// The ACPI old RSDP tag (type 14): a copy of the ACPI 1.0 root pointer.
pub struct MultibootOldRsdpTag {
    pub header: MultibootTagBase,
    pub copy_of_rsdp: RSDP,
}

/// The ACPI new RSDP tag (type 15): a copy of the extended root pointer.
pub struct MultibootNewRsdpTag {
    pub header: MultibootTagBase,
    pub copy_of_xsdp: XSDP,
}

impl MultibootOldRsdpTag {
    /// Decodes the tag whose bytes are `tag`; `None` where they do not hold
    /// the header and a 20-byte root pointer.
    pub fn new_from_bytes(tag: &[u8]) -> (r: Option<Self>)
        ensures
            r is Some <==> tag@.len() >= 28,
            r matches Some(t) ==> multiboot_tag_base_at(t.header, tag@, 0) && t.copy_of_rsdp@
                == tag@.subrange(8, tag@.len() as int),
    {
        if tag.len() < 28 {
            return None;
        }
        let header = MultibootTagBase::read_from(tag, 0);
        let rest = vstd::slice::slice_to_vec(vstd::slice::slice_subrange(tag, 8, tag.len()));
        match RSDP::parse(rest) {
            Some(copy_of_rsdp) => Some(MultibootOldRsdpTag { header, copy_of_rsdp }),
            None => None,
        }
    }
}

impl MultibootNewRsdpTag {
    /// Decodes the tag whose bytes are `tag`; `None` where they do not hold
    /// the header and a 36-byte extended root pointer.
    pub fn new_from_bytes(tag: &[u8]) -> (r: Option<Self>)
        ensures
            r is Some <==> tag@.len() >= 44,
            r matches Some(t) ==> multiboot_tag_base_at(t.header, tag@, 0) && t.copy_of_xsdp@
                == tag@.subrange(8, tag@.len() as int),
    {
        if tag.len() < 44 {
            return None;
        }
        let header = MultibootTagBase::read_from(tag, 0);
        let rest = vstd::slice::slice_to_vec(vstd::slice::slice_subrange(tag, 8, tag.len()));
        match XSDP::parse(rest) {
            Some(copy_of_xsdp) => Some(MultibootNewRsdpTag { header, copy_of_xsdp }),
            None => None,
        }
    }
}

/// A tag structure and its type value.
pub trait MultibootTagStruct {
    const TAG_TYPE: u32;
}

/// The type value of the tag structure `T`.
pub fn mb_tag_as_u32<T: MultibootTagStruct>() -> (r: u32)
    ensures
        r == T::TAG_TYPE,
{
    T::TAG_TYPE
}

impl MultibootTagStruct for MultibootBootloaderName {
    const TAG_TYPE: u32 = 2;
}

impl MultibootTagStruct for MultibootModulesTag {
    const TAG_TYPE: u32 = 3;
}

impl MultibootTagStruct for MultibootMemoryMapTag {
    const TAG_TYPE: u32 = 6;
}

impl MultibootTagStruct for MultibootFramebufferInfoTag {
    const TAG_TYPE: u32 = 8;
}

impl MultibootTagStruct for MultibootOldRsdpTag {
    const TAG_TYPE: u32 = 14;
}

impl MultibootTagStruct for MultibootNewRsdpTag {
    const TAG_TYPE: u32 = 15;
}

} // verus!
