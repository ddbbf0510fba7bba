//! The processor identification that CPUID leaves 1 and 0x8000_0001 give:
//! family, model and stepping, and the feature flags.
use vstd::prelude::*;

verus! {

/// The four registers that one CPUID leaf returns.
#[derive(Clone, Copy, Debug, PartialEq, Eq, Structural)]
pub struct CpuidRegs {
    pub eax: u32,
    pub ebx: u32,
    pub ecx: u32,
    pub edx: u32,
}

/// The results of CPUID leaf 1 (`base`) and leaf 0x8000_0001 (`extended`).
#[derive(Clone, Copy, Debug, PartialEq, Eq, Structural)]
pub struct CpuId {
    pub base: CpuidRegs,
    pub extended: CpuidRegs,
}

/// The family that software should use: the base family, plus the extended
/// family where the base family is 0xF.
pub open spec fn actual_family_spec(eax: u32) -> u32 {
    let family = ((eax >> 8u32) & 0xF) as u8;
    if family == 0x0F {
        (family + ((eax >> 20u32) & 0xFF) as u8) as u32
    } else {
        family as u32
    }
}

/// The model that software should use: the extended model above the base
/// model for families 6 and 0xF, else the base model.
pub open spec fn actual_model_spec(eax: u32) -> u32 {
    let family = ((eax >> 8u32) & 0xF) as u8;
    let model = (((eax >> 4u32) & 0xF) as u8) as u32;
    if family == 0x06 || family == 0x0F {
        (((((eax >> 16u32) & 0xF) as u8) as u32) << 4u32) | model
    } else {
        model
    }
}

impl CpuId {
    pub fn new(base: CpuidRegs, extended: CpuidRegs) -> (r: Self)
        ensures
            r.base == base,
            r.extended == extended,
    {
        CpuId { base, extended }
    }

    pub fn stepping_id(&self) -> (r: u8)
        ensures
            r == (self.base.eax & 0xF) as u8,
    {
        (self.base.eax & 0xF) as u8
    }

    pub fn model(&self) -> (r: u8)
        ensures
            r == ((self.base.eax >> 4u32) & 0xF) as u8,
    {
        ((self.base.eax >> 4) & 0xF) as u8
    }

    pub fn family_id(&self) -> (r: u8)
        ensures
            r == ((self.base.eax >> 8u32) & 0xF) as u8,
    {
        ((self.base.eax >> 8) & 0xF) as u8
    }

    pub fn processor_type(&self) -> (r: u8)
        ensures
            r == ((self.base.eax >> 12u32) & 0x3) as u8,
    {
        ((self.base.eax >> 12) & 0x3) as u8
    }

    pub fn extended_model_id(&self) -> (r: u8)
        ensures
            r == ((self.base.eax >> 16u32) & 0xF) as u8,
    {
        ((self.base.eax >> 16) & 0xF) as u8
    }

    pub fn extended_family_id(&self) -> (r: u8)
        ensures
            r == ((self.base.eax >> 20u32) & 0xFF) as u8,
    {
        ((self.base.eax >> 20) & 0xFF) as u8
    }

    pub fn brand_index(&self) -> (r: u8)
        ensures
            r == (self.base.ebx & 0xFF) as u8,
    {
        (self.base.ebx & 0xFF) as u8
    }

    pub fn clflush_line_size(&self) -> (r: u8)
        ensures
            r == ((self.base.ebx >> 8u32) & 0xFF) as u8,
    {
        ((self.base.ebx >> 8) & 0xFF) as u8
    }

    pub fn apic_id_space(&self) -> (r: u8)
        ensures
            r == ((self.base.ebx >> 16u32) & 0xFF) as u8,
    {
        ((self.base.ebx >> 16) & 0xFF) as u8
    }

    pub fn initial_apic_id(&self) -> (r: u8)
        ensures
            r == ((self.base.ebx >> 24u32) & 0xFF) as u8,
    {
        ((self.base.ebx >> 24) & 0xFF) as u8
    }

    pub fn actual_family(&self) -> (r: u32)
        ensures
            r == actual_family_spec(self.base.eax),
    {
        let family = self.family_id() as u32;
        if family == 0x0F {
            family + self.extended_family_id() as u32
        } else {
            family
        }
    }

    pub fn actual_model(&self) -> (r: u32)
        ensures
            r == actual_model_spec(self.base.eax),
    {
        let family = self.family_id();
        let model = self.model() as u32;
        if family == 0x06 || family == 0x0F {
            ((self.extended_model_id() as u32) << 4) | model
        } else {
            model
        }
    }

    pub fn has_sse3(&self) -> (r: bool)
        ensures
            r == (self.base.ecx & 0x1 != 0),
    {
        (self.base.ecx & 0x1) != 0
    }

    pub fn has_pclmul(&self) -> (r: bool)
        ensures
            r == (self.base.ecx & 0x2 != 0),
    {
        (self.base.ecx & 0x2) != 0
    }

    pub fn has_dtes64(&self) -> (r: bool)
        ensures
            r == (self.base.ecx & 0x4 != 0),
    {
        (self.base.ecx & 0x4) != 0
    }

    pub fn has_monitor(&self) -> (r: bool)
        ensures
            r == (self.base.ecx & 0x8 != 0),
    {
        (self.base.ecx & 0x8) != 0
    }

    pub fn has_ds_cpl(&self) -> (r: bool)
        ensures
            r == (self.base.ecx & 0x10 != 0),
    {
        (self.base.ecx & 0x10) != 0
    }

    pub fn has_vmx(&self) -> (r: bool)
        ensures
            r == (self.base.ecx & 0x20 != 0),
    {
        (self.base.ecx & 0x20) != 0
    }

    pub fn has_smx(&self) -> (r: bool)
        ensures
            r == (self.base.ecx & 0x40 != 0),
    {
        (self.base.ecx & 0x40) != 0
    }

    pub fn has_est(&self) -> (r: bool)
        ensures
            r == (self.base.ecx & 0x80 != 0),
    {
        (self.base.ecx & 0x80) != 0
    }

    pub fn has_tm2(&self) -> (r: bool)
        ensures
            r == (self.base.ecx & 0x100 != 0),
    {
        (self.base.ecx & 0x100) != 0
    }

    pub fn has_ssse3(&self) -> (r: bool)
        ensures
            r == (self.base.ecx & 0x200 != 0),
    {
        (self.base.ecx & 0x200) != 0
    }

    pub fn has_cid(&self) -> (r: bool)
        ensures
            r == (self.base.ecx & 0x400 != 0),
    {
        (self.base.ecx & 0x400) != 0
    }

    pub fn has_sdbg(&self) -> (r: bool)
        ensures
            r == (self.base.ecx & 0x800 != 0),
    {
        (self.base.ecx & 0x800) != 0
    }

    pub fn has_fma(&self) -> (r: bool)
        ensures
            r == (self.base.ecx & 0x1000 != 0),
    {
        (self.base.ecx & 0x1000) != 0
    }

    pub fn has_cx16(&self) -> (r: bool)
        ensures
            r == (self.base.ecx & 0x2000 != 0),
    {
        (self.base.ecx & 0x2000) != 0
    }

    pub fn has_xtpr(&self) -> (r: bool)
        ensures
            r == (self.base.ecx & 0x4000 != 0),
    {
        (self.base.ecx & 0x4000) != 0
    }

    pub fn has_pdcm(&self) -> (r: bool)
        ensures
            r == (self.base.ecx & 0x8000 != 0),
    {
        (self.base.ecx & 0x8000) != 0
    }

    pub fn has_pcid(&self) -> (r: bool)
        ensures
            r == (self.base.ecx & 0x20000 != 0),
    {
        (self.base.ecx & 0x20000) != 0
    }

    pub fn has_dca(&self) -> (r: bool)
        ensures
            r == (self.base.ecx & 0x40000 != 0),
    {
        (self.base.ecx & 0x40000) != 0
    }

    pub fn has_sse4_1(&self) -> (r: bool)
        ensures
            r == (self.base.ecx & 0x80000 != 0),
    {
        (self.base.ecx & 0x80000) != 0
    }

    pub fn has_sse4_2(&self) -> (r: bool)
        ensures
            r == (self.base.ecx & 0x100000 != 0),
    {
        (self.base.ecx & 0x100000) != 0
    }

    pub fn has_x2apic(&self) -> (r: bool)
        ensures
            r == (self.base.ecx & 0x200000 != 0),
    {
        (self.base.ecx & 0x200000) != 0
    }

    pub fn has_movbe(&self) -> (r: bool)
        ensures
            r == (self.base.ecx & 0x400000 != 0),
    {
        (self.base.ecx & 0x400000) != 0
    }

    pub fn has_popcnt(&self) -> (r: bool)
        ensures
            r == (self.base.ecx & 0x800000 != 0),
    {
        (self.base.ecx & 0x800000) != 0
    }

    pub fn has_tsc_deadline(&self) -> (r: bool)
        ensures
            r == (self.base.ecx & 0x1000000 != 0),
    {
        (self.base.ecx & 0x1000000) != 0
    }

    pub fn has_aes(&self) -> (r: bool)
        ensures
            r == (self.base.ecx & 0x2000000 != 0),
    {
        (self.base.ecx & 0x2000000) != 0
    }

    pub fn has_xsave(&self) -> (r: bool)
        ensures
            r == (self.base.ecx & 0x4000000 != 0),
    {
        (self.base.ecx & 0x4000000) != 0
    }

    pub fn has_osxsave(&self) -> (r: bool)
        ensures
            r == (self.base.ecx & 0x8000000 != 0),
    {
        (self.base.ecx & 0x8000000) != 0
    }

    pub fn has_avx(&self) -> (r: bool)
        ensures
            r == (self.base.ecx & 0x10000000 != 0),
    {
        (self.base.ecx & 0x10000000) != 0
    }

    pub fn has_f16c(&self) -> (r: bool)
        ensures
            r == (self.base.ecx & 0x20000000 != 0),
    {
        (self.base.ecx & 0x20000000) != 0
    }

    pub fn has_rdrand(&self) -> (r: bool)
        ensures
            r == (self.base.ecx & 0x40000000 != 0),
    {
        (self.base.ecx & 0x40000000) != 0
    }

    pub fn has_hypervisor(&self) -> (r: bool)
        ensures
            r == (self.base.ecx & 0x80000000 != 0),
    {
        (self.base.ecx & 0x80000000) != 0
    }

    pub fn has_fpu(&self) -> (r: bool)
        ensures
            r == (self.base.edx & 0x1 != 0),
    {
        (self.base.edx & 0x1) != 0
    }

    pub fn has_vme(&self) -> (r: bool)
        ensures
            r == (self.base.edx & 0x2 != 0),
    {
        (self.base.edx & 0x2) != 0
    }

    pub fn has_de(&self) -> (r: bool)
        ensures
            r == (self.base.edx & 0x4 != 0),
    {
        (self.base.edx & 0x4) != 0
    }

    pub fn has_pse(&self) -> (r: bool)
        ensures
            r == (self.base.edx & 0x8 != 0),
    {
        (self.base.edx & 0x8) != 0
    }

    pub fn has_tsc(&self) -> (r: bool)
        ensures
            r == (self.base.edx & 0x10 != 0),
    {
        (self.base.edx & 0x10) != 0
    }

    pub fn has_msr(&self) -> (r: bool)
        ensures
            r == (self.base.edx & 0x20 != 0),
    {
        (self.base.edx & 0x20) != 0
    }

    pub fn has_pae(&self) -> (r: bool)
        ensures
            r == (self.base.edx & 0x40 != 0),
    {
        (self.base.edx & 0x40) != 0
    }

    pub fn has_mce(&self) -> (r: bool)
        ensures
            r == (self.base.edx & 0x80 != 0),
    {
        (self.base.edx & 0x80) != 0
    }

    pub fn has_cx8(&self) -> (r: bool)
        ensures
            r == (self.base.edx & 0x100 != 0),
    {
        (self.base.edx & 0x100) != 0
    }

    pub fn has_apic(&self) -> (r: bool)
        ensures
            r == (self.base.edx & 0x200 != 0),
    {
        (self.base.edx & 0x200) != 0
    }

    pub fn has_sep(&self) -> (r: bool)
        ensures
            r == (self.base.edx & 0x800 != 0),
    {
        (self.base.edx & 0x800) != 0
    }

    pub fn has_mtrr(&self) -> (r: bool)
        ensures
            r == (self.base.edx & 0x1000 != 0),
    {
        (self.base.edx & 0x1000) != 0
    }

    pub fn has_pge(&self) -> (r: bool)
        ensures
            r == (self.base.edx & 0x2000 != 0),
    {
        (self.base.edx & 0x2000) != 0
    }

    pub fn has_mca(&self) -> (r: bool)
        ensures
            r == (self.base.edx & 0x4000 != 0),
    {
        (self.base.edx & 0x4000) != 0
    }

    pub fn has_cmov(&self) -> (r: bool)
        ensures
            r == (self.base.edx & 0x8000 != 0),
    {
        (self.base.edx & 0x8000) != 0
    }

    pub fn has_pat(&self) -> (r: bool)
        ensures
            r == (self.base.edx & 0x10000 != 0),
    {
        (self.base.edx & 0x10000) != 0
    }

    pub fn has_pse36(&self) -> (r: bool)
        ensures
            r == (self.base.edx & 0x20000 != 0),
    {
        (self.base.edx & 0x20000) != 0
    }

    pub fn has_psn(&self) -> (r: bool)
        ensures
            r == (self.base.edx & 0x40000 != 0),
    {
        (self.base.edx & 0x40000) != 0
    }

    pub fn has_clflush(&self) -> (r: bool)
        ensures
            r == (self.base.edx & 0x80000 != 0),
    {
        (self.base.edx & 0x80000) != 0
    }

    pub fn has_ds(&self) -> (r: bool)
        ensures
            r == (self.base.edx & 0x200000 != 0),
    {
        (self.base.edx & 0x200000) != 0
    }

    pub fn has_acpi(&self) -> (r: bool)
        ensures
            r == (self.base.edx & 0x400000 != 0),
    {
        (self.base.edx & 0x400000) != 0
    }

    pub fn has_mmx(&self) -> (r: bool)
        ensures
            r == (self.base.edx & 0x800000 != 0),
    {
        (self.base.edx & 0x800000) != 0
    }

    pub fn has_fxsr(&self) -> (r: bool)
        ensures
            r == (self.base.edx & 0x1000000 != 0),
    {
        (self.base.edx & 0x1000000) != 0
    }

    pub fn has_sse(&self) -> (r: bool)
        ensures
            r == (self.base.edx & 0x2000000 != 0),
    {
        (self.base.edx & 0x2000000) != 0
    }

    pub fn has_sse2(&self) -> (r: bool)
        ensures
            r == (self.base.edx & 0x4000000 != 0),
    {
        (self.base.edx & 0x4000000) != 0
    }

    pub fn has_ss(&self) -> (r: bool)
        ensures
            r == (self.base.edx & 0x8000000 != 0),
    {
        (self.base.edx & 0x8000000) != 0
    }

    pub fn has_htt(&self) -> (r: bool)
        ensures
            r == (self.base.edx & 0x10000000 != 0),
    {
        (self.base.edx & 0x10000000) != 0
    }

    pub fn has_tm(&self) -> (r: bool)
        ensures
            r == (self.base.edx & 0x20000000 != 0),
    {
        (self.base.edx & 0x20000000) != 0
    }

    pub fn has_ia64(&self) -> (r: bool)
        ensures
            r == (self.base.edx & 0x40000000 != 0),
    {
        (self.base.edx & 0x40000000) != 0
    }

    pub fn has_pbe(&self) -> (r: bool)
        ensures
            r == (self.base.edx & 0x80000000 != 0),
    {
        (self.base.edx & 0x80000000) != 0
    }

    /// 1 GiB pages, bit 26 of EDX of the extended leaf.
    pub fn has_pdpe1gb(&self) -> (r: bool)
        ensures
            r == (self.extended.edx & 0x4000000 != 0),
    {
        (self.extended.edx & 0x4000000) != 0
    }
}

} // verus!
