//! Plain-value models of the CPU state the collaborators hand in: vendor
//! identification, extended-state (XSAVE) capability lists, and the saved
//! FPU/vector register areas the FPU pane displays.

use vstd::prelude::*;
use crate::scroll::ScrollHints;

verus! {

/// Character-by-character string equality.
pub fn str_eq(a: &str, b: &str) -> (r: bool)
    ensures
        r == (a@ == b@),
{
    let al = a.unicode_len();
    let bl = b.unicode_len();
    if al != bl {
        return false;
    }
    let mut i: usize = 0;
    while i < al
        invariant
            i <= al,
            al == a@.len(),
            al == b@.len(),
            forall|k: int| 0 <= k < i ==> a@[k] == b@[k],
        decreases al - i,
    {
        if a.get_char(i) != b.get_char(i) {
            return false;
        }
        i = i + 1;
    }
    proof {
        assert(a@ =~= b@);
    }
    true
}

/// Which vendor the CPUID vendor string names.
pub struct VendorInfo {
    pub intel: bool,
    pub amd: bool,
}

/// Classify a CPUID vendor string.
pub fn build_vendor_info(vendor: &str) -> (r: VendorInfo)
    ensures
        r.intel == (vendor@ == "GenuineIntel"@),
        r.amd == (vendor@ == "AuthenticAMD"@),
{
    let intel = str_eq(vendor, "GenuineIntel");
    let amd = str_eq(vendor, "AuthenticAMD");
    VendorInfo { intel, amd }
}

/// The extended-state capabilities a CPU reports: named support flags and
/// named area sizes.
pub struct ExtendedStateFeatures {
    pub supports: Vec<(&'static str, bool)>,
    pub sizes: Vec<(&'static str, u32)>,
}

impl ExtendedStateFeatures {
    pub fn new(supports: Vec<(&'static str, bool)>, sizes: Vec<(&'static str, u32)>) -> (r: Self)
        ensures
            r.supports@ == supports@,
            r.sizes@ == sizes@,
    {
        ExtendedStateFeatures { supports, sizes }
    }

    pub fn supports(&self) -> (r: &Vec<(&'static str, bool)>)
        ensures
            r@ == self.supports@,
    {
        &self.supports
    }

    pub fn sizes(&self) -> (r: &Vec<(&'static str, u32)>)
        ensures
            r@ == self.sizes@,
    {
        &self.sizes
    }
}

/// The 512-byte FXSAVE layout: x87 control words, MXCSR, and the x87/MMX
/// and XMM register images.
pub struct FxSaveArea {
    pub fcw: u16,
    pub fsw: u16,
    pub ftw: u8,
    pub reserved1: u8,
    pub fop: u16,
    pub fip: u64,
    pub fdp: u64,
    pub mxcsr: u32,
    pub mxcsr_mask: u32,
    pub st_mm: [[u8; 16]; 8],
    pub xmm: [[u8; 16]; 16],
    pub rest: [u8; 96],
}

/// An FXSAVE area as the platform's save instruction fills it (the
/// alignment the instruction wants is the platform layer's concern).
pub struct FxSaveAligned(pub FxSaveArea);

impl FxSaveAligned {
    pub fn new_zeroed() -> (r: Self)
        ensures
            r.0.fcw == 0 && r.0.fsw == 0 && r.0.ftw == 0 && r.0.fop == 0,
            r.0.fip == 0 && r.0.fdp == 0 && r.0.mxcsr == 0 && r.0.mxcsr_mask == 0,
            forall|i: int, j: int| 0 <= i < 8 && 0 <= j < 16 ==> r.0.st_mm@[i]@[j] == 0,
            forall|i: int, j: int| 0 <= i < 16 && 0 <= j < 16 ==> r.0.xmm@[i]@[j] == 0,
            forall|i: int| 0 <= i < 96 ==> r.0.rest@[i] == 0,
    {
        FxSaveAligned(
            FxSaveArea {
                fcw: 0,
                fsw: 0,
                ftw: 0,
                reserved1: 0,
                fop: 0,
                fip: 0,
                fdp: 0,
                mxcsr: 0,
                mxcsr_mask: 0,
                st_mm: [[0; 16]; 8],
                xmm: [[0; 16]; 16],
                rest: [0; 96],
            },
        )
    }
}

/// The sixteen 256-bit YMM registers.
pub struct YmmRegisters {
    pub ymm: [[u8; 32]; 16],
}

impl YmmRegisters {
    pub fn new_zeroed() -> (r: Self)
        ensures
            forall|i: int, j: int| 0 <= i < 16 && 0 <= j < 32 ==> r.ymm@[i]@[j] == 0,
    {
        YmmRegisters { ymm: [[0; 32]; 16] }
    }
}

/// The FPU pane: its scroll state and whether the CPU offers AVX2 (and so
/// the YMM register display).
pub struct FpuState {
    pub scroll: ScrollHints,
    pub has_avx2: bool,
}

impl FpuState {
    pub fn new(has_avx2: bool) -> (r: Self)
        ensures
            r.scroll.max_offset == 0 && r.scroll.y_offset == 0 && r.scroll.page_height == 0,
            r.has_avx2 == has_avx2,
            r.scroll.wf(),
    {
        FpuState { scroll: ScrollHints::new(), has_avx2 }
    }
}

/// The XSAVE pane: the raw CPUID leaves it reports and whether XSAVE is
/// available at all.
pub struct XsaveState {
    pub leaf_0x1_0: [u32; 4],
    pub leaf_0xd_0: [u32; 4],
    pub leaf_0xd_1: [u32; 4],
    pub has_xsave: bool,
}

impl XsaveState {
    pub fn new(
        leaf_0x1_0: [u32; 4],
        leaf_0xd_0: [u32; 4],
        leaf_0xd_1: [u32; 4],
        has_xsave: bool,
    ) -> (r: Self)
        ensures
            r.leaf_0x1_0 == leaf_0x1_0,
            r.leaf_0xd_0 == leaf_0xd_0,
            r.leaf_0xd_1 == leaf_0xd_1,
            r.has_xsave == has_xsave,
    {
        XsaveState { leaf_0x1_0, leaf_0xd_0, leaf_0xd_1, has_xsave }
    }
}

} // verus!
