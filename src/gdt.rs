use vstd::prelude::*;
use x86_64::structures::gdt::{Descriptor, GlobalDescriptorTable, SegmentSelector};
use x86_64::structures::tss::TaskStateSegment;

verus! {

/// Number of 64-bit words a global descriptor table can hold.
pub const GDT_CAPACITY: usize = 8;

/// Encoding of a flat 64-bit kernel code segment: present, ring 0,
/// executable, readable, long mode, 4 KiB granularity, full limit.
pub const KERNEL_CODE64: u64 = 0x00af_9b00_0000_ffff;

/// Limit of a task state segment descriptor: the segment's size minus one.
pub const TSS_LIMIT: u64 = 0x67;

#[verifier::external_type_specification]
#[verifier::external_body]
pub struct ExGlobalDescriptorTable(GlobalDescriptorTable);

#[verifier::external_type_specification]
pub struct ExDescriptor(Descriptor);

#[verifier::external_type_specification]
pub struct ExSegmentSelector(SegmentSelector);

/// The 64-bit words held by a descriptor table, the null entry first.
pub uninterp spec fn gdt_entries(t: GlobalDescriptorTable) -> Seq<u64>;

/// The words a descriptor occupies in the table, in order.
pub open spec fn descriptor_words(d: Descriptor) -> Seq<u64> {
    match d {
        Descriptor::UserSegment(v) => seq![v],
        Descriptor::SystemSegment(lo, hi) => seq![lo, hi],
    }
}

/// The privilege level written in a descriptor (bits 45 and 46 of its
/// first word).
pub open spec fn descriptor_dpl(d: Descriptor) -> u16 {
    let lo = match d {
        Descriptor::UserSegment(v) => v,
        Descriptor::SystemSegment(lo, _) => lo,
    };
    ((lo & (3u64 << 45u64)) >> 45u64) as u16
}

/// The selector of table entry `index` with requested privilege `rpl`.
pub open spec fn selector_for(index: int, rpl: u16) -> SegmentSelector {
    SegmentSelector(((index as u16) << 3u16) | rpl)
}

/// The table entry a selector points at.
pub open spec fn selector_index(s: SegmentSelector) -> int {
    (s.0 >> 3u16) as int
}

/// The privilege level a selector requests.
pub open spec fn selector_rpl(s: SegmentSelector) -> u16 {
    s.0 & 7u16
}

/// First word of an available 64-bit TSS descriptor in ring 0: limit
/// `TSS_LIMIT`, type 0b1001, present, no other flag set.
pub open spec fn is_tss_descriptor_low(lo: u64) -> bool {
    &&& lo & 0xffffu64 == TSS_LIMIT
    &&& (lo >> 40u64) & 0xffffu64 == 0x89u64
}

/// Second word of a TSS descriptor: only the upper half of the base, so
/// bits 32 to 63 are clear.
pub open spec fn is_tss_descriptor_high(hi: u64) -> bool {
    hi >> 32u64 == 0
}

/// A two-word system descriptor shaped as a TSS descriptor.
pub open spec fn is_tss_descriptor(d: Descriptor) -> bool {
    match d {
        Descriptor::SystemSegment(lo, hi) => is_tss_descriptor_low(lo) && is_tss_descriptor_high(hi),
        Descriptor::UserSegment(_) => false,
    }
}

/// Relies on GlobalDescriptorTable::new: the table holds only the null
/// entry.
pub assume_specification[ GlobalDescriptorTable::new ]() -> (r: GlobalDescriptorTable)
    ensures
        gdt_entries(r) == seq![0u64],
;

/// Relies on GlobalDescriptorTable::add_entry: the descriptor's words are
/// appended, and the selector holds the index of the first one and the
/// descriptor's privilege level.  It panics when the words do not fit.
pub assume_specification[ GlobalDescriptorTable::add_entry ](
    gdt: &mut GlobalDescriptorTable,
    entry: Descriptor,
) -> (r: SegmentSelector)
    requires
        gdt_entries(*old(gdt)).len() + descriptor_words(entry).len() <= GDT_CAPACITY,
    ensures
        gdt_entries(*final(gdt)) == gdt_entries(*old(gdt)) + descriptor_words(entry),
        r == selector_for(gdt_entries(*old(gdt)).len() as int, descriptor_dpl(entry)),
;

/// Relies on Descriptor::kernel_code_segment: a single word holding the
/// flags of a 64-bit ring-0 code segment.
pub assume_specification[ Descriptor::kernel_code_segment ]() -> (r: Descriptor)
    ensures
        r == Descriptor::UserSegment(KERNEL_CODE64),
;

/// Relies on Descriptor::tss_segment: a two-word system descriptor whose
/// fields other than the segment's address are fixed.  The address itself
/// depends on where the segment lives.
pub assume_specification[ Descriptor::tss_segment ](tss: &'static TaskStateSegment) -> (r: Descriptor)
    ensures
        is_tss_descriptor(r),
;

/// The selectors of the two descriptors that `build_gdt` appends.
#[derive(Clone, Copy, Debug)]
pub struct Selectors {
    pub code_selector: SegmentSelector,
    pub tss_selector: SegmentSelector,
}

/// The fixed layout of the boot descriptor table: the null entry, the kernel
/// code segment, then the two words of the TSS descriptor.
pub open spec fn is_boot_layout(entries: Seq<u64>) -> bool {
    &&& entries.len() == 4
    &&& entries[0] == 0
    &&& entries[1] == KERNEL_CODE64
    &&& is_tss_descriptor_low(entries[2])
    &&& is_tss_descriptor_high(entries[3])
}

/// The selectors fit the boot layout: the code selector names entry 1 and
/// the TSS selector entry 2, both with privilege level 0.
pub open spec fn selectors_fit(s: Selectors) -> bool {
    &&& s.code_selector == selector_for(1, 0)
    &&& s.tss_selector == selector_for(2, 0)
    &&& selector_index(s.code_selector) == 1
    &&& selector_index(s.tss_selector) == 2
    &&& selector_rpl(s.code_selector) == 0
    &&& selector_rpl(s.tss_selector) == 0
}

/// Builds the descriptor table for `tss` and the selectors of its entries.
pub fn build_gdt(tss: &'static TaskStateSegment) -> (r: (GlobalDescriptorTable, Selectors))
    ensures
        is_boot_layout(gdt_entries(r.0)),
        selectors_fit(r.1),
{
    let mut gdt = GlobalDescriptorTable::new();
    let code = Descriptor::kernel_code_segment();
    let code_selector = gdt.add_entry(code);
    let task = Descriptor::tss_segment(tss);
    let tss_selector = gdt.add_entry(task);
    proof {
        assert(((KERNEL_CODE64 & (3u64 << 45u64)) >> 45u64) == 0) by (bit_vector);
        if let Descriptor::SystemSegment(lo, hi) = task {
            assert(((lo >> 40u64) & 0xffffu64 == 0x89u64) ==> ((lo & (3u64 << 45u64)) >> 45u64)
                == 0) by (bit_vector);
        }
        assert(((1u16 << 3u16) | 0u16) >> 3u16 == 1u16 && (((1u16 << 3u16) | 0u16) & 7u16)
            == 0u16) by (bit_vector);
        assert(((2u16 << 3u16) | 0u16) >> 3u16 == 2u16 && (((2u16 << 3u16) | 0u16) & 7u16)
            == 0u16) by (bit_vector);
    }
    (gdt, Selectors { code_selector, tss_selector })
}

/// Two tables with the boot layout agree entry for entry on the null entry
/// and the kernel code segment, have the same length, and hold a TSS
/// descriptor at the same place: the layout does not vary between builds.
pub proof fn lemma_boot_layout_fixed(a: Seq<u64>, b: Seq<u64>)
    requires
        is_boot_layout(a),
        is_boot_layout(b),
    ensures
        a.len() == b.len(),
        a[0] == b[0] && a[0] == 0,
        a[1] == b[1] && a[1] == KERNEL_CODE64,
        is_tss_descriptor_low(a[2]) && is_tss_descriptor_low(b[2]),
        a[2] & 0xffffu64 == b[2] & 0xffffu64,
        (a[2] >> 40u64) & 0xffffu64 == (b[2] >> 40u64) & 0xffffu64,
{
}

} // verus!
