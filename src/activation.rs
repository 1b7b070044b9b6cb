use vstd::prelude::*;
use x86_64::structures::gdt::SegmentSelector;
use crate::gdt::{is_boot_layout, is_tss_descriptor_low, selector_index, selectors_fit, Selectors};

verus! {

/// One privileged step of bringing the descriptor tables into use.
#[derive(Clone, Copy, Debug)]
pub enum PrivilegedOp {
    /// Load the descriptor table register with the table.
    LoadTable,
    /// Reload the code segment register with the selector.
    SetCode(SegmentSelector),
    /// Load the task register with the selector.
    LoadTask(SegmentSelector),
}

/// The segmentation state of the CPU that the privileged steps change.
#[derive(Clone, Copy, Debug)]
pub struct SegmentRegisters {
    /// Whether the descriptor table register points at the new table.
    pub table_loaded: bool,
    /// The code segment register.
    pub code: SegmentSelector,
    /// The task register.
    pub task: SegmentSelector,
}

/// A code segment descriptor word: a present, executable user segment.
pub open spec fn is_code_descriptor(w: u64) -> bool {
    (w >> 43u64) & 1 == 1 && (w >> 44u64) & 1 == 1 && (w >> 47u64) & 1 == 1
}

/// Whether `op` may run on `regs` once `entries` is the table to be loaded:
/// a selector may only be used after the table is loaded, and must name a
/// descriptor of the right kind in it.
pub open spec fn op_allowed(regs: SegmentRegisters, op: PrivilegedOp, entries: Seq<u64>) -> bool {
    match op {
        PrivilegedOp::LoadTable => true,
        PrivilegedOp::SetCode(s) => regs.table_loaded && 0 < selector_index(s) < entries.len()
            && is_code_descriptor(entries[selector_index(s)]),
        PrivilegedOp::LoadTask(s) => regs.table_loaded && 0 < selector_index(s) && selector_index(s)
            + 1 < entries.len() && is_tss_descriptor_low(entries[selector_index(s)]),
    }
}

/// The registers after `op` runs.
pub open spec fn perform(regs: SegmentRegisters, op: PrivilegedOp) -> SegmentRegisters {
    match op {
        PrivilegedOp::LoadTable => SegmentRegisters { table_loaded: true, ..regs },
        PrivilegedOp::SetCode(s) => SegmentRegisters { code: s, ..regs },
        PrivilegedOp::LoadTask(s) => SegmentRegisters { task: s, ..regs },
    }
}

/// The registers after `ops` run in order.
pub open spec fn perform_all(regs: SegmentRegisters, ops: Seq<PrivilegedOp>) -> SegmentRegisters
    decreases ops.len(),
{
    if ops.len() == 0 {
        regs
    } else {
        perform_all(perform(regs, ops[0]), ops.drop_first())
    }
}

/// Whether each of `ops` is allowed at the point where it runs.
pub open spec fn all_allowed(regs: SegmentRegisters, ops: Seq<PrivilegedOp>, entries: Seq<u64>) -> bool
    decreases ops.len(),
{
    ops.len() == 0 || (op_allowed(regs, ops[0], entries) && all_allowed(
        perform(regs, ops[0]),
        ops.drop_first(),
        entries,
    ))
}

/// The activation order: load the table, then the code segment, then the
/// task register.
pub open spec fn activation_order(s: Selectors) -> Seq<PrivilegedOp> {
    seq![
        PrivilegedOp::LoadTable,
        PrivilegedOp::SetCode(s.code_selector),
        PrivilegedOp::LoadTask(s.tss_selector),
    ]
}

/// The privileged steps that put a built table and its selectors into use,
/// in the order in which they must run.
pub fn activation_sequence(selectors: &Selectors) -> (r: Vec<PrivilegedOp>)
    ensures
        r@ == activation_order(*selectors),
{
    let mut ops: Vec<PrivilegedOp> = Vec::new();
    ops.push(PrivilegedOp::LoadTable);
    ops.push(PrivilegedOp::SetCode(selectors.code_selector));
    ops.push(PrivilegedOp::LoadTask(selectors.tss_selector));
    assert(ops@ =~= activation_order(*selectors));
    ops
}

/// Running the activation sequence for a table with the boot layout and the
/// selectors built with it is allowed at every step, whatever the registers
/// held before, and leaves the table loaded, the code segment register equal
/// to the code selector and the task register equal to the TSS selector.
pub proof fn lemma_activation_installs_selectors(
    regs: SegmentRegisters,
    entries: Seq<u64>,
    s: Selectors,
)
    requires
        is_boot_layout(entries),
        selectors_fit(s),
    ensures
        all_allowed(regs, activation_order(s), entries),
        perform_all(regs, activation_order(s)).table_loaded,
        perform_all(regs, activation_order(s)).code == s.code_selector,
        perform_all(regs, activation_order(s)).task == s.tss_selector,
{
    let ops = activation_order(s);
    assert(((0x00af_9b00_0000_ffffu64 >> 43u64) & 1 == 1) && ((0x00af_9b00_0000_ffffu64 >> 44u64) & 1 == 1)
        && ((0x00af_9b00_0000_ffffu64 >> 47u64) & 1 == 1)) by (bit_vector);
    assert(ops.drop_first().drop_first().drop_first() =~= Seq::<PrivilegedOp>::empty());
    reveal_with_fuel(perform_all, 4);
    reveal_with_fuel(all_allowed, 4);
    assert(ops.drop_first()[0] == ops[1]);
    assert(ops.drop_first().drop_first()[0] == ops[2]);
}

} // verus!
