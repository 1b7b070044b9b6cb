use vstd::prelude::*;
use x86_64::structures::tss::TaskStateSegment;
use x86_64::VirtAddr;
use crate::stack::{is_canonical, DoubleFaultStack};

verus! {

/// Slot of the interrupt stack table that holds the double-fault stack.
pub const DOUBLE_FAULT_IST_IDX: u16 = 0;

/// Number of slots in the interrupt stack table.
pub const IST_SLOTS: usize = 7;

/// Number of slots in the privilege stack table.
pub const PST_SLOTS: usize = 3;

#[verifier::external_type_specification]
#[verifier::external_body]
pub struct ExTaskStateSegment(TaskStateSegment);

/// The addresses held in a task state segment's interrupt stack table, in
/// slot order.
pub uninterp spec fn tss_interrupt_stacks(t: TaskStateSegment) -> Seq<u64>;

/// The addresses held in a task state segment's privilege stack table, in
/// slot order.
pub uninterp spec fn tss_privilege_stacks(t: TaskStateSegment) -> Seq<u64>;

/// A table of `n` null addresses.
pub open spec fn null_table(n: nat) -> Seq<u64> {
    Seq::new(n, |i: int| 0u64)
}

/// Relies on TaskStateSegment::new: every stack table entry starts as the
/// zero address.
pub assume_specification[ TaskStateSegment::new ]() -> (r: TaskStateSegment)
    ensures
        tss_interrupt_stacks(r) == null_table(IST_SLOTS as nat),
        tss_privilege_stacks(r) == null_table(PST_SLOTS as nat),
;

/// Relies on VirtAddr::new, which keeps a canonical address as it is, and on
/// the public `interrupt_stack_table` array of TaskStateSegment: writes one
/// slot and leaves every other field alone.
#[verifier::external_body]
fn set_interrupt_stack(tss: &mut TaskStateSegment, slot: usize, top: u64)
    requires
        slot < tss_interrupt_stacks(*old(tss)).len(),
        is_canonical(top),
    ensures
        tss_interrupt_stacks(*final(tss)) == tss_interrupt_stacks(*old(tss)).update(slot as int, top),
        tss_privilege_stacks(*final(tss)) == tss_privilege_stacks(*old(tss)),
{
    tss.interrupt_stack_table[slot] = VirtAddr::new(top);
}

/// The interrupt stack table that `build_tss` installs for `stack`: every
/// slot null except the double-fault slot, which holds the stack's top.
pub open spec fn expected_interrupt_stacks(stack: DoubleFaultStack) -> Seq<u64> {
    null_table(IST_SLOTS as nat).update(DOUBLE_FAULT_IST_IDX as int, stack.top() as u64)
}

/// Builds the task state segment: the double-fault slot of the interrupt
/// stack table holds the top of `stack`; everything else keeps its default.
pub fn build_tss(stack: &DoubleFaultStack) -> (r: TaskStateSegment)
    ensures
        tss_interrupt_stacks(r) == expected_interrupt_stacks(*stack),
        tss_interrupt_stacks(r)[DOUBLE_FAULT_IST_IDX as int] == stack.top(),
        tss_interrupt_stacks(r)[DOUBLE_FAULT_IST_IDX as int] != 0,
        tss_privilege_stacks(r) == null_table(PST_SLOTS as nat),
{
    let mut tss = TaskStateSegment::new();
    let top = stack.top_address();
    set_interrupt_stack(&mut tss, DOUBLE_FAULT_IST_IDX as usize, top);
    tss
}

} // verus!
