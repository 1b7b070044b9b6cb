use gdt_boot::{
    activation_sequence, build_gdt, build_tss, DoubleFaultStack, PrivilegedOp, DOUBLE_FAULT_IST_IDX,
    IST_SLOTS, KERNEL_CODE64, PST_SLOTS, STACK_SIZE,
};
use x86_64::structures::tss::TaskStateSegment;
use x86_64::VirtAddr;

fn leaked_tss(base: u64) -> &'static TaskStateSegment {
    let stack = DoubleFaultStack::new(base);
    Box::leak(Box::new(build_tss(&stack)))
}

fn expected_tss_words(tss: &'static TaskStateSegment) -> (u64, u64) {
    let ptr = VirtAddr::from_ptr(tss).as_u64();
    let low = (1u64 << 47)
        | ((ptr & 0xff_ffff) << 16)
        | (((ptr >> 24) & 0xff) << 56)
        | 0x67
        | (0b1001u64 << 40);
    (low, ptr >> 32)
}

#[test]
fn stack_size_is_twenty_kib() {
    assert_eq!(STACK_SIZE, 20 * 1024);
}

#[test]
fn stack_top_is_base_plus_size() {
    let stack = DoubleFaultStack::new(0x1000);
    assert_eq!(stack.base_address(), 0x1000);
    assert_eq!(stack.top_address(), 0x1000 + 20480);
}

#[test]
fn stack_top_at_zero_base_is_nonzero() {
    let stack = DoubleFaultStack::new(0);
    assert_eq!(stack.top_address(), 20480);
}

#[test]
fn stack_top_in_upper_half() {
    let stack = DoubleFaultStack::new(0xffff_8000_0000_0000);
    assert_eq!(stack.top_address(), 0xffff_8000_0000_5000);
}

#[test]
fn stack_try_new_accepts_low_half() {
    let stack = DoubleFaultStack::try_new(0x1000).expect("region fits");
    assert_eq!(stack.top_address(), 0x6000);
}

#[test]
fn stack_try_new_rejects_overflow() {
    assert!(DoubleFaultStack::try_new(u64::MAX - 100).is_none());
}

#[test]
fn stack_try_new_rejects_non_canonical_top() {
    assert!(DoubleFaultStack::try_new(0x7fff_ffff_f000).is_none());
    assert!(DoubleFaultStack::try_new(0x7fff_ffff_a000).is_some());
}

#[test]
fn tss_double_fault_slot_holds_stack_top() {
    let stack = DoubleFaultStack::new(0x44_4000);
    let tss = build_tss(&stack);
    let ist = tss.interrupt_stack_table;
    assert_eq!(DOUBLE_FAULT_IST_IDX, 0);
    assert_eq!(ist.len(), IST_SLOTS);
    assert_eq!(ist[DOUBLE_FAULT_IST_IDX as usize].as_u64(), 0x44_4000 + 20 * 1024);
    assert_ne!(ist[DOUBLE_FAULT_IST_IDX as usize].as_u64(), 0);
    for slot in 1..IST_SLOTS {
        assert_eq!(ist[slot].as_u64(), 0);
    }
}

#[test]
fn tss_privilege_stacks_stay_null() {
    let stack = DoubleFaultStack::new(0x44_4000);
    let tss = build_tss(&stack);
    let pst = tss.privilege_stack_table;
    assert_eq!(pst.len(), PST_SLOTS);
    for slot in 0..PST_SLOTS {
        assert_eq!(pst[slot].as_u64(), 0);
    }
    let iomap = tss.iomap_base;
    assert_eq!(iomap, 0x68);
}

#[test]
fn gdt_holds_null_code_and_tss_in_order() {
    let tss = leaked_tss(0x20_0000);
    let (gdt, _) = build_gdt(tss);
    let entries = gdt.as_raw_slice();
    let (low, high) = expected_tss_words(tss);
    assert_eq!(entries.len(), 4);
    assert_eq!(entries[0], 0);
    assert_eq!(entries[1], KERNEL_CODE64);
    assert_eq!(entries[1], 0x00af9b000000ffff);
    assert_eq!(entries[2], low);
    assert_eq!(entries[3], high);
}

#[test]
fn gdt_selectors_name_entries_one_and_two() {
    let tss = leaked_tss(0x20_0000);
    let (_, selectors) = build_gdt(tss);
    assert_eq!(selectors.code_selector.0, 8);
    assert_eq!(selectors.code_selector.index(), 1);
    assert_eq!(selectors.tss_selector.0, 16);
    assert_eq!(selectors.tss_selector.index(), 2);
}

#[test]
fn gdt_layout_same_across_builds() {
    let first = build_gdt(leaked_tss(0x20_0000));
    let second = build_gdt(leaked_tss(0x30_0000));
    let a = first.0.as_raw_slice();
    let b = second.0.as_raw_slice();
    assert_eq!(a.len(), b.len());
    assert_eq!(a[0], b[0]);
    assert_eq!(a[1], b[1]);
    assert_eq!(a[2] & 0xffff, b[2] & 0xffff);
    assert_eq!((a[2] >> 40) & 0xffff, (b[2] >> 40) & 0xffff);
    assert_eq!(first.1.code_selector, second.1.code_selector);
    assert_eq!(first.1.tss_selector, second.1.tss_selector);
}

#[test]
fn activation_runs_table_then_code_then_task() {
    let (_, selectors) = build_gdt(leaked_tss(0x20_0000));
    let ops = activation_sequence(&selectors);
    assert_eq!(ops.len(), 3);
    assert!(matches!(ops[0], PrivilegedOp::LoadTable));
    assert!(matches!(ops[1], PrivilegedOp::SetCode(s) if s.0 == 8));
    assert!(matches!(ops[2], PrivilegedOp::LoadTask(s) if s.0 == 16));
}
