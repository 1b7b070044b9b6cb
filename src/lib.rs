//! Segmentation bring-up for an x86_64 kernel: the double-fault stack, the
//! task state segment, the global descriptor table with its selectors, the
//! order in which they are activated, and the boot lifecycle around them.
pub mod stack;
pub mod tss;
pub mod gdt;
pub mod activation;
pub mod boot;

pub use stack::{is_canonical, DoubleFaultStack, STACK_SIZE};
pub use tss::{build_tss, DOUBLE_FAULT_IST_IDX, IST_SLOTS, PST_SLOTS};
pub use gdt::{build_gdt, Selectors, GDT_CAPACITY, KERNEL_CODE64, TSS_LIMIT};
pub use activation::{activation_sequence, PrivilegedOp, SegmentRegisters};
pub use boot::{BootAction, BootEvent, BootStage, BootState};
