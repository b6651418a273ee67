//! Fault-isolation and output core of a small single-core kernel: the text
//! console, keyboard decoding, the interrupt vector layout, the stack layout
//! of the task state segment and the exit codes of the test harness.
use vstd::prelude::*;

pub mod console_laws;
pub mod gdt;
pub mod interrupts;
pub mod keyboard;
pub mod vga_buffer;

use crate::gdt::{
    contains, interrupt_stack_table, layout_ok, lemma_recovery_stack_clear_of_guard,
    stack_layout_ok, MemoryRange, DOUBLE_FAULT_IST_INDEX, IST_SLOTS,
};
use crate::interrupts::{init_idt, vector_entry, InterruptTable, IDT_ENTRIES};

verus! {

/// The tables that boot installs, in this order: first the interrupt stack
/// table of the task state segment, then the vector table.
pub struct BootTables {
    pub interrupt_stack_table: Vec<u64>,
    pub idt: InterruptTable,
}

/// Builds the tables that boot installs, with the double-fault handler's
/// stack at `double_fault_stack`. Refuses (`None`) a layout in which that stack
/// is empty or shares an address with the normal stack or its guard page.
pub fn init(
    double_fault_stack: &MemoryRange,
    normal_stack: &MemoryRange,
    guard_page: &MemoryRange,
) -> (r: Option<BootTables>)
    ensures
        r is Some <==> layout_ok(*double_fault_stack, *normal_stack, *guard_page),
        r matches Some(t) ==> {
            &&& t.interrupt_stack_table@.len() == IST_SLOTS
            &&& t.interrupt_stack_table@[DOUBLE_FAULT_IST_INDEX as int] == double_fault_stack.end
            &&& forall|i: int|
                0 <= i < IST_SLOTS && i != DOUBLE_FAULT_IST_INDEX ==> t.interrupt_stack_table@[i]
                    == 0
            &&& t.idt@.len() == IDT_ENTRIES
            &&& forall|v: int| 0 <= v < IDT_ENTRIES ==> #[trigger] t.idt@[v] == vector_entry(v)
            &&& forall|a: int|
                double_fault_stack.start <= a < t.interrupt_stack_table@[DOUBLE_FAULT_IST_INDEX as int]
                    ==> !contains(*guard_page, a) && !contains(*normal_stack, a)
        },
{
    if !stack_layout_ok(double_fault_stack, normal_stack, guard_page) {
        return None;
    }
    let interrupt_stack_table = interrupt_stack_table(double_fault_stack);
    let idt = init_idt();
    proof {
        assert forall|a: int|
            double_fault_stack.start <= a < interrupt_stack_table@[DOUBLE_FAULT_IST_INDEX as int]
                implies !contains(*guard_page, a) && !contains(*normal_stack, a) by {
            lemma_recovery_stack_clear_of_guard(
                *double_fault_stack,
                *normal_stack,
                *guard_page,
                interrupt_stack_table@,
                a,
            );
        }
    }
    Some(BootTables { interrupt_stack_table, idt })
}

/// A test that the kernel's test runner can run.
pub trait Testable {
    fn run(&self);
}

/// The two codes written to the debug-exit port; they differ from the codes
/// the emulator uses itself.
#[derive(Debug, Clone, Copy, PartialEq, Eq, Structural)]
pub enum QemuExitCode {
    Success,
    Failed,
}

pub open spec fn exit_code_value(c: QemuExitCode) -> u32 {
    match c {
        QemuExitCode::Success => 0x10,
        QemuExitCode::Failed => 0x11,
    }
}

impl QemuExitCode {
    /// The 32-bit value written to the debug-exit port.
    pub fn code(self) -> (r: u32)
        ensures
            r == exit_code_value(self),
    {
        match self {
            QemuExitCode::Success => 0x10,
            QemuExitCode::Failed => 0x11,
        }
    }
}

/// Runs every test in order. A test that fails does not return, so reaching
/// the end means success: the code to report is returned.
pub fn test_runner<T: Testable>(tests: &[T]) -> (r: QemuExitCode)
    ensures
        r == QemuExitCode::Success,
{
    let mut i: usize = 0;
    while i < tests.len()
        invariant
            i <= tests@.len(),
        decreases tests@.len() - i,
    {
        tests[i].run();
        i += 1;
    }
    QemuExitCode::Success
}

/// The two exit codes differ, and neither is 0 or 1, the codes an emulator
/// uses for its own exits.
pub proof fn lemma_exit_codes_distinct(a: QemuExitCode, b: QemuExitCode)
    ensures
        exit_code_value(a) == exit_code_value(b) <==> a == b,
        exit_code_value(a) != 0,
        exit_code_value(a) != 1,
{
}

} // verus!
