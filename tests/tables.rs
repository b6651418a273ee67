use std::cell::Cell;

use learning_os::gdt::{
    double_fault_stack, interrupt_stack_table, ranges_disjoint, stack_layout_ok, MemoryRange,
    DOUBLE_FAULT_IST_INDEX, DOUBLE_FAULT_STACK_SIZE,
};
use learning_os::interrupts::{
    completion, init_idt, timer_interrupt, Completion, Handler, IdtEntry, InterruptIndex,
    PIC_1_OFFSET, PIC_2_OFFSET,
};
use learning_os::vga_buffer::{Color, Writer, BUFFER_HEIGHT};
use learning_os::{init, test_runner, QemuExitCode, Testable};

#[test]
fn interrupt_index_vectors() {
    assert_eq!(InterruptIndex::Timer.as_u8(), 32);
    assert_eq!(InterruptIndex::Keyboard.as_u8(), 33);
    assert_eq!(InterruptIndex::Keyboard.as_usize(), 33);
    assert_eq!(PIC_1_OFFSET, 32);
    assert_eq!(PIC_2_OFFSET, 40);
}

#[test]
fn vector_table_layout() {
    let idt = init_idt();
    for v in 0..=255u8 {
        let e = idt.entry(v);
        match v {
            3 => assert_eq!(e, Some(IdtEntry { handler: Handler::Breakpoint, stack_index: None })),
            8 => assert_eq!(
                e,
                Some(IdtEntry { handler: Handler::DoubleFault, stack_index: Some(DOUBLE_FAULT_IST_INDEX) })
            ),
            32 => assert_eq!(e, Some(IdtEntry { handler: Handler::Timer, stack_index: None })),
            33 => assert_eq!(e, Some(IdtEntry { handler: Handler::Keyboard, stack_index: None })),
            _ => assert_eq!(e, None),
        }
    }
}

#[test]
fn handlers_complete_as_required() {
    assert_eq!(completion(Handler::Breakpoint), Completion::Resume);
    assert_eq!(completion(Handler::DoubleFault), Completion::Halt);
    assert_eq!(completion(Handler::Timer), Completion::Acknowledge(32));
    assert_eq!(completion(Handler::Keyboard), Completion::Acknowledge(33));
}

#[test]
fn timer_tick_prints_dot_and_acknowledges() {
    let mut w = Writer::new(Color::Yellow, Color::Black);
    assert_eq!(timer_interrupt(&mut w), 32);
    assert_eq!(w.read_cell(BUFFER_HEIGHT - 1, 0).character, b'.');
    assert_eq!(w.column_position(), 1);
}

#[test]
fn double_fault_stack_range() {
    assert_eq!(DOUBLE_FAULT_STACK_SIZE, 20480);
    assert_eq!(
        double_fault_stack(0x1000),
        Some(MemoryRange { start: 0x1000, end: 0x1000 + 20480 })
    );
    assert_eq!(double_fault_stack(u64::MAX - 100), None);
}

#[test]
fn stack_table_points_at_top() {
    let df = MemoryRange { start: 0x40_0000, end: 0x40_5000 };
    let t = interrupt_stack_table(&df);
    assert_eq!(t, vec![0x40_5000, 0, 0, 0, 0, 0, 0]);
}

#[test]
fn recovery_stack_disjoint_from_guard_page() {
    let df = MemoryRange { start: 0x40_0000, end: 0x40_5000 };
    let normal = MemoryRange { start: 0x7000_0000, end: 0x7001_0000 };
    let guard = MemoryRange { start: 0x6fff_f000, end: 0x7000_0000 };
    assert!(ranges_disjoint(&df, &guard));
    assert!(stack_layout_ok(&df, &normal, &guard));
    let overlapping = MemoryRange { start: 0x6fff_e000, end: 0x6fff_f800 };
    assert!(!ranges_disjoint(&overlapping, &guard));
    assert!(!stack_layout_ok(&overlapping, &normal, &guard));
    let touching = MemoryRange { start: 0x6fff_a000, end: 0x6fff_f000 };
    assert!(ranges_disjoint(&touching, &guard));
}

#[test]
fn init_builds_both_tables() {
    let df = MemoryRange { start: 0x40_0000, end: 0x40_5000 };
    let normal = MemoryRange { start: 0x7000_0000, end: 0x7001_0000 };
    let guard = MemoryRange { start: 0x6fff_f000, end: 0x7000_0000 };
    let t = init(&df, &normal, &guard).expect("layout is disjoint");
    assert_eq!(t.interrupt_stack_table[0], 0x40_5000);
    assert_eq!(t.idt.entry(8).map(|e| e.handler), Some(Handler::DoubleFault));
    assert_eq!(t.idt.entry(33).map(|e| e.handler), Some(Handler::Keyboard));
}

#[test]
fn exit_codes() {
    assert_eq!(QemuExitCode::Success.code(), 0x10);
    assert_eq!(QemuExitCode::Failed.code(), 0x11);
}

struct Counting<'a>(&'a Cell<u32>);

impl<'a> Testable for Counting<'a> {
    fn run(&self) {
        self.0.set(self.0.get() + 1);
    }
}

#[test]
fn runner_runs_every_test() {
    let count = Cell::new(0);
    let tests = [Counting(&count), Counting(&count), Counting(&count)];
    assert_eq!(test_runner(&tests), QemuExitCode::Success);
    assert_eq!(count.get(), 3);
}

#[test]
fn init_refuses_stack_over_guard_page() {
    let normal = MemoryRange { start: 0x7000_0000, end: 0x7001_0000 };
    let guard = MemoryRange { start: 0x6fff_f000, end: 0x7000_0000 };
    let over_guard = MemoryRange { start: 0x6fff_b000, end: 0x7000_0000 };
    assert!(init(&over_guard, &normal, &guard).is_none());
    let in_normal = MemoryRange { start: 0x7000_1000, end: 0x7000_6000 };
    assert!(init(&in_normal, &normal, &guard).is_none());
    let empty = MemoryRange { start: 0x40_0000, end: 0x40_0000 };
    assert!(init(&empty, &normal, &guard).is_none());
}
