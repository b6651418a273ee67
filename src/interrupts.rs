//! Layout of the 256-entry interrupt vector table and what each installed
//! handler decides: CPU exceptions at their fixed vectors, device lines at the
//! interrupt controllers' remapped offset.
use vstd::prelude::*;
use crate::gdt::DOUBLE_FAULT_IST_INDEX;
use crate::vga_buffer::{put_byte, Writer};

verus! {

/// Number of vectors in the table.
pub const IDT_ENTRIES: usize = 256;

/// Vectors below this one are reserved for CPU exceptions.
pub const FIRST_DEVICE_VECTOR: u8 = 32;

pub const BREAKPOINT_VECTOR: u8 = 3;

pub const DOUBLE_FAULT_VECTOR: u8 = 8;

/// Vector of the primary controller's line 0.
pub const PIC_1_OFFSET: u8 = 32;

/// Vector of the secondary controller's line 0.
pub const PIC_2_OFFSET: u8 = PIC_1_OFFSET + 8;

/// Device lines that have a handler, in the primary controller's order.
#[derive(Debug, Clone, Copy, PartialEq, Eq, Structural)]
pub enum InterruptIndex {
    Timer,
    Keyboard,
}

/// The line of the primary controller that a device is wired to.
pub open spec fn device_line(i: InterruptIndex) -> u8 {
    match i {
        InterruptIndex::Timer => 0,
        InterruptIndex::Keyboard => 1,
    }
}

/// The vector of a device line: the controller's offset plus the line.
pub open spec fn device_vector(i: InterruptIndex) -> u8 {
    (PIC_1_OFFSET + device_line(i)) as u8
}

impl InterruptIndex {
    /// The vector that the device's line raises.
    pub fn as_u8(self) -> (r: u8)
        ensures
            r == device_vector(self),
    {
        match self {
            InterruptIndex::Timer => PIC_1_OFFSET,
            InterruptIndex::Keyboard => PIC_1_OFFSET + 1,
        }
    }

    /// The vector that the device's line raises, as a table index.
    pub fn as_usize(self) -> (r: usize)
        ensures
            r == device_vector(self) as usize,
    {
        self.as_u8() as usize
    }
}

/// What an installed vector runs.
#[derive(Debug, Clone, Copy, PartialEq, Eq, Structural)]
pub enum Handler {
    Breakpoint,
    DoubleFault,
    Timer,
    Keyboard,
}

/// One installed vector: its handler, and the slot of the interrupt stack
/// table that the CPU switches to before running it, if any.
#[derive(Debug, Clone, Copy, PartialEq, Eq, Structural)]
pub struct IdtEntry {
    pub handler: Handler,
    pub stack_index: Option<u16>,
}

/// The entry that the table holds at vector `v`.
pub open spec fn vector_entry(v: int) -> Option<IdtEntry> {
    if v == BREAKPOINT_VECTOR {
        Some(IdtEntry { handler: Handler::Breakpoint, stack_index: None })
    } else if v == DOUBLE_FAULT_VECTOR {
        Some(IdtEntry { handler: Handler::DoubleFault, stack_index: Some(DOUBLE_FAULT_IST_INDEX) })
    } else if v == device_vector(InterruptIndex::Timer) {
        Some(IdtEntry { handler: Handler::Timer, stack_index: None })
    } else if v == device_vector(InterruptIndex::Keyboard) {
        Some(IdtEntry { handler: Handler::Keyboard, stack_index: None })
    } else {
        None
    }
}

/// The vector table: one optional entry per vector, built once.
pub struct InterruptTable {
    entries: Vec<Option<IdtEntry>>,
}

impl View for InterruptTable {
    type V = Seq<Option<IdtEntry>>;

    closed spec fn view(&self) -> Seq<Option<IdtEntry>> {
        self.entries@
    }
}

/// Builds the vector table: breakpoint and double fault at their CPU vectors,
/// the double fault on its own stack, timer and keyboard at their device
/// vectors, and nothing anywhere else.
pub fn init_idt() -> (r: InterruptTable)
    ensures
        r@.len() == IDT_ENTRIES,
        forall|v: int| 0 <= v < IDT_ENTRIES ==> #[trigger] r@[v] == vector_entry(v),
{
    let mut entries: Vec<Option<IdtEntry>> = Vec::new();
    let mut v: usize = 0;
    while v < IDT_ENTRIES
        invariant
            v <= IDT_ENTRIES,
            entries@.len() == v,
            forall|j: int| 0 <= j < v ==> #[trigger] entries@[j] == None::<IdtEntry>,
        decreases IDT_ENTRIES - v,
    {
        entries.push(None);
        v += 1;
    }
    entries[BREAKPOINT_VECTOR as usize] = Some(
        IdtEntry { handler: Handler::Breakpoint, stack_index: None },
    );
    entries[DOUBLE_FAULT_VECTOR as usize] = Some(
        IdtEntry { handler: Handler::DoubleFault, stack_index: Some(DOUBLE_FAULT_IST_INDEX) },
    );
    entries[InterruptIndex::Timer.as_usize()] = Some(
        IdtEntry { handler: Handler::Timer, stack_index: None },
    );
    entries[InterruptIndex::Keyboard.as_usize()] = Some(
        IdtEntry { handler: Handler::Keyboard, stack_index: None },
    );
    InterruptTable { entries }
}

impl InterruptTable {
    /// The entry installed at `vector`.
    pub fn entry(&self, vector: u8) -> (r: Option<IdtEntry>)
        requires
            self@.len() == IDT_ENTRIES,
        ensures
            r == self@[vector as int],
    {
        self.entries[vector as usize]
    }
}

/// How a handler ends.
#[derive(Debug, Clone, Copy, PartialEq, Eq, Structural)]
pub enum Completion {
    /// Return to the interrupted instruction stream.
    Resume,
    /// Acknowledge the serviced vector to the interrupt controllers, then return.
    Acknowledge(u8),
    /// Never return: report and halt.
    Halt,
}

/// How each handler ends: the breakpoint resumes, the double fault halts, and
/// a device handler acknowledges its own vector.
pub fn completion(handler: Handler) -> (r: Completion)
    ensures
        r == match handler {
            Handler::Breakpoint => Completion::Resume,
            Handler::DoubleFault => Completion::Halt,
            Handler::Timer => Completion::Acknowledge(device_vector(InterruptIndex::Timer)),
            Handler::Keyboard => Completion::Acknowledge(device_vector(InterruptIndex::Keyboard)),
        },
{
    match handler {
        Handler::Breakpoint => Completion::Resume,
        Handler::DoubleFault => Completion::Halt,
        Handler::Timer => Completion::Acknowledge(InterruptIndex::Timer.as_u8()),
        Handler::Keyboard => Completion::Acknowledge(InterruptIndex::Keyboard.as_u8()),
    }
}

/// The timer line's work for one tick: a dot on the console. Returns the
/// vector to acknowledge.
pub fn timer_interrupt(writer: &mut Writer) -> (r: u8)
    requires
        old(writer).wf(),
    ensures
        final(writer).wf(),
        final(writer)@ == put_byte(old(writer)@, 0x2e),
        r == device_vector(InterruptIndex::Timer),
{
    writer.write_byte(0x2eu8);
    InterruptIndex::Timer.as_u8()
}

/// Every line of both controllers raises a vector outside the CPU's reserved
/// range, and the two controllers' vectors do not overlap.
pub proof fn lemma_device_vectors_outside_reserved(line: u8)
    requires
        line < 8,
    ensures
        PIC_1_OFFSET + line >= FIRST_DEVICE_VECTOR,
        PIC_2_OFFSET + line >= FIRST_DEVICE_VECTOR,
        PIC_2_OFFSET + line < IDT_ENTRIES,
        PIC_1_OFFSET + line < PIC_2_OFFSET,
{
}

/// Each device's vector is the controller's offset plus its line, and no two
/// vectors of the table hold the same handler.
pub proof fn lemma_vector_layout(a: int, b: int)
    requires
        0 <= a < IDT_ENTRIES,
        0 <= b < IDT_ENTRIES,
        vector_entry(a) is Some,
        vector_entry(a) == vector_entry(b),
    ensures
        a == b,
        device_vector(InterruptIndex::Timer) == PIC_1_OFFSET + 0,
        device_vector(InterruptIndex::Keyboard) == PIC_1_OFFSET + 1,
{
}

} // verus!
