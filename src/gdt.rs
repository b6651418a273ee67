//! Stack layout of the task state segment: slot 0 of the interrupt stack
//! table is the top of a statically reserved stack that the double-fault
//! handler runs on, away from the normal stack and its guard page.
use vstd::prelude::*;

verus! {

/// Slot of the interrupt stack table reserved for the double-fault handler.
pub const DOUBLE_FAULT_IST_INDEX: u16 = 0;

/// Number of slots in the interrupt stack table.
pub const IST_SLOTS: usize = 7;

/// Size in bytes of the double-fault stack: five pages.
pub const DOUBLE_FAULT_STACK_SIZE: u64 = 4096 * 5;

/// A range of addresses, `start` included, `end` excluded.
#[derive(Debug, Clone, Copy, PartialEq, Eq, Structural)]
pub struct MemoryRange {
    pub start: u64,
    pub end: u64,
}

pub open spec fn contains(r: MemoryRange, a: int) -> bool {
    r.start <= a < r.end
}

pub open spec fn disjoint(a: MemoryRange, b: MemoryRange) -> bool {
    forall|x: int| !(#[trigger] contains(a, x) && contains(b, x))
}

/// Whether two ranges share no address.
pub fn ranges_disjoint(a: &MemoryRange, b: &MemoryRange) -> (r: bool)
    ensures
        r == disjoint(*a, *b),
{
    let r = a.end <= a.start || b.end <= b.start || a.end <= b.start || b.end <= a.start;
    if !r {
        assert(contains(*a, if a.start < b.start { b.start as int } else { a.start as int }));
    }
    r
}

/// The double-fault stack that starts at `start`, or `None` where it would
/// run past the end of the address space.
pub fn double_fault_stack(start: u64) -> (r: Option<MemoryRange>)
    ensures
        start + DOUBLE_FAULT_STACK_SIZE <= u64::MAX <==> r is Some,
        r matches Some(m) ==> m.start == start && m.end == start + DOUBLE_FAULT_STACK_SIZE,
{
    match start.checked_add(DOUBLE_FAULT_STACK_SIZE) {
        Some(end) => Some(MemoryRange { start, end }),
        None => None,
    }
}

/// The interrupt stack table: the top of the double-fault stack in its slot
/// (stacks grow down), every other slot unused (zero).
pub fn interrupt_stack_table(double_fault: &MemoryRange) -> (r: Vec<u64>)
    ensures
        r@.len() == IST_SLOTS,
        r@[DOUBLE_FAULT_IST_INDEX as int] == double_fault.end,
        forall|i: int| 0 <= i < IST_SLOTS && i != DOUBLE_FAULT_IST_INDEX ==> r@[i] == 0,
{
    let mut table: Vec<u64> = Vec::new();
    let mut i: usize = 0;
    while i < IST_SLOTS
        invariant
            i <= IST_SLOTS,
            table@.len() == i,
            forall|j: int| 0 <= j < i ==> table@[j] == 0,
        decreases IST_SLOTS - i,
    {
        table.push(0);
        i += 1;
    }
    table[DOUBLE_FAULT_IST_INDEX as usize] = double_fault.end;
    table
}

/// The double-fault stack is not empty and shares no address with the normal
/// stack or its guard page.
pub open spec fn layout_ok(
    double_fault: MemoryRange,
    normal_stack: MemoryRange,
    guard_page: MemoryRange,
) -> bool {
    double_fault.start < double_fault.end && disjoint(double_fault, normal_stack) && disjoint(
        double_fault,
        guard_page,
    )
}

/// Whether the double-fault stack is laid out so that its handler can run after
/// the normal stack has overflowed: it is not empty and shares no address with
/// the normal stack or its guard page.
pub fn stack_layout_ok(
    double_fault: &MemoryRange,
    normal_stack: &MemoryRange,
    guard_page: &MemoryRange,
) -> (r: bool)
    ensures
        r == layout_ok(*double_fault, *normal_stack, *guard_page),
{
    double_fault.start < double_fault.end && ranges_disjoint(double_fault, normal_stack)
        && ranges_disjoint(double_fault, guard_page)
}

/// Where the layout check passes, every address that the double-fault handler
/// can push to, from the stack top in the table downwards to the stack's start,
/// lies outside the guard page and the normal stack.
pub proof fn lemma_recovery_stack_clear_of_guard(
    double_fault: MemoryRange,
    normal_stack: MemoryRange,
    guard_page: MemoryRange,
    table: Seq<u64>,
    a: int,
)
    requires
        double_fault.start < double_fault.end,
        disjoint(double_fault, normal_stack),
        disjoint(double_fault, guard_page),
        table.len() == IST_SLOTS,
        table[DOUBLE_FAULT_IST_INDEX as int] == double_fault.end,
        double_fault.start <= a < table[DOUBLE_FAULT_IST_INDEX as int],
    ensures
        !contains(guard_page, a),
        !contains(normal_stack, a),
{
    assert(contains(double_fault, a));
}

} // verus!
