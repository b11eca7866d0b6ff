//! Fault isolation: the stack that the double fault handler runs on, so that
//! a fault on an exhausted kernel stack can still be handled, and the
//! descriptor table that makes that stack known to the processor.

use vstd::prelude::*;
use crate::addr::is_canonical;
use crate::addr::offset_address;

verus! {

/// Slot of the interrupt stack table that holds the double fault stack.
pub const DOUBLE_FAULT_IST_INDEX: u16 = 0;

/// Size in bytes of the double fault stack.
pub const STACK_SIZE: u64 = 4096 * 5;

/// The part of the task state segment that this kernel fills: the ends of
/// the stacks that the processor switches to on entry to chosen handlers. A
/// slot that holds 0 is unused.
#[derive(Clone, Copy, Debug, PartialEq, Eq)]
pub struct InterruptStackTable {
    pub stacks: [u64; 7],
}

/// The selectors of the two segments of the kernel's descriptor table, as
/// the segment registers take them.
#[derive(Clone, Copy, Debug, PartialEq, Eq, Structural)]
pub struct Selectors {
    pub code_selector: u16,
    pub tss_selector: u16,
}

/// The descriptor of the 64-bit code segment of the kernel: present,
/// executable, readable, in long mode, with privilege level 0.
pub const KERNEL_CODE_SEGMENT: u64 = 0x00af_9b00_0000_ffff;

/// Bits of the first half of a system descriptor that do not hold an
/// address: the limit, the type, the privilege level, the present bit and
/// the flags.
pub const TSS_DESCRIPTOR_MASK: u64 = 0x00ff_ff00_0000_ffff;

/// Those bits in the descriptor of a task state segment: the limit 0x67 of
/// the segment's 0x68 bytes, the type of an available 64-bit task state
/// segment, privilege level 0, present.
pub const TSS_DESCRIPTOR_BITS: u64 = 0x0000_8900_0000_0067;

/// The two halves are those of the descriptor of a task state segment: the
/// first has the fixed bits of one, and the upper half of the second, which
/// is kept for the processor, is zero. The other bits hold the address of
/// the segment.
pub open spec fn is_tss_descriptor(low: u64, high: u64) -> bool {
    (low & TSS_DESCRIPTOR_MASK) == TSS_DESCRIPTOR_BITS && (high >> 32) == 0
}

/// The `GlobalDescriptorTable` of `x86_64`: up to eight 64-bit entries.
#[verifier::external_type_specification]
#[verifier::external_body]
pub struct ExGlobalDescriptorTable(x86_64::structures::gdt::GlobalDescriptorTable);

/// The `TaskStateSegment` of `x86_64`, as the processor reads it.
#[verifier::external_type_specification]
#[verifier::external_body]
pub struct ExTaskStateSegment(x86_64::structures::tss::TaskStateSegment);

/// The entries that a descriptor table holds, in the order of their places.
pub uninterp spec fn gdt_entries(table: x86_64::structures::gdt::GlobalDescriptorTable) -> Seq<u64>;

/// Calls `x86_64::structures::gdt::GlobalDescriptorTable::new`. Trusted: the
/// new table holds one entry, the null descriptor.
#[verifier::external_body]
fn gdt_new() -> (table: x86_64::structures::gdt::GlobalDescriptorTable)
    ensures
        gdt_entries(table) == seq![0u64],
{
    x86_64::structures::gdt::GlobalDescriptorTable::new()
}

/// Calls `GlobalDescriptorTable::add_entry` of `x86_64` with
/// `Descriptor::kernel_code_segment()` and gives the selector's bits.
/// Trusted: with a place left in the table (the crate panics without) the
/// descriptor is appended, and the selector is the index of its place,
/// shifted left by three bits, with privilege level 0.
#[verifier::external_body]
fn gdt_add_kernel_code_segment(table: &mut x86_64::structures::gdt::GlobalDescriptorTable) -> (selector:
    u16)
    requires
        gdt_entries(*old(table)).len() <= 7,
    ensures
        gdt_entries(*final(table)) == gdt_entries(*old(table)).push(KERNEL_CODE_SEGMENT),
        selector == gdt_entries(*old(table)).len() * 8,
{
    table.add_entry(x86_64::structures::gdt::Descriptor::kernel_code_segment()).0
}

/// Calls `GlobalDescriptorTable::add_entry` of `x86_64` with
/// `Descriptor::tss_segment(tss)` and gives the selector's bits. Trusted:
/// with two places left in the table (the crate panics without) the two
/// halves of the descriptor are appended, and the selector is the index of
/// the first of them, shifted left by three bits, with privilege level 0.
/// The halves are those of a task state descriptor; the address of `tss`,
/// which they hold as well, is not claimed.
#[verifier::external_body]
fn gdt_add_tss_segment(
    table: &mut x86_64::structures::gdt::GlobalDescriptorTable,
    tss: &'static x86_64::structures::tss::TaskStateSegment,
) -> (selector: u16)
    requires
        gdt_entries(*old(table)).len() <= 6,
    ensures
        gdt_entries(*final(table)).len() == gdt_entries(*old(table)).len() + 2,
        gdt_entries(*final(table)).take(gdt_entries(*old(table)).len() as int) == gdt_entries(*old(table)),
        is_tss_descriptor(
            gdt_entries(*final(table))[gdt_entries(*old(table)).len() as int],
            gdt_entries(*final(table))[(gdt_entries(*old(table)).len() + 1) as int],
        ),
        selector == gdt_entries(*old(table)).len() * 8,
{
    table.add_entry(x86_64::structures::gdt::Descriptor::tss_segment(tss)).0
}

/// The descriptor table of the kernel: after the null descriptor the code
/// segment of the kernel, then the task state segment `tss` in two entries.
/// The selectors name the second and the third place of the table: those
/// of the code segment and of the first half of the task state descriptor.
pub fn build(tss: &'static x86_64::structures::tss::TaskStateSegment) -> (built: (
    x86_64::structures::gdt::GlobalDescriptorTable,
    Selectors,
))
    ensures
        gdt_entries(built.0).len() == 4,
        gdt_entries(built.0)[0] == 0,
        gdt_entries(built.0)[1] == KERNEL_CODE_SEGMENT,
        is_tss_descriptor(gdt_entries(built.0)[2], gdt_entries(built.0)[3]),
        built.1 == (Selectors { code_selector: 8, tss_selector: 16 }),
{
    let mut gdt = gdt_new();
    let code_selector = gdt_add_kernel_code_segment(&mut gdt);
    let ghost with_code = gdt_entries(gdt);
    let tss_selector = gdt_add_tss_segment(&mut gdt, tss);
    proof {
        assert(with_code == seq![0u64].push(KERNEL_CODE_SEGMENT));
        assert(gdt_entries(gdt).take(2)[0] == with_code[0]);
        assert(gdt_entries(gdt).take(2)[1] == with_code[1]);
    }
    (gdt, Selectors { code_selector, tss_selector })
}

/// Whether a stack of `STACK_SIZE` bytes can start at `stack_start`.
pub open spec fn valid_stack_start(stack_start: u64) -> bool {
    is_canonical(stack_start as int) && is_canonical(stack_start + STACK_SIZE)
}

/// Address just above a stack of `STACK_SIZE` bytes that starts at
/// `stack_start`: the value the stack pointer starts from, as stacks grow
/// downwards.
pub fn stack_end(stack_start: u64) -> (end: u64)
    requires
        valid_stack_start(stack_start),
    ensures
        end == stack_start + STACK_SIZE,
{
    offset_address(stack_start, STACK_SIZE)
}

impl InterruptStackTable {
    /// A table without any stack.
    pub fn new() -> (table: InterruptStackTable)
        ensures
            forall|slot: int| 0 <= slot < 7 ==> table.stacks@[slot] == 0,
    {
        InterruptStackTable { stacks: [0u64; 7] }
    }

    /// A table whose double fault slot holds the end of the stack that
    /// starts at `stack_start`; all other slots are unused.
    pub fn with_double_fault_stack(stack_start: u64) -> (table: InterruptStackTable)
        requires
            valid_stack_start(stack_start),
        ensures
            table.stacks@[DOUBLE_FAULT_IST_INDEX as int] == stack_start + STACK_SIZE,
            forall|slot: int| 0 <= slot < 7 && slot != DOUBLE_FAULT_IST_INDEX ==> table.stacks@[slot] == 0,
    {
        let mut table = InterruptStackTable::new();
        table.stacks[DOUBLE_FAULT_IST_INDEX as usize] = stack_end(stack_start);
        table
    }
}

/// Whether a stack of `STACK_SIZE` bytes can start at `stack_start`.
pub fn stack_start_is_valid(stack_start: u64) -> (valid: bool)
    ensures
        valid == valid_stack_start(stack_start),
{
    if stack_start < crate::addr::LOWER_HALF_END {
        STACK_SIZE < crate::addr::LOWER_HALF_END - stack_start
    } else {
        stack_start >= crate::addr::UPPER_HALF_START && STACK_SIZE <= u64::MAX - stack_start
    }
}

} // verus!
