use rustos::gdt::stack_end;
use rustos::gdt::stack_start_is_valid;
use rustos::gdt::build;
use rustos::gdt::InterruptStackTable;
use rustos::gdt::Selectors;
use rustos::gdt::KERNEL_CODE_SEGMENT;
use rustos::gdt::TSS_DESCRIPTOR_BITS;
use rustos::gdt::TSS_DESCRIPTOR_MASK;
use rustos::gdt::DOUBLE_FAULT_IST_INDEX;
use rustos::gdt::STACK_SIZE;

#[test]
fn double_fault_stack_constants() {
    assert_eq!(DOUBLE_FAULT_IST_INDEX, 0);
    assert_eq!(STACK_SIZE, 20480);
}

#[test]
fn stack_ends_above_its_start() {
    assert_eq!(stack_end(0x20_0000), 0x20_5000);
    assert_eq!(stack_end(0xffff_8000_0000_0010), 0xffff_8000_0000_5010);
}

#[test]
fn fresh_stack_table_has_no_stack() {
    let table = InterruptStackTable::new();
    assert_eq!(table.stacks, [0u64; 7]);
}

#[test]
fn double_fault_stack_goes_to_its_slot() {
    let table = InterruptStackTable::with_double_fault_stack(0x20_0000);
    assert_eq!(table.stacks[DOUBLE_FAULT_IST_INDEX as usize], 0x20_5000);
    assert_eq!(table.stacks, [0x20_5000, 0, 0, 0, 0, 0, 0]);
}

#[test]
fn descriptor_table_holds_code_segment_and_task_state_segment() {
    let tss: &'static x86_64::structures::tss::TaskStateSegment =
        Box::leak(Box::new(x86_64::structures::tss::TaskStateSegment::new()));
    let (table, selectors) = build(tss);
    assert_eq!(selectors, Selectors { code_selector: 8, tss_selector: 16 });
    let entries = table.as_raw_slice();
    assert_eq!(entries.len(), 4);
    assert_eq!(entries[0], 0);
    assert_eq!(entries[1], KERNEL_CODE_SEGMENT);
    assert_eq!(entries[1], 0x00af_9b00_0000_ffff);
}

#[test]
fn task_state_descriptor_holds_the_address_of_the_segment() {
    let tss: &'static x86_64::structures::tss::TaskStateSegment =
        Box::leak(Box::new(x86_64::structures::tss::TaskStateSegment::new()));
    let address: u64 = x86_64::VirtAddr::from_ptr(tss).as_u64();
    let (table, _) = build(tss);
    let entries = table.as_raw_slice();
    let low: u64 = entries[2];
    let high: u64 = entries[3];
    let base = ((low >> 16) & 0xff_ffff) | (((low >> 56) & 0xff) << 24) | ((high & 0xffff_ffff) << 32);
    assert_eq!(base, address);
    assert_eq!((low >> 40) & 0xf, 0b1001);
    assert_eq!((low >> 47) & 1, 1);
}

#[test]
fn task_state_descriptor_has_the_fixed_bits_of_one() {
    let tss: &'static x86_64::structures::tss::TaskStateSegment =
        Box::leak(Box::new(x86_64::structures::tss::TaskStateSegment::new()));
    let (table, _) = build(tss);
    let entries = table.as_raw_slice();
    assert_eq!(TSS_DESCRIPTOR_MASK, 0x00ff_ff00_0000_ffff);
    assert_eq!(TSS_DESCRIPTOR_BITS, 0x0000_8900_0000_0067);
    assert_eq!(entries[2] & TSS_DESCRIPTOR_MASK, TSS_DESCRIPTOR_BITS);
    assert_eq!(entries[3] >> 32, 0);
    assert_ne!(entries[1] & TSS_DESCRIPTOR_MASK, TSS_DESCRIPTOR_BITS);
}

#[test]
fn selectors_name_the_places_of_the_segments() {
    let tss: &'static x86_64::structures::tss::TaskStateSegment =
        Box::leak(Box::new(x86_64::structures::tss::TaskStateSegment::new()));
    let (_, selectors) = build(tss);
    let code = x86_64::structures::gdt::SegmentSelector(selectors.code_selector);
    let task = x86_64::structures::gdt::SegmentSelector(selectors.tss_selector);
    assert_eq!(code.index(), 1);
    assert_eq!(task.index(), 2);
    assert_eq!(code.rpl(), x86_64::PrivilegeLevel::Ring0);
    assert_eq!(task.rpl(), x86_64::PrivilegeLevel::Ring0);
}

#[test]
fn stack_must_lie_in_canonical_memory() {
    assert!(stack_start_is_valid(0));
    assert!(stack_start_is_valid(0x20_0000));
    assert!(stack_start_is_valid(0xffff_8000_0000_0000));
    assert!(stack_start_is_valid(u64::MAX - STACK_SIZE));
    assert!(!stack_start_is_valid(0x7fff_ffff_f000));
    assert!(!stack_start_is_valid(0x8000_0000_0000));
    assert!(!stack_start_is_valid(u64::MAX - STACK_SIZE + 1));
    assert!(!stack_start_is_valid(u64::MAX));
}
