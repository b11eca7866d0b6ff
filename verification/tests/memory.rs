use rustos::addr::PhysFrame;
use rustos::addr::PHYS_ADDR_LIMIT;
use rustos::memory::memory_map_is_valid;
use rustos::memory::page_table_address;
use rustos::memory::BootInfoFrameAllocator;
use rustos::memory::EmptyFrameAllocator;
use rustos::memory::FrameAllocator;
use rustos::memory::MemoryRegion;
use rustos::memory::MemoryRegionType;

fn usable(start: u64, end: u64) -> MemoryRegion {
    MemoryRegion { start, end, region_type: MemoryRegionType::Usable }
}

fn frame(start_address: u64) -> Option<PhysFrame> {
    Some(PhysFrame { start_address })
}

#[test]
fn frames_of_one_region_come_in_ascending_order() {
    let map = [usable(0x1000, 0x4000)];
    assert!(memory_map_is_valid(&map));
    let mut allocator = BootInfoFrameAllocator::init(&map);
    assert_eq!(allocator.allocate_frame(), frame(0x1000));
    assert_eq!(allocator.allocate_frame(), frame(0x2000));
    assert_eq!(allocator.allocate_frame(), frame(0x3000));
    assert_eq!(allocator.allocate_frame(), None);
}

#[test]
fn exhaustion_is_final() {
    let map = [usable(0x8000, 0x9000)];
    let mut allocator = BootInfoFrameAllocator::init(&map);
    assert_eq!(allocator.allocate_frame(), frame(0x8000));
    let mut calls: u32 = 0;
    while calls < 100 {
        assert_eq!(allocator.allocate_frame(), None);
        calls += 1;
    }
}

#[test]
fn map_without_usable_region_is_exhausted_at_once() {
    let map = [
        MemoryRegion { start: 0, end: 0x10_0000, region_type: MemoryRegionType::Reserved },
        MemoryRegion { start: 0x10_0000, end: 0x20_0000, region_type: MemoryRegionType::Other },
    ];
    assert!(memory_map_is_valid(&map));
    let mut allocator = BootInfoFrameAllocator::init(&map);
    assert_eq!(allocator.allocate_frame(), None);
    assert_eq!(allocator.allocate_frame(), None);
}

#[test]
fn empty_map_is_exhausted_at_once() {
    let map: [MemoryRegion; 0] = [];
    assert!(memory_map_is_valid(&map));
    let mut allocator = BootInfoFrameAllocator::init(&map);
    assert_eq!(allocator.allocate_frame(), None);
}

#[test]
fn only_usable_regions_supply_frames() {
    let map = [
        MemoryRegion { start: 0, end: 0x2000, region_type: MemoryRegionType::Reserved },
        usable(0x2000, 0x4000),
        MemoryRegion { start: 0x4000, end: 0x8000, region_type: MemoryRegionType::Other },
        usable(0x8000, 0x9000),
    ];
    let mut allocator = BootInfoFrameAllocator::init(&map);
    assert_eq!(allocator.allocate_frame(), frame(0x2000));
    assert_eq!(allocator.allocate_frame(), frame(0x3000));
    assert_eq!(allocator.allocate_frame(), frame(0x8000));
    assert_eq!(allocator.allocate_frame(), None);
}

#[test]
fn frames_strictly_increase_over_an_ascending_map() {
    let map = [usable(0x1000, 0x5000), usable(0x10_0000, 0x10_8000), usable(0x20_0000, 0x20_1000)];
    let mut allocator = BootInfoFrameAllocator::init(&map);
    let mut last: Option<u64> = None;
    let mut count: u32 = 0;
    while let Some(next) = allocator.allocate_frame() {
        if let Some(previous) = last {
            assert!(previous < next.start_address());
        }
        assert_eq!(next.start_address() % 4096, 0);
        last = Some(next.start_address());
        count += 1;
    }
    assert_eq!(count, 4 + 8 + 1);
    assert_eq!(last, Some(0x20_0000));
}

#[test]
fn regions_are_visited_in_map_order() {
    let map = [usable(0x2000, 0x3000), usable(0x1000, 0x2000)];
    let mut allocator = BootInfoFrameAllocator::init(&map);
    assert_eq!(allocator.allocate_frame(), frame(0x2000));
    assert_eq!(allocator.allocate_frame(), frame(0x1000));
    assert_eq!(allocator.allocate_frame(), None);
}

#[test]
fn empty_and_inverted_regions_supply_nothing() {
    let map = [usable(0x3000, 0x3000), usable(0x9000, 0x1000), usable(0x5000, 0x6000)];
    let mut allocator = BootInfoFrameAllocator::init(&map);
    assert_eq!(allocator.allocate_frame(), frame(0x5000));
    assert_eq!(allocator.allocate_frame(), None);
}

#[test]
fn usable_region_off_the_frame_boundaries_is_invalid() {
    assert!(!memory_map_is_valid(&[usable(0x1100, 0x3000)]));
    assert!(!memory_map_is_valid(&[usable(0x1000, 0x2800)]));
    assert!(!memory_map_is_valid(&[usable(0x1000, 0x2000), usable(0x3001, 0x4000)]));
    assert!(!memory_map_is_valid(&[usable(1, 1)]));
    assert!(memory_map_is_valid(&[usable(0x1000, 0x3000)]));
}

#[test]
fn unusable_region_may_lie_off_the_frame_boundaries() {
    let map = [
        MemoryRegion { start: 0x1100, end: 0x2fff, region_type: MemoryRegionType::Reserved },
        MemoryRegion { start: 0x7, end: 0x9, region_type: MemoryRegionType::Other },
        usable(0x4000, 0x5000),
    ];
    assert!(memory_map_is_valid(&map));
    let mut allocator = BootInfoFrameAllocator::init(&map);
    assert_eq!(allocator.allocate_frame(), frame(0x4000));
    assert_eq!(allocator.allocate_frame(), None);
}

#[test]
fn first_frame_is_the_start_of_the_first_usable_region_with_a_frame() {
    let map = [
        MemoryRegion { start: 0, end: 0x1000, region_type: MemoryRegionType::Reserved },
        usable(0x3000, 0x3000),
        usable(0x9000, 0x2000),
        usable(0x5000, 0x7000),
        usable(0x1000, 0x2000),
    ];
    assert!(memory_map_is_valid(&map));
    let mut allocator = BootInfoFrameAllocator::init(&map);
    assert_eq!(allocator.allocate_frame(), frame(0x5000));
}

#[test]
fn frames_are_whole_frames_of_their_region() {
    let map = [usable(0x10_0000, 0x10_4000), usable(0x20_0000, 0x20_1000)];
    let mut allocator = BootInfoFrameAllocator::init(&map);
    let mut count: u32 = 0;
    while let Some(next) = allocator.allocate_frame() {
        let start: u64 = next.start_address();
        assert_eq!(start % 4096, 0);
        assert!(map.iter().any(|region| region.start <= start && start + 4096 <= region.end));
        count += 1;
    }
    assert_eq!(count, 5);
}

#[test]
fn region_up_to_the_last_physical_address() {
    let map = [usable(PHYS_ADDR_LIMIT - 0x2000, PHYS_ADDR_LIMIT)];
    assert!(memory_map_is_valid(&map));
    let mut allocator = BootInfoFrameAllocator::init(&map);
    assert_eq!(allocator.allocate_frame(), frame(PHYS_ADDR_LIMIT - 0x2000));
    assert_eq!(allocator.allocate_frame(), frame(PHYS_ADDR_LIMIT - 0x1000));
    assert_eq!(allocator.allocate_frame(), None);
}

#[test]
fn usable_region_beyond_physical_addresses_is_invalid() {
    let map = [usable(0x1000, 0x2000), usable(0x1000, PHYS_ADDR_LIMIT + 1)];
    assert!(!memory_map_is_valid(&map));
}

#[test]
fn unusable_region_may_lie_anywhere() {
    let map = [MemoryRegion { start: 0, end: u64::MAX, region_type: MemoryRegionType::Reserved }];
    assert!(memory_map_is_valid(&map));
}

#[test]
fn empty_frame_allocator_has_no_frame() {
    let mut allocator = EmptyFrameAllocator;
    assert_eq!(allocator.allocate_frame(), None);
    assert_eq!(allocator.allocate_frame(), None);
}

#[test]
fn page_table_is_reached_above_the_offset() {
    let table = PhysFrame { start_address: 0x1000 };
    assert_eq!(page_table_address(0xffff_8000_0000_0000, table), 0xffff_8000_0000_1000);
    assert_eq!(page_table_address(0x1_0000_0000, PhysFrame { start_address: 0 }), 0x1_0000_0000);
}
