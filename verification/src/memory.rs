//! The memory map handed over at boot and the frame allocators built on it.

use vstd::prelude::*;
use crate::addr::PhysFrame;
use crate::addr::PHYS_ADDR_LIMIT;
use crate::addr::is_canonical;
use crate::addr::offset_address;

verus! {

/// What a region of physical memory may be used for.
#[derive(Clone, Copy, Debug, PartialEq, Eq, Structural)]
pub enum MemoryRegionType {
    /// Free memory that the kernel may hand out.
    Usable,
    /// Memory that the hardware keeps for itself.
    Reserved,
    /// Memory that is taken for any other reason.
    Other,
}

/// One entry of the memory map: the bytes from `start` up to, not including,
/// `end`, and their classification. A region whose `end` is not above its
/// `start` is empty.
#[derive(Clone, Copy, Debug, PartialEq, Eq, Structural)]
pub struct MemoryRegion {
    pub start: u64,
    pub end: u64,
    pub region_type: MemoryRegionType,
}

impl MemoryRegion {
    /// The region is free for the kernel to use.
    pub open spec fn is_usable(self) -> bool {
        self.region_type == MemoryRegionType::Usable
    }

    /// Number of frames the region supplies: the frames that lie between
    /// `start` and `end`, none if it is not usable.
    pub open spec fn frame_count(self) -> nat {
        if self.is_usable() && self.start < self.end {
            ((self.end - self.start) / 4096) as nat
        } else {
            0
        }
    }

    /// The frame with number `index` among those the region supplies: the
    /// one that starts `index` frames above `start`.
    pub open spec fn frame(self, index: int) -> PhysFrame {
        PhysFrame { start_address: (self.start + index * 4096) as u64 }
    }

    /// The frames the region supplies, in ascending order of address.
    pub open spec fn frames(self) -> Seq<PhysFrame> {
        Seq::new(self.frame_count(), |index: int| self.frame(index))
    }

    /// A usable region starts and ends at a frame boundary, so that it is
    /// made of whole frames, and every address of it is a physical address.
    pub open spec fn is_valid(self) -> bool {
        self.is_usable() ==> {
            &&& self.start % 4096 == 0
            &&& self.end % 4096 == 0
            &&& self.end <= PHYS_ADDR_LIMIT
        }
    }

    /// Number of the first frame the region touches.
    pub open spec fn first_frame_number(self) -> int {
        self.start as int / 4096
    }

    /// Number of the first frame above those the region supplies.
    pub open spec fn end_frame_number(self) -> int {
        self.start as int / 4096 + self.frame_count()
    }
}

/// All frames of the usable regions of `map`: regions in map order, the
/// frames of one region in ascending order of address.
pub open spec fn usable_frames(map: Seq<MemoryRegion>) -> Seq<PhysFrame>
    decreases map.len(),
{
    if map.len() == 0 {
        Seq::empty()
    } else {
        usable_frames(map.drop_last()) + map.last().frames()
    }
}

/// A memory map is valid when its usable regions are made of whole frames
/// of physical memory.
pub open spec fn valid_memory_map(map: Seq<MemoryRegion>) -> bool {
    forall|i: int| 0 <= i < map.len() ==> (#[trigger] map[i]).is_valid()
}

/// The usable regions that supply frames come in ascending order and no two
/// of them touch the same frame.
pub open spec fn ascending_memory_map(map: Seq<MemoryRegion>) -> bool {
    forall|i: int, j: int|
        0 <= i < j < map.len() && (#[trigger] map[i]).frame_count() > 0 && (#[trigger] map[j]).frame_count() > 0
            ==> map[i].end_frame_number() <= map[j].first_frame_number()
}

/// The frame that a supply hands out next, if any is left.
pub open spec fn next_of(supply: Seq<PhysFrame>) -> Option<PhysFrame> {
    if supply.len() > 0 {
        Some(supply[0])
    } else {
        None
    }
}

/// The supply that is left after one request.
pub open spec fn rest_of(supply: Seq<PhysFrame>) -> Seq<PhysFrame> {
    if supply.len() > 0 {
        supply.skip(1)
    } else {
        supply
    }
}

/// A source of physical frames. Frames are handed out one at a time and are
/// never taken back.
pub trait FrameAllocator {
    /// The frames not handed out yet, in the order in which they will be.
    spec fn remaining(&self) -> Seq<PhysFrame>;

    /// Hands out the next frame, or reports that the supply is exhausted.
    fn allocate_frame(&mut self) -> (frame: Option<PhysFrame>)
        ensures
            frame == next_of(old(self).remaining()),
            final(self).remaining() == rest_of(old(self).remaining()),
    ;
}

/// An allocator that has no frame to give.
pub struct EmptyFrameAllocator;

impl FrameAllocator for EmptyFrameAllocator {
    open spec fn remaining(&self) -> Seq<PhysFrame> {
        Seq::empty()
    }

    fn allocate_frame(&mut self) -> (frame: Option<PhysFrame>) {
        None
    }
}

/// An allocator that hands out the frames of the usable regions of a memory
/// map, each frame once.
pub struct BootInfoFrameAllocator<'a> {
    memory_map: &'a [MemoryRegion],
    /// Index of the region the next frame is looked for in.
    region: usize,
    /// Number of frames of that region that were handed out.
    offset: u64,
}

impl<'a> BootInfoFrameAllocator<'a> {
    /// The map is valid and the cursor stands within it.
    #[verifier::type_invariant]
    spec fn cursor_in_map(self) -> bool {
        &&& valid_memory_map(self.memory_map@)
        &&& self.region <= self.memory_map@.len()
        &&& self.region < self.memory_map@.len() ==> self.offset <= self.memory_map@[
            self.region as int
        ].frame_count()
        &&& self.region == self.memory_map@.len() ==> self.offset == 0
    }

    /// The memory map the allocator was made from.
    pub closed spec fn memory_map(&self) -> Seq<MemoryRegion> {
        self.memory_map@
    }

    /// Number of frames handed out so far: the position of the cursor in
    /// `usable_frames(self.memory_map())`.
    pub closed spec fn allocated(&self) -> nat {
        (usable_frames(self.memory_map@.take(self.region as int)).len() + self.offset) as nat
    }

    /// An allocator over `memory_map` that has handed out nothing yet.
    pub fn init(memory_map: &'a [MemoryRegion]) -> (allocator: Self)
        requires
            valid_memory_map(memory_map@),
        ensures
            allocator.memory_map() == memory_map@,
            allocator.allocated() == 0,
            allocator.remaining() == usable_frames(memory_map@),
    {
        let allocator = BootInfoFrameAllocator { memory_map, region: 0, offset: 0 };
        assert(memory_map@.take(0).len() == 0);
        assert(usable_frames(memory_map@).skip(0) =~= usable_frames(memory_map@));
        allocator
    }
}

impl<'a> FrameAllocator for BootInfoFrameAllocator<'a> {
    open spec fn remaining(&self) -> Seq<PhysFrame> {
        if self.allocated() <= usable_frames(self.memory_map()).len() {
            usable_frames(self.memory_map()).skip(self.allocated() as int)
        } else {
            Seq::empty()
        }
    }

    fn allocate_frame(&mut self) -> (frame: Option<PhysFrame>)
        ensures
            final(self).memory_map() == old(self).memory_map(),
            final(self).allocated() == old(self).allocated() + (if frame.is_some() {
                1nat
            } else {
                0nat
            }),
    {
        proof {
            use_type_invariant(&*self);
        }
        let ghost map = self.memory_map@;
        while self.region < self.memory_map.len()
            invariant
                self.cursor_in_map(),
                self.memory_map@ == map,
                map == old(self).memory_map@,
                self.allocated() == old(self).allocated(),
            decreases self.memory_map@.len() - self.region,
        {
            let region = self.memory_map[self.region];
            let ghost index = self.region as int;
            proof {
                lemma_usable_frames_take_step(map, index);
                lemma_usable_frames_prefix(map, index + 1);
            }
            if region.region_type == MemoryRegionType::Usable && region.start < region.end
                && self.offset * 4096 < region.end - region.start {
                let frame = PhysFrame::containing_address(region.start + self.offset * 4096);
                self.offset = self.offset + 1;
                proof {
                    let before = usable_frames(map.take(index)).len();
                    let position = before + self.offset - 1;
                    assert(usable_frames(map)[position] == usable_frames(map.take(index + 1))[position]);
                    assert(usable_frames(map.take(index + 1))[position] == region.frames()[self.offset - 1]);
                    assert(frame == usable_frames(map)[position]);
                    assert(old(self).remaining() == usable_frames(map).skip(position));
                    assert(self.remaining() =~= old(self).remaining().skip(1));
                }
                return Some(frame);
            }
            self.offset = 0;
            self.region = self.region + 1;
        }
        proof {
            assert(map.take(self.region as int) =~= map);
            assert(self.remaining() =~= Seq::<PhysFrame>::empty());
        }
        None
    }
}

/// Whether every usable region of `memory_map` is made of whole frames of
/// physical memory.
pub fn memory_map_is_valid(memory_map: &[MemoryRegion]) -> (valid: bool)
    ensures
        valid == valid_memory_map(memory_map@),
{
    let mut index: usize = 0;
    while index < memory_map.len()
        invariant
            index <= memory_map@.len(),
            forall|i: int| 0 <= i < index ==> (#[trigger] memory_map@[i]).is_valid(),
        decreases memory_map@.len() - index,
    {
        let region = memory_map[index];
        if region.region_type == MemoryRegionType::Usable && (region.start % 4096 != 0 || region.end
            % 4096 != 0 || region.end > PHYS_ADDR_LIMIT) {
            assert(!memory_map@[index as int].is_valid());
            return false;
        }
        index = index + 1;
    }
    true
}

/// Virtual address at which the page table held by `table_frame` can be
/// reached, where all physical memory is mapped `physical_memory_offset`
/// bytes above its physical address.
pub fn page_table_address(physical_memory_offset: u64, table_frame: PhysFrame) -> (address: u64)
    requires
        is_canonical(physical_memory_offset as int),
        is_canonical(physical_memory_offset + table_frame.start_address),
    ensures
        address == physical_memory_offset + table_frame.start_address,
{
    offset_address(physical_memory_offset, table_frame.start_address())
}

/// The supply that is left after `requests` requests.
pub open spec fn supply_after(supply: Seq<PhysFrame>, requests: nat) -> Seq<PhysFrame>
    decreases requests,
{
    if requests == 0 {
        supply
    } else {
        rest_of(supply_after(supply, (requests - 1) as nat))
    }
}

/// Requests hand out a supply front to back, each frame once; once the
/// supply is used up, every further request finds it empty.
pub proof fn law_requests_walk_the_supply(supply: Seq<PhysFrame>, requests: nat)
    ensures
        requests <= supply.len() ==> supply_after(supply, requests) == supply.skip(requests as int),
        requests >= supply.len() ==> supply_after(supply, requests).len() == 0,
        next_of(supply_after(supply, requests)) == (if requests < supply.len() {
            Some(supply[requests as int])
        } else {
            None
        }),
    decreases requests,
{
    if requests == 0 {
        assert(supply.skip(0) =~= supply);
    } else {
        law_requests_walk_the_supply(supply, (requests - 1) as nat);
        if requests <= supply.len() {
            assert(supply.skip(requests - 1).skip(1) =~= supply.skip(requests as int));
        }
    }
}

/// A map with a usable region of at least one frame supplies at least one
/// frame.
pub proof fn law_usable_region_supplies_a_frame(map: Seq<MemoryRegion>, index: int)
    requires
        0 <= index < map.len(),
        map[index].frame_count() >= 1,
    ensures
        usable_frames(map).len() > 0,
        next_of(usable_frames(map)).is_some(),
{
    lemma_usable_frames_take_step(map, index);
    lemma_usable_frames_prefix(map, index + 1);
}

/// The first frame of a valid map is the start of its first usable region
/// that is not empty: that is what the first request on a fresh allocator
/// hands out.
pub proof fn law_first_frame_starts_first_usable_region(map: Seq<MemoryRegion>, index: int)
    requires
        valid_memory_map(map),
        0 <= index < map.len(),
        map[index].is_usable(),
        map[index].start < map[index].end,
        forall|earlier: int|
            0 <= earlier < index ==> !((#[trigger] map[earlier]).is_usable() && map[earlier].start
                < map[earlier].end),
    ensures
        map[index].end - map[index].start >= 4096,
        next_of(usable_frames(map)) == Some(PhysFrame { start_address: map[index].start }),
{
    let region = map[index];
    assert(region.is_valid());
    lemma_usable_frames_prefix(map, index + 1);
    lemma_usable_frames_take_step(map, index);
    assert(usable_frames(map.take(index)).len() == 0) by {
        assert forall|i: int| 0 <= i < map.take(index).len() implies (#[trigger] map.take(index)[i]).frame_count()
            == 0 by {
            assert(map.take(index)[i] == map[i]);
        }
        lemma_no_frames_without_supply(map.take(index));
    }
    assert(usable_frames(map.take(index + 1))[0] == region.frame(0));
}

/// Regions that supply no frame make a map that supplies no frame.
pub proof fn lemma_no_frames_without_supply(map: Seq<MemoryRegion>)
    requires
        forall|i: int| 0 <= i < map.len() ==> (#[trigger] map[i]).frame_count() == 0,
    ensures
        usable_frames(map).len() == 0,
    decreases map.len(),
{
    if map.len() > 0 {
        lemma_no_frames_without_supply(map.drop_last());
    }
}

/// A map without a usable region supplies no frame: the first request
/// already finds the supply exhausted.
pub proof fn law_no_usable_region_no_frame(map: Seq<MemoryRegion>)
    requires
        forall|i: int| 0 <= i < map.len() ==> !(#[trigger] map[i]).is_usable(),
    ensures
        usable_frames(map).len() == 0,
        next_of(usable_frames(map)).is_none(),
    decreases map.len(),
{
    if map.len() > 0 {
        law_no_usable_region_no_frame(map.drop_last());
    }
}

/// The frames of a valid region are whole frames of that region: each
/// starts at a frame boundary and lies between `start` and `end`.
pub proof fn law_region_frames_lie_within(region: MemoryRegion, index: int)
    requires
        region.is_valid(),
        0 <= index < region.frame_count(),
    ensures
        region.frame(index).start_address % 4096 == 0,
        region.start <= region.frame(index).start_address,
        region.frame(index).start_address + 4096 <= region.end,
{
}

/// The frames of one region come in strictly increasing order of address.
pub proof fn law_region_frames_increase(region: MemoryRegion, earlier: int, later: int)
    requires
        region.is_valid(),
        0 <= earlier < later < region.frame_count(),
    ensures
        region.frame(earlier).start_address < region.frame(later).start_address,
{
}

/// Every frame of a valid map lies within the frames of one of its regions.
pub proof fn lemma_frame_lies_in_a_region(map: Seq<MemoryRegion>, position: int) -> (index: int)
    requires
        valid_memory_map(map),
        0 <= position < usable_frames(map).len(),
    ensures
        0 <= index < map.len(),
        map[index].frame_count() > 0,
        map[index].first_frame_number() * 4096 <= usable_frames(map)[position].start_address,
        usable_frames(map)[position].start_address < map[index].end_frame_number() * 4096,
    decreases map.len(),
{
    let shorter = map.drop_last();
    let before = usable_frames(shorter).len();
    if position < before {
        lemma_frame_lies_in_a_region(shorter, position)
    } else {
        let region = map.last();
        assert(region.is_valid());
        assert(usable_frames(map)[position] == region.frame(position - before));
        map.len() - 1
    }
}

/// Where the supplying regions of a valid map ascend, its frames come in
/// strictly increasing order of address: no frame is handed out twice.
pub proof fn law_frames_strictly_increase(map: Seq<MemoryRegion>, earlier: int, later: int)
    requires
        valid_memory_map(map),
        ascending_memory_map(map),
        0 <= earlier < later < usable_frames(map).len(),
    ensures
        usable_frames(map)[earlier].start_address < usable_frames(map)[later].start_address,
    decreases map.len(),
{
    let shorter = map.drop_last();
    let before = usable_frames(shorter).len();
    let region = map.last();
    assert(region.is_valid());
    if later < before {
        law_frames_strictly_increase(shorter, earlier, later);
    } else if earlier < before {
        let index = lemma_frame_lies_in_a_region(shorter, earlier);
        assert(shorter[index] == map[index]);
        assert(usable_frames(map)[later] == region.frame(later - before));
        assert(map[index].end_frame_number() <= map[map.len() - 1].first_frame_number());
    } else {
        assert(usable_frames(map)[earlier] == region.frame(earlier - before));
        assert(usable_frames(map)[later] == region.frame(later - before));
        law_region_frames_increase(region, earlier - before, later - before);
    }
}

/// Appending one region appends its frames.
pub proof fn lemma_usable_frames_take_step(map: Seq<MemoryRegion>, index: int)
    requires
        0 <= index < map.len(),
    ensures
        usable_frames(map.take(index + 1)) == usable_frames(map.take(index)) + map[index].frames(),
{
    let longer = map.take(index + 1);
    assert(longer.drop_last() =~= map.take(index));
    assert(longer.last() == map[index]);
}

/// The frames of the first `count` regions come first among the frames of
/// the whole map.
pub proof fn lemma_usable_frames_prefix(map: Seq<MemoryRegion>, count: int)
    requires
        0 <= count <= map.len(),
    ensures
        usable_frames(map.take(count)).len() <= usable_frames(map).len(),
        forall|i: int|
            0 <= i < usable_frames(map.take(count)).len() ==> usable_frames(map)[i] == usable_frames(
                map.take(count),
            )[i],
    decreases map.len() - count,
{
    if count == map.len() {
        assert(map.take(count) =~= map);
    } else {
        lemma_usable_frames_take_step(map, count);
        lemma_usable_frames_prefix(map, count + 1);
    }
}

} // verus!
