//! Bootstrap of the kernel heap: which pages are mapped to which frames, and
//! when the dynamic allocator may be told that its memory is there.
//!
//! Mapping a page changes the page tables and the address cache, which
//! only the kernel binary can do. So the bootstrap is a sequence of steps:
//! [`init_heap`] starts it, [`HeapInit::next_action`] decides what is done
//! next, the caller does it and reports back through
//! [`PendingMap::completed`].

use vstd::prelude::*;
use crate::addr::Page;
use crate::addr::PhysFrame;
use crate::addr::LOWER_HALF_END;
use crate::addr::UPPER_HALF_START;
use crate::addr::align_down;
use crate::addr::is_canonical;
use crate::addr::offset_address;
use crate::memory::FrameAllocator;
use crate::memory::rest_of;

verus! {

/// Virtual address at which the kernel heap starts.
pub const HEAP_START: u64 = 0x_4444_4444_0000;

/// Size of the kernel heap in bytes: 100 KiB.
pub const HEAP_SIZE: u64 = 100 * 1024;

/// Permissions of a page mapping.
#[derive(Clone, Copy, Debug, PartialEq, Eq, Structural)]
pub struct PageTableFlags {
    /// The page is backed by a frame.
    pub present: bool,
    /// The page may be written to.
    pub writable: bool,
}

/// A virtual page, the frame that backs it and its permissions.
#[derive(Clone, Copy, Debug, PartialEq, Eq, Structural)]
pub struct Mapping {
    pub page: Page,
    pub frame: PhysFrame,
    pub flags: PageTableFlags,
}

/// The `size` bytes of virtual memory from `start` on.
#[derive(Clone, Copy, Debug, PartialEq, Eq, Structural)]
pub struct HeapRegion {
    pub start: u64,
    pub size: u64,
}

/// Why a page could not be mapped.
#[derive(Clone, Copy, Debug, PartialEq, Eq, Structural)]
pub enum MapToError {
    /// A frame was needed and the frame allocator had none.
    FrameAllocationFailed,
    /// The page lies within a huge page that is mapped already.
    ParentEntryHugePage,
    /// The page is mapped already, to the given frame.
    PageAlreadyMapped(PhysFrame),
}

/// What the caller does next.
pub enum HeapStep {
    /// Map the page of the request to its frame with its flags, drop the
    /// stale cache entry of that page, then report the outcome.
    MapPage(PendingMap),
    /// Every page is mapped: hand the region to the dynamic allocator.
    Activate(HeapRegion),
    /// The bootstrap failed: the dynamic allocator stays without memory.
    Abort(MapToError),
}

/// What a step asks for, without the state that travels with it.
pub enum HeapDecision {
    /// Make this mapping.
    MapPage(Mapping),
    /// Hand this region to the dynamic allocator.
    Activate(HeapRegion),
    /// Give up with this error.
    Abort(MapToError),
}

/// Progress of a heap bootstrap: the region and the number of its pages that
/// are mapped.
pub struct HeapInit {
    region: HeapRegion,
    first_page: u64,
    page_count: u64,
    mapped: u64,
}

/// A bootstrap that waits for one page to be mapped.
pub struct PendingMap {
    progress: HeapInit,
    mapping: Mapping,
}

/// The flags of every heap page: present and writable.
pub open spec fn heap_flags() -> PageTableFlags {
    PageTableFlags { present: true, writable: true }
}

/// A heap region is not empty, starts and ends at canonical addresses and
/// lies within one half of the address space.
pub open spec fn valid_heap_region(region: HeapRegion) -> bool {
    &&& region.size > 0
    &&& is_canonical(region.start as int)
    &&& is_canonical(region.start + region.size)
    &&& (region.start + region.size < LOWER_HALF_END || UPPER_HALF_START <= region.start)
}

/// Number of pages that hold a byte of the region.
pub open spec fn heap_page_count(region: HeapRegion) -> nat {
    ((align_down(region.start + region.size - 1) - align_down(region.start as int)) / 4096 + 1) as nat
}

/// The page with number `index` among those that hold a byte of the region.
pub open spec fn heap_page(region: HeapRegion, index: int) -> Page {
    Page { start_address: (align_down(region.start as int) + index * 4096) as u64 }
}

/// What is done next when `mapped` pages of the region are mapped and the
/// frame allocator has `supply` left: with every page mapped the region goes
/// to the allocator; else the next page is mapped to the next frame, and
/// without a frame the bootstrap fails.
pub open spec fn heap_decision(region: HeapRegion, mapped: nat, supply: Seq<PhysFrame>) -> HeapDecision {
    if mapped >= heap_page_count(region) {
        HeapDecision::Activate(region)
    } else if supply.len() == 0 {
        HeapDecision::Abort(MapToError::FrameAllocationFailed)
    } else {
        HeapDecision::MapPage(
            Mapping { page: heap_page(region, mapped as int), frame: supply[0], flags: heap_flags() },
        )
    }
}

/// How a bootstrap ends when nothing else draws on the frame allocator.
pub struct HeapOutcome {
    /// The region that went to the dynamic allocator, or why none did.
    pub result: Result<HeapRegion, MapToError>,
    /// The mappings that were made, in the order in which they were made.
    pub mappings: Seq<Mapping>,
    /// What the frame allocator has left.
    pub supply: Seq<PhysFrame>,
}

/// The bootstrap run to its end from `mapped` pages on, with `supply` in the
/// frame allocator, where `answers` tells for each page number how the
/// request to map that page ends.
pub open spec fn heap_run(
    region: HeapRegion,
    mapped: nat,
    supply: Seq<PhysFrame>,
    answers: spec_fn(nat) -> Result<(), MapToError>,
) -> HeapOutcome
    decreases heap_page_count(region) - mapped,
{
    match heap_decision(region, mapped, supply) {
        HeapDecision::Activate(live) => HeapOutcome { result: Ok(live), mappings: Seq::empty(), supply },
        HeapDecision::Abort(error) => HeapOutcome { result: Err(error), mappings: Seq::empty(), supply },
        HeapDecision::MapPage(mapping) => match answers(mapped) {
            Err(error) => HeapOutcome {
                result: Err(error),
                mappings: Seq::empty(),
                supply: rest_of(supply),
            },
            Ok(_) => {
                let rest = heap_run(region, mapped + 1, rest_of(supply), answers);
                HeapOutcome {
                    result: rest.result,
                    mappings: seq![mapping] + rest.mappings,
                    supply: rest.supply,
                }
            },
        },
    }
}

/// With fewer frames than pages left to map, the bootstrap fails whatever
/// the mapper answers: no region ever goes to the dynamic allocator. Where
/// the mapper accepts every request, the failure is the want of a frame and
/// the frame allocator is left empty.
pub proof fn law_too_few_frames_fail(
    region: HeapRegion,
    mapped: nat,
    supply: Seq<PhysFrame>,
    answers: spec_fn(nat) -> Result<(), MapToError>,
)
    requires
        mapped + supply.len() < heap_page_count(region),
    ensures
        heap_run(region, mapped, supply, answers).result.is_err(),
        (forall|page: nat| (#[trigger] answers(page)).is_ok()) ==> {
            &&& heap_run(region, mapped, supply, answers).result == Err::<HeapRegion, MapToError>(
                MapToError::FrameAllocationFailed,
            )
            &&& heap_run(region, mapped, supply, answers).supply.len() == 0
            &&& heap_run(region, mapped, supply, answers).mappings.len() == supply.len()
        },
    decreases heap_page_count(region) - mapped,
{
    if supply.len() > 0 && answers(mapped).is_ok() {
        law_too_few_frames_fail(region, mapped + 1, rest_of(supply), answers);
    }
}

/// With a frame for every page left to map and a mapper that accepts every
/// request, the bootstrap succeeds: page by page, each page of the region is
/// mapped present and writable to the next frame of the supply, then the
/// whole region goes to the dynamic allocator, and the frames beyond those
/// used stay in the frame allocator.
pub proof fn law_enough_frames_succeed(
    region: HeapRegion,
    mapped: nat,
    supply: Seq<PhysFrame>,
    answers: spec_fn(nat) -> Result<(), MapToError>,
)
    requires
        mapped <= heap_page_count(region),
        mapped + supply.len() >= heap_page_count(region),
        forall|page: nat| (#[trigger] answers(page)).is_ok(),
    ensures
        heap_run(region, mapped, supply, answers).result == Ok::<HeapRegion, MapToError>(region),
        heap_run(region, mapped, supply, answers).mappings.len() == heap_page_count(region) - mapped,
        forall|i: int|
            0 <= i < heap_page_count(region) - mapped ==> #[trigger] heap_run(
                region,
                mapped,
                supply,
                answers,
            ).mappings[i] == (Mapping {
                page: heap_page(region, mapped + i),
                frame: supply[i],
                flags: heap_flags(),
            }),
        heap_run(region, mapped, supply, answers).supply == supply.skip(
            heap_page_count(region) - mapped,
        ),
    decreases heap_page_count(region) - mapped,
{
    if mapped < heap_page_count(region) {
        law_enough_frames_succeed(region, mapped + 1, rest_of(supply), answers);
        let rest = heap_run(region, mapped + 1, rest_of(supply), answers);
        let whole = heap_run(region, mapped, supply, answers);
        assert(whole.mappings == seq![whole.mappings[0]] + rest.mappings);
        assert forall|i: int| 0 <= i < heap_page_count(region) - mapped implies #[trigger] whole.mappings[i]
            == (Mapping { page: heap_page(region, mapped + i), frame: supply[i], flags: heap_flags() }) by {
            if i > 0 {
                assert(whole.mappings[i] == rest.mappings[i - 1]);
                assert(rest_of(supply)[i - 1] == supply[i]);
            }
        }
        assert(whole.supply =~= supply.skip(heap_page_count(region) - mapped));
    } else {
        assert(supply.skip(0) =~= supply);
    }
}

/// A region that starts at a page boundary and is a whole number of pages
/// long has as many pages as its size divided by the page size.
pub proof fn law_aligned_heap_page_count(region: HeapRegion)
    requires
        valid_heap_region(region),
        region.start % 4096 == 0,
        region.size % 4096 == 0,
    ensures
        heap_page_count(region) == region.size / 4096,
{
}

/// Every byte of a heap region lies in one of its pages.
pub proof fn law_heap_pages_cover_region(region: HeapRegion, address: u64) -> (index: int)
    requires
        valid_heap_region(region),
        region.start <= address < region.start + region.size,
    ensures
        0 <= index < heap_page_count(region),
        heap_page(region, index).start_address <= address < heap_page(region, index).start_address + 4096,
{
    (align_down(address as int) - align_down(region.start as int)) / 4096
}

/// The pages of a heap region are distinct, aligned, and hold bytes of the
/// region only.
pub proof fn law_heap_pages_are_distinct(region: HeapRegion, first: int, second: int)
    requires
        valid_heap_region(region),
        0 <= first < second < heap_page_count(region),
    ensures
        heap_page(region, first).start_address < heap_page(region, second).start_address,
        heap_page(region, first).start_address % 4096 == 0,
        heap_page(region, second).start_address < region.start + region.size,
{
}

impl HeapStep {
    /// What the step asks for.
    pub open spec fn decision(self) -> HeapDecision {
        match self {
            HeapStep::MapPage(pending) => HeapDecision::MapPage(pending.request()),
            HeapStep::Activate(region) => HeapDecision::Activate(region),
            HeapStep::Abort(error) => HeapDecision::Abort(error),
        }
    }
}

impl PendingMap {
    /// The bootstrap is sound and the page that is asked for is one of its
    /// pages.
    #[verifier::type_invariant]
    spec fn page_is_left(self) -> bool {
        self.progress.sound() && self.progress.mapped < self.progress.page_count
    }

    /// The mapping that is asked for.
    pub closed spec fn request(self) -> Mapping {
        self.mapping
    }

    /// The bootstrap as it stood when the mapping was asked for.
    pub closed spec fn progress(self) -> HeapInit {
        self.progress
    }

    /// The mapping that is asked for.
    pub fn mapping(&self) -> (mapping: Mapping)
        ensures
            mapping == self.request(),
    {
        self.mapping
    }

    /// Takes the outcome of the mapping that was asked for. After a success
    /// the bootstrap goes on with one page more mapped; a failure ends it
    /// with the mapper's error.
    pub fn completed(self, outcome: Result<(), MapToError>) -> (next: Result<HeapInit, MapToError>)
        ensures
            match outcome {
                Ok(_) => next.is_ok() && next.unwrap().region() == self.progress().region()
                    && next.unwrap().mapped() == self.progress().mapped() + 1,
                Err(error) => next == Err::<HeapInit, MapToError>(error),
            },
    {
        proof {
            use_type_invariant(&self);
        }
        match outcome {
            Ok(_) => Ok(
                HeapInit {
                    region: self.progress.region,
                    first_page: self.progress.first_page,
                    page_count: self.progress.page_count,
                    mapped: self.progress.mapped + 1,
                },
            ),
            Err(error) => Err(error),
        }
    }
}

impl HeapInit {
    /// The region that becomes the heap.
    pub closed spec fn region(self) -> HeapRegion {
        self.region
    }

    /// Number of pages mapped so far.
    pub closed spec fn mapped(self) -> nat {
        self.mapped as nat
    }

    /// The region is valid, its pages are counted right, and no more of them
    /// are mapped than there are.
    #[verifier::type_invariant]
    spec fn sound(self) -> bool {
        &&& valid_heap_region(self.region)
        &&& self.first_page == align_down(self.region.start as int)
        &&& self.page_count == heap_page_count(self.region)
        &&& self.mapped <= self.page_count
    }

    /// Decides what is done next, and takes the frame for the next page from
    /// `frame_allocator` where a page is left to map.
    pub fn next_action<A: FrameAllocator>(self, frame_allocator: &mut A) -> (step: HeapStep)
        ensures
            step.decision() == heap_decision(self.region(), self.mapped(), old(frame_allocator).remaining()),
            step matches HeapStep::MapPage(pending) ==> pending.progress() == self,
            final(frame_allocator).remaining() == (if self.mapped() < heap_page_count(self.region()) {
                rest_of(old(frame_allocator).remaining())
            } else {
                old(frame_allocator).remaining()
            }),
    {
        proof {
            use_type_invariant(&self);
        }
        if self.mapped >= self.page_count {
            return HeapStep::Activate(self.region);
        }
        match frame_allocator.allocate_frame() {
            None => HeapStep::Abort(MapToError::FrameAllocationFailed),
            Some(frame) => {
                let page = Page::containing_address(self.first_page + self.mapped * 4096);
                let flags = PageTableFlags { present: true, writable: true };
                HeapStep::MapPage(PendingMap { progress: self, mapping: Mapping { page, frame, flags } })
            },
        }
    }
}

/// Starts the bootstrap of the heap of `size` bytes at `base`: no page is
/// mapped yet. The caller then takes step after step: it asks
/// [`HeapInit::next_action`] what to do, does it, and reports the outcome of
/// a mapping through [`PendingMap::completed`], until a step hands the
/// region to the dynamic allocator or gives up.
pub fn init_heap(base: u64, size: u64) -> (init: HeapInit)
    requires
        valid_heap_region(HeapRegion { start: base, size }),
    ensures
        init.region() == (HeapRegion { start: base, size }),
        init.mapped() == 0,
{
    let first_page = Page::containing_address(base).start_address();
    let last_byte = offset_address(base, size) - 1;
    let last_page = Page::containing_address(last_byte).start_address();
    let page_count = (last_page - first_page) / 4096 + 1;
    HeapInit { region: HeapRegion { start: base, size }, first_page, page_count, mapped: 0 }
}

/// Whether `size` bytes at `start` can be a heap region.
pub fn heap_region_is_valid(start: u64, size: u64) -> (valid: bool)
    ensures
        valid == valid_heap_region(HeapRegion { start, size }),
{
    if size == 0 {
        return false;
    }
    if start < LOWER_HALF_END {
        size < LOWER_HALF_END - start
    } else {
        start >= UPPER_HALF_START && size <= u64::MAX - start
    }
}

/// A dynamic allocator that has no memory: every request fails.
pub struct Dummy;

impl Dummy {
    /// Answers a request for `size` bytes aligned to `align`: never with a
    /// block.
    pub fn allocate(&self, size: usize, align: usize) -> (block: Option<usize>)
        ensures
            block.is_none(),
    {
        None
    }
}

} // verus!
