//! Physical frames, virtual pages and the address rules of x86_64.

use vstd::prelude::*;

verus! {

/// Size in bytes of a physical frame and of a virtual page.
pub const PAGE_SIZE: u64 = 4096;

/// First value that is no physical address: physical addresses have 52 bits.
pub const PHYS_ADDR_LIMIT: u64 = 0x10_0000_0000_0000;

/// End (exclusive) of the lower half of the canonical virtual address space.
pub const LOWER_HALF_END: u64 = 0x8000_0000_0000;

/// Start of the upper half of the canonical virtual address space.
pub const UPPER_HALF_START: u64 = 0xffff_8000_0000_0000;

/// The greatest multiple of the page size that is not above `addr`.
pub open spec fn align_down(addr: int) -> int {
    addr - addr % 4096
}

/// A virtual address is canonical when bits 47 to 63 are all equal.
pub open spec fn is_canonical(addr: int) -> bool {
    0 <= addr < LOWER_HALF_END || UPPER_HALF_START <= addr <= u64::MAX
}

/// A 4 KiB frame of physical memory, named by the address of its first byte.
#[derive(Clone, Copy, Debug, PartialEq, Eq, Structural)]
pub struct PhysFrame {
    pub start_address: u64,
}

/// A 4 KiB page of virtual memory, named by the address of its first byte.
#[derive(Clone, Copy, Debug, PartialEq, Eq, Structural)]
pub struct Page {
    pub start_address: u64,
}

/// Calls `x86_64::structures::paging::PhysFrame::containing_address` on
/// `x86_64::PhysAddr::new(address)` and gives the frame's start address.
/// Trusted: for an address below 2^52 (`PhysAddr::new` panics above) the
/// frame starts at the address aligned down to 4096.
#[verifier::external_body]
fn phys_frame_start(address: u64) -> (start: u64)
    requires
        address < PHYS_ADDR_LIMIT,
    ensures
        start == align_down(address as int),
{
    x86_64::structures::paging::PhysFrame::<x86_64::structures::paging::Size4KiB>::containing_address(
        x86_64::PhysAddr::new(address),
    ).start_address().as_u64()
}

/// Calls `x86_64::structures::paging::Page::containing_address` on
/// `x86_64::VirtAddr::new(address)` and gives the page's start address.
/// Trusted: for a canonical address (`VirtAddr::new` panics on, or changes,
/// the others) the page starts at the address aligned down to 4096.
#[verifier::external_body]
fn page_start(address: u64) -> (start: u64)
    requires
        is_canonical(address as int),
    ensures
        start == align_down(address as int),
{
    x86_64::structures::paging::Page::<x86_64::structures::paging::Size4KiB>::containing_address(
        x86_64::VirtAddr::new(address),
    ).start_address().as_u64()
}

/// Calls `+` of `x86_64::VirtAddr` with a `u64` on `x86_64::VirtAddr::new(address)`.
/// Trusted: where the address and the sum are both canonical, the result is
/// the plain sum (the crate panics when the sum overflows and sign-extends
/// or panics when it is not canonical).
#[verifier::external_body]
fn virt_addr_add(address: u64, offset: u64) -> (sum: u64)
    requires
        is_canonical(address as int),
        is_canonical(address + offset),
    ensures
        sum == address + offset,
{
    (x86_64::VirtAddr::new(address) + offset).as_u64()
}

impl PhysFrame {
    /// The frame that contains the physical address `address`.
    pub fn containing_address(address: u64) -> (frame: PhysFrame)
        requires
            address < PHYS_ADDR_LIMIT,
        ensures
            frame.start_address == align_down(address as int),
    {
        PhysFrame { start_address: phys_frame_start(address) }
    }

    /// Address of the frame's first byte.
    pub fn start_address(self) -> (address: u64)
        ensures
            address == self.start_address,
    {
        self.start_address
    }
}

impl Page {
    /// The page that contains the virtual address `address`.
    pub fn containing_address(address: u64) -> (page: Page)
        requires
            is_canonical(address as int),
        ensures
            page.start_address == align_down(address as int),
    {
        Page { start_address: page_start(address) }
    }

    /// Address of the page's first byte.
    pub fn start_address(self) -> (address: u64)
        ensures
            address == self.start_address,
    {
        self.start_address
    }
}

/// Whether `address` is a canonical virtual address.
pub fn address_is_canonical(address: u64) -> (canonical: bool)
    ensures
        canonical == is_canonical(address as int),
{
    address < LOWER_HALF_END || address >= UPPER_HALF_START
}

/// The virtual address `offset` bytes above `address`.
pub fn offset_address(address: u64, offset: u64) -> (sum: u64)
    requires
        is_canonical(address as int),
        is_canonical(address + offset),
    ensures
        sum == address + offset,
{
    virt_addr_add(address, offset)
}

} // verus!
