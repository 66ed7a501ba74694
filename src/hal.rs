//! What the host kernel provides to the hypervisor: page allocation.

use vstd::prelude::*;

verus! {

/// Size of a page.
pub const PAGE_SIZE_4K: usize = 0x1000;

/// Page allocation, implemented by the host kernel or hypervisor shell.
pub trait HyperCraftHal: Sized {
    /// Allocates `num_pages` contiguous pages and returns their address, or
    /// `None` when memory is exhausted.
    fn alloc_pages(num_pages: usize) -> Option<usize>;

    /// Gives back `num_pages` pages starting at `va`.
    fn dealloc_pages(va: usize, num_pages: usize);

    /// Allocates one page.
    fn alloc_page() -> Option<usize> {
        Self::alloc_pages(1)
    }

    /// Gives back one page.
    fn dealloc_page(va: usize) {
        Self::dealloc_pages(va, 1)
    }
}

} // verus!
