//! The address layout of one lazy object.
//!
//! The engine reserves for each object a page-aligned address range holding a
//! header followed by the element data. The boundary keeps this layout as
//! plain numbers: it is what `ufo_header_ptr`, `ufo_body_ptr` and the address
//! lookups work on.

use vstd::prelude::*;

verus! {

/// Size in bytes of one page of the reserved address space.
pub const PAGE_BYTES: usize = 4096;

/// The live configuration and address layout of one object.
///
/// `min_load_ct` is kept exactly as the caller supplied it (zero meaning the
/// engine default), so that `ufo_get_params` reproduces the original value.
#[derive(Clone, Copy, PartialEq, Eq, Structural, Debug)]
pub struct ObjectInfo {
    pub base: usize,
    pub header_size: usize,
    pub element_size: usize,
    pub element_ct: usize,
    pub min_load_ct: usize,
    pub read_only: bool,
}

impl ObjectInfo {
    /// Total bytes the object's reserved range spans: the header followed by
    /// `element_ct` elements of `element_size` bytes each.
    pub open spec fn span(self) -> int {
        self.header_size + self.element_ct * self.element_size
    }

    /// Address of the element data: directly after the header.
    pub open spec fn body_addr(self) -> int {
        self.base + self.header_size
    }

    /// One past the last address of the reserved range.
    pub open spec fn end_addr(self) -> int {
        self.base + self.span()
    }

    /// True iff `addr` falls inside this object's reserved range.
    pub open spec fn contains(self, addr: int) -> bool {
        self.base <= addr < self.end_addr()
    }

    /// A layout the engine could have issued: the base is page-aligned and
    /// non-null, and the whole range fits in the address space.
    pub open spec fn wf(self) -> bool {
        &&& self.base >= PAGE_BYTES
        &&& (self.base as int) % (PAGE_BYTES as int) == 0
        &&& self.end_addr() <= usize::MAX
    }
}

} // verus!
