use vstd::prelude::*;
use crate::trap::BridgeError;

verus! {

/// The most pages a 32-bit linear memory can have (64 KiB each, 4 GiB in
/// all).
pub const MAX_MEMORY_PAGES: u32 = 65536;

/// The size of a growable resource, a linear memory in pages or a table in
/// elements, with the maximum it was created with.
pub struct Extent {
    current: u32,
    max: u32,
}

impl Extent {
    /// The current size never exceeds the maximum.
    pub open spec fn wf(&self) -> bool {
        self.size_spec() <= self.max_spec()
    }

    pub closed spec fn size_spec(&self) -> nat {
        self.current as nat
    }

    pub closed spec fn max_spec(&self) -> nat {
        self.max as nat
    }

    /// A linear memory of `initial_pages` that may grow to `max_pages`; the
    /// request fails when it asks for more than the maximum, or for a
    /// maximum beyond what a 32-bit memory can address.
    pub fn allocate_memory(initial_pages: u32, max_pages: u32) -> (r: Result<Extent, BridgeError>)
        ensures
            (initial_pages <= max_pages && max_pages <= MAX_MEMORY_PAGES) <==> r is Ok,
            r is Ok ==> r->Ok_0.wf() && r->Ok_0.size_spec() == initial_pages && r->Ok_0.max_spec()
                == max_pages,
            r is Err ==> r == Err::<Extent, BridgeError>(BridgeError::AllocationFailure),
    {
        if initial_pages <= max_pages && max_pages <= MAX_MEMORY_PAGES {
            Ok(Extent { current: initial_pages, max: max_pages })
        } else {
            Err(BridgeError::AllocationFailure)
        }
    }

    /// A table of `elements` entries that may grow to `max_elements`; the
    /// request fails when it asks for more than the maximum.
    pub fn allocate_table(elements: u32, max_elements: u32) -> (r: Result<Extent, BridgeError>)
        ensures
            (elements <= max_elements) <==> r is Ok,
            r is Ok ==> r->Ok_0.wf() && r->Ok_0.size_spec() == elements && r->Ok_0.max_spec()
                == max_elements,
            r is Err ==> r == Err::<Extent, BridgeError>(BridgeError::AllocationFailure),
    {
        if elements <= max_elements {
            Ok(Extent { current: elements, max: max_elements })
        } else {
            Err(BridgeError::AllocationFailure)
        }
    }

    /// The current size.
    pub fn size(&self) -> (r: u32)
        ensures
            r == self.size_spec(),
    {
        self.current
    }

    /// The maximum size.
    pub fn max(&self) -> (r: u32)
        ensures
            r == self.max_spec(),
    {
        self.max
    }

    /// Grows by `delta`: the new size, or `None`, with nothing changed, when
    /// that would pass the maximum. Never traps.
    pub fn grow(&mut self, delta: u32) -> (r: Option<u32>)
        requires
            old(self).wf(),
        ensures
            final(self).wf(),
            final(self).max_spec() == old(self).max_spec(),
            old(self).size_spec() + delta <= old(self).max_spec() ==> r == Some(
                (old(self).size_spec() + delta) as u32,
            ) && final(self).size_spec() == old(self).size_spec() + delta,
            old(self).size_spec() + delta > old(self).max_spec() ==> r is None
                && final(self).size_spec() == old(self).size_spec(),
    {
        if delta <= self.max - self.current {
            self.current = self.current + delta;
            Some(self.current)
        } else {
            None
        }
    }
}

} // verus!
