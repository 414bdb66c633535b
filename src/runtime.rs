use vstd::prelude::*;
use crate::adapter::Signature;
use crate::value::ValueType;

verus! {

/// Process-wide state of the compiled module's support layer.
pub struct Runtime {
    initialized: bool,
}

impl View for Runtime {
    type V = bool;

    closed spec fn view(&self) -> bool {
        self.initialized
    }
}

impl Runtime {
    /// State before anything was set up.
    pub fn new() -> (r: Runtime)
        ensures
            !r@,
    {
        Runtime { initialized: false }
    }

    /// Sets up the process-wide state; calling it again changes nothing.
    pub fn init(&mut self)
        ensures
            final(self)@,
    {
        self.initialized = true;
    }

    /// Whether `init` has run and `free` has not run since.
    pub fn is_initialized(&self) -> (r: bool)
        ensures
            r == self@,
    {
        self.initialized
    }

    /// Releases the process-wide state.
    pub fn free(&mut self)
        ensures
            !final(self)@,
    {
        self.initialized = false;
    }
}

/// A signature as a pair of type sequences.
pub open spec fn shape_of(sig: Signature) -> (Seq<ValueType>, Seq<ValueType>) {
    (sig.params@, sig.results@)
}

/// Whether two type lists are the same.
fn same_types(a: &Vec<ValueType>, b: &Vec<ValueType>) -> (r: bool)
    ensures
        r == (a@ == b@),
{
    if a.len() != b.len() {
        return false;
    }
    let mut i: usize = 0;
    while i < a.len()
        invariant
            a@.len() == b@.len(),
            i <= a@.len(),
            forall|j: int| 0 <= j < i ==> a@[j] == b@[j],
        decreases a.len() - i,
    {
        if a[i] != b[i] {
            return false;
        }
        i = i + 1;
    }
    assert(a@ =~= b@);
    true
}

/// The function signatures registered for indirect-call validation. Each
/// shape is held once, and its handle is its position.
pub struct SignatureRegistry {
    entries: Vec<Signature>,
}

impl View for SignatureRegistry {
    type V = Seq<(Seq<ValueType>, Seq<ValueType>)>;

    closed spec fn view(&self) -> Seq<(Seq<ValueType>, Seq<ValueType>)> {
        self.entries@.map_values(|s: Signature| shape_of(s))
    }
}

impl SignatureRegistry {
    /// No two handles stand for the same shape.
    pub open spec fn wf(&self) -> bool {
        forall|i: int, j: int| 0 <= i < j < self@.len() ==> self@[i] != self@[j]
    }

    pub fn new() -> (r: SignatureRegistry)
        ensures
            r.wf(),
            r@ == Seq::<(Seq<ValueType>, Seq<ValueType>)>::empty(),
    {
        let r = SignatureRegistry { entries: Vec::new() };
        assert(r@ =~= Seq::<(Seq<ValueType>, Seq<ValueType>)>::empty());
        r
    }

    /// The number of registered shapes.
    pub fn len(&self) -> (r: usize)
        ensures
            r == self@.len(),
    {
        self.entries.len()
    }

    /// Interns the shape `(params, results)` and returns its handle: the
    /// handle it already had, or a new one at the end.
    pub fn register(&mut self, params: Vec<ValueType>, results: Vec<ValueType>) -> (r: usize)
        requires
            old(self).wf(),
        ensures
            final(self).wf(),
            r < final(self)@.len(),
            final(self)@[r as int] == (params@, results@),
            old(self)@.contains((params@, results@)) ==> final(self)@ == old(self)@,
            !old(self)@.contains((params@, results@)) ==> final(self)@ == old(self)@.push(
                (params@, results@),
            ),
    {
        let ghost shape = (params@, results@);
        let mut i: usize = 0;
        while i < self.entries.len()
            invariant
                i <= self@.len(),
                self@.len() == self.entries@.len(),
                self@ == old(self)@,
                self.wf(),
                shape == (params@, results@),
                forall|j: int| 0 <= j < i ==> self@[j] != shape,
            decreases self.entries.len() - i,
        {
            assert(self@[i as int] == shape_of(self.entries@[i as int]));
            let same_params = same_types(&self.entries[i].params, &params);
            let same_results = same_types(&self.entries[i].results, &results);
            if same_params && same_results {
                assert(self@[i as int] == shape);
                return i;
            }
            i = i + 1;
        }
        assert(!self@.contains(shape));
        let ghost before = self@;
        self.entries.push(Signature::new(params, results));
        assert(self@ =~= before.push(shape));
        self.entries.len() - 1
    }

    /// The signature registered under `handle`, if there is one.
    pub fn lookup(&self, handle: usize) -> (r: Option<&Signature>)
        ensures
            handle < self@.len() ==> r is Some && shape_of(*r->Some_0) == self@[handle as int],
            handle >= self@.len() ==> r is None,
    {
        if handle < self.entries.len() {
            Some(&self.entries[handle])
        } else {
            None
        }
    }
}

} // verus!
