use vstd::prelude::*;

verus! {

/// A deterministic, ordered, restartable sequence over a fixed list of
/// values of a closed-set type. The list is given once at construction and
/// never changes; each call to [`EnumIter::next`] yields the next element
/// in list order, or `None` once the list is exhausted. Constructing a
/// fresh iterator over the same list restarts the sequence from its first
/// element, independently of any other iterator.
#[derive(Debug, Clone)]
pub struct EnumIter<T> {
    /// The full ordered list of values to walk.
    pub values: Vec<T>,
    /// How many elements have been yielded so far.
    pub pos: usize,
}

impl<T: Copy> EnumIter<T> {
    /// The full ordered list this iterator walks, as a sequence.
    pub open spec fn all(self) -> Seq<T> {
        self.values@
    }

    /// The number of elements yielded so far.
    pub open spec fn position(self) -> int {
        self.pos as int
    }

    /// The iterator never runs past the end of its list.
    pub open spec fn wf(self) -> bool {
        self.pos <= self.values.len()
    }

    /// Start a fresh sequence over `values`, positioned before the first
    /// element.
    pub fn new(values: Vec<T>) -> (r: EnumIter<T>)
        ensures
            r.wf(),
            r.all() == values@,
            r.position() == 0,
    {
        EnumIter { values, pos: 0 }
    }

    /// Yield the element at the current position and advance, or return
    /// `None` (and stay exhausted) once every element has been yielded.
    pub fn next(&mut self) -> (r: Option<T>)
        requires
            old(self).wf(),
        ensures
            final(self).wf(),
            final(self).all() == old(self).all(),
            old(self).position() < old(self).all().len() ==> (r == Some(
                old(self).all()[old(self).position()],
            ) && final(self).position() == old(self).position() + 1),
            old(self).position() == old(self).all().len() ==> (r is None
                && final(self).position() == old(self).position()),
    {
        if self.pos < self.values.len() {
            let v = self.values[self.pos];
            self.pos = self.pos + 1;
            Some(v)
        } else {
            None
        }
    }
}

} // verus!
