//! Size estimates: a lower bound and an optional upper bound on the bytes
//! still to come.
use crate::compat::Compat;
use vstd::prelude::*;

verus! {

/// A size estimate, with the lower bound never above the upper bound.
pub struct SizeHint {
    lower: u64,
    upper: Option<u64>,
}

impl View for SizeHint {
    type V = (u64, Option<u64>);

    closed spec fn view(&self) -> (u64, Option<u64>) {
        (self.lower, self.upper)
    }
}

/// The bounds are in order: no upper bound, or one at least the lower bound.
pub open spec fn bounds_ordered(v: (u64, Option<u64>)) -> bool {
    match v.1 {
        Some(u) => v.0 <= u,
        None => true,
    }
}

impl SizeHint {
    #[verifier::type_invariant]
    spec fn inv(&self) -> bool {
        bounds_ordered(self@)
    }

    /// No bound known: lower bound 0, no upper bound.
    pub fn new() -> (r: SizeHint)
        ensures
            r@ == (0u64, None::<u64>),
    {
        SizeHint { lower: 0, upper: None }
    }

    pub fn lower(&self) -> (r: u64)
        ensures
            r == self@.0,
    {
        self.lower
    }

    pub fn upper(&self) -> (r: Option<u64>)
        ensures
            r == self@.1,
            bounds_ordered(self@),
    {
        proof {
            use_type_invariant(self);
        }
        self.upper
    }

    /// Sets the lower bound, which may not exceed the upper bound.
    pub fn set_lower(&mut self, value: u64)
        requires
            bounds_ordered((value, old(self)@.1)),
        ensures
            final(self)@ == (value, old(self)@.1),
    {
        self.lower = value;
    }

    /// Sets the upper bound, which may not be below the lower bound.
    pub fn set_upper(&mut self, value: u64)
        requires
            old(self)@.0 <= value,
        ensures
            final(self)@ == (old(self)@.0, Some(value)),
    {
        self.upper = Some(value);
    }
}

impl<D> Compat<D> {
    /// The adapter's size estimate, built from the source's: the same lower
    /// bound, and the same upper bound where the source knows one. What waits
    /// in the queues is not added.
    pub fn size_hint(&self, source: &SizeHint) -> (r: SizeHint)
        ensures
            r@ == source@,
    {
        let mut hint = SizeHint::new();
        let upper = source.upper();
        hint.set_lower(source.lower());
        if let Some(u) = upper {
            hint.set_upper(u);
        }
        hint
    }
}

} // verus!
