use vstd::prelude::*;

verus! {

/// Schema of a JSON scalar: only whether it may be left out or be `null`.
#[derive(Clone, Copy, Debug, PartialEq, Eq, Hash, Structural)]
pub struct MessyJsonScalar {
    pub optional: bool,
}

impl MessyJsonScalar {
    pub fn new(optional: bool) -> (r: Self)
        ensures
            r.optional == optional,
    {
        MessyJsonScalar { optional }
    }

    pub fn optional(&self) -> (r: bool)
        ensures
            r == self.optional,
    {
        self.optional
    }
}

} // verus!
