use vstd::prelude::*;

verus! {

/// The width a JSON number is read at.
#[derive(Clone, Copy, Debug, PartialEq, Eq, Hash, Structural)]
pub enum MessyJsonNumberType {
    U64,
    U128,
}

impl MessyJsonNumberType {
    /// Whether a number lies in the range of this width.
    pub open spec fn holds(self, n: u128) -> bool {
        match self {
            MessyJsonNumberType::U64 => n <= u64::MAX,
            MessyJsonNumberType::U128 => true,
        }
    }

    /// Whether `n` lies in the range of this width.
    pub fn admits(&self, n: u128) -> (r: bool)
        ensures
            r == self.holds(n),
    {
        match self {
            MessyJsonNumberType::U64 => n <= 0xffff_ffff_ffff_ffffu128,
            MessyJsonNumberType::U128 => true,
        }
    }
}

impl Default for MessyJsonNumberType {
    fn default() -> (r: Self)
        ensures
            r == MessyJsonNumberType::U64,
    {
        MessyJsonNumberType::U64
    }
}

/// Schema of a JSON number: its width and whether it may be left out or be `null`.
#[derive(Clone, Copy, Debug, PartialEq, Eq, Hash, Structural)]
pub struct MessyJsonNumeric {
    pub optional: bool,
    pub type_: MessyJsonNumberType,
}

impl MessyJsonNumeric {
    pub fn new(type_: MessyJsonNumberType, optional: bool) -> (r: Self)
        ensures
            r.type_ == type_,
            r.optional == optional,
    {
        MessyJsonNumeric { optional, type_ }
    }

    pub fn type_(&self) -> (r: MessyJsonNumberType)
        ensures
            r == self.type_,
    {
        self.type_
    }

    pub fn optional(&self) -> (r: bool)
        ensures
            r == self.optional,
    {
        self.optional
    }
}

} // verus!
