use crate::error::MessyJsonKind;
use crate::raw_value::MessyJsonValueRaw;
use vstd::prelude::*;
use vstd::std_specs::convert::FromSpecImpl;

verus! {

/// Why a document names no variant of an enumeration.
#[derive(Clone, Copy, Debug, PartialEq, Eq, Structural)]
pub enum MessyJsonVariantError {
    /// An object that has not exactly one entry.
    NotSingleKey,
    /// Neither a string nor an object.
    WrongType(MessyJsonKind),
}

/// The number that a signed integer becomes when it is stored as an unsigned one of 128
/// bits: itself where it is not negative, else itself plus 2 to the power of 128.
pub open spec fn stored(v: i64) -> u128 {
    if v >= 0 {
        v as u128
    } else {
        (v + 0x1_0000_0000_0000_0000_0000_0000_0000_0000) as u128
    }
}

impl From<bool> for MessyJsonValueRaw {
    fn from(val: bool) -> (r: Self) {
        MessyJsonValueRaw::Bool(val)
    }
}

impl FromSpecImpl<bool> for MessyJsonValueRaw {
    open spec fn obeys_from_spec() -> bool {
        true
    }

    open spec fn from_spec(val: bool) -> Self {
        MessyJsonValueRaw::Bool(val)
    }
}

impl From<u64> for MessyJsonValueRaw {
    fn from(val: u64) -> (r: Self) {
        MessyJsonValueRaw::Number(val as u128)
    }
}

impl FromSpecImpl<u64> for MessyJsonValueRaw {
    open spec fn obeys_from_spec() -> bool {
        true
    }

    open spec fn from_spec(val: u64) -> Self {
        MessyJsonValueRaw::Number(val as u128)
    }
}

impl From<i64> for MessyJsonValueRaw {
    fn from(val: i64) -> (r: Self) {
        if val >= 0 {
            MessyJsonValueRaw::Number(val as u128)
        } else {
            let below: i64 = -(val + 1);
            MessyJsonValueRaw::Number(u128::MAX - (below as u128))
        }
    }
}

impl FromSpecImpl<i64> for MessyJsonValueRaw {
    open spec fn obeys_from_spec() -> bool {
        true
    }

    open spec fn from_spec(val: i64) -> Self {
        MessyJsonValueRaw::Number(stored(val))
    }
}

impl From<String> for MessyJsonValueRaw {
    fn from(val: String) -> (r: Self) {
        MessyJsonValueRaw::String(val)
    }
}

impl FromSpecImpl<String> for MessyJsonValueRaw {
    open spec fn obeys_from_spec() -> bool {
        true
    }

    open spec fn from_spec(val: String) -> Self {
        MessyJsonValueRaw::String(val)
    }
}

impl MessyJsonValueRaw {
    /// The number of this node as a signed integer of 64 bits, where this node is a
    /// number that fits.
    pub fn as_i64(&self) -> (r: Option<i64>)
        ensures
            match *self {
                MessyJsonValueRaw::Number(n) if n <= i64::MAX => r == Some(n as i64),
                _ => r is None,
            },
    {
        match self {
            MessyJsonValueRaw::Number(n) => {
                if *n <= 0x7fff_ffff_ffff_ffffu128 {
                    Some(*n as i64)
                } else {
                    None
                }
            },
            _ => None,
        }
    }

    /// Reads this node as a variant of an enumeration: a string names a variant without
    /// content; an object with exactly one entry names a variant by its key, with the
    /// value as its content.
    pub fn enum_parts(self) -> (r: Result<
        (String, Option<MessyJsonValueRaw>),
        MessyJsonVariantError,
    >)
        ensures
            match self {
                MessyJsonValueRaw::String(s) => r == Ok::<_, MessyJsonVariantError>(
                    (s, None::<MessyJsonValueRaw>),
                ),
                MessyJsonValueRaw::Obj(entries) => if entries.len() == 1 {
                    r == Ok::<_, MessyJsonVariantError>((entries@[0].0, Some(entries@[0].1)))
                } else {
                    r == Err::<(String, Option<MessyJsonValueRaw>), _>(
                        MessyJsonVariantError::NotSingleKey,
                    )
                },
                _ => r == Err::<(String, Option<MessyJsonValueRaw>), _>(
                    MessyJsonVariantError::WrongType(self.kind()),
                ),
            },
    {
        match self {
            MessyJsonValueRaw::String(s) => Ok((s, None)),
            MessyJsonValueRaw::Obj(entries) => {
                let mut entries = entries;
                if entries.len() == 1 {
                    match entries.pop() {
                        Some(entry) => Ok((entry.0, Some(entry.1))),
                        None => Err(MessyJsonVariantError::NotSingleKey),
                    }
                } else {
                    Err(MessyJsonVariantError::NotSingleKey)
                }
            },
            MessyJsonValueRaw::Array(_) => Err(
                MessyJsonVariantError::WrongType(MessyJsonKind::Array),
            ),
            MessyJsonValueRaw::Bool(_) => Err(
                MessyJsonVariantError::WrongType(MessyJsonKind::Bool),
            ),
            MessyJsonValueRaw::Number(_) => Err(
                MessyJsonVariantError::WrongType(MessyJsonKind::Number),
            ),
            MessyJsonValueRaw::Null => Err(MessyJsonVariantError::WrongType(MessyJsonKind::Null)),
        }
    }
}

} // verus!
