use vstd::prelude::*;

verus! {

/// How strictly a document is held to its schema.
#[derive(Clone, Copy, Debug, PartialEq, Eq, Structural)]
pub struct MessyJsonSettings {
    /// True if every field is to be treated as optional.
    pub all_optional: bool,
    /// Under `all_optional`, still refuse an explicit `null` for a field the schema marks
    /// mandatory. Ignored when `all_optional` is false.
    pub preserve_mandatory: bool,
}

impl MessyJsonSettings {
    pub fn all_optional(&self) -> (r: bool)
        ensures
            r == self.all_optional,
    {
        self.all_optional
    }

    pub fn preserve_mandatory(&self) -> (r: bool)
        ensures
            r == self.preserve_mandatory,
    {
        self.preserve_mandatory
    }
}

impl Default for MessyJsonSettings {
    fn default() -> (r: Self)
        ensures
            !r.all_optional,
            !r.preserve_mandatory,
    {
        MessyJsonSettings { all_optional: false, preserve_mandatory: false }
    }
}

} // verus!
