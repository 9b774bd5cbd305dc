use vstd::prelude::*;

verus! {

/// The layouts of JSON text that json-c writes (plain, spaced or pretty).
#[derive(Clone, Copy, Debug, PartialEq, Eq, Structural)]
pub enum JSONCVariant {
    Plain,
    Spaced,
    Pretty,
}

impl JSONCVariant {
    /// The json-c flag number for this layout.
    pub open spec fn code_spec(self) -> i32 {
        match self {
            JSONCVariant::Plain => 0,
            JSONCVariant::Spaced => 1,
            JSONCVariant::Pretty => 2,
        }
    }

    /// The json-c flag number for this layout, as MEOS takes it.
    pub fn code(&self) -> (r: i32)
        ensures
            r == self.code_spec(),
    {
        match self {
            JSONCVariant::Plain => 0,
            JSONCVariant::Spaced => 1,
            JSONCVariant::Pretty => 2,
        }
    }
}

} // verus!
