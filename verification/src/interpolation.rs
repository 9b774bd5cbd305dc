use vstd::prelude::*;

use crate::errors::ParseError;
use crate::text::{all_ascii, ascii_lower, lowercase_of, str_equals, to_lowercase};

verus! {

/// The ways a temporal value is interpolated between its instants.
///
/// `NoInterpolation` is the kind that MEOS calls `INTERP_NONE`; its
/// displayed name is `None`.
#[derive(Debug, Clone, Copy, PartialEq, Eq, Structural, Hash)]
pub enum TInterpolation {
    NoInterpolation,
    Discrete,
    Stepwise,
    Linear,
}

/// The interpolation that a lowercase name stands for, if any: `none`,
/// `discrete`, `linear`, and `stepwise` or `step`.
pub open spec fn interpolation_of_lowercase(s: Seq<char>) -> Option<TInterpolation> {
    if s == "none"@ {
        Some(TInterpolation::NoInterpolation)
    } else if s == "discrete"@ {
        Some(TInterpolation::Discrete)
    } else if s == "linear"@ {
        Some(TInterpolation::Linear)
    } else if s == "stepwise"@ || s == "step"@ {
        Some(TInterpolation::Stepwise)
    } else {
        Option::None
    }
}

/// What parsing `s` gives: the name is read without regard to case.
pub open spec fn parse_interpolation(s: Seq<char>) -> Result<TInterpolation, ParseError> {
    match interpolation_of_lowercase(lowercase_of(s)) {
        Some(v) => Ok(v),
        Option::None => Err(ParseError),
    }
}

impl TInterpolation {
    /// The number by which MEOS knows this interpolation (its `interpType`).
    pub open spec fn code_spec(self) -> u32 {
        match self {
            TInterpolation::NoInterpolation => 0,
            TInterpolation::Discrete => 1,
            TInterpolation::Stepwise => 2,
            TInterpolation::Linear => 3,
        }
    }

    /// The name under which this interpolation is written.
    pub open spec fn name_spec(self) -> Seq<char> {
        match self {
            TInterpolation::NoInterpolation => "None"@,
            TInterpolation::Discrete => "Discrete"@,
            TInterpolation::Stepwise => "Stepwise"@,
            TInterpolation::Linear => "Linear"@,
        }
    }

    /// The number by which MEOS knows this interpolation.
    pub fn code(&self) -> (r: u32)
        ensures
            r == self.code_spec(),
    {
        match self {
            TInterpolation::NoInterpolation => 0,
            TInterpolation::Discrete => 1,
            TInterpolation::Stepwise => 2,
            TInterpolation::Linear => 3,
        }
    }

    /// The name of this interpolation, as it is displayed: `None`,
    /// `Discrete`, `Stepwise` or `Linear`.
    pub fn name(&self) -> (r: String)
        ensures
            r@ == self.name_spec(),
    {
        match self {
            TInterpolation::NoInterpolation => String::from_str("None"),
            TInterpolation::Discrete => String::from_str("Discrete"),
            TInterpolation::Stepwise => String::from_str("Stepwise"),
            TInterpolation::Linear => String::from_str("Linear"),
        }
    }

    /// Reads an interpolation from its name in lowercase letters.
    pub fn from_lowercase(s: &str) -> (r: Result<TInterpolation, ParseError>)
        ensures
            r == (match interpolation_of_lowercase(s@) {
                Some(v) => Ok(v),
                Option::None => Err(ParseError),
            }),
    {
        if str_equals(s, "none") {
            Ok(TInterpolation::NoInterpolation)
        } else if str_equals(s, "discrete") {
            Ok(TInterpolation::Discrete)
        } else if str_equals(s, "linear") {
            Ok(TInterpolation::Linear)
        } else if str_equals(s, "stepwise") || str_equals(s, "step") {
            Ok(TInterpolation::Stepwise)
        } else {
            Err(ParseError)
        }
    }
}

/// Whether a sequence of `count` instants with this interpolation includes
/// its upper bound: a discrete sequence does, and so does a sequence of a
/// single instant.
pub fn sequence_upper_inclusive(interpolation: TInterpolation, count: usize) -> (r: bool)
    ensures
        r == (interpolation == TInterpolation::Discrete || count == 1),
{
    let discrete = match interpolation {
        TInterpolation::Discrete => true,
        _ => false,
    };
    discrete || count == 1
}

impl core::str::FromStr for TInterpolation {
    type Err = ParseError;

    /// Reads an interpolation from its name, in any case.
    fn from_str(s: &str) -> (r: Result<TInterpolation, ParseError>)
        ensures
            r == parse_interpolation(s@),
            all_ascii(s@) ==> r == (match interpolation_of_lowercase(ascii_lower(s@)) {
                Some(v) => Ok(v),
                Option::None => Err(ParseError),
            }),
    {
        let lower = to_lowercase(s);
        TInterpolation::from_lowercase(lower.as_str())
    }
}

/// Reading the displayed name of an interpolation gives that interpolation
/// back: the name is ASCII, and its lowercase is a name of the same
/// interpolation (so `from_str` of `name()` is `Ok` of the interpolation).
pub proof fn law_name_parse_round_trip(v: TInterpolation)
    ensures
        all_ascii(v.name_spec()),
        interpolation_of_lowercase(ascii_lower(v.name_spec())) == Some(v),
{
    reveal_strlit("None");
    reveal_strlit("Discrete");
    reveal_strlit("Stepwise");
    reveal_strlit("Linear");
    reveal_strlit("none");
    reveal_strlit("discrete");
    reveal_strlit("stepwise");
    reveal_strlit("step");
    reveal_strlit("linear");
    let n = v.name_spec();
    assert(all_ascii(n));
    match v {
        TInterpolation::NoInterpolation => {
            assert(ascii_lower(n) =~= "none"@);
        },
        TInterpolation::Discrete => assert(ascii_lower(n) =~= "discrete"@),
        TInterpolation::Stepwise => {
            assert(ascii_lower(n) =~= "stepwise"@);
            assert("stepwise"@[0] != "discrete"@[0]);
        },
        TInterpolation::Linear => assert(ascii_lower(n) =~= "linear"@),
    }
}

/// Distinct interpolations have distinct MEOS numbers.
pub proof fn law_code_injective(a: TInterpolation, b: TInterpolation)
    ensures
        a.code_spec() == b.code_spec() ==> a == b,
{
}

} // verus!
