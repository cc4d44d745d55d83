//! The discrete confidence levels the engine supports.

use vstd::prelude::*;

use crate::error::Error;
use crate::ratio::Ratio;

verus! {

/// A confidence level for a two-tailed test, from the fixed set the
/// critical-value table is indexed by.
///
/// The ordinal position of a variant is its column in the table.
#[derive(Clone, Copy, Debug, PartialEq, Eq, Structural)]
pub enum Confidence {
    /// 80% confidence.
    P80,
    /// 90% confidence.
    P90,
    /// 95% confidence.
    P95,
    /// 98% confidence.
    P98,
    /// 99% confidence.
    P99,
    /// 99.5% confidence.
    P995,
}

impl Confidence {
    /// The column index of this level in the critical-value table.
    pub open spec fn spec_index(self) -> int {
        match self {
            Confidence::P80 => 0,
            Confidence::P90 => 1,
            Confidence::P95 => 2,
            Confidence::P98 => 3,
            Confidence::P99 => 4,
            Confidence::P995 => 5,
        }
    }

    /// The significance level `1 - confidence / 100`, in thousandths.
    pub open spec fn spec_alpha_permille(self) -> int {
        match self {
            Confidence::P80 => 200,
            Confidence::P90 => 100,
            Confidence::P95 => 50,
            Confidence::P98 => 20,
            Confidence::P99 => 10,
            Confidence::P995 => 5,
        }
    }

    /// The significance level `alpha = 1 - confidence / 100` as an exact
    /// rational in thousandths.
    pub fn alpha(self) -> (r: Ratio)
        ensures
            r.num == self.spec_alpha_permille(),
            r.den == 1000,
            r.wf(),
    {
        let permille: i128 = match self {
            Confidence::P80 => 200,
            Confidence::P90 => 100,
            Confidence::P95 => 50,
            Confidence::P98 => 20,
            Confidence::P99 => 10,
            Confidence::P995 => 5,
        };
        Ratio { num: permille, den: 1000 }
    }

    /// Parses a textual confidence level, given as the bytes of one of the
    /// tokens `80`, `90`, `95`, `98`, `99` or `99.5`.
    ///
    /// Any other token — including boundary percentages such as `0` or
    /// `100` — is rejected with `InvalidParameter`, never clamped or
    /// defaulted.
    pub fn parse(token: &[u8]) -> (r: Result<Confidence, Error>)
        ensures
            r matches Ok(c) ==> token@ == spec_token(c),
            r matches Err(e) ==> e == Error::InvalidParameter,
            forall|c: Confidence| token@ == spec_token(c) ==> r == Ok::<Confidence, Error>(c),
    {
        if token.len() == 2 && token[0] == 57 && token[1] == 57 {
            proof {
                assert(token@ =~= spec_token(Confidence::P99));
            }
            Ok(Confidence::P99)
        } else if token.len() == 2 && token[0] == 56 && token[1] == 48 {
            proof {
                assert(token@ =~= spec_token(Confidence::P80));
            }
            Ok(Confidence::P80)
        } else if token.len() == 2 && token[0] == 57 && token[1] == 48 {
            proof {
                assert(token@ =~= spec_token(Confidence::P90));
            }
            Ok(Confidence::P90)
        } else if token.len() == 2 && token[0] == 57 && token[1] == 53 {
            proof {
                assert(token@ =~= spec_token(Confidence::P95));
            }
            Ok(Confidence::P95)
        } else if token.len() == 2 && token[0] == 57 && token[1] == 56 {
            proof {
                assert(token@ =~= spec_token(Confidence::P98));
            }
            Ok(Confidence::P98)
        } else if token.len() == 4 && token[0] == 57 && token[1] == 57 && token[2] == 46
            && token[3] == 53 {
            proof {
                assert(token@ =~= spec_token(Confidence::P995));
            }
            Ok(Confidence::P995)
        } else {
            Err(Error::InvalidParameter)
        }
    }
}

/// The byte sequence of the textual token for a confidence level.
pub open spec fn spec_token(c: Confidence) -> Seq<u8> {
    match c {
        Confidence::P80 => seq![56u8, 48u8],
        Confidence::P90 => seq![57u8, 48u8],
        Confidence::P95 => seq![57u8, 53u8],
        Confidence::P98 => seq![57u8, 56u8],
        Confidence::P99 => seq![57u8, 57u8],
        Confidence::P995 => seq![57u8, 57u8, 46u8, 53u8],
    }
}

} // verus!
