//! The request-facing value types: which external format a caller speaks, and
//! a sum of the two conversion outcomes.

use vstd::prelude::*;

use crate::country::eq_ignore_ascii_case;
use crate::country::str_eq_ignore_ascii_case;

verus! {

/// One of the two external representations.
#[derive(Debug, PartialEq)]
pub enum Either<F, I> {
    French(F),
    Iso20022(I),
}

impl<F, I> Either<F, I> {
    /// The French value, if this is the French side.
    pub fn french(self) -> (r: Option<F>)
        ensures
            r == (match self {
                Either::French(f) => Some(f),
                Either::Iso20022(_) => None::<F>,
            }),
    {
        match self {
            Either::French(f) => Some(f),
            Either::Iso20022(_) => None,
        }
    }

    /// The ISO 20022 value, if this is the ISO side.
    pub fn iso20022(self) -> (r: Option<I>)
        ensures
            r == (match self {
                Either::French(_) => None::<I>,
                Either::Iso20022(i) => Some(i),
            }),
    {
        match self {
            Either::French(_) => None,
            Either::Iso20022(i) => Some(i),
        }
    }
}

/// The external format a payload is in.
#[derive(Clone, Copy, Debug, PartialEq, Eq, Structural)]
pub enum Format {
    French,
    Iso20022,
}

/// Resolves a format name, without regard to ASCII case, to the format it
/// denotes.
pub fn format_to_enum(format: &str) -> (r: Result<Format, String>)
    ensures
        r is Ok <==> eq_ignore_ascii_case(format@, "french"@) || eq_ignore_ascii_case(
            format@,
            "iso20022"@,
        ),
        r matches Ok(f) ==> (f == Format::French <==> eq_ignore_ascii_case(format@, "french"@)),
        r is Err ==> r->Err_0@ == "Invalid format: must be 'french' or 'iso20022'"@,
{
    if str_eq_ignore_ascii_case(format, "french") {
        Ok(Format::French)
    } else if str_eq_ignore_ascii_case(format, "iso20022") {
        Ok(Format::Iso20022)
    } else {
        Err("Invalid format: must be 'french' or 'iso20022'".to_owned())
    }
}

} // verus!
