//! The country registry: a closed set of countries, each reachable from its
//! full name or its two-letter ISO alias, compared without regard to ASCII
//! case.

use vstd::prelude::*;

verus! {

/// The code point of `c` with an ASCII upper-case letter folded to its
/// lower-case form; every other character is left unchanged.
pub open spec fn lower_code(c: char) -> int {
    if 'A' as u32 <= c as u32 && c as u32 <= 'Z' as u32 {
        c as u32 + 32
    } else {
        c as u32 as int
    }
}

/// Character-wise equality up to ASCII case.
pub open spec fn eq_ignore_ascii_case(a: Seq<char>, b: Seq<char>) -> bool {
    a.len() == b.len() && forall|i: int|
        0 <= i < a.len() ==> lower_code(#[trigger] a[i]) == lower_code(b[i])
}

/// The texts that the registry resolves to `Country::France`.
pub open spec fn country_text_is_france(s: Seq<char>) -> bool {
    eq_ignore_ascii_case(s, "FRANCE"@) || eq_ignore_ascii_case(s, "FR"@)
}

fn lower_code_exec(c: char) -> (r: u32)
    ensures
        r == lower_code(c),
{
    let u = c as u32;
    if 'A' as u32 <= u && u <= 'Z' as u32 {
        u + 32
    } else {
        u
    }
}

/// Compares two strings character by character, folding ASCII upper-case
/// letters to lower case on both sides.
pub fn str_eq_ignore_ascii_case(a: &str, b: &str) -> (r: bool)
    ensures
        r == eq_ignore_ascii_case(a@, b@),
{
    let na = a.unicode_len();
    let nb = b.unicode_len();
    if na != nb {
        return false;
    }
    let mut i: usize = 0;
    while i < na
        invariant
            na == a@.len(),
            nb == b@.len(),
            na == nb,
            i <= na,
            forall|j: int| 0 <= j < i ==> lower_code(#[trigger] a@[j]) == lower_code(b@[j]),
        decreases na - i,
    {
        let ca = a.get_char(i);
        let cb = b.get_char(i);
        if lower_code_exec(ca) != lower_code_exec(cb) {
            return false;
        }
        i += 1;
    }
    true
}

/// A country of the closed registry.
#[derive(Clone, Copy, Debug, PartialEq, Eq, Structural)]
pub enum Country {
    France,
}

/// The registry's full name for `c`.
pub open spec fn spec_country_name(c: Country) -> Seq<char> {
    match c {
        Country::France => "FRANCE"@,
    }
}

/// The registry's two-letter ISO code for `c`.
pub open spec fn spec_iso_code(c: Country) -> Seq<char> {
    match c {
        Country::France => "FR"@,
    }
}

impl Country {
    /// Resolves a human-readable country text against the registry: a
    /// country's full name and its ISO alias are both accepted, without
    /// regard to ASCII case.
    pub fn parse(text: &str) -> (r: Option<Country>)
        ensures
            r is Some <==> country_text_is_france(text@),
            r is Some ==> r->0 == Country::France,
    {
        if str_eq_ignore_ascii_case(text, "FRANCE") || str_eq_ignore_ascii_case(text, "FR") {
            Some(Country::France)
        } else {
            None
        }
    }

    /// The fixed two-letter ISO code of the country.
    pub fn iso_code(&self) -> (r: &'static str)
        ensures
            r@ == spec_iso_code(*self),
    {
        match self {
            Country::France => "FR",
        }
    }

    /// The registry's full name of the country, as the French line format
    /// spells it.
    pub fn name(&self) -> (r: &'static str)
        ensures
            r@ == spec_country_name(*self),
    {
        match self {
            Country::France => "FRANCE",
        }
    }
}

} // verus!
