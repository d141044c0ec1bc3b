//! The French flat-line address format (NF Z10-011 style): its line-oriented
//! data shapes, and the parser that reconstructs structured fields from the
//! semi-structured lines.
//!
//! The line grammar, stated over character sequences:
//! - a street line is an optional street-number token — a run of digits
//!   followed by a run of ASCII letters — separated by a single space from
//!   the street name, which takes the rest of the line;
//! - a postal line is exactly five digits, a whitespace run, and the town
//!   text;
//! - a postbox token is two upper-case letters, a whitespace run, and a
//!   digit run, anchored at the start of the distribution-info line;
//! - the town-location fragment is what remains of a distribution-info line
//!   once a postbox token and the whitespace after it are stripped.
//!
//! A free-text portion (street name, town, town location) never spans a
//! newline; a line holding one fails the grammar it was offered to.

use vstd::prelude::*;

use crate::address::{PostalDetails, PostalDetailsV, Street, StreetV, opt_str_view};
use crate::address_conversion::{AddressConversionError, AddressConversionErrorV};
use crate::text::{CharClass, char_in_class, contains_newline, has_newline, in_class, lemma_run_len,
    run_len, scan_run};

verus! {

/// An address in the French line format.
#[derive(Clone, Debug, PartialEq)]
pub enum FrenchAddress {
    /// An individual french address.
    Individual(IndividualFrenchAddress),
    /// A business french address.
    Business(BusinessFrenchAddress),
}

/// The view of a `FrenchAddress`.
pub enum FrenchAddressV {
    Individual(IndividualFrenchAddressV),
    Business(BusinessFrenchAddressV),
}

impl View for FrenchAddress {
    type V = FrenchAddressV;

    open spec fn view(&self) -> FrenchAddressV {
        match self {
            FrenchAddress::Individual(i) => FrenchAddressV::Individual(i@),
            FrenchAddress::Business(b) => FrenchAddressV::Business(b@),
        }
    }
}

/// The line set of an individual's French address.
#[derive(Clone, Debug, PartialEq)]
pub struct IndividualFrenchAddress {
    /// The individual identity
    /// (civility - title / quality - firstname lastname).
    pub name: String,
    /// Additional information of the internal delivery point
    /// (apartment number, mailbox number, staircase, floor, ...).
    pub internal_delivery: Option<String>,
    /// Additional information of the external delivery point
    /// (building, residence, entrance, ...).
    pub external_delivery: Option<String>,
    /// Route number and label.
    pub street: Option<String>,
    /// Additional distribution information (hamlet, postal box, ...).
    pub distribution_info: Option<String>,
    /// The postal code and locality destination.
    pub postal: String,
    /// The country name.
    pub country: String,
}

/// The view of an `IndividualFrenchAddress`.
pub struct IndividualFrenchAddressV {
    pub name: Seq<char>,
    pub internal_delivery: Option<Seq<char>>,
    pub external_delivery: Option<Seq<char>>,
    pub street: Option<Seq<char>>,
    pub distribution_info: Option<Seq<char>>,
    pub postal: Seq<char>,
    pub country: Seq<char>,
}

impl View for IndividualFrenchAddress {
    type V = IndividualFrenchAddressV;

    open spec fn view(&self) -> IndividualFrenchAddressV {
        IndividualFrenchAddressV {
            name: self.name@,
            internal_delivery: opt_str_view(self.internal_delivery),
            external_delivery: opt_str_view(self.external_delivery),
            street: opt_str_view(self.street),
            distribution_info: opt_str_view(self.distribution_info),
            postal: self.postal@,
            country: self.country@,
        }
    }
}

/// The line set of a business's French address.
#[derive(Clone, Debug, PartialEq)]
pub struct BusinessFrenchAddress {
    /// The business name or trade name.
    pub business_name: String,
    /// Identity of the recipient and/or service.
    pub recipient: Option<String>,
    /// Additional information of the external delivery point
    /// (building, residence, entrance, ...).
    pub external_delivery: Option<String>,
    /// Route number and label.
    pub street: String,
    /// Additional distribution information (postbox, sorting arrival
    /// department) and the commune where the company is located if different
    /// from the CEDEX distributor office.
    pub distribution_info: Option<String>,
    /// Postal code and destination locality, or CEDEX code and CEDEX
    /// distributor office.
    pub postal: String,
    /// The country name.
    pub country: String,
}

/// The view of a `BusinessFrenchAddress`.
pub struct BusinessFrenchAddressV {
    pub business_name: Seq<char>,
    pub recipient: Option<Seq<char>>,
    pub external_delivery: Option<Seq<char>>,
    pub street: Seq<char>,
    pub distribution_info: Option<Seq<char>>,
    pub postal: Seq<char>,
    pub country: Seq<char>,
}

impl View for BusinessFrenchAddress {
    type V = BusinessFrenchAddressV;

    open spec fn view(&self) -> BusinessFrenchAddressV {
        BusinessFrenchAddressV {
            business_name: self.business_name@,
            recipient: opt_str_view(self.recipient),
            external_delivery: opt_str_view(self.external_delivery),
            street: self.street@,
            distribution_info: opt_str_view(self.distribution_info),
            postal: self.postal@,
            country: self.country@,
        }
    }
}

// --- The street line grammar ---

/// End of the street-number token: the digit run at the start of the line,
/// and the ASCII-letter run right after it.
pub open spec fn street_token_end(s: Seq<char>) -> int {
    let d = run_len(s, 0, CharClass::Digit);
    d + run_len(s, d, CharClass::Letter)
}

/// Whether the line opens with a street-number token: a non-empty digit run
/// (with its letter tail), a single space, and a non-empty remainder.
pub open spec fn street_has_number(s: Seq<char>) -> bool {
    &&& run_len(s, 0, CharClass::Digit) >= 1
    &&& street_token_end(s) + 1 < s.len()
    &&& s[street_token_end(s)] == ' '
}

/// A street line parses when it is non-empty and spans no newline.
pub open spec fn street_line_ok(s: Seq<char>) -> bool {
    s.len() > 0 && !contains_newline(s)
}

/// What a street line parses to: the number token split off when present,
/// the whole line as the name otherwise.
pub open spec fn spec_parse_street(s: Seq<char>) -> StreetV {
    if street_has_number(s) {
        StreetV {
            number: Some(s.subrange(0, street_token_end(s))),
            name: s.subrange(street_token_end(s) + 1, s.len() as int),
        }
    } else {
        StreetV { number: None, name: s }
    }
}

/// The error a failing street line reports.
pub open spec fn spec_street_err(s: Seq<char>) -> AddressConversionErrorV {
    if s.len() == 0 {
        AddressConversionErrorV::InvalidFormat("Street cannot be empty"@)
    } else {
        AddressConversionErrorV::InvalidFormat("Invalid street format"@)
    }
}

// --- The postal line grammar ---

/// Where the town text of a postal line starts: just past the whitespace run
/// after the five digits — backed off by one character when that run reaches
/// the end of the line, so that a town text remains.
pub open spec fn postal_town_start(s: Seq<char>) -> int {
    let e = 5 + run_len(s, 5, CharClass::Space);
    if e == s.len() {
        s.len() - 1
    } else {
        e
    }
}

/// A postal line parses when it opens with exactly five digits, whitespace
/// follows them, a town text remains, and that text spans no newline.
pub open spec fn postal_line_ok(s: Seq<char>) -> bool {
    &&& s.len() >= 7
    &&& forall|j: int| 0 <= j < 5 ==> in_class(#[trigger] s[j], CharClass::Digit)
    &&& in_class(s[5], CharClass::Space)
    &&& !contains_newline(s.subrange(postal_town_start(s), s.len() as int))
}

/// What a postal line parses to.
pub open spec fn spec_parse_postal(s: Seq<char>) -> PostalDetailsV {
    PostalDetailsV {
        postcode: s.subrange(0, 5),
        town: s.subrange(postal_town_start(s), s.len() as int),
        town_location: None,
    }
}

/// The error a failing postal line reports.
pub open spec fn spec_postal_err() -> AddressConversionErrorV {
    AddressConversionErrorV::InvalidFormat(
        "Postal information should contain a postcode/zipcode and a town (e.g., '44000 NANTES')"@,
    )
}

// --- The distribution-info grammar ---

/// End of the whitespace run after the two letters of a postbox token.
pub open spec fn postbox_space_end(s: Seq<char>) -> int {
    2 + run_len(s, 2, CharClass::Space)
}

/// End of the postbox token: two letters, the whitespace run, the digit run.
pub open spec fn postbox_match_end(s: Seq<char>) -> int {
    postbox_space_end(s) + run_len(s, postbox_space_end(s), CharClass::Digit)
}

/// Whether the text opens with a postbox token: two upper-case letters, a
/// non-empty whitespace run, a non-empty digit run.
pub open spec fn postbox_prefix_ok(s: Seq<char>) -> bool {
    &&& s.len() >= 2
    &&& in_class(s[0], CharClass::Upper)
    &&& in_class(s[1], CharClass::Upper)
    &&& postbox_space_end(s) > 2
    &&& postbox_match_end(s) > postbox_space_end(s)
}

/// The postbox token read off the start of a distribution-info line, if any.
pub open spec fn spec_postbox(s: Seq<char>) -> Option<Seq<char>> {
    if postbox_prefix_ok(s) {
        Some(s.subrange(0, postbox_match_end(s)))
    } else {
        None
    }
}

/// Where the town-location fragment starts once a postbox token and the
/// whitespace run after it are stripped — backed off by one character when
/// that run reaches the end, so that a fragment remains.
pub open spec fn town_loc_rem_start(s: Seq<char>) -> int {
    let e = postbox_match_end(s) + run_len(s, postbox_match_end(s), CharClass::Space);
    if e == s.len() {
        s.len() - 1
    } else {
        e
    }
}

/// Whether a postbox token, followed by more whitespace and a non-empty
/// newline-free fragment, can be stripped off the text.
pub open spec fn town_loc_group_ok(s: Seq<char>) -> bool {
    &&& postbox_prefix_ok(s)
    &&& run_len(s, postbox_match_end(s), CharClass::Space) >= 1
    &&& town_loc_rem_start(s) > postbox_match_end(s)
    &&& !contains_newline(s.subrange(town_loc_rem_start(s), s.len() as int))
}

/// The town-location fragment of a distribution-info line: the text past a
/// stripped postbox token; the whole text when no token strips; nothing when
/// a newline rules both readings out.
pub open spec fn spec_town_location(s: Seq<char>) -> Option<Seq<char>> {
    if town_loc_group_ok(s) {
        Some(s.subrange(town_loc_rem_start(s), s.len() as int))
    } else if !contains_newline(s) {
        Some(s)
    } else {
        None
    }
}

/// The error an empty distribution-info line reports.
pub open spec fn spec_distribution_err() -> AddressConversionErrorV {
    AddressConversionErrorV::InvalidFormat("Distribution info cannot be empty if provided"@)
}

/// The parser of the French address lines.
pub struct FrenchAddressParser;

impl FrenchAddressParser {
    /// Splits an optional leading street-number token (digits, then letters,
    /// e.g. "25", "2BIS") from the mandatory street name.
    pub fn parse_street(street: &str) -> (r: Result<Street, AddressConversionError>)
        ensures
            r is Ok <==> street_line_ok(street@),
            r is Ok ==> r->Ok_0@ == spec_parse_street(street@),
            r is Err ==> r->Err_0@ == spec_street_err(street@),
    {
        let n = street.unicode_len();
        if n == 0 {
            return Err(AddressConversionError::InvalidFormat("Street cannot be empty".to_owned()));
        }
        if has_newline(street, n) {
            return Err(AddressConversionError::InvalidFormat("Invalid street format".to_owned()));
        }
        let d = scan_run(street, n, 0, CharClass::Digit);
        if d >= 1 {
            let p = scan_run(street, n, d, CharClass::Letter);
            if p < n && p + 1 < n && street.get_char(p) == ' ' {
                let number = street.substring_char(0, p).to_owned();
                let name = street.substring_char(p + 1, n).to_owned();
                return Ok(Street { number: Some(number), name });
            }
            assert(!street_has_number(street@));
        }
        Ok(Street { number: None, name: street.to_owned() })
    }

    /// Splits a postal line of the form `<5-digit code><whitespace><town>`
    /// into the postcode and the town.
    pub fn parse_postal(postal: &str) -> (r: Result<PostalDetails, AddressConversionError>)
        ensures
            r is Ok <==> postal_line_ok(postal@),
            r is Ok ==> r->Ok_0@ == spec_parse_postal(postal@),
            r is Err ==> r->Err_0@ == spec_postal_err(),
    {
        let n = postal.unicode_len();
        if n < 7 {
            return Err(
                AddressConversionError::InvalidFormat(
                    "Postal information should contain a postcode/zipcode and a town (e.g., '44000 NANTES')".to_owned(),
                ),
            );
        }
        let d = scan_run(postal, n, 0, CharClass::Digit);
        if d < 5 {
            proof {
                lemma_run_len(postal@, 0, CharClass::Digit);
            }
            return Err(
                AddressConversionError::InvalidFormat(
                    "Postal information should contain a postcode/zipcode and a town (e.g., '44000 NANTES')".to_owned(),
                ),
            );
        }
        proof {
            lemma_run_len(postal@, 0, CharClass::Digit);
        }
        if !char_in_class(postal.get_char(5), CharClass::Space) {
            return Err(
                AddressConversionError::InvalidFormat(
                    "Postal information should contain a postcode/zipcode and a town (e.g., '44000 NANTES')".to_owned(),
                ),
            );
        }
        let e = scan_run(postal, n, 5, CharClass::Space);
        let town_start = if e == n {
            n - 1
        } else {
            e
        };
        assert(town_start as int == postal_town_start(postal@));
        assert(5 <= town_start < n);
        let town = postal.substring_char(town_start, n);
        if has_newline(town, n - town_start) {
            return Err(
                AddressConversionError::InvalidFormat(
                    "Postal information should contain a postcode/zipcode and a town (e.g., '44000 NANTES')".to_owned(),
                ),
            );
        }
        let postcode = postal.substring_char(0, 5).to_owned();
        Ok(PostalDetails { postcode, town: town.to_owned(), town_location: None })
    }

    /// Reads a postbox token — two upper-case letters, whitespace, digits —
    /// off the start of a distribution-info line, if one is there.
    pub fn parse_postbox(distribution_info: &str) -> (r: Result<
        Option<String>,
        AddressConversionError,
    >)
        ensures
            r is Ok <==> distribution_info@.len() > 0,
            r is Ok ==> opt_str_view(r->Ok_0) == spec_postbox(distribution_info@),
            r is Err ==> r->Err_0@ == spec_distribution_err(),
    {
        let n = distribution_info.unicode_len();
        if n == 0 {
            return Err(
                AddressConversionError::InvalidFormat(
                    "Distribution info cannot be empty if provided".to_owned(),
                ),
            );
        }
        if n >= 2 && char_in_class(distribution_info.get_char(0), CharClass::Upper)
            && char_in_class(distribution_info.get_char(1), CharClass::Upper) {
            let w = scan_run(distribution_info, n, 2, CharClass::Space);
            if w > 2 {
                let e = scan_run(distribution_info, n, w, CharClass::Digit);
                if e > w {
                    let postbox = distribution_info.substring_char(0, e).to_owned();
                    return Ok(Some(postbox));
                }
            }
        }
        assert(!postbox_prefix_ok(distribution_info@));
        Ok(None)
    }

    /// Strips an optional leading postbox token and returns the remaining
    /// town-location fragment of a distribution-info line.
    pub fn parse_town_location(distribution_info: &str) -> (r: Result<
        Option<String>,
        AddressConversionError,
    >)
        ensures
            r is Ok <==> distribution_info@.len() > 0,
            r is Ok ==> opt_str_view(r->Ok_0) == spec_town_location(distribution_info@),
            r is Err ==> r->Err_0@ == spec_distribution_err(),
    {
        let n = distribution_info.unicode_len();
        if n == 0 {
            return Err(
                AddressConversionError::InvalidFormat(
                    "Distribution info cannot be empty if provided".to_owned(),
                ),
            );
        }
        if n >= 2 && char_in_class(distribution_info.get_char(0), CharClass::Upper)
            && char_in_class(distribution_info.get_char(1), CharClass::Upper) {
            let w = scan_run(distribution_info, n, 2, CharClass::Space);
            if w > 2 {
                let q = scan_run(distribution_info, n, w, CharClass::Digit);
                if q > w {
                    let e = scan_run(distribution_info, n, q, CharClass::Space);
                    if e > q {
                        let rem_start = if e == n {
                            n - 1
                        } else {
                            e
                        };
                        assert(rem_start as int == town_loc_rem_start(distribution_info@));
                        if rem_start > q {
                            let rem = distribution_info.substring_char(rem_start, n);
                            if !has_newline(rem, n - rem_start) {
                                assert(town_loc_group_ok(distribution_info@));
                                return Ok(Some(rem.to_owned()));
                            }
                        }
                    }
                }
            }
        }
        assert(!town_loc_group_ok(distribution_info@));
        if !has_newline(distribution_info, n) {
            return Ok(Some(distribution_info.to_owned()));
        }
        Ok(None)
    }
}

} // verus!
