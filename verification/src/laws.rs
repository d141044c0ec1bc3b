//! Laws of the conversion engine, proved from the conversion contracts alone.

use vstd::prelude::*;

use crate::address::{AddressV, RecipientV, StreetV};
use crate::address_conversion::{AddressConversionErrorV, spec_distribution_info, spec_from_french,
    spec_from_french_err, spec_from_french_ok, spec_postal_line, spec_street_line, spec_to_french,
    spec_to_french_err, spec_to_french_ok, spec_to_iso20022, spec_to_iso20022_ok};
use crate::country::{Country, country_text_is_france};
use crate::french_address::{FrenchAddressV, postal_line_ok, postal_town_start, spec_parse_postal,
    street_line_ok};
use crate::iso20022_address::IsoAddressV;
use crate::text::{CharClass, contains_newline, in_class, run_len};

verus! {

/// The postal line of a French address, whichever variant it is.
pub open spec fn french_postal_line(f: FrenchAddressV) -> Seq<char> {
    match f {
        FrenchAddressV::Individual(i) => i.postal,
        FrenchAddressV::Business(b) => b.postal,
    }
}

/// Every individual canonical address with a non-empty name renders into
/// both external formats, and its postal information comes out as the line
/// `"<postcode> <town>"` on the French side and as the pair
/// `(postcode, town)` on the ISO side.
pub proof fn lemma_individual_conversions_succeed(a: AddressV)
    requires
        a.kind is Individual,
        a.recipient matches RecipientV::Individual { name } && name.len() > 0,
        a.postal_details.postcode.len() > 0,
        a.postal_details.town.len() > 0,
    ensures
        spec_to_french_ok(a),
        spec_to_french(a) matches FrenchAddressV::Individual(f) && f.postal
            == a.postal_details.postcode + seq![' '] + a.postal_details.town,
        spec_to_iso20022_ok(a),
        spec_to_iso20022(a) matches IsoAddressV::IndividualIsoAddress { postal_address, .. }
            && postal_address.postcode == a.postal_details.postcode && postal_address.town_name
            == a.postal_details.town,
{
}

/// Every business canonical address without a street fails to render into
/// the French format, and the failure is a missing field.
pub proof fn lemma_business_without_street_fails(a: AddressV)
    requires
        a.kind is Business,
        a.street is None,
    ensures
        !spec_to_french_ok(a),
        spec_to_french_err(a) is MissingField,
{
}

/// Whether a canonical street renders into a line that the French street
/// grammar reads back: something to render at all, and no newline anywhere.
pub open spec fn street_reparses(st: StreetV) -> bool {
    &&& st.name.len() > 0 || st.number is Some
    &&& !contains_newline(st.name)
    &&& (st.number matches Some(num) ==> !contains_newline(num))
}

/// Whether canonical postal details render into a line that the French
/// postal grammar reads back exactly: a five-digit postcode, and a non-empty
/// town that opens with a non-whitespace character and spans no newline.
pub open spec fn postal_reparses(p: crate::address::PostalDetailsV) -> bool {
    &&& p.postcode.len() == 5
    &&& forall|j: int| 0 <= j < 5 ==> in_class(#[trigger] p.postcode[j], CharClass::Digit)
    &&& p.town.len() > 0
    &&& !in_class(p.town[0], CharClass::Space)
    &&& !contains_newline(p.town)
}

/// Reconstructing from the rendered French address is a left inverse of
/// rendering, on the non-lossy fields: for every canonical address that
/// renders without a distribution-info line and whose street and postal
/// details read back (see `street_reparses`, `postal_reparses`), the
/// reconstruction succeeds and preserves the recipient (name, company name
/// and contact), the postcode, the town, the kind and the country.
///
/// When a distribution-info line is present the merge of postbox and town
/// location is lossy by design, and no round trip is promised.
pub proof fn lemma_french_round_trip(a: AddressV)
    requires
        spec_to_french_ok(a),
        a.kind is Individual ==> a.recipient is Individual,
        a.kind is Business ==> a.recipient is Business,
        spec_distribution_info(a) is None,
        postal_reparses(a.postal_details),
        a.street matches Some(st) ==> street_reparses(st),
    ensures
        spec_from_french_ok(spec_to_french(a)),
        ({
            let b = spec_from_french(spec_to_french(a));
            &&& b.kind == a.kind
            &&& b.recipient == a.recipient
            &&& b.postal_details.postcode == a.postal_details.postcode
            &&& b.postal_details.town == a.postal_details.town
            &&& b.country == a.country
        }),
{
    let p = a.postal_details.postcode;
    let t = a.postal_details.town;
    let line = spec_postal_line(a.postal_details);
    assert(line == p + seq![' '] + t);
    assert(line.len() == p.len() + 1 + t.len());
    assert(line[5] == ' ');
    assert(in_class(' ', CharClass::Space));
    assert(forall|j: int| 0 <= j < 5 ==> line[j] == p[j]);
    assert(line[6] == t[0]);
    // The whitespace run after the five digits is exactly the one space.
    assert(run_len(line, 6, CharClass::Space) == 0);
    assert(run_len(line, 5, CharClass::Space) == 1);
    assert(postal_town_start(line) == 6);
    assert(line.subrange(6, line.len() as int) =~= t);
    assert(line.subrange(0, 5) =~= p);
    assert(postal_line_ok(line));
    assert(spec_parse_postal(line).postcode == p);
    assert(spec_parse_postal(line).town == t);
    // A rendered street line is non-empty and newline-free, so it parses.
    match a.street {
        Some(st) => {
            let sl = spec_street_line(st);
            assert(sl.len() > 0);
            assert(!contains_newline(sl)) by {
                match st.number {
                    Some(num) => {
                        assert(forall|i: int| 0 <= i < sl.len() ==> sl[i] != '\n') by {
                            assert(sl == num + seq![' '] + st.name);
                            assert(forall|i: int| 0 <= i < num.len() ==> sl[i] == num[i]);
                            assert(sl[num.len() as int] == ' ');
                            assert(forall|i: int|
                                num.len() + 1 <= i < sl.len() ==> sl[i] == st.name[i - num.len()
                                    - 1]);
                        }
                    },
                    None => {
                        assert(sl == st.name);
                    },
                }
            }
            assert(street_line_ok(sl));
        },
        None => {},
    }
    // The single country of the registry reads its own name back.
    assert(country_text_is_france("FRANCE"@));
    assert(a.country == Country::France);
}

/// A French address whose postal line does not match
/// `<5 digits><whitespace><town>` never reconstructs — no partially
/// populated address comes back — and the failure is an invalid format,
/// whichever line is blamed first.
pub proof fn lemma_malformed_postal_rejected(f: FrenchAddressV)
    requires
        !postal_line_ok(french_postal_line(f)),
    ensures
        !spec_from_french_ok(f),
        spec_from_french_err(f) is InvalidFormat,
{
}

} // verus!
