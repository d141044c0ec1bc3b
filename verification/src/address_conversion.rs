//! The conversion engine: the canonical address rendered into each external
//! format, and a canonical address reconstructed from each.
//!
//! Every operation is total over its declared domain and fails atomically
//! otherwise: the contracts state, input by input, whether the conversion
//! succeeds, what every field of the result holds, and which error comes back
//! when it does not.

use vstd::prelude::*;

use crate::address::{Address, AddressKind, AddressV, DeliveryPoint, DeliveryPointV, PostalDetails,
    PostalDetailsV, Recipient, RecipientV, Street, StreetV, content_view, opt_str_view,
    spec_denomination};
use crate::country::{Country, country_text_is_france, spec_country_name, spec_iso_code};
use crate::french_address::{BusinessFrenchAddress, BusinessFrenchAddressV, FrenchAddress,
    FrenchAddressV, FrenchAddressParser, IndividualFrenchAddress, IndividualFrenchAddressV,
    postal_line_ok, spec_distribution_err, spec_parse_postal, spec_parse_street, spec_postal_err,
    spec_postbox, spec_street_err, spec_town_location, street_line_ok};
use crate::iso20022_address::{IsoAddress, IsoAddressV, IsoPostalAddress, IsoPostalAddressV};

verus! {

/// Why a conversion between the canonical model and an external format
/// failed.
#[derive(Clone, Debug, PartialEq)]
pub enum AddressConversionError {
    /// A semantically required field was empty or absent; the payload names
    /// the field.
    MissingField(String),
    /// Text failed to match an expected grammar (street, postal line,
    /// country name); the payload carries the guidance message.
    InvalidFormat(String),
}

/// The view of an `AddressConversionError`.
pub enum AddressConversionErrorV {
    MissingField(Seq<char>),
    InvalidFormat(Seq<char>),
}

impl View for AddressConversionError {
    type V = AddressConversionErrorV;

    open spec fn view(&self) -> AddressConversionErrorV {
        match self {
            AddressConversionError::MissingField(f) => AddressConversionErrorV::MissingField(f@),
            AddressConversionError::InvalidFormat(m) => AddressConversionErrorV::InvalidFormat(m@),
        }
    }
}

/// The error text a country outside the registry reports.
pub open spec fn spec_country_err() -> AddressConversionErrorV {
    AddressConversionErrorV::InvalidFormat("Matching variant not found"@)
}

// --- What the canonical fields render to ---

/// The French street line of a canonical street: the number, a space, and
/// the name, or the name alone.
pub open spec fn spec_street_line(st: StreetV) -> Seq<char> {
    match st.number {
        Some(num) => num + seq![' '] + st.name,
        None => st.name,
    }
}

/// The French postal line: the postcode, a space, and the town.
pub open spec fn spec_postal_line(p: PostalDetailsV) -> Seq<char> {
    p.postcode + seq![' '] + p.town
}

/// The merge of a postbox and a town location into one distribution-info
/// line: both joined by a single space (postbox first), either one alone, or
/// nothing.
pub open spec fn spec_merge_distribution(
    postbox: Option<Seq<char>>,
    town_location: Option<Seq<char>>,
) -> Option<Seq<char>> {
    match (postbox, town_location) {
        (None, None) => None,
        (None, Some(t)) => Some(t),
        (Some(p), None) => Some(p),
        (Some(p), Some(t)) => Some(p + seq![' '] + t),
    }
}

/// The distribution-info line of a canonical address: the merge of the
/// delivery point's postbox and the postal details' town location.
pub open spec fn spec_distribution_info(a: AddressV) -> Option<Seq<char>> {
    spec_merge_distribution(spec_dp_postbox(a), a.postal_details.town_location)
}

/// The external delivery line of a canonical address.
pub open spec fn spec_dp_external(a: AddressV) -> Option<Seq<char>> {
    match a.delivery_point {
        Some(dp) => dp.external,
        None => None,
    }
}

/// The internal delivery line of a canonical address.
pub open spec fn spec_dp_internal(a: AddressV) -> Option<Seq<char>> {
    match a.delivery_point {
        Some(dp) => dp.internal,
        None => None,
    }
}

/// The postbox of a canonical address.
pub open spec fn spec_dp_postbox(a: AddressV) -> Option<Seq<char>> {
    match a.delivery_point {
        Some(dp) => dp.postbox,
        None => None,
    }
}

// --- to_french ---

/// When rendering to the French format succeeds: an individual needs a
/// non-empty denomination; a business needs a non-empty company name and a
/// street.
pub open spec fn spec_to_french_ok(a: AddressV) -> bool {
    match a.kind {
        AddressKind::Individual => spec_denomination(a.recipient) matches Some(nm) && nm.len() > 0,
        AddressKind::Business => {
            &&& a.recipient matches RecipientV::Business { company_name, .. } && company_name.len()
                > 0
            &&& a.street is Some
        },
    }
}

/// The error a failing rendering to the French format reports.
pub open spec fn spec_to_french_err(a: AddressV) -> AddressConversionErrorV {
    match a.kind {
        AddressKind::Individual => AddressConversionErrorV::MissingField("name"@),
        AddressKind::Business => if !(a.recipient matches RecipientV::Business { company_name, .. }
            && company_name.len() > 0) {
            AddressConversionErrorV::MissingField("company_name"@)
        } else {
            AddressConversionErrorV::MissingField(
                "Street information is required for french business addresses"@,
            )
        },
    }
}

/// What a canonical address renders to in the French format, when rendering
/// succeeds.
pub open spec fn spec_to_french(a: AddressV) -> FrenchAddressV {
    match a.kind {
        AddressKind::Individual => FrenchAddressV::Individual(
            IndividualFrenchAddressV {
                name: spec_denomination(a.recipient)->0,
                internal_delivery: spec_dp_internal(a),
                external_delivery: spec_dp_external(a),
                street: match a.street {
                    Some(st) => Some(spec_street_line(st)),
                    None => None,
                },
                distribution_info: spec_distribution_info(a),
                postal: spec_postal_line(a.postal_details),
                country: spec_country_name(a.country),
            },
        ),
        AddressKind::Business => FrenchAddressV::Business(
            BusinessFrenchAddressV {
                business_name: a.recipient->Business_company_name,
                recipient: spec_denomination(a.recipient),
                external_delivery: spec_dp_external(a),
                street: spec_street_line(a.street->0),
                distribution_info: spec_distribution_info(a),
                postal: spec_postal_line(a.postal_details),
                country: spec_country_name(a.country),
            },
        ),
    }
}

// --- to_iso20022 ---

/// When rendering to the ISO element set succeeds: the recipient variant
/// must agree with the address kind and carry a non-empty name or company
/// name.
pub open spec fn spec_to_iso20022_ok(a: AddressV) -> bool {
    match a.kind {
        AddressKind::Individual => a.recipient matches RecipientV::Individual { name } && name.len()
            > 0,
        AddressKind::Business => a.recipient matches RecipientV::Business { company_name, .. }
            && company_name.len() > 0,
    }
}

/// The error a failing rendering to the ISO element set reports.
pub open spec fn spec_to_iso20022_err(a: AddressV) -> AddressConversionErrorV {
    match a.kind {
        AddressKind::Individual => AddressConversionErrorV::MissingField("name"@),
        AddressKind::Business => AddressConversionErrorV::MissingField("company_name"@),
    }
}

/// What a canonical address renders to in the ISO element set, when
/// rendering succeeds: the three delivery-point fields are copied verbatim —
/// no merging, unlike the French side — and the department carries the
/// business denomination.
pub open spec fn spec_to_iso20022(a: AddressV) -> IsoAddressV {
    let postal_address = IsoPostalAddressV {
        street_name: match a.street {
            Some(st) => Some(st.name),
            None => None,
        },
        building_number: match a.street {
            Some(st) => st.number,
            None => None,
        },
        floor: spec_dp_external(a),
        room: spec_dp_internal(a),
        postbox: spec_dp_postbox(a),
        department: match a.kind {
            AddressKind::Individual => None,
            AddressKind::Business => spec_denomination(a.recipient),
        },
        postcode: a.postal_details.postcode,
        town_name: a.postal_details.town,
        town_location_name: a.postal_details.town_location,
        country: spec_iso_code(a.country),
    };
    match a.kind {
        AddressKind::Individual => IsoAddressV::IndividualIsoAddress {
            name: a.recipient->Individual_name,
            postal_address,
        },
        AddressKind::Business => IsoAddressV::BusinessIsoAddress {
            business_name: a.recipient->Business_company_name,
            postal_address,
        },
    }
}

// --- from_french ---

/// When reconstructing a canonical address from a French one succeeds: every
/// present line must meet its grammar, and the country text must resolve in
/// the registry.
pub open spec fn spec_from_french_ok(f: FrenchAddressV) -> bool {
    match f {
        FrenchAddressV::Individual(i) => {
            &&& (i.street matches Some(s) ==> street_line_ok(s))
            &&& postal_line_ok(i.postal)
            &&& country_text_is_france(i.country)
        },
        FrenchAddressV::Business(b) => {
            &&& street_line_ok(b.street)
            &&& postal_line_ok(b.postal)
            &&& (b.distribution_info matches Some(di) ==> di.len() > 0)
            &&& country_text_is_france(b.country)
        },
    }
}

/// The error a failing reconstruction from the French format reports: the
/// street line is parsed first, the postal line second, then (for a
/// business) the distribution-info line, and the country text last.
pub open spec fn spec_from_french_err(f: FrenchAddressV) -> AddressConversionErrorV {
    match f {
        FrenchAddressV::Individual(i) => match i.street {
            Some(s) => if !street_line_ok(s) {
                spec_street_err(s)
            } else if !postal_line_ok(i.postal) {
                spec_postal_err()
            } else {
                spec_country_err()
            },
            None => if !postal_line_ok(i.postal) {
                spec_postal_err()
            } else {
                spec_country_err()
            },
        },
        FrenchAddressV::Business(b) => if !street_line_ok(b.street) {
            spec_street_err(b.street)
        } else if !postal_line_ok(b.postal) {
            spec_postal_err()
        } else if b.distribution_info matches Some(di) && di.len() == 0 {
            spec_distribution_err()
        } else {
            spec_country_err()
        },
    }
}

/// The canonical content a French address reconstructs to, when
/// reconstruction succeeds (the fresh identifier and timestamp cleared).
///
/// For an individual, the raw distribution-info line lands in the delivery
/// point's postbox, and a delivery point exists only if one of its three
/// sources is present. For a business, the delivery point always exists, and
/// the distribution-info line is split: its postbox token (if any) into the
/// postbox, the remaining fragment into the town location.
pub open spec fn spec_from_french(f: FrenchAddressV) -> AddressV {
    match f {
        FrenchAddressV::Individual(i) => AddressV {
            id: 0,
            updated_at: 0,
            kind: AddressKind::Individual,
            recipient: RecipientV::Individual { name: i.name },
            delivery_point: if i.external_delivery is None && i.internal_delivery is None
                && i.distribution_info is None {
                None
            } else {
                Some(
                    DeliveryPointV {
                        external: i.external_delivery,
                        internal: i.internal_delivery,
                        postbox: i.distribution_info,
                    },
                )
            },
            street: match i.street {
                Some(s) => Some(spec_parse_street(s)),
                None => None,
            },
            postal_details: spec_parse_postal(i.postal),
            country: Country::France,
        },
        FrenchAddressV::Business(b) => AddressV {
            id: 0,
            updated_at: 0,
            kind: AddressKind::Business,
            recipient: RecipientV::Business { company_name: b.business_name, contact: b.recipient },
            delivery_point: Some(
                DeliveryPointV {
                    external: b.external_delivery,
                    internal: None,
                    postbox: match b.distribution_info {
                        Some(di) => spec_postbox(di),
                        None => None,
                    },
                },
            ),
            street: Some(spec_parse_street(b.street)),
            postal_details: PostalDetailsV {
                postcode: spec_parse_postal(b.postal).postcode,
                town: spec_parse_postal(b.postal).town,
                town_location: match b.distribution_info {
                    Some(di) => spec_town_location(di),
                    None => None,
                },
            },
            country: Country::France,
        },
    }
}

// --- from_iso20022 ---

/// When reconstructing a canonical address from an ISO one succeeds: an
/// individual address must carry a non-empty street name — a business one
/// need not — and the country code must resolve in the registry.
pub open spec fn spec_from_iso20022_ok(v: IsoAddressV) -> bool {
    match v {
        IsoAddressV::IndividualIsoAddress { postal_address, .. } => {
            &&& postal_address.street_name matches Some(sn) && sn.len() > 0
            &&& country_text_is_france(postal_address.country)
        },
        IsoAddressV::BusinessIsoAddress { postal_address, .. } => country_text_is_france(
            postal_address.country,
        ),
    }
}

/// The error a failing reconstruction from the ISO element set reports.
pub open spec fn spec_from_iso20022_err(v: IsoAddressV) -> AddressConversionErrorV {
    match v {
        IsoAddressV::IndividualIsoAddress { postal_address, .. } => if !(postal_address.street_name
            matches Some(sn) && sn.len() > 0) {
            AddressConversionErrorV::MissingField("street_name"@)
        } else {
            spec_country_err()
        },
        IsoAddressV::BusinessIsoAddress { .. } => spec_country_err(),
    }
}

/// The canonical content an ISO address reconstructs to, when reconstruction
/// succeeds (the fresh identifier and timestamp cleared).
///
/// The floor lands in the external delivery point and the room in the
/// internal one — except for a business, which keeps no internal line. A
/// business with no street name keeps an empty one.
pub open spec fn spec_from_iso20022(v: IsoAddressV) -> AddressV {
    match v {
        IsoAddressV::IndividualIsoAddress { name, postal_address } => AddressV {
            id: 0,
            updated_at: 0,
            kind: AddressKind::Individual,
            recipient: RecipientV::Individual { name: name },
            delivery_point: Some(
                DeliveryPointV {
                    external: postal_address.floor,
                    internal: postal_address.room,
                    postbox: postal_address.postbox,
                },
            ),
            street: Some(
                StreetV {
                    number: postal_address.building_number,
                    name: postal_address.street_name->0,
                },
            ),
            postal_details: PostalDetailsV {
                postcode: postal_address.postcode,
                town: postal_address.town_name,
                town_location: postal_address.town_location_name,
            },
            country: Country::France,
        },
        IsoAddressV::BusinessIsoAddress { business_name, postal_address } => AddressV {
            id: 0,
            updated_at: 0,
            kind: AddressKind::Business,
            recipient: RecipientV::Business {
                company_name: business_name,
                contact: postal_address.department,
            },
            delivery_point: Some(
                DeliveryPointV {
                    external: postal_address.floor,
                    internal: None,
                    postbox: postal_address.postbox,
                },
            ),
            street: Some(
                StreetV {
                    number: postal_address.building_number,
                    name: match postal_address.street_name {
                        Some(sn) => sn,
                        None => Seq::empty(),
                    },
                },
            ),
            postal_details: PostalDetailsV {
                postcode: postal_address.postcode,
                town: postal_address.town_name,
                town_location: postal_address.town_location_name,
            },
            country: Country::France,
        },
    }
}

/// Joins two strings with a single space between them.
fn join_with_space(a: &str, b: &str) -> (r: String)
    ensures
        r@ == a@ + seq![' '] + b@,
{
    let mut s = a.to_owned();
    s.append(" ");
    s.append(b);
    proof {
        reveal_strlit(" ");
        assert(" "@ =~= seq![' ']);
        assert(s@ =~= a@ + seq![' '] + b@);
    }
    s
}

/// Renders an optional canonical street as its French line.
fn street_line(street: &Option<Street>) -> (r: Option<String>)
    ensures
        opt_str_view(r) == (match crate::address::opt_street_view(*street) {
            Some(st) => Some(spec_street_line(st)),
            None => None::<Seq<char>>,
        }),
{
    match street {
        Some(st) => match &st.number {
            Some(number) => Some(join_with_space(number.as_str(), st.name.as_str())),
            None => Some(st.name.clone()),
        },
        None => None,
    }
}

/// Renders the distribution-info line of a canonical address: the merge of
/// its postbox and town location.
fn distribution_info_line(
    delivery_point: &Option<DeliveryPoint>,
    town_location: &Option<String>,
) -> (r: Option<String>)
    ensures
        opt_str_view(r) == spec_merge_distribution(
            match crate::address::opt_delivery_view(*delivery_point) {
                Some(dp) => dp.postbox,
                None => None::<Seq<char>>,
            },
            opt_str_view(*town_location),
        ),
{
    match delivery_point {
        Some(dp) => match (&dp.postbox, town_location) {
            (None, None) => None,
            (None, Some(t)) => Some(t.clone()),
            (Some(p), None) => Some(p.clone()),
            (Some(p), Some(t)) => Some(join_with_space(p.as_str(), t.as_str())),
        },
        None => match town_location {
            Some(t) => Some(t.clone()),
            None => None,
        },
    }
}

fn clone_opt_string(o: &Option<String>) -> (r: Option<String>)
    ensures
        opt_str_view(r) == opt_str_view(*o),
{
    match o {
        Some(s) => Some(s.clone()),
        None => None,
    }
}

/// The conversion rules of any convertible address: the canonical entity
/// rendered into each external representation, and reconstructed from each.
pub trait AddressConvertible: Sized + View<V = AddressV> {
    /// Converts a NF Z10-011 french address into a new canonical entity.
    fn from_french(address: FrenchAddress) -> (r: Result<Self, AddressConversionError>)
        ensures
            r is Ok <==> spec_from_french_ok(address@),
            r is Ok ==> content_view(r->Ok_0@) == spec_from_french(address@),
            r is Err ==> r->Err_0@ == spec_from_french_err(address@),
    ;

    /// Converts an ISO 20022 address into a new canonical entity.
    fn from_iso20022(address: IsoAddress) -> (r: Result<Self, AddressConversionError>)
        ensures
            r is Ok <==> spec_from_iso20022_ok(address@),
            r is Ok ==> content_view(r->Ok_0@) == spec_from_iso20022(address@),
            r is Err ==> r->Err_0@ == spec_from_iso20022_err(address@),
    ;

    /// Converts the address into the french standard NF Z10-011.
    fn to_french(&self) -> (r: Result<FrenchAddress, AddressConversionError>)
        ensures
            r is Ok <==> spec_to_french_ok(self@),
            r is Ok ==> r->Ok_0@ == spec_to_french(self@),
            r is Err ==> r->Err_0@ == spec_to_french_err(self@),
    ;

    /// Converts the address into the ISO 20022 standard.
    fn to_iso20022(&self) -> (r: Result<IsoAddress, AddressConversionError>)
        ensures
            r is Ok <==> spec_to_iso20022_ok(self@),
            r is Ok ==> r->Ok_0@ == spec_to_iso20022(self@),
            r is Err ==> r->Err_0@ == spec_to_iso20022_err(self@),
    ;
}

impl AddressConvertible for Address {
    fn to_french(&self) -> (r: Result<FrenchAddress, AddressConversionError>) {
        let distribution_info = distribution_info_line(
            &self.delivery_point,
            &self.postal_details.town_location,
        );
        let postal = join_with_space(
            self.postal_details.postcode.as_str(),
            self.postal_details.town.as_str(),
        );
        match &self.kind {
            AddressKind::Individual => {
                let name = match self.recipient.denomination() {
                    Some(name) => if name.as_str().is_empty() {
                        return Err(AddressConversionError::MissingField("name".to_owned()));
                    } else {
                        name
                    },
                    None => {
                        return Err(AddressConversionError::MissingField("name".to_owned()));
                    },
                };
                let internal_delivery = match &self.delivery_point {
                    Some(dp) => clone_opt_string(&dp.internal),
                    None => None,
                };
                let external_delivery = match &self.delivery_point {
                    Some(dp) => clone_opt_string(&dp.external),
                    None => None,
                };
                let street = street_line(&self.street);
                Ok(
                    FrenchAddress::Individual(
                        IndividualFrenchAddress {
                            name,
                            internal_delivery,
                            external_delivery,
                            street,
                            distribution_info,
                            postal,
                            country: self.country.name().to_owned(),
                        },
                    ),
                )
            },
            AddressKind::Business => {
                let business_name: String = match &self.recipient {
                    Recipient::Business { company_name, .. } => if company_name.as_str().is_empty() {
                        return Err(
                            AddressConversionError::MissingField("company_name".to_owned()),
                        );
                    } else {
                        company_name.clone()
                    },
                    _ => {
                        return Err(
                            AddressConversionError::MissingField("company_name".to_owned()),
                        );
                    },
                };
                let recipient = self.recipient.denomination();
                let external_delivery = match &self.delivery_point {
                    Some(dp) => clone_opt_string(&dp.external),
                    None => None,
                };
                // Businesses must carry a street line.
                let street = match street_line(&self.street) {
                    Some(line) => line,
                    None => {
                        return Err(
                            AddressConversionError::MissingField(
                                "Street information is required for french business addresses".to_owned(),
                            ),
                        );
                    },
                };
                Ok(
                    FrenchAddress::Business(
                        BusinessFrenchAddress {
                            business_name,
                            recipient,
                            external_delivery,
                            street,
                            distribution_info,
                            postal,
                            country: self.country.name().to_owned(),
                        },
                    ),
                )
            },
        }
    }

    fn to_iso20022(&self) -> (r: Result<IsoAddress, AddressConversionError>) {
        let street_name = match &self.street {
            Some(st) => Some(st.name.clone()),
            None => None,
        };
        let building_number = match &self.street {
            Some(st) => clone_opt_string(&st.number),
            None => None,
        };
        let floor = match &self.delivery_point {
            Some(dp) => clone_opt_string(&dp.external),
            None => None,
        };
        let room = match &self.delivery_point {
            Some(dp) => clone_opt_string(&dp.internal),
            None => None,
        };
        let postbox = match &self.delivery_point {
            Some(dp) => clone_opt_string(&dp.postbox),
            None => None,
        };
        let postal_address = IsoPostalAddress {
            street_name,
            building_number,
            floor,
            room,
            postbox,
            department: None,
            postcode: self.postal_details.postcode.clone(),
            town_name: self.postal_details.town.clone(),
            town_location_name: clone_opt_string(&self.postal_details.town_location),
            country: self.country.iso_code().to_owned(),
        };
        match &self.kind {
            AddressKind::Individual => {
                let name = match &self.recipient {
                    Recipient::Individual { name } => if name.as_str().is_empty() {
                        return Err(AddressConversionError::MissingField("name".to_owned()));
                    } else {
                        name.clone()
                    },
                    _ => {
                        return Err(AddressConversionError::MissingField("name".to_owned()));
                    },
                };
                Ok(IsoAddress::IndividualIsoAddress { name, postal_address })
            },
            AddressKind::Business => {
                let business_name = match &self.recipient {
                    Recipient::Business { company_name, .. } => if company_name.as_str().is_empty() {
                        return Err(
                            AddressConversionError::MissingField("company_name".to_owned()),
                        );
                    } else {
                        company_name.clone()
                    },
                    _ => {
                        return Err(
                            AddressConversionError::MissingField("company_name".to_owned()),
                        );
                    },
                };
                let department = self.recipient.denomination();
                let postal_address = IsoPostalAddress { department, ..postal_address };
                Ok(IsoAddress::BusinessIsoAddress { business_name, postal_address })
            },
        }
    }

    fn from_french(address: FrenchAddress) -> (r: Result<Address, AddressConversionError>) {
        let ghost fv = address@;
        match address {
            FrenchAddress::Individual(individual) => {
                let street = match &individual.street {
                    Some(s) => match FrenchAddressParser::parse_street(s.as_str()) {
                        Ok(st) => Some(st),
                        Err(e) => {
                            return Err(e);
                        },
                    },
                    None => None,
                };
                let postal = match FrenchAddressParser::parse_postal(individual.postal.as_str()) {
                    Ok(p) => p,
                    Err(e) => {
                        return Err(e);
                    },
                };
                let country = match Country::parse(individual.country.as_str()) {
                    Some(c) => c,
                    None => {
                        return Err(
                            AddressConversionError::InvalidFormat(
                                "Matching variant not found".to_owned(),
                            ),
                        );
                    },
                };
                let delivery_point = match (
                    &individual.external_delivery,
                    &individual.internal_delivery,
                    &individual.distribution_info,
                ) {
                    (None, None, None) => None,
                    _ => Some(
                        DeliveryPoint {
                            external: individual.external_delivery,
                            internal: individual.internal_delivery,
                            postbox: individual.distribution_info,
                        },
                    ),
                };
                let result = Address::new(
                    AddressKind::Individual,
                    Recipient::Individual { name: individual.name },
                    delivery_point,
                    street,
                    postal,
                    country,
                );
                Ok(result)
            },
            FrenchAddress::Business(business) => {
                let street = match FrenchAddressParser::parse_street(business.street.as_str()) {
                    Ok(st) => st,
                    Err(e) => {
                        return Err(e);
                    },
                };
                let postal = match FrenchAddressParser::parse_postal(business.postal.as_str()) {
                    Ok(p) => p,
                    Err(e) => {
                        return Err(e);
                    },
                };
                let postbox = match &business.distribution_info {
                    Some(info) => match FrenchAddressParser::parse_postbox(info.as_str()) {
                        Ok(pb) => pb,
                        Err(e) => {
                            return Err(e);
                        },
                    },
                    None => None,
                };
                let town_location = match &business.distribution_info {
                    Some(info) => match FrenchAddressParser::parse_town_location(info.as_str()) {
                        Ok(tl) => tl,
                        Err(e) => {
                            return Err(e);
                        },
                    },
                    None => None,
                };
                let country = match Country::parse(business.country.as_str()) {
                    Some(c) => c,
                    None => {
                        return Err(
                            AddressConversionError::InvalidFormat(
                                "Matching variant not found".to_owned(),
                            ),
                        );
                    },
                };
                let postal = PostalDetails {
                    postcode: postal.postcode,
                    town: postal.town,
                    town_location,
                };
                let result = Address::new(
                    AddressKind::Business,
                    Recipient::Business {
                        company_name: business.business_name,
                        contact: business.recipient,
                    },
                    Some(
                        DeliveryPoint { external: business.external_delivery, internal: None, postbox },
                    ),
                    Some(street),
                    postal,
                    country,
                );
                Ok(result)
            },
        }
    }

    fn from_iso20022(address: IsoAddress) -> (r: Result<Address, AddressConversionError>) {
        let ghost vv = address@;
        match address {
            IsoAddress::IndividualIsoAddress { name, postal_address } => {
                let street_name = match postal_address.street_name {
                    Some(sn) => if sn.as_str().is_empty() {
                        return Err(AddressConversionError::MissingField("street_name".to_owned()));
                    } else {
                        sn
                    },
                    None => {
                        return Err(AddressConversionError::MissingField("street_name".to_owned()));
                    },
                };
                let country = match Country::parse(postal_address.country.as_str()) {
                    Some(c) => c,
                    None => {
                        return Err(
                            AddressConversionError::InvalidFormat(
                                "Matching variant not found".to_owned(),
                            ),
                        );
                    },
                };
                let result = Address::new(
                    AddressKind::Individual,
                    Recipient::Individual { name },
                    Some(
                        DeliveryPoint {
                            external: postal_address.floor,
                            internal: postal_address.room,
                            postbox: postal_address.postbox,
                        },
                    ),
                    Some(Street { number: postal_address.building_number, name: street_name }),
                    PostalDetails {
                        postcode: postal_address.postcode,
                        town: postal_address.town_name,
                        town_location: postal_address.town_location_name,
                    },
                    country,
                );
                Ok(result)
            },
            IsoAddress::BusinessIsoAddress { business_name, postal_address } => {
                let country = match Country::parse(postal_address.country.as_str()) {
                    Some(c) => c,
                    None => {
                        return Err(
                            AddressConversionError::InvalidFormat(
                                "Matching variant not found".to_owned(),
                            ),
                        );
                    },
                };
                let street_name = match postal_address.street_name {
                    Some(sn) => sn,
                    None => String::new(),
                };
                let result = Address::new(
                    AddressKind::Business,
                    Recipient::Business {
                        company_name: business_name,
                        contact: postal_address.department,
                    },
                    Some(
                        DeliveryPoint {
                            external: postal_address.floor,
                            internal: None,
                            postbox: postal_address.postbox,
                        },
                    ),
                    Some(Street { number: postal_address.building_number, name: street_name }),
                    PostalDetails {
                        postcode: postal_address.postcode,
                        town: postal_address.town_name,
                        town_location: postal_address.town_location_name,
                    },
                    country,
                );
                Ok(result)
            },
        }
    }
}

} // verus!
