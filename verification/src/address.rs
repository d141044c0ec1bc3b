//! The canonical address model that every conversion pivots through, with the
//! spec-level views that the conversion contracts are stated over.

use vstd::prelude::*;

use crate::country::Country;

verus! {

/// The view of an optional string: the character sequence it holds, if any.
pub open spec fn opt_str_view(o: Option<String>) -> Option<Seq<char>> {
    match o {
        Some(s) => Some(s@),
        None => None,
    }
}

/// The type of address: determines which conversion branch applies.
#[derive(Clone, Copy, Debug, PartialEq, Eq, Structural)]
pub enum AddressKind {
    Individual,
    Business,
}

/// The recipient details of an address.
#[derive(Clone, Debug, PartialEq)]
pub enum Recipient {
    /// An individual recipient (M. John Doe, Mirabelle Prune).
    Individual { name: String },
    /// The recipient information of a business: the business denomination
    /// and, optionally, a service name or contact.
    Business { company_name: String, contact: Option<String> },
}

/// The view of a `Recipient`.
pub enum RecipientV {
    Individual { name: Seq<char> },
    Business { company_name: Seq<char>, contact: Option<Seq<char>> },
}

impl View for Recipient {
    type V = RecipientV;

    open spec fn view(&self) -> RecipientV {
        match self {
            Recipient::Individual { name } => RecipientV::Individual { name: name@ },
            Recipient::Business { company_name, contact } => RecipientV::Business {
                company_name: company_name@,
                contact: opt_str_view(*contact),
            },
        }
    }
}

/// The denomination of a recipient: an individual's name, or a business's
/// contact/service line — explicitly not the company name.
pub open spec fn spec_denomination(r: RecipientV) -> Option<Seq<char>> {
    match r {
        RecipientV::Individual { name } => Some(name),
        RecipientV::Business { contact, .. } => contact,
    }
}

impl Recipient {
    /// The display name associated with the recipient: the individual's name,
    /// or the business's contact line (not its company name).
    pub fn denomination(&self) -> (r: Option<String>)
        ensures
            opt_str_view(r) == spec_denomination(self@),
    {
        match self {
            Recipient::Business { contact, .. } => match contact {
                Some(c) => Some(c.clone()),
                None => None,
            },
            Recipient::Individual { name } => Some(name.clone()),
        }
    }
}

/// Extra delivery point information such as the building, the entry or a
/// postbox.
#[derive(Clone, Debug, PartialEq)]
pub struct DeliveryPoint {
    /// The external delivery point (building, entry, ...).
    pub external: Option<String>,
    /// The internal delivery point (apartment, staircase, ...).
    pub internal: Option<String>,
    /// Complementary delivery point information (P.O 123).
    pub postbox: Option<String>,
}

/// The view of a `DeliveryPoint`.
pub struct DeliveryPointV {
    pub external: Option<Seq<char>>,
    pub internal: Option<Seq<char>>,
    pub postbox: Option<Seq<char>>,
}

impl View for DeliveryPoint {
    type V = DeliveryPointV;

    open spec fn view(&self) -> DeliveryPointV {
        DeliveryPointV {
            external: opt_str_view(self.external),
            internal: opt_str_view(self.internal),
            postbox: opt_str_view(self.postbox),
        }
    }
}

/// The view of an optional `DeliveryPoint`.
pub open spec fn opt_delivery_view(o: Option<DeliveryPoint>) -> Option<DeliveryPointV> {
    match o {
        Some(d) => Some(d@),
        None => None,
    }
}

/// The street address information.
#[derive(Clone, Debug, PartialEq)]
pub struct Street {
    /// The street number (2, 2BIS, 2D).
    pub number: Option<String>,
    /// The street name ("LE VILLAGE", "RUE DE L'EGLISE").
    pub name: String,
}

/// The view of a `Street`.
pub struct StreetV {
    pub number: Option<Seq<char>>,
    pub name: Seq<char>,
}

impl View for Street {
    type V = StreetV;

    open spec fn view(&self) -> StreetV {
        StreetV { number: opt_str_view(self.number), name: self.name@ }
    }
}

/// The view of an optional `Street`.
pub open spec fn opt_street_view(o: Option<Street>) -> Option<StreetV> {
    match o {
        Some(s) => Some(s@),
        None => None,
    }
}

/// The postal details: postcode, town and extra location information.
#[derive(Clone, Debug, PartialEq)]
pub struct PostalDetails {
    /// The postcode or zipcode of the postal address (56000).
    pub postcode: String,
    /// The town of the postal address.
    pub town: String,
    /// Complementary town information for distribution.
    pub town_location: Option<String>,
}

/// The view of `PostalDetails`.
pub struct PostalDetailsV {
    pub postcode: Seq<char>,
    pub town: Seq<char>,
    pub town_location: Option<Seq<char>>,
}

impl View for PostalDetails {
    type V = PostalDetailsV;

    open spec fn view(&self) -> PostalDetailsV {
        PostalDetailsV {
            postcode: self.postcode@,
            town: self.town@,
            town_location: opt_str_view(self.town_location),
        }
    }
}

/// The canonical address entity.
#[derive(Clone, Debug, PartialEq)]
pub struct Address {
    /// The unique identifier of the address, assigned at creation as the
    /// 128-bit value of a freshly generated UUID.
    pub id: u128,
    /// Milliseconds since the Unix epoch of the last modification. Both
    /// creation and update dates are tracked with this field.
    pub updated_at: i64,
    /// The type of address. This information is used for specific conversion
    /// rules depending on the type.
    pub kind: AddressKind,
    /// The recipient details, tracked to build back addresses where the
    /// recipient is required.
    pub recipient: Recipient,
    /// Extra delivery point information such as the building, the entry or
    /// a postbox.
    pub delivery_point: Option<DeliveryPoint>,
    /// The street address information.
    pub street: Option<Street>,
    /// The postal details such as the postcode, town and extra location
    /// information.
    pub postal_details: PostalDetails,
    /// The address country.
    pub country: Country,
}

/// The view of an `Address`.
pub struct AddressV {
    pub id: u128,
    pub updated_at: i64,
    pub kind: AddressKind,
    pub recipient: RecipientV,
    pub delivery_point: Option<DeliveryPointV>,
    pub street: Option<StreetV>,
    pub postal_details: PostalDetailsV,
    pub country: Country,
}

impl View for Address {
    type V = AddressV;

    open spec fn view(&self) -> AddressV {
        AddressV {
            id: self.id,
            updated_at: self.updated_at,
            kind: self.kind,
            recipient: self.recipient@,
            delivery_point: opt_delivery_view(self.delivery_point),
            street: opt_street_view(self.street),
            postal_details: self.postal_details@,
            country: self.country,
        }
    }
}

/// The view of an address with the creation-time fields cleared: what a
/// conversion determines, as opposed to the fresh identifier and timestamp
/// it cannot.
pub open spec fn content_view(a: AddressV) -> AddressV {
    AddressV { id: 0, updated_at: 0, ..a }
}

/// Relies on `uuid::Uuid::new_v4` (and `Uuid::as_u128` to read it back): a
/// freshly generated random version-4 identifier as its 128-bit value.
/// Nothing is promised of the value: it is random.
#[verifier::external_body]
fn fresh_address_id() -> u128 {
    uuid::Uuid::new_v4().as_u128()
}

/// Relies on `chrono::Utc::now` (and `DateTime::timestamp_millis` to read it
/// back): the current UTC time as milliseconds since the Unix epoch. Nothing
/// is promised of the value: it depends on the clock.
#[verifier::external_body]
fn current_timestamp_millis() -> i64 {
    chrono::Utc::now().timestamp_millis()
}

impl Address {
    /// Builds a fresh address: a new identifier and a creation timestamp are
    /// drawn, everything else is taken as given.
    pub fn new(
        kind: AddressKind,
        recipient: Recipient,
        delivery_point: Option<DeliveryPoint>,
        street: Option<Street>,
        postal_details: PostalDetails,
        country: Country,
    ) -> (r: Address)
        ensures
            r.kind == kind,
            r.recipient == recipient,
            r.delivery_point == delivery_point,
            r.street == street,
            r.postal_details == postal_details,
            r.country == country,
    {
        let id = fresh_address_id();
        let updated_at = current_timestamp_millis();
        Address { id, updated_at, kind, recipient, delivery_point, street, postal_details, country }
    }
}

} // verus!
