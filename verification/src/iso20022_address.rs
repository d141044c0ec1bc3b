//! The ISO 20022 structured postal-address element set.

use vstd::prelude::*;

use crate::address::opt_str_view;

verus! {

/// An address in the ISO 20022 element set.
#[derive(Clone, Debug, PartialEq)]
pub enum IsoAddress {
    IndividualIsoAddress { name: String, postal_address: IsoPostalAddress },
    BusinessIsoAddress { business_name: String, postal_address: IsoPostalAddress },
}

/// The view of an `IsoAddress`.
pub enum IsoAddressV {
    IndividualIsoAddress { name: Seq<char>, postal_address: IsoPostalAddressV },
    BusinessIsoAddress { business_name: Seq<char>, postal_address: IsoPostalAddressV },
}

impl View for IsoAddress {
    type V = IsoAddressV;

    open spec fn view(&self) -> IsoAddressV {
        match self {
            IsoAddress::IndividualIsoAddress { name, postal_address } => {
                IsoAddressV::IndividualIsoAddress {
                    name: name@,
                    postal_address: postal_address@,
                }
            },
            IsoAddress::BusinessIsoAddress { business_name, postal_address } => {
                IsoAddressV::BusinessIsoAddress {
                    business_name: business_name@,
                    postal_address: postal_address@,
                }
            },
        }
    }
}

/// The ISO 20022 postal-address element set.
#[derive(Clone, Debug, PartialEq)]
pub struct IsoPostalAddress {
    /// <StrtNm>
    pub street_name: Option<String>,
    /// <BldgNb>
    pub building_number: Option<String>,
    /// <Flr>
    pub floor: Option<String>,
    /// <Room>
    pub room: Option<String>,
    /// <PstBx>
    pub postbox: Option<String>,
    /// <Dept>
    pub department: Option<String>,
    /// <PstCd>
    pub postcode: String,
    /// <TwnNm>
    pub town_name: String,
    /// <TwnLctnNm>
    pub town_location_name: Option<String>,
    /// <Ctry>, a two-letter code such as "FR"
    pub country: String,
}

/// The view of an `IsoPostalAddress`.
pub struct IsoPostalAddressV {
    pub street_name: Option<Seq<char>>,
    pub building_number: Option<Seq<char>>,
    pub floor: Option<Seq<char>>,
    pub room: Option<Seq<char>>,
    pub postbox: Option<Seq<char>>,
    pub department: Option<Seq<char>>,
    pub postcode: Seq<char>,
    pub town_name: Seq<char>,
    pub town_location_name: Option<Seq<char>>,
    pub country: Seq<char>,
}

impl View for IsoPostalAddress {
    type V = IsoPostalAddressV;

    open spec fn view(&self) -> IsoPostalAddressV {
        IsoPostalAddressV {
            street_name: opt_str_view(self.street_name),
            building_number: opt_str_view(self.building_number),
            floor: opt_str_view(self.floor),
            room: opt_str_view(self.room),
            postbox: opt_str_view(self.postbox),
            department: opt_str_view(self.department),
            postcode: self.postcode@,
            town_name: self.town_name@,
            town_location_name: opt_str_view(self.town_location_name),
            country: self.country@,
        }
    }
}

} // verus!
