use address_converter::address::{Address, AddressKind, DeliveryPoint, PostalDetails, Recipient,
    Street};
use address_converter::address_conversion::{AddressConversionError, AddressConvertible};
use address_converter::country::Country;
use address_converter::french_address::{BusinessFrenchAddress, FrenchAddress,
    IndividualFrenchAddress};
use address_converter::iso20022_address::{IsoAddress, IsoPostalAddress};

fn full_individual() -> Address {
    Address {
        id: 7,
        updated_at: 0,
        kind: AddressKind::Individual,
        recipient: Recipient::Individual { name: "Monsieur Jean DELHOURME".to_string() },
        delivery_point: Some(DeliveryPoint {
            internal: Some("Chez Mireille COPEAU Appartement 2".to_string()),
            external: Some("Entrée A Bâtiment Jonquille".to_string()),
            postbox: Some("CAUDOS".to_string()),
        }),
        street: Some(Street {
            number: Some("25".to_string()),
            name: "RUE DE L'EGLISE".to_string(),
        }),
        postal_details: PostalDetails {
            postcode: "33380".to_string(),
            town: "MIOS".to_string(),
            town_location: None,
        },
        country: Country::France,
    }
}

#[test]
fn it_should_parse_country() {
    assert_eq!(Country::parse("france"), Some(Country::France));
    assert_eq!(Country::parse("FRANCE"), Some(Country::France));
    assert_eq!(Country::parse("fr"), Some(Country::France));
    assert_eq!(Country::parse("FR"), Some(Country::France));
    assert_eq!(Country::France.name(), "FRANCE");
    assert_eq!(Country::France.iso_code(), "FR");
}

#[test]
fn country_rejects_unknown_text() {
    assert_eq!(Country::parse("GERMANY"), None);
    assert_eq!(Country::parse(""), None);
    assert_eq!(Country::parse("FRANC"), None);
    assert_eq!(Country::parse("FRANCE "), None);
}

#[test]
fn full_individual_to_french() {
    let address = full_individual();

    let expected = FrenchAddress::Individual(IndividualFrenchAddress {
        name: "Monsieur Jean DELHOURME".to_string(),
        internal_delivery: Some("Chez Mireille COPEAU Appartement 2".to_string()),
        external_delivery: Some("Entrée A Bâtiment Jonquille".to_string()),
        street: Some("25 RUE DE L'EGLISE".to_string()),
        distribution_info: Some("CAUDOS".to_string()),
        postal: "33380 MIOS".to_string(),
        country: "FRANCE".to_string(),
    });

    assert!(address.to_french().is_ok());
    assert_eq!(address.to_french().unwrap(), expected);
}

#[test]
fn full_individual_to_iso20022() {
    let address = full_individual();

    let expected = IsoAddress::IndividualIsoAddress {
        name: "Monsieur Jean DELHOURME".to_string(),
        postal_address: IsoPostalAddress {
            street_name: Some("RUE DE L'EGLISE".to_string()),
            building_number: Some("25".to_string()),
            floor: Some("Entrée A Bâtiment Jonquille".to_string()),
            room: Some("Chez Mireille COPEAU Appartement 2".to_string()),
            postbox: Some("CAUDOS".to_string()),
            department: None,
            postcode: "33380".to_string(),
            town_name: "MIOS".to_string(),
            town_location_name: None,
            country: "FR".to_string(),
        },
    };

    assert!(address.to_iso20022().is_ok());
    assert_eq!(address.to_iso20022().unwrap(), expected);
}

fn minimal_individual() -> Address {
    Address {
        id: 8,
        updated_at: 0,
        kind: AddressKind::Individual,
        recipient: Recipient::Individual { name: "Madame Isabelle RICHARD".to_string() },
        delivery_point: Some(DeliveryPoint {
            internal: None,
            external: Some("VILLA BEAU SOLEIL".to_string()),
            postbox: None,
        }),
        street: Some(Street { number: None, name: "LE VILLAGE".to_string() }),
        postal_details: PostalDetails {
            postcode: "82500".to_string(),
            town: "AUTERIVE".to_string(),
            town_location: None,
        },
        country: Country::France,
    }
}

#[test]
fn minimal_individual_to_french() {
    let address = minimal_individual();

    let expected = FrenchAddress::Individual(IndividualFrenchAddress {
        name: "Madame Isabelle RICHARD".to_string(),
        internal_delivery: None,
        external_delivery: Some("VILLA BEAU SOLEIL".to_string()),
        street: Some("LE VILLAGE".to_string()),
        distribution_info: None,
        postal: "82500 AUTERIVE".to_string(),
        country: "FRANCE".to_string(),
    });

    assert!(address.to_french().is_ok());
    assert_eq!(address.to_french().unwrap(), expected);
}

#[test]
fn minimal_individual_to_iso20022() {
    let address = minimal_individual();

    let expected = IsoAddress::IndividualIsoAddress {
        name: "Madame Isabelle RICHARD".to_string(),
        postal_address: IsoPostalAddress {
            street_name: Some("LE VILLAGE".to_string()),
            building_number: None,
            floor: Some("VILLA BEAU SOLEIL".to_string()),
            room: None,
            postbox: None,
            department: None,
            postcode: "82500".to_string(),
            town_name: "AUTERIVE".to_string(),
            town_location_name: None,
            country: "FR".to_string(),
        },
    };

    assert!(address.to_iso20022().is_ok());
    assert_eq!(address.to_iso20022().unwrap(), expected);
}

fn full_business() -> Address {
    Address {
        id: 9,
        updated_at: 0,
        kind: AddressKind::Business,
        recipient: Recipient::Business {
            company_name: "Société DUPONT".to_string(),
            contact: Some("Mademoiselle Lucie MARTIN".to_string()),
        },
        delivery_point: Some(DeliveryPoint {
            internal: None,
            external: Some("Résidence des Capucins Bâtiment Quater".to_string()),
            postbox: Some("BP 90432".to_string()),
        }),
        street: Some(Street {
            number: Some("56".to_string()),
            name: "RUE EMILE ZOLA".to_string(),
        }),
        postal_details: PostalDetails {
            postcode: "34092".to_string(),
            town: "MONTPELLIER CEDEX 5".to_string(),
            town_location: Some("MONTFERRIER SUR LEZ".to_string()),
        },
        country: Country::France,
    }
}

#[test]
fn business_to_french() {
    let address = full_business();

    let expected = FrenchAddress::Business(BusinessFrenchAddress {
        business_name: "Société DUPONT".to_string(),
        recipient: Some("Mademoiselle Lucie MARTIN".to_string()),
        external_delivery: Some("Résidence des Capucins Bâtiment Quater".to_string()),
        street: "56 RUE EMILE ZOLA".to_string(),
        distribution_info: Some("BP 90432 MONTFERRIER SUR LEZ".to_string()),
        postal: "34092 MONTPELLIER CEDEX 5".to_string(),
        country: "FRANCE".to_string(),
    });

    assert!(address.to_french().is_ok());
    assert_eq!(address.to_french().unwrap(), expected);
}

#[test]
fn business_to_iso20022() {
    let address = full_business();

    let expected = IsoAddress::BusinessIsoAddress {
        business_name: "Société DUPONT".to_string(),
        postal_address: IsoPostalAddress {
            street_name: Some("RUE EMILE ZOLA".to_string()),
            building_number: Some("56".to_string()),
            floor: Some("Résidence des Capucins Bâtiment Quater".to_string()),
            room: None,
            postbox: Some("BP 90432".to_string()),
            department: Some("Mademoiselle Lucie MARTIN".to_string()),
            postcode: "34092".to_string(),
            town_name: "MONTPELLIER CEDEX 5".to_string(),
            town_location_name: Some("MONTFERRIER SUR LEZ".to_string()),
            country: "FR".to_string(),
        },
    };

    assert!(address.to_iso20022().is_ok());
    assert_eq!(address.to_iso20022().unwrap(), expected);
}

#[test]
fn town_location_renders_without_a_delivery_point() {
    // The distribution-info line merges the postbox and the town location;
    // a town location alone renders even when no delivery point exists.
    let mut address = minimal_individual();
    address.delivery_point = None;
    address.postal_details.town_location = Some("CAUDOS".to_string());
    match address.to_french().unwrap() {
        FrenchAddress::Individual(i) => {
            assert_eq!(i.distribution_info, Some("CAUDOS".to_string()));
            assert_eq!(i.internal_delivery, None);
            assert_eq!(i.external_delivery, None);
        }
        _ => panic!("expected an individual french address"),
    }

    let mut address = full_business();
    address.delivery_point = None;
    match address.to_french().unwrap() {
        FrenchAddress::Business(b) => {
            assert_eq!(b.distribution_info, Some("MONTFERRIER SUR LEZ".to_string()));
            assert_eq!(b.external_delivery, None);
        }
        _ => panic!("expected a business french address"),
    }
}

#[test]
fn town_location_renders_without_a_postbox() {
    let mut address = full_business();
    address.delivery_point = Some(DeliveryPoint {
        internal: None,
        external: None,
        postbox: None,
    });
    match address.to_french().unwrap() {
        FrenchAddress::Business(b) => {
            assert_eq!(b.distribution_info, Some("MONTFERRIER SUR LEZ".to_string()));
        }
        _ => panic!("expected a business french address"),
    }
}

#[test]
fn business_without_street_to_french_fails() {
    let mut address = full_business();
    address.street = None;
    let result = address.to_french();
    assert!(matches!(result, Err(AddressConversionError::MissingField(_))));
}

#[test]
fn business_with_empty_company_name_fails_both_ways() {
    let mut address = full_business();
    address.recipient = Recipient::Business { company_name: String::new(), contact: None };
    assert!(matches!(
        address.to_french(),
        Err(AddressConversionError::MissingField(f)) if f == "company_name"
    ));
    assert!(matches!(
        address.to_iso20022(),
        Err(AddressConversionError::MissingField(f)) if f == "company_name"
    ));
}

#[test]
fn individual_with_empty_name_fails_both_ways() {
    let mut address = full_individual();
    address.recipient = Recipient::Individual { name: String::new() };
    assert!(matches!(
        address.to_french(),
        Err(AddressConversionError::MissingField(f)) if f == "name"
    ));
    assert!(matches!(
        address.to_iso20022(),
        Err(AddressConversionError::MissingField(f)) if f == "name"
    ));
}

#[test]
fn business_contact_feeds_recipient_and_department_not_company_name() {
    let mut address = full_business();
    address.recipient = Recipient::Business {
        company_name: "DURAND SA".to_string(),
        contact: None,
    };
    let french = address.to_french().unwrap();
    match french {
        FrenchAddress::Business(b) => {
            assert_eq!(b.business_name, "DURAND SA");
            assert_eq!(b.recipient, None);
        }
        _ => panic!("expected a business french address"),
    }
    let iso = address.to_iso20022().unwrap();
    match iso {
        IsoAddress::BusinessIsoAddress { business_name, postal_address } => {
            assert_eq!(business_name, "DURAND SA");
            assert_eq!(postal_address.department, None);
        }
        _ => panic!("expected a business iso address"),
    }
}

#[test]
fn individual_french_to_iso() {
    let input = FrenchAddress::Individual(IndividualFrenchAddress {
        name: "Monsieur Jean DELHOURME".to_string(),
        internal_delivery: Some("Chez Mireille COPEAU Appartement 2".to_string()),
        external_delivery: Some("Entrée A Bâtiment Jonquille".to_string()),
        street: Some("25 RUE DE L'EGLISE".to_string()),
        distribution_info: Some("CAUDOS".to_string()),
        postal: "33380 MIOS".to_string(),
        country: "FRANCE".to_string(),
    });
    let expected = IsoAddress::IndividualIsoAddress {
        name: "Monsieur Jean DELHOURME".to_string(),
        postal_address: IsoPostalAddress {
            street_name: Some("RUE DE L'EGLISE".to_string()),
            building_number: Some("25".to_string()),
            floor: Some("Entrée A Bâtiment Jonquille".to_string()),
            room: Some("Chez Mireille COPEAU Appartement 2".to_string()),
            postbox: Some("CAUDOS".to_string()),
            department: None,
            postcode: "33380".to_string(),
            town_name: "MIOS".to_string(),
            town_location_name: None,
            country: "FR".to_string(),
        },
    };
    let address = Address::from_french(input).unwrap();
    let result = address.to_iso20022();
    assert!(result.is_ok(), "result was {result:#?}");
    assert_eq!(result.unwrap(), expected);
}

#[test]
fn individual_iso_to_french() {
    let input = IsoAddress::IndividualIsoAddress {
        name: "Monsieur Jean DELHOURME".to_string(),
        postal_address: IsoPostalAddress {
            street_name: Some("RUE DE L'EGLISE".to_string()),
            building_number: Some("25".to_string()),
            floor: None,
            room: Some("Chez Mireille COPEAU Appartement 2".to_string()),
            postbox: Some("CAUDOS".to_string()),
            department: None,
            postcode: "33380".to_string(),
            town_name: "MIOS".to_string(),
            town_location_name: None,
            country: "FR".to_string(),
        },
    };
    let expected = FrenchAddress::Individual(IndividualFrenchAddress {
        name: "Monsieur Jean DELHOURME".to_string(),
        internal_delivery: Some("Chez Mireille COPEAU Appartement 2".to_string()),
        external_delivery: None,
        street: Some("25 RUE DE L'EGLISE".to_string()),
        distribution_info: Some("CAUDOS".to_string()),
        postal: "33380 MIOS".to_string(),
        country: "FRANCE".to_string(),
    });
    let address = Address::from_iso20022(input).unwrap();
    let result = address.to_french();
    assert!(result.is_ok(), "result was {result:#?}");
    assert_eq!(result.unwrap(), expected);
}

#[test]
fn business_french_to_iso() {
    let input = FrenchAddress::Business(BusinessFrenchAddress {
        business_name: "Société DUPONT".to_string(),
        recipient: Some("Mademoiselle Lucie MARTIN".to_string()),
        external_delivery: Some("Résidence des Capucins Bâtiment Quater".to_string()),
        street: "56 RUE EMILE ZOLA".to_string(),
        distribution_info: Some("BP 90432 MONTFERRIER SUR LEZ".to_string()),
        postal: "34092 MONTPELLIER CEDEX 5".to_string(),
        country: "FRANCE".to_string(),
    });
    let expected = IsoAddress::BusinessIsoAddress {
        business_name: "Société DUPONT".to_string(),
        postal_address: IsoPostalAddress {
            street_name: Some("RUE EMILE ZOLA".to_string()),
            building_number: Some("56".to_string()),
            floor: Some("Résidence des Capucins Bâtiment Quater".to_string()),
            room: None,
            postbox: Some("BP 90432".to_string()),
            department: Some("Mademoiselle Lucie MARTIN".to_string()),
            postcode: "34092".to_string(),
            town_name: "MONTPELLIER CEDEX 5".to_string(),
            town_location_name: Some("MONTFERRIER SUR LEZ".to_string()),
            country: "FR".to_string(),
        },
    };
    let address = Address::from_french(input).unwrap();
    let result = address.to_iso20022();
    assert!(result.is_ok(), "result was {result:#?}");
    assert_eq!(result.unwrap(), expected);
}

#[test]
fn business_iso_to_french() {
    let input = IsoAddress::BusinessIsoAddress {
        business_name: "Société DUPONT".to_string(),
        postal_address: IsoPostalAddress {
            street_name: Some("RUE EMILE ZOLA".to_string()),
            building_number: Some("56".to_string()),
            floor: None,
            room: None,
            postbox: Some("BP 90432".to_string()),
            department: Some("Mademoiselle Lucie MARTIN".to_string()),
            postcode: "34092".to_string(),
            town_name: "MONTPELLIER CEDEX 5".to_string(),
            town_location_name: Some("MONTFERRIER SUR LEZ".to_string()),
            country: "FR".to_string(),
        },
    };
    let expected = FrenchAddress::Business(BusinessFrenchAddress {
        business_name: "Société DUPONT".to_string(),
        recipient: Some("Mademoiselle Lucie MARTIN".to_string()),
        external_delivery: None,
        street: "56 RUE EMILE ZOLA".to_string(),
        distribution_info: Some("BP 90432 MONTFERRIER SUR LEZ".to_string()),
        postal: "34092 MONTPELLIER CEDEX 5".to_string(),
        country: "FRANCE".to_string(),
    });
    let address = Address::from_iso20022(input).unwrap();
    let result = address.to_french();
    assert!(result.is_ok(), "result was {result:#?}");
    assert_eq!(result.unwrap(), expected);
}

#[test]
fn from_french_rejects_malformed_postal_line() {
    let input = FrenchAddress::Individual(IndividualFrenchAddress {
        name: "Monsieur Jean DELHOURME".to_string(),
        internal_delivery: None,
        external_delivery: None,
        street: Some("25 RUE DE L'EGLISE".to_string()),
        distribution_info: None,
        postal: "Monsieur Jean DELHOURME, 25 RUE DE L'EGLISE, 33380 MIOS, FRANCE".to_string(),
        country: "FRANCE".to_string(),
    });
    let result = Address::from_french(input);
    assert!(
        matches!(result, Err(AddressConversionError::InvalidFormat(_))),
        "Result was: {result:#?}"
    );
}

#[test]
fn from_french_rejects_unknown_country() {
    let input = FrenchAddress::Individual(IndividualFrenchAddress {
        name: "Monsieur Jean DELHOURME".to_string(),
        internal_delivery: None,
        external_delivery: None,
        street: Some("25 RUE DE L'EGLISE".to_string()),
        distribution_info: None,
        postal: "33380 MIOS".to_string(),
        country: "NARNIA".to_string(),
    });
    let result = Address::from_french(input);
    assert!(matches!(
        result,
        Err(AddressConversionError::InvalidFormat(m)) if m == "Matching variant not found"
    ));
}

#[test]
fn from_french_individual_without_delivery_lines_keeps_no_delivery_point() {
    let input = FrenchAddress::Individual(IndividualFrenchAddress {
        name: "Monsieur Jean DELHOURME".to_string(),
        internal_delivery: None,
        external_delivery: None,
        street: None,
        distribution_info: None,
        postal: "33380 MIOS".to_string(),
        country: "fr".to_string(),
    });
    let address = Address::from_french(input).unwrap();
    assert_eq!(address.delivery_point, None);
    assert_eq!(address.street, None);
    assert_eq!(address.kind, AddressKind::Individual);
    assert_eq!(address.postal_details.postcode, "33380");
    assert_eq!(address.postal_details.town, "MIOS");
    assert_eq!(address.country, Country::France);
}

#[test]
fn from_french_business_splits_distribution_info() {
    let input = FrenchAddress::Business(BusinessFrenchAddress {
        business_name: "Société DUPONT".to_string(),
        recipient: None,
        external_delivery: None,
        street: "56 RUE EMILE ZOLA".to_string(),
        distribution_info: Some("BP 90432 MONTFERRIER SUR LEZ".to_string()),
        postal: "34092 MONTPELLIER CEDEX 5".to_string(),
        country: "FRANCE".to_string(),
    });
    let address = Address::from_french(input).unwrap();
    let delivery = address.delivery_point.unwrap();
    assert_eq!(delivery.postbox, Some("BP 90432".to_string()));
    assert_eq!(delivery.internal, None);
    assert_eq!(
        address.postal_details.town_location,
        Some("MONTFERRIER SUR LEZ".to_string())
    );
}

#[test]
fn from_french_business_rejects_empty_distribution_info() {
    let input = FrenchAddress::Business(BusinessFrenchAddress {
        business_name: "Société DUPONT".to_string(),
        recipient: None,
        external_delivery: None,
        street: "56 RUE EMILE ZOLA".to_string(),
        distribution_info: Some(String::new()),
        postal: "34092 MONTPELLIER CEDEX 5".to_string(),
        country: "FRANCE".to_string(),
    });
    let result = Address::from_french(input);
    assert!(matches!(
        result,
        Err(AddressConversionError::InvalidFormat(m))
            if m == "Distribution info cannot be empty if provided"
    ));
}

#[test]
fn from_iso20022_individual_requires_street_name() {
    let input = IsoAddress::IndividualIsoAddress {
        name: "Monsieur Jean DELHOURME".to_string(),
        postal_address: IsoPostalAddress {
            street_name: None,
            building_number: Some("25".to_string()),
            floor: None,
            room: None,
            postbox: None,
            department: None,
            postcode: "33380".to_string(),
            town_name: "MIOS".to_string(),
            town_location_name: None,
            country: "FR".to_string(),
        },
    };
    let result = Address::from_iso20022(input);
    assert!(matches!(
        result,
        Err(AddressConversionError::MissingField(f)) if f == "street_name"
    ));
}

#[test]
fn from_iso20022_business_defaults_missing_street_name() {
    let input = IsoAddress::BusinessIsoAddress {
        business_name: "Société DUPONT".to_string(),
        postal_address: IsoPostalAddress {
            street_name: None,
            building_number: None,
            floor: None,
            room: None,
            postbox: None,
            department: None,
            postcode: "34092".to_string(),
            town_name: "MONTPELLIER CEDEX 5".to_string(),
            town_location_name: None,
            country: "FR".to_string(),
        },
    };
    let address = Address::from_iso20022(input).unwrap();
    assert_eq!(address.street, Some(Street { number: None, name: String::new() }));
}

#[test]
fn from_iso20022_rejects_unknown_country_code() {
    let input = IsoAddress::BusinessIsoAddress {
        business_name: "Société DUPONT".to_string(),
        postal_address: IsoPostalAddress {
            street_name: Some("RUE EMILE ZOLA".to_string()),
            building_number: None,
            floor: None,
            room: None,
            postbox: None,
            department: None,
            postcode: "34092".to_string(),
            town_name: "MONTPELLIER CEDEX 5".to_string(),
            town_location_name: None,
            country: "DE".to_string(),
        },
    };
    let result = Address::from_iso20022(input);
    assert!(matches!(result, Err(AddressConversionError::InvalidFormat(_))));
}

#[test]
fn french_round_trip_preserves_non_lossy_fields() {
    let address = minimal_individual();
    let french = address.to_french().unwrap();
    let back = Address::from_french(french).unwrap();
    assert_eq!(back.recipient, address.recipient);
    assert_eq!(back.postal_details.postcode, address.postal_details.postcode);
    assert_eq!(back.postal_details.town, address.postal_details.town);
    assert_eq!(back.country, address.country);
    assert_eq!(back.kind, address.kind);
}

#[test]
fn french_round_trip_merged_distribution_info_is_lossy() {
    // A postbox and a town location merge into one line; reading the line
    // back, the whole merged text also counts as a town-location fragment,
    // so the original pair is not recovered exactly.
    let address = full_business();
    let french = address.to_french().unwrap();
    let back = Address::from_french(french).unwrap();
    assert_eq!(
        back.delivery_point.as_ref().unwrap().postbox,
        Some("BP 90432".to_string())
    );
    assert_eq!(
        back.postal_details.town_location,
        Some("MONTFERRIER SUR LEZ".to_string())
    );
    // The same merged line with the postbox alone does not invert: the token
    // itself reads back as a town location too.
    let mut lone_postbox = full_business();
    lone_postbox.postal_details.town_location = None;
    let french = lone_postbox.to_french().unwrap();
    let back = Address::from_french(french).unwrap();
    assert_eq!(back.postal_details.town_location, Some("BP 90432".to_string()));
}
