use climate_bot::sources::common::ApiError;
use climate_bot::sources::nominatim::AddressLevel::{
    Continent, Country, County, District, Hamlet, Municipality, Neighbourhood, Other, State,
};
use climate_bot::sources::nominatim::{
    expect_names, place_request, Address, AddressLevel, NominatimError, Place, PlaceName,
};

fn text(s: &str) -> Option<String> {
    Some(String::from(s))
}

fn vienna() -> Place {
    Place {
        id: 42,
        lat: String::from("48.2083537"),
        lon: String::from("16.3725042"),
        category: String::from("boundary"),
        name: PlaceName::new(
            String::from("Wien"),
            vec![
                (String::from("name:en"), String::from("Vienna")),
                (String::from("name:fr"), String::from("Vienne")),
            ],
        ),
        address_type: AddressLevel::Municipality,
        address: Address {
            city: text("Wien"),
            state: text("Wien"),
            country: text("Österreich"),
            country_code: text("at"),
            ..Address::default()
        },
        full_name: String::from("Wien, Österreich"),
        extratags: None,
        place_rank: 16,
        expected_name: None,
    }
}

#[test]
fn level_collects_every_alias_in_order_of_preference() {
    let address = Address {
        city: text("Linz"),
        town: text("Urfahr"),
        village: text("Pöstlingberg"),
        municipality: text("Linz (Stadt)"),
        ..Address::default()
    };
    assert_eq!(
        address.get_address_level(&AddressLevel::Municipality),
        Some(vec![
            String::from("Pöstlingberg"),
            String::from("Urfahr"),
            String::from("Linz (Stadt)"),
            String::from("Linz"),
        ])
    );
}

#[test]
fn district_level_ignores_the_district_field_itself() {
    let address = Address { district: text("Innere Stadt"), ..Address::default() };
    assert_eq!(address.get_address_level(&AddressLevel::District), None);
    let address = Address {
        district: text("Innere Stadt"),
        borough: text("Bezirk 1"),
        suburb: text("Altstadt"),
        ..Address::default()
    };
    assert_eq!(
        address.get_address_level(&AddressLevel::District),
        Some(vec![String::from("Altstadt"), String::from("Bezirk 1")])
    );
}

#[test]
fn every_level_reads_its_own_fields() {
    let address = Address {
        quarter: text("q"),
        hamlet: text("h"),
        state_district: text("sd"),
        province: text("p"),
        country: text("c"),
        continent: text("k"),
        ..Address::default()
    };
    assert_eq!(address.get_address_level(&AddressLevel::Neighbourhood), Some(vec![String::from("q")]));
    assert_eq!(address.get_address_level(&AddressLevel::Hamlet), Some(vec![String::from("h")]));
    assert_eq!(address.get_address_level(&AddressLevel::County), Some(vec![String::from("sd")]));
    assert_eq!(address.get_address_level(&AddressLevel::State), Some(vec![String::from("p")]));
    assert_eq!(address.get_address_level(&AddressLevel::Country), Some(vec![String::from("c")]));
    assert_eq!(address.get_address_level(&AddressLevel::Continent), Some(vec![String::from("k")]));
    assert_eq!(address.get_address_level(&AddressLevel::Municipality), None);
    assert_eq!(address.get_address_level(&AddressLevel::Other(String::from("peak"))), None);
}

#[test]
fn blank_address_has_no_level() {
    let address = Address::default();
    for level in AddressLevel::hierarchy() {
        assert_eq!(address.get_address_level(level), None);
    }
    assert!(address.neighbourhood().is_none());
    assert!(address.district().is_none());
    assert!(address.hamlet().is_none());
    assert!(address.municipality().is_none());
    assert!(address.county().is_none());
    assert!(address.state().is_none());
}

#[test]
fn related_levels_follow_the_table() {
    assert_eq!(Neighbourhood.related_address_levels(), &[Neighbourhood, District, Municipality, State]);
    assert_eq!(District.related_address_levels(), &[District, Municipality, State]);
    assert_eq!(Hamlet.related_address_levels(), &[Hamlet, Municipality, County, State]);
    assert_eq!(Municipality.related_address_levels(), &[Municipality, County, State]);
    assert_eq!(County.related_address_levels(), &[County, State]);
    assert_eq!(State.related_address_levels(), &[State, Country]);
    assert_eq!(Country.related_address_levels(), &[Country, Continent]);
    assert_eq!(Continent.related_address_levels(), &[Continent]);
    assert!(Other(String::from("peak")).related_address_levels().is_empty());
    assert_eq!(
        AddressLevel::hierarchy(),
        &[Neighbourhood, District, Hamlet, Municipality, County, State]
    );
}

#[test]
fn details_list_every_name_from_neighbourhood_to_state() {
    let mut place = vienna();
    place.address.suburb = text("Innere Stadt");
    place.address.town = text("Alt-Wien");
    assert_eq!(place.address_details(), "Innere Stadt, Alt-Wien, Wien, Wien");
}

#[test]
fn details_of_blank_address_are_empty() {
    let mut place = vienna();
    place.address = Address::default();
    assert_eq!(place.address_details(), "");
    assert_eq!(place.address_summary(), "");
}

#[test]
fn summary_takes_the_first_name_of_each_related_level() {
    let mut place = vienna();
    place.address.town = text("Alt-Wien");
    place.address.county = text("Bezirk Wien");
    assert_eq!(place.address_summary(), "Alt-Wien, Bezirk Wien, Wien");
    place.address_type = AddressLevel::State;
    assert_eq!(place.address_summary(), "Wien, Österreich");
    place.address_type = AddressLevel::Other(String::from("peak"));
    assert_eq!(place.address_summary(), "");
}

#[test]
fn country_indicator_is_the_flag() {
    let mut place = vienna();
    assert_eq!(place.country_indicator(), "🇦🇹");
    place.address.country_code = text("US");
    assert_eq!(place.country_indicator(), "🇺🇸");
    place.address.country_code = None;
    assert_eq!(place.country_indicator(), "??");
    place.address.country_code = text("");
    assert_eq!(place.country_indicator(), "");
}

#[test]
fn country_indicator_keeps_characters_that_have_no_symbol() {
    let mut place = vienna();
    place.address.country_code = text("a\u{10FFFF}");
    assert_eq!(place.country_indicator(), "🇦\u{10FFFF}");
    place.address.country_code = text("1");
    assert_eq!(place.country_indicator(), "\u{1F1B6}");
}

#[test]
fn label_is_flag_and_details() {
    let place = vienna();
    assert_eq!(place.label(), "🇦🇹 | Wien, Wien");
}

#[test]
fn label_adds_the_expected_name_where_the_local_name_differs() {
    let mut place = vienna();
    place.expect_name("Vienna");
    assert_eq!(place.label(), "🇦🇹 | Wien (Vienna), Wien");
}

#[test]
fn label_stays_plain_where_the_local_name_holds_the_expected_one() {
    let mut place = vienna();
    place.expect_name("Wien");
    assert_eq!(place.label(), "🇦🇹 | Wien, Wien");
    let mut other = vienna();
    other.expect_name("ie");
    assert_eq!(other.label(), "🇦🇹 | Wien, Wien");
}

#[test]
fn expected_name_is_attached_once() {
    let mut place = vienna();
    assert_eq!(place.expected_name, None);
    place.expect_name("Vienna");
    assert_eq!(place.expected_name.as_deref(), Some("Vienna"));
    place.expect_name("Vienne");
    assert_eq!(place.expected_name.as_deref(), Some("Vienna"));
    assert_eq!(place.id, 42);
    assert_eq!(place.name.local, "Wien");
}

#[test]
fn expected_names_are_attached_to_every_place() {
    let mut places = vec![vienna(), vienna(), vienna()];
    places[1].id = 43;
    places[1].expect_name("Wean");
    expect_names(&mut places, "Vienna");
    assert_eq!(places.len(), 3);
    assert_eq!(places[0].expected_name.as_deref(), Some("Vienna"));
    assert_eq!(places[1].expected_name.as_deref(), Some("Wean"));
    assert_eq!(places[2].expected_name.as_deref(), Some("Vienna"));
    assert_eq!(places[1].id, 43);
}

#[test]
fn info_names_the_place_and_its_coordinates() {
    assert_eq!(vienna().info(), "Wien [lat: 48.2083537, lon: 16.3725042]");
}

#[test]
fn names_are_looked_up_by_language() {
    let name = vienna().name;
    assert_eq!(name.get_lang("en"), Some(&String::from("Vienna")));
    assert_eq!(name.get_lang("fr"), Some(&String::from("Vienne")));
    assert_eq!(name.get_lang("de"), None);
    assert_eq!(name.get_lang(""), None);
    assert_eq!(name.get_lang_or("de", "fr"), Some(&String::from("Vienne")));
    assert_eq!(name.get_lang_or("en", "fr"), Some(&String::from("Vienna")));
    assert_eq!(name.get_lang_or("de", "it"), None);
    assert_eq!(name.get_lang_or_default("de"), Some(&String::from("Vienna")));
    assert_eq!(name.get_lang_or_default("fr"), Some(&String::from("Vienne")));
}

#[test]
fn later_entry_for_a_language_counts() {
    let name = PlaceName::new(
        String::from("Wien"),
        vec![
            (String::from("name:en"), String::from("Wien")),
            (String::from("name:en"), String::from("Vienna")),
        ],
    );
    assert_eq!(name.get_lang("en"), Some(&String::from("Vienna")));
}

#[test]
fn rejection_by_the_geocoder_becomes_a_bad_request() {
    let error = NominatimError { code: 400, message: String::from("Invalid viewbox") };
    match ApiError::from(error) {
        ApiError::BadRequest { reason } => assert_eq!(reason, "Invalid viewbox"),
        other => panic!("unexpected error {:?}", other),
    }
}

#[test]
fn place_search_asks_for_the_city() {
    assert_eq!(
        place_request("Sankt Pölten"),
        vec![(String::from("city"), String::from("Sankt Pölten"))]
    );
}

#[test]
fn label_can_expect_the_name_in_another_language() {
    let place = vienna();
    let english = place.name.get_lang("en").map(String::as_str);
    assert_eq!(place.label_with(english), "🇦🇹 | Wien (Vienna), Wien");
    assert_eq!(place.label_with(None), "🇦🇹 | Wien, Wien");
    assert_eq!(place.label_with(Some("")), "🇦🇹 | Wien, Wien");
    let mut hamlet = vienna();
    hamlet.address = Address { hamlet: text("Ried"), country_code: text("at"), ..Address::default() };
    // the local name stands nowhere in the address, so nothing is put after it
    assert_eq!(hamlet.label_with(Some("Vienna")), "🇦🇹 | Ried");
}
