use geo_errors::city::{City, CityField, CityListResponseDTO, FilterCityDTO, RegisterCityDTO};
use geo_errors::route::{
    page_offset, parse_route_ids, route_lookup, route_status_code, route_status_lookup, Lookup,
    RouteIdField,
};

const STATE: &str = "550e8400-e29b-41d4-a716-446655440000";
const CITY: &str = "67e55044-10b1-426f-9247-bb680e5fe0c8";

#[test]
fn list_routes_page_two_offset() {
    assert_eq!(page_offset(2, 10), Some(10));
}

#[test]
fn page_offset_edges() {
    assert_eq!(page_offset(1, 10), Some(0));
    assert_eq!(page_offset(0, 10), None);
    assert_eq!(page_offset(u32::MAX, 0), Some(0));
    assert_eq!(page_offset(3, usize::MAX), None);
}

#[test]
fn lookups_without_identifier_skip_storage() {
    assert_eq!(route_lookup(None), Lookup::Skip);
    assert_eq!(route_status_lookup(None, None), Lookup::Skip);
}

#[test]
fn lookups_prefer_identifier() {
    assert_eq!(route_lookup(Some(5)), Lookup::ById(5));
    assert_eq!(route_status_lookup(Some(9), Some("ACTIVE".to_string())), Lookup::ById(9));
    assert_eq!(
        route_status_lookup(None, Some("ACTIVE".to_string())),
        Lookup::ByCode("ACTIVE".to_string())
    );
}

#[test]
fn route_status_code_defaults_to_empty() {
    assert_eq!(route_status_code(None), "");
    assert_eq!(route_status_code(Some("DONE".to_string())), "DONE");
}

#[test]
fn route_ids_parse_and_report_first_failure() {
    let ok = parse_route_ids(Some(STATE), None, CITY, STATE).unwrap();
    assert_eq!(ok.initial_address_id, Some(0x550e8400e29b41d4a716446655440000));
    assert_eq!(ok.final_address_id, None);
    assert_eq!(ok.vehicle_id, 0x67e5504410b1426f9247bb680e5fe0c8);
    assert_eq!(parse_route_ids(Some("x"), Some("y"), "z", "w"), Err(RouteIdField::InitialAddressId));
    assert_eq!(parse_route_ids(None, Some("y"), CITY, STATE), Err(RouteIdField::FinalAddressId));
    assert_eq!(parse_route_ids(None, None, "nope", STATE), Err(RouteIdField::VehicleId));
    assert_eq!(parse_route_ids(None, None, CITY, "nope"), Err(RouteIdField::StatusId));
}

#[test]
fn unparsable_identifier_is_a_bad_request() {
    let e = RouteIdField::VehicleId.into_http_error();
    assert_eq!(e.status, 400);
    assert_eq!(e.message, "Failed to parse vehicle_id");
}

fn city() -> City {
    City {
        id: 0x67e5504410b1426f9247bb680e5fe0c8,
        name: "Lisbon".to_string(),
        code: "LIS0001".to_string(),
        state_id: 0x550e8400e29b41d4a716446655440000,
    }
}

#[test]
fn filter_city_writes_identifiers_as_text() {
    let v = FilterCityDTO::filter_city(&city());
    assert_eq!(v.id, CITY);
    assert_eq!(v.state_id, STATE);
    assert_eq!(v.name, "Lisbon");
    assert_eq!(v.code, "LIS0001");
}

#[test]
fn filter_cities_keeps_order() {
    let mut second = city();
    second.name = "Porto".to_string();
    let views = FilterCityDTO::filter_cities(&[city(), second]);
    assert_eq!(views.len(), 2);
    assert_eq!(views[0].name, "Lisbon");
    assert_eq!(views[1].name, "Porto");
    assert!(FilterCityDTO::filter_cities(&[]).is_empty());
    let list = CityListResponseDTO::from_cities(&[city()]);
    assert_eq!(list.results, 1);
}

#[test]
fn register_city_validation() {
    let good = RegisterCityDTO {
        name: "Lisbon".to_string(),
        code: "LIS0001".to_string(),
        state_id: STATE.to_string(),
    };
    assert_eq!(good.validate(), Ok(()));
    let bad = RegisterCityDTO {
        name: String::new(),
        code: "LIS".to_string(),
        state_id: "not-an-id".to_string(),
    };
    assert_eq!(
        bad.validate(),
        Err(vec![CityField::Name, CityField::Code, CityField::StateId])
    );
    let long = RegisterCityDTO { name: "é".repeat(100), ..good.clone() };
    assert_eq!(long.validate(), Ok(()));
    let too_long = RegisterCityDTO { name: "a".repeat(101), ..good };
    assert_eq!(too_long.validate(), Err(vec![CityField::Name]));
    assert_eq!(CityField::Code.message(), "Code must be 7 characters long");
}
