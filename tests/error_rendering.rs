use geo_errors::error::{status_code_text, ErrorMessage, HttpError, ResponseKind};

const ALL: [ErrorMessage; 9] = [
    ErrorMessage::ServerError,
    ErrorMessage::CountryExist,
    ErrorMessage::CountryNotFound,
    ErrorMessage::StateExist,
    ErrorMessage::StateNotFound,
    ErrorMessage::CityExist,
    ErrorMessage::CityNotFound,
    ErrorMessage::AddressExist,
    ErrorMessage::AddressNotFound,
];

#[test]
fn messages_and_hints_are_non_empty_and_distinct() {
    for (i, a) in ALL.iter().enumerate() {
        assert!(!a.to_str().is_empty());
        assert!(!a.hint().is_empty());
        for b in ALL.iter().skip(i + 1) {
            assert_ne!(a.to_str(), b.to_str());
            assert_ne!(a.hint(), b.hint());
        }
    }
}

#[test]
fn statuses_from_error_messages() {
    assert_eq!(HttpError::from_error_message(ErrorMessage::ServerError).status, 500);
    for m in [
        ErrorMessage::CountryExist,
        ErrorMessage::StateExist,
        ErrorMessage::CityExist,
        ErrorMessage::AddressExist,
    ] {
        assert_eq!(HttpError::from_error_message(m).status, 409);
    }
    for m in [
        ErrorMessage::CountryNotFound,
        ErrorMessage::StateNotFound,
        ErrorMessage::CityNotFound,
        ErrorMessage::AddressNotFound,
    ] {
        assert_eq!(HttpError::from_error_message(m).status, 404);
    }
}

#[test]
fn from_error_message_copies_text() {
    let e = HttpError::from_error_message(ErrorMessage::StateExist);
    assert_eq!(e.message, "There is already a state with the provided code and countryId");
    assert_eq!(
        e.hint,
        "Verify the state code and country ID are unique and do not already exist."
    );
}

#[test]
fn constructors_set_status_and_hint() {
    let s = HttpError::server_error("db down");
    assert_eq!(s.status, 500);
    assert_eq!(s.message, "db down");
    assert_eq!(s.hint, ErrorMessage::ServerError.hint());
    let b = HttpError::bad_request("bad page");
    assert_eq!(b.status, 400);
    assert_eq!(b.hint, "Check the request parameters and try again.");
    let c = HttpError::unique_constraint_violation("dup");
    assert_eq!(c.status, 409);
    assert_eq!(c.hint, "Ensure the data you are trying to add is unique.");
}

fn with_status(status: u16) -> HttpError {
    HttpError { status, message: "m".to_string(), hint: "h".to_string() }
}

#[test]
fn classification_by_status() {
    for s in [400u16, 409] {
        assert_eq!(with_status(s).into_response().body.error.status, "fail");
    }
    for s in [401u16, 404, 500] {
        assert_eq!(with_status(s).into_response().body.error.status, "error");
    }
    assert_eq!(with_status(400).into_response().kind, ResponseKind::BadRequest);
    assert_eq!(with_status(401).into_response().kind, ResponseKind::Unauthorized);
    assert_eq!(with_status(404).into_response().kind, ResponseKind::NotFound);
    assert_eq!(with_status(409).into_response().kind, ResponseKind::Conflict);
    assert_eq!(with_status(500).into_response().kind, ResponseKind::InternalServerError);
    assert_eq!(with_status(401).into_response().body.error.code, "401");
}

#[test]
fn rendering_twice_gives_identical_envelopes() {
    let e = HttpError::from_error_message(ErrorMessage::AddressNotFound);
    let a = e.render();
    let b = e.clone().into_response();
    assert_eq!(a.kind, b.kind);
    assert_eq!(a.body.error.status, b.body.error.status);
    assert_eq!(a.body.error.code, b.body.error.code);
    assert_eq!(a.body.error.message, b.body.error.message);
    assert_eq!(a.body.error.hint, b.body.error.hint);
}

#[test]
fn unmapped_status_falls_back_to_server_error() {
    let e = HttpError { status: 418, message: "teapot".to_string(), hint: "brew".to_string() };
    let r = e.into_response();
    assert_eq!(r.kind, ResponseKind::InternalServerError);
    assert_eq!(r.coerced_from, Some(418));
    assert_eq!(r.body.error.status, "error");
    assert_eq!(r.body.error.code, "500");
    assert_eq!(r.body.error.message, "Server Error. Please try again later");
    assert_eq!(
        r.body.error.hint,
        "Check server logs for more details and ensure the server is running correctly."
    );
}

#[test]
fn mapped_status_is_not_coerced() {
    assert_eq!(with_status(404).into_response().coerced_from, None);
}

#[test]
fn city_not_found_renders_full_envelope() {
    let r = HttpError::from_error_message(ErrorMessage::CityNotFound).into_response();
    assert_eq!(r.kind, ResponseKind::NotFound);
    assert_eq!(r.body.error.status, "error");
    assert_eq!(r.body.error.code, "404");
    assert_eq!(
        r.body.error.message,
        "The city with the provided ID does not exist in our records"
    );
    assert_eq!(
        r.body.error.hint,
        "Ensure the city ID is correct and exists in the database. Use the 'GET /api/v1/cities' endpoint to retrieve available city IDs."
    );
}

#[test]
fn unique_constraint_violation_renders_conflict() {
    let r = HttpError::unique_constraint_violation("dup code").into_response();
    assert_eq!(r.kind, ResponseKind::Conflict);
    assert_eq!(r.body.error.status, "fail");
    assert_eq!(r.body.error.code, "409");
    assert_eq!(r.body.error.message, "dup code");
}

#[test]
fn status_codes_in_decimal() {
    assert_eq!(status_code_text(0), "0");
    assert_eq!(status_code_text(7), "7");
    assert_eq!(status_code_text(404), "404");
    assert_eq!(status_code_text(65535), "65535");
}

#[test]
fn display_text_names_message_and_status() {
    let e = HttpError::bad_request("bad page");
    assert_eq!(e.to_display_string(), "HttpError: message: bad page, status: 400");
}
