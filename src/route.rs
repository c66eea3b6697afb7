use vstd::prelude::*;

use crate::error::HttpError;
use crate::ids::{parse_uuid, uuid_parse};

verus! {

/// What a lookup by identifier (or, for route statuses, by code) asks of storage.
#[derive(Debug, Clone, PartialEq, Eq)]
pub enum Lookup {
    ById(u128),
    ByCode(String),
    Skip,
}

/// The rows skipped before page `page` (counted from 1) of pages of `limit` rows.
pub open spec fn offset_of(page: nat, limit: nat) -> int {
    (page - 1) * limit
}

/// The offset for page `page` of pages of `limit` rows, when the page is counted
/// from 1 and the offset fits a signed 64-bit query parameter; `None` otherwise.
pub fn page_offset(page: u32, limit: usize) -> (r: Option<i64>)
    ensures
        r matches Some(o) ==> page >= 1 && o == offset_of(page as nat, limit as nat),
        r is None ==> page == 0 || offset_of(page as nat, limit as nat) > i64::MAX,
{
    if page == 0 {
        return None;
    }
    let pages: u64 = (page - 1) as u64;
    match pages.checked_mul(limit as u64) {
        Some(o) => {
            if o <= i64::MAX as u64 {
                Some(o as i64)
            } else {
                None
            }
        },
        None => None,
    }
}

/// A route is looked up, or deleted, only when an identifier is given.
pub fn route_lookup(route_id: Option<u128>) -> (r: Lookup)
    ensures
        r == (match route_id {
            Some(id) => Lookup::ById(id),
            None => Lookup::Skip,
        }),
{
    match route_id {
        Some(id) => Lookup::ById(id),
        None => Lookup::Skip,
    }
}

/// A route status is looked up by identifier when one is given, else by code
/// when one is given, else not at all.
pub fn route_status_lookup(status_id: Option<u128>, code: Option<String>) -> (r: Lookup)
    ensures
        status_id matches Some(id) ==> r == Lookup::ById(id),
        status_id is None && code is Some ==> (r matches Lookup::ByCode(c) && c@
            == code->0@),
        status_id is None && code is None ==> r == Lookup::Skip,
{
    match status_id {
        Some(id) => Lookup::ById(id),
        None => match code {
            Some(c) => Lookup::ByCode(c),
            None => Lookup::Skip,
        },
    }
}

/// The code stored for a new route status: the given one, or the empty text.
pub fn route_status_code(code: Option<String>) -> (r: String)
    ensures
        r@ == (match code {
            Some(c) => c@,
            None => Seq::<char>::empty(),
        }),
{
    match code {
        Some(c) => c,
        None => String::new(),
    }
}

/// The identifier fields of a new route.
#[derive(Debug, Clone, Copy, PartialEq, Eq)]
pub enum RouteIdField {
    InitialAddressId,
    FinalAddressId,
    VehicleId,
    StatusId,
}

/// The parsed identifiers of a new route.
#[derive(Debug, Clone, Copy, PartialEq, Eq)]
pub struct RouteIds {
    pub initial_address_id: Option<u128>,
    pub final_address_id: Option<u128>,
    pub vehicle_id: u128,
    pub status_id: u128,
}

/// An optional identifier field is fine when absent or when its text parses.
pub open spec fn optional_id_ok(s: Option<Seq<char>>) -> bool {
    match s {
        Some(t) => uuid_parse(t) is Some,
        None => true,
    }
}

/// The parse of an optional identifier field that is fine.
pub open spec fn optional_id(s: Option<Seq<char>>) -> Option<u128> {
    match s {
        Some(t) => uuid_parse(t),
        None => None,
    }
}

/// The text of an optional field, as characters.
pub open spec fn opt_view(s: Option<&str>) -> Option<Seq<char>> {
    match s {
        Some(t) => Some(t@),
        None => None,
    }
}

fn parse_optional_id(s: Option<&str>) -> (r: Result<Option<u128>, ()>)
    ensures
        r is Ok <==> optional_id_ok(opt_view(s)),
        r matches Ok(v) ==> v == optional_id(opt_view(s)),
{
    match s {
        Some(t) => match parse_uuid(t) {
            Some(v) => Ok(Some(v)),
            None => Err(()),
        },
        None => Ok(None),
    }
}

/// Parses the identifier fields of a new route, in the order initial address,
/// final address, vehicle, status; the first that does not parse is reported.
pub fn parse_route_ids(
    initial_address_id: Option<&str>,
    final_address_id: Option<&str>,
    vehicle_id: &str,
    status_id: &str,
) -> (r: Result<RouteIds, RouteIdField>)
    ensures
        r == (if !optional_id_ok(opt_view(initial_address_id)) {
            Err(RouteIdField::InitialAddressId)
        } else if !optional_id_ok(opt_view(final_address_id)) {
            Err(RouteIdField::FinalAddressId)
        } else if uuid_parse(vehicle_id@) is None {
            Err(RouteIdField::VehicleId)
        } else if uuid_parse(status_id@) is None {
            Err(RouteIdField::StatusId)
        } else {
            Ok(
                RouteIds {
                    initial_address_id: optional_id(opt_view(initial_address_id)),
                    final_address_id: optional_id(opt_view(final_address_id)),
                    vehicle_id: uuid_parse(vehicle_id@)->0,
                    status_id: uuid_parse(status_id@)->0,
                },
            )
        }),
{
    let initial = match parse_optional_id(initial_address_id) {
        Ok(v) => v,
        Err(()) => return Err(RouteIdField::InitialAddressId),
    };
    let fin = match parse_optional_id(final_address_id) {
        Ok(v) => v,
        Err(()) => return Err(RouteIdField::FinalAddressId),
    };
    let vehicle = match parse_uuid(vehicle_id) {
        Some(v) => v,
        None => return Err(RouteIdField::VehicleId),
    };
    let status = match parse_uuid(status_id) {
        Some(v) => v,
        None => return Err(RouteIdField::StatusId),
    };
    Ok(RouteIds { initial_address_id: initial, final_address_id: fin, vehicle_id: vehicle, status_id: status })
}

impl RouteIdField {
    /// The message reported when this field does not parse.
    pub open spec fn parse_failure_text(self) -> Seq<char> {
        match self {
            RouteIdField::InitialAddressId => "Failed to parse initial_address_id"@,
            RouteIdField::FinalAddressId => "Failed to parse final_address_id"@,
            RouteIdField::VehicleId => "Failed to parse vehicle_id"@,
            RouteIdField::StatusId => "Failed to parse status_id"@,
        }
    }

    /// An identifier that does not parse is the client's fault: a bad request.
    pub fn into_http_error(self) -> (r: HttpError)
        ensures
            r.status == 400,
            r.message@ == self.parse_failure_text(),
            r.hint@ == "Check the request parameters and try again."@,
    {
        match self {
            RouteIdField::InitialAddressId => HttpError::bad_request("Failed to parse initial_address_id"),
            RouteIdField::FinalAddressId => HttpError::bad_request("Failed to parse final_address_id"),
            RouteIdField::VehicleId => HttpError::bad_request("Failed to parse vehicle_id"),
            RouteIdField::StatusId => HttpError::bad_request("Failed to parse status_id"),
        }
    }
}

} // verus!
