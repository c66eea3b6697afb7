use vstd::prelude::*;

use crate::ids::{format_uuid, parse_uuid, uuid_parse, uuid_text};

verus! {

/// A stored city: its identifier and the identifier of its state as 128-bit values.
#[derive(Debug, Clone)]
pub struct City {
    pub id: u128,
    pub name: String,
    pub code: String,
    pub state_id: u128,
}

/// The input for registering a city.
#[derive(Debug, Clone, Default)]
pub struct RegisterCityDTO {
    pub name: String,
    pub code: String,
    pub state_id: String,
}

/// A field of `RegisterCityDTO` that failed its rule.
#[derive(Debug, Clone, Copy, PartialEq, Eq, Structural)]
pub enum CityField {
    Name,
    Code,
    StateId,
}

/// Relies on validator's `ValidateLength` for `String`: the number of characters
/// lies within both bounds.
#[verifier::external_body]
fn length_between(s: &String, min: u64, max: u64) -> (r: bool)
    ensures
        r == (min <= s@.len() && s@.len() <= max),
{
    validator::ValidateLength::validate_length(s, Some(min), Some(max), None)
}

impl CityField {
    /// The message reported for a field that failed its rule.
    pub open spec fn message_text(self) -> Seq<char> {
        match self {
            CityField::Name => "Name must have a maximum of 100 characters"@,
            CityField::Code => "Code must be 7 characters long"@,
            CityField::StateId => "State ID must be a valid UUID"@,
        }
    }

    pub fn message(&self) -> (r: String)
        ensures
            r@ == self.message_text(),
    {
        match self {
            CityField::Name => "Name must have a maximum of 100 characters".to_owned(),
            CityField::Code => "Code must be 7 characters long".to_owned(),
            CityField::StateId => "State ID must be a valid UUID".to_owned(),
        }
    }
}

impl RegisterCityDTO {
    /// A name has between 1 and 100 characters.
    pub open spec fn name_valid(self) -> bool {
        1 <= self.name@.len() <= 100
    }

    /// A code has exactly 7 characters.
    pub open spec fn code_valid(self) -> bool {
        self.code@.len() == 7
    }

    /// A state identifier is the text of an identifier.
    pub open spec fn state_id_valid(self) -> bool {
        uuid_parse(self.state_id@) is Some
    }

    /// The fields that break their rule, in declaration order.
    pub open spec fn invalid_fields(self) -> Seq<CityField> {
        (if self.name_valid() { seq![] } else { seq![CityField::Name] }) + (if self.code_valid() {
            seq![]
        } else {
            seq![CityField::Code]
        }) + (if self.state_id_valid() {
            seq![]
        } else {
            seq![CityField::StateId]
        })
    }

    /// Checks every field; on failure lists the fields that break their rule.
    pub fn validate(&self) -> (r: Result<(), Vec<CityField>>)
        ensures
            r is Ok <==> (self.name_valid() && self.code_valid() && self.state_id_valid()),
            r matches Err(v) ==> v@ == self.invalid_fields(),
    {
        let mut errors: Vec<CityField> = Vec::new();
        if !length_between(&self.name, 1, 100) {
            errors.push(CityField::Name);
        }
        if !length_between(&self.code, 7, 7) {
            errors.push(CityField::Code);
        }
        if parse_uuid(self.state_id.as_str()).is_none() {
            errors.push(CityField::StateId);
        }
        assert(errors@ == self.invalid_fields());
        if errors.len() == 0 {
            Ok(())
        } else {
            Err(errors)
        }
    }
}

/// The public view of a city, with identifiers written as text.
#[derive(Debug)]
pub struct FilterCityDTO {
    pub id: String,
    pub name: String,
    pub code: String,
    pub state_id: String,
}

/// A page of cities and how many it holds.
#[derive(Debug)]
pub struct CityListResponseDTO {
    pub cities: Vec<FilterCityDTO>,
    pub results: usize,
}

impl FilterCityDTO {
    /// This view shows exactly `city`.
    pub open spec fn shows(self, city: City) -> bool {
        &&& self.id@ == uuid_text(city.id)
        &&& self.name@ == city.name@
        &&& self.code@ == city.code@
        &&& self.state_id@ == uuid_text(city.state_id)
    }

    pub fn filter_city(city: &City) -> (r: FilterCityDTO)
        ensures
            r.shows(*city),
    {
        FilterCityDTO {
            id: format_uuid(city.id),
            name: city.name.as_str().to_owned(),
            code: city.code.as_str().to_owned(),
            state_id: format_uuid(city.state_id),
        }
    }

    pub fn filter_cities(cities: &[City]) -> (r: Vec<FilterCityDTO>)
        ensures
            r@.len() == cities@.len(),
            forall|i: int| 0 <= i < cities@.len() ==> #[trigger] r@[i].shows(cities@[i]),
    {
        let mut out: Vec<FilterCityDTO> = Vec::new();
        let mut i: usize = 0;
        while i < cities.len()
            invariant
                i <= cities@.len(),
                out@.len() == i,
                forall|j: int| 0 <= j < i ==> #[trigger] out@[j].shows(cities@[j]),
            decreases cities@.len() - i,
        {
            out.push(FilterCityDTO::filter_city(&cities[i]));
            i = i + 1;
        }
        out
    }
}

impl CityListResponseDTO {
    /// Lists the public views of `cities`, with their count.
    pub fn from_cities(cities: &[City]) -> (r: CityListResponseDTO)
        ensures
            r.results == cities@.len(),
            r.cities@.len() == cities@.len(),
            forall|i: int| 0 <= i < cities@.len() ==> #[trigger] r.cities@[i].shows(cities@[i]),
    {
        let views = FilterCityDTO::filter_cities(cities);
        let results = views.len();
        CityListResponseDTO { cities: views, results }
    }
}

} // verus!
