use vstd::prelude::*;

verus! {

/// The fixed set of domain failures that the service reports to its clients.
#[derive(Debug, Clone, Copy, PartialEq, Eq, Structural)]
pub enum ErrorMessage {
    ServerError,
    CountryExist,
    CountryNotFound,
    StateExist,
    StateNotFound,
    CityExist,
    CityNotFound,
    AddressExist,
    AddressNotFound,
}

impl ErrorMessage {
    /// The human-readable description of the failure.
    pub open spec fn text(self) -> Seq<char> {
        match self {
            ErrorMessage::ServerError => "Server Error. Please try again later"@,
            ErrorMessage::CountryExist => "There is already a country with the provided data"@,
            ErrorMessage::CountryNotFound =>
                "The country with the provided ID does not exist in our records"@,
            ErrorMessage::StateExist =>
                "There is already a state with the provided code and countryId"@,
            ErrorMessage::StateNotFound =>
                "The state with the provided ID does not exist in our records"@,
            ErrorMessage::CityExist => "There is already a city with the provided code"@,
            ErrorMessage::CityNotFound =>
                "The city with the provided ID does not exist in our records"@,
            ErrorMessage::AddressExist =>
                "There is already an address with the provided address, number and zipCode"@,
            ErrorMessage::AddressNotFound =>
                "The address with the provided ID does not exist in our records"@,
        }
    }

    /// The remediation advice that accompanies the failure.
    pub open spec fn hint_text(self) -> Seq<char> {
        match self {
            ErrorMessage::ServerError =>
                "Check server logs for more details and ensure the server is running correctly."@,
            ErrorMessage::CountryExist =>
                "Verify the country data you are trying to add is unique and does not already exist."@,
            ErrorMessage::CountryNotFound =>
                "Ensure the country ID is correct and exists in the database. Use the 'GET /api/v1/countries' endpoint to retrieve available country IDs."@,
            ErrorMessage::StateExist =>
                "Verify the state code and country ID are unique and do not already exist."@,
            ErrorMessage::StateNotFound =>
                "Ensure the state ID is correct and exists in the database. Use the 'GET /api/v1/states' endpoint to retrieve available state IDs."@,
            ErrorMessage::CityExist =>
                "Verify the city code is unique and does not already exist."@,
            ErrorMessage::CityNotFound =>
                "Ensure the city ID is correct and exists in the database. Use the 'GET /api/v1/cities' endpoint to retrieve available city IDs."@,
            ErrorMessage::AddressExist =>
                "Verify the address details are unique and do not already exist."@,
            ErrorMessage::AddressNotFound =>
                "Ensure the address ID is correct and exists in the database. Use the 'GET /api/v1/addresses' endpoint to retrieve available address IDs."@,
        }
    }

    /// The variants that report an attempt to create a resource that already exists.
    pub open spec fn is_exist(self) -> bool {
        match self {
            ErrorMessage::CountryExist
            | ErrorMessage::StateExist
            | ErrorMessage::CityExist
            | ErrorMessage::AddressExist => true,
            _ => false,
        }
    }

    /// The variants that report a lookup of a resource that is not there.
    pub open spec fn is_not_found(self) -> bool {
        match self {
            ErrorMessage::CountryNotFound
            | ErrorMessage::StateNotFound
            | ErrorMessage::CityNotFound
            | ErrorMessage::AddressNotFound => true,
            _ => false,
        }
    }

    /// The HTTP status that a failure of this kind is reported with.
    pub open spec fn status_code(self) -> u16 {
        if self == ErrorMessage::ServerError {
            500
        } else if self.is_exist() {
            409
        } else {
            404
        }
    }

    pub fn to_str(&self) -> (r: String)
        ensures
            r@ == self.text(),
    {
        match self {
            ErrorMessage::ServerError => "Server Error. Please try again later".to_owned(),
            ErrorMessage::CountryExist => "There is already a country with the provided data".to_owned(),
            ErrorMessage::CountryNotFound =>
                "The country with the provided ID does not exist in our records".to_owned(),
            ErrorMessage::StateExist =>
                "There is already a state with the provided code and countryId".to_owned(),
            ErrorMessage::StateNotFound =>
                "The state with the provided ID does not exist in our records".to_owned(),
            ErrorMessage::CityExist => "There is already a city with the provided code".to_owned(),
            ErrorMessage::CityNotFound =>
                "The city with the provided ID does not exist in our records".to_owned(),
            ErrorMessage::AddressExist =>
                "There is already an address with the provided address, number and zipCode".to_owned(),
            ErrorMessage::AddressNotFound =>
                "The address with the provided ID does not exist in our records".to_owned(),
        }
    }

    pub fn hint(&self) -> (r: String)
        ensures
            r@ == self.hint_text(),
    {
        match self {
            ErrorMessage::ServerError =>
                "Check server logs for more details and ensure the server is running correctly.".to_owned(),
            ErrorMessage::CountryExist =>
                "Verify the country data you are trying to add is unique and does not already exist.".to_owned(),
            ErrorMessage::CountryNotFound =>
                "Ensure the country ID is correct and exists in the database. Use the 'GET /api/v1/countries' endpoint to retrieve available country IDs.".to_owned(),
            ErrorMessage::StateExist =>
                "Verify the state code and country ID are unique and do not already exist.".to_owned(),
            ErrorMessage::StateNotFound =>
                "Ensure the state ID is correct and exists in the database. Use the 'GET /api/v1/states' endpoint to retrieve available state IDs.".to_owned(),
            ErrorMessage::CityExist =>
                "Verify the city code is unique and does not already exist.".to_owned(),
            ErrorMessage::CityNotFound =>
                "Ensure the city ID is correct and exists in the database. Use the 'GET /api/v1/cities' endpoint to retrieve available city IDs.".to_owned(),
            ErrorMessage::AddressExist =>
                "Verify the address details are unique and do not already exist.".to_owned(),
            ErrorMessage::AddressNotFound =>
                "Ensure the address ID is correct and exists in the database. Use the 'GET /api/v1/addresses' endpoint to retrieve available address IDs.".to_owned(),
        }
    }
}


/// The decimal digit character for `d < 10`.
pub open spec fn digit_char(d: nat) -> char {
    if d == 0 {
        '0'
    } else if d == 1 {
        '1'
    } else if d == 2 {
        '2'
    } else if d == 3 {
        '3'
    } else if d == 4 {
        '4'
    } else if d == 5 {
        '5'
    } else if d == 6 {
        '6'
    } else if d == 7 {
        '7'
    } else if d == 8 {
        '8'
    } else {
        '9'
    }
}

/// The decimal representation of `n`, without leading zeros.
pub open spec fn decimal_text(n: nat) -> Seq<char>
    decreases n,
{
    if n < 10 {
        seq![digit_char(n)]
    } else {
        decimal_text(n / 10) + seq![digit_char(n % 10)]
    }
}

fn digit_str(d: u16) -> (r: &'static str)
    requires
        d < 10,
    ensures
        r@ == seq![digit_char(d as nat)],
{
    proof {
        reveal_strlit("0");
        reveal_strlit("1");
        reveal_strlit("2");
        reveal_strlit("3");
        reveal_strlit("4");
        reveal_strlit("5");
        reveal_strlit("6");
        reveal_strlit("7");
        reveal_strlit("8");
        reveal_strlit("9");
    }
    if d == 0 {
        "0"
    } else if d == 1 {
        "1"
    } else if d == 2 {
        "2"
    } else if d == 3 {
        "3"
    } else if d == 4 {
        "4"
    } else if d == 5 {
        "5"
    } else if d == 6 {
        "6"
    } else if d == 7 {
        "7"
    } else if d == 8 {
        "8"
    } else {
        "9"
    }
}

/// Writes a status code in decimal.
pub fn status_code_text(n: u16) -> (r: String)
    ensures
        r@ == decimal_text(n as nat),
    decreases n,
{
    if n < 10 {
        digit_str(n).to_owned()
    } else {
        let mut s = status_code_text(n / 10);
        s.append(digit_str(n % 10));
        s
    }
}

/// A bare status/message pair.
#[derive(Debug)]
pub struct ErrorResponse {
    pub status: String,
    pub message: String,
}

/// The body of the error envelope sent to clients.
#[derive(Debug)]
pub struct ResponseDetails {
    pub status: String,
    pub code: String,
    pub message: String,
    pub hint: String,
}

/// The error envelope: `{ "error": { status, code, message, hint } }`.
#[derive(Debug)]
pub struct Response {
    pub error: ResponseDetails,
}

/// The contents of an error envelope, as character sequences.
pub ghost struct EnvelopeView {
    pub status: Seq<char>,
    pub code: Seq<char>,
    pub message: Seq<char>,
    pub hint: Seq<char>,
}

impl View for Response {
    type V = EnvelopeView;

    open spec fn view(&self) -> EnvelopeView {
        EnvelopeView {
            status: self.error.status@,
            code: self.error.code@,
            message: self.error.message@,
            hint: self.error.hint@,
        }
    }
}

/// The transport-level response constructor that an error is sent with.
#[derive(Debug, Clone, Copy, PartialEq, Eq, Structural)]
pub enum ResponseKind {
    BadRequest,
    Unauthorized,
    NotFound,
    Conflict,
    InternalServerError,
}

/// An error rendered for the transport: which response to send, its body,
/// and, when the status had no response of its own, the status that was replaced.
#[derive(Debug)]
pub struct RenderedError {
    pub kind: ResponseKind,
    pub body: Response,
    pub coerced_from: Option<u16>,
}

/// The statuses that have a response constructor of their own.
pub open spec fn is_mapped_status(status: u16) -> bool {
    status == 400 || status == 401 || status == 404 || status == 409 || status == 500
}

/// Client-caused statuses are classified "fail", all others "error".
pub open spec fn classification(status: u16) -> Seq<char> {
    if status == 400 || status == 409 {
        "fail"@
    } else {
        "error"@
    }
}

/// The response constructor for a status; unmapped statuses fall back to 500.
pub open spec fn kind_of(status: u16) -> ResponseKind {
    if status == 400 {
        ResponseKind::BadRequest
    } else if status == 401 {
        ResponseKind::Unauthorized
    } else if status == 404 {
        ResponseKind::NotFound
    } else if status == 409 {
        ResponseKind::Conflict
    } else {
        ResponseKind::InternalServerError
    }
}

/// An error as reported to a client: status code, description and remediation hint.
#[derive(Debug, Clone)]
pub struct HttpError {
    pub status: u16,
    pub message: String,
    pub hint: String,
}

impl HttpError {
    /// The envelope that this error renders to.
    pub open spec fn envelope(&self) -> EnvelopeView {
        if is_mapped_status(self.status) {
            EnvelopeView {
                status: classification(self.status),
                code: decimal_text(self.status as nat),
                message: self.message@,
                hint: self.hint@,
            }
        } else {
            EnvelopeView {
                status: "error"@,
                code: "500"@,
                message: ErrorMessage::ServerError.text(),
                hint: ErrorMessage::ServerError.hint_text(),
            }
        }
    }

    pub fn server_error(message: &str) -> (r: HttpError)
        ensures
            r.status == 500,
            r.message@ == message@,
            r.hint@ == ErrorMessage::ServerError.hint_text(),
    {
        HttpError { message: message.to_owned(), hint: ErrorMessage::ServerError.hint(), status: 500 }
    }

    pub fn bad_request(message: &str) -> (r: HttpError)
        ensures
            r.status == 400,
            r.message@ == message@,
            r.hint@ == "Check the request parameters and try again."@,
    {
        HttpError {
            message: message.to_owned(),
            hint: "Check the request parameters and try again.".to_owned(),
            status: 400,
        }
    }

    pub fn unique_constraint_violation(message: &str) -> (r: HttpError)
        ensures
            r.status == 409,
            r.message@ == message@,
            r.hint@ == "Ensure the data you are trying to add is unique."@,
    {
        HttpError {
            message: message.to_owned(),
            hint: "Ensure the data you are trying to add is unique.".to_owned(),
            status: 409,
        }
    }

    pub fn from_error_message(error_message: ErrorMessage) -> (r: HttpError)
        ensures
            r.status == error_message.status_code(),
            r.message@ == error_message.text(),
            r.hint@ == error_message.hint_text(),
    {
        HttpError {
            message: error_message.to_str(),
            hint: error_message.hint(),
            status: match error_message {
                ErrorMessage::ServerError => 500,
                ErrorMessage::CountryExist
                | ErrorMessage::StateExist
                | ErrorMessage::CityExist
                | ErrorMessage::AddressExist => 409,
                _ => 404,
            },
        }
    }

    /// The one-line description used in logs.
    pub open spec fn display_text(&self) -> Seq<char> {
        "HttpError: message: "@ + self.message@ + ", status: "@ + decimal_text(self.status as nat)
    }

    pub fn to_display_string(&self) -> (r: String)
        ensures
            r@ == self.display_text(),
    {
        let mut s = "HttpError: message: ".to_owned();
        s.append(self.message.as_str());
        s.append(", status: ");
        s.append(status_code_text(self.status).as_str());
        s
    }

    /// Renders the error without consuming it.
    pub fn render(&self) -> (r: RenderedError)
        ensures
            r.kind == kind_of(self.status),
            r.body@ == self.envelope(),
            r.coerced_from == (if is_mapped_status(self.status) {
                None
            } else {
                Some(self.status)
            }),
    {
        if self.status == 400 || self.status == 401 || self.status == 404 || self.status == 409
            || self.status == 500 {
            let status = if self.status == 400 || self.status == 409 {
                "fail".to_owned()
            } else {
                "error".to_owned()
            };
            let kind = if self.status == 400 {
                ResponseKind::BadRequest
            } else if self.status == 401 {
                ResponseKind::Unauthorized
            } else if self.status == 404 {
                ResponseKind::NotFound
            } else if self.status == 409 {
                ResponseKind::Conflict
            } else {
                ResponseKind::InternalServerError
            };
            let details = ResponseDetails {
                status,
                code: status_code_text(self.status),
                message: self.message.as_str().to_owned(),
                hint: self.hint.as_str().to_owned(),
            };
            RenderedError { kind, body: Response { error: details }, coerced_from: None }
        } else {
            let details = ResponseDetails {
                status: "error".to_owned(),
                code: "500".to_owned(),
                message: ErrorMessage::ServerError.to_str(),
                hint: ErrorMessage::ServerError.hint(),
            };
            RenderedError {
                kind: ResponseKind::InternalServerError,
                body: Response { error: details },
                coerced_from: Some(self.status),
            }
        }
    }

    /// Renders the error into the envelope and response constructor it is sent with.
    pub fn into_response(self) -> (r: RenderedError)
        ensures
            r.kind == kind_of(self.status),
            r.body@ == self.envelope(),
            r.coerced_from == (if is_mapped_status(self.status) {
                None
            } else {
                Some(self.status)
            }),
    {
        self.render()
    }
}


/// Every failure has a non-empty description and a non-empty hint, and no two
/// failures share a description or a hint.
pub proof fn law_messages_distinct(a: ErrorMessage, b: ErrorMessage)
    ensures
        a.text().len() > 0,
        a.hint_text().len() > 0,
        a != b ==> a.text() != b.text(),
        a != b ==> a.hint_text() != b.hint_text(),
{
    reveal_strlit("Server Error. Please try again later");
    reveal_strlit("There is already a country with the provided data");
    reveal_strlit("The country with the provided ID does not exist in our records");
    reveal_strlit("There is already a state with the provided code and countryId");
    reveal_strlit("The state with the provided ID does not exist in our records");
    reveal_strlit("There is already a city with the provided code");
    reveal_strlit("The city with the provided ID does not exist in our records");
    reveal_strlit("There is already an address with the provided address, number and zipCode");
    reveal_strlit("The address with the provided ID does not exist in our records");
    reveal_strlit("Check server logs for more details and ensure the server is running correctly.");
    reveal_strlit("Verify the country data you are trying to add is unique and does not already exist.");
    reveal_strlit("Ensure the country ID is correct and exists in the database. Use the 'GET /api/v1/countries' endpoint to retrieve available country IDs.");
    reveal_strlit("Verify the state code and country ID are unique and do not already exist.");
    reveal_strlit("Ensure the state ID is correct and exists in the database. Use the 'GET /api/v1/states' endpoint to retrieve available state IDs.");
    reveal_strlit("Verify the city code is unique and does not already exist.");
    reveal_strlit("Ensure the city ID is correct and exists in the database. Use the 'GET /api/v1/cities' endpoint to retrieve available city IDs.");
    reveal_strlit("Verify the address details are unique and do not already exist.");
    reveal_strlit("Ensure the address ID is correct and exists in the database. Use the 'GET /api/v1/addresses' endpoint to retrieve available address IDs.");
    assert(ErrorMessage::ServerError.text().len() == 36);
    assert(ErrorMessage::ServerError.hint_text().len() == 78);
    assert(ErrorMessage::CountryExist.text().len() == 49);
    assert(ErrorMessage::CountryExist.hint_text().len() == 83);
    assert(ErrorMessage::CountryNotFound.text().len() == 62);
    assert(ErrorMessage::CountryNotFound.hint_text().len() == 136);
    assert(ErrorMessage::StateExist.text().len() == 61);
    assert(ErrorMessage::StateExist.hint_text().len() == 73);
    assert(ErrorMessage::StateNotFound.text().len() == 60);
    assert(ErrorMessage::StateNotFound.hint_text().len() == 129);
    assert(ErrorMessage::CityExist.text().len() == 46);
    assert(ErrorMessage::CityExist.hint_text().len() == 58);
    assert(ErrorMessage::CityNotFound.text().len() == 59);
    assert(ErrorMessage::CityNotFound.hint_text().len() == 127);
    assert(ErrorMessage::AddressExist.text().len() == 73);
    assert(ErrorMessage::AddressExist.hint_text().len() == 63);
    assert(ErrorMessage::AddressNotFound.text().len() == 62);
    assert(ErrorMessage::AddressNotFound.hint_text().len() == 136);
    // The one pair of descriptions, and the one pair of hints, of equal length
    // differ in their first distinct word.
    assert(ErrorMessage::CountryNotFound.text()[4] != ErrorMessage::AddressNotFound.text()[4]);
    assert(ErrorMessage::CountryNotFound.hint_text()[11]
        != ErrorMessage::AddressNotFound.hint_text()[11]);
}

/// A failure built from `ServerError` carries 500, every "already exists"
/// failure carries 409, and every "not found" failure carries 404.
pub proof fn law_status_of_failures(m: ErrorMessage)
    ensures
        m == ErrorMessage::ServerError ==> m.status_code() == 500,
        m.is_exist() ==> m.status_code() == 409,
        m.is_not_found() ==> m.status_code() == 404,
{
}

/// Statuses 400 and 409 render as "fail"; 401, 404 and 500 render as "error".
pub proof fn law_classification(e: HttpError)
    ensures
        (e.status == 400 || e.status == 409) ==> e.envelope().status == "fail"@,
        (e.status == 401 || e.status == 404 || e.status == 500) ==> e.envelope().status
            == "error"@,
        (e.status == 400 || e.status == 401 || e.status == 404 || e.status == 409 || e.status
            == 500) ==> e.envelope().code == decimal_text(e.status as nat),
{
}

/// The envelope depends on the error's status, message and hint alone, so two
/// renderings of the same error are identical.
pub proof fn law_rendering_deterministic(a: HttpError, b: HttpError)
    requires
        a.status == b.status,
        a.message@ == b.message@,
        a.hint@ == b.hint@,
    ensures
        a.envelope() == b.envelope(),
        kind_of(a.status) == kind_of(b.status),
{
}

/// A status without a response of its own is sent as a 500 carrying the
/// canonical server-error body, whatever the error's own message and hint were.
pub proof fn law_unmapped_status_falls_back(e: HttpError)
    requires
        !is_mapped_status(e.status),
    ensures
        kind_of(e.status) == ResponseKind::InternalServerError,
        e.envelope().status == "error"@,
        e.envelope().code == "500"@,
        e.envelope().message == ErrorMessage::ServerError.text(),
        e.envelope().hint == ErrorMessage::ServerError.hint_text(),
{
}

} // verus!
