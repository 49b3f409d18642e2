//! Reading what the service answered: the status is held against the one the
//! operation expects, the headers that the typed response needs are looked
//! up, and the body goes to the decoder only once the status has been
//! accepted.
use crate::headers::ACTIVITY_ID;
use crate::headers::ETAG;
use crate::headers::HEADER_CONTINUATION;
use crate::headers::HEADER_REQUEST_CHARGE;
use crate::headers::HEADER_SESSION_TOKEN;
use crate::request::find_header;
use crate::request::first_value;
use crate::request::header_lines;
use crate::request::Header;
use vstd::prelude::*;

pub mod create_document_response;
pub mod delete_user_defined_function_response;
pub mod get_document_response;
pub mod list_documents_response;
pub mod replace_document_response;

pub use create_document_response::CreateDocumentResponse;
pub use delete_user_defined_function_response::DeleteUserDefinedFunctionResponse;
pub use get_document_response::GetDocumentResponse;
pub use list_documents_response::ListDocumentsResponse;
pub use replace_document_response::ReplaceDocumentResponse;

verus! {

/// The status of a successful read or replacement.
pub const STATUS_OK: u16 = 200;

/// The status of a successful creation.
pub const STATUS_CREATED: u16 = 201;

/// The status of a successful deletion.
pub const STATUS_NO_CONTENT: u16 = 204;

/// The status that says the addressed resource does not exist.
pub const STATUS_NOT_FOUND: u16 = 404;

/// What the transport hands back: status, headers and body, all unread.
#[derive(Debug)]
pub struct RawResponse {
    pub status: u16,
    pub headers: Vec<Header>,
    pub body: Vec<u8>,
}

/// Why a response could not be turned into a typed value.
#[derive(Debug)]
pub enum ResponseError {
    /// The status is not the one the operation expects. The whole response
    /// is kept, so that the diagnostics of the service can be read.
    UnexpectedStatus { expected: u16, received: u16, headers: Vec<Header>, body: Vec<u8> },
    /// A header that the typed response needs is missing.
    HeaderNotFound { name: String },
    /// The status was accepted, but the decoder could not read the body.
    BodyDecode { body: Vec<u8> },
}

/// Holds the status of `response` against `expected_status_code`. On a match
/// the headers and the body are handed out unchanged; otherwise the whole
/// response goes into the error.
pub fn check_status_extract_headers_and_body(
    response: RawResponse,
    expected_status_code: u16,
) -> (checked: Result<(Vec<Header>, Vec<u8>), ResponseError>)
    ensures
        response.status == expected_status_code ==> checked == Ok::<
            (Vec<Header>, Vec<u8>),
            ResponseError,
        >((response.headers, response.body)),
        response.status != expected_status_code ==> checked == Err::<
            (Vec<Header>, Vec<u8>),
            ResponseError,
        >(
            ResponseError::UnexpectedStatus {
                expected: expected_status_code,
                received: response.status,
                headers: response.headers,
                body: response.body,
            },
        ),
{
    if response.status == expected_status_code {
        Ok((response.headers, response.body))
    } else {
        Err(
            ResponseError::UnexpectedStatus {
                expected: expected_status_code,
                received: response.status,
                headers: response.headers,
                body: response.body,
            },
        )
    }
}

/// The value of the header `name`, which the typed response cannot do
/// without.
pub fn required_header(headers: &Vec<Header>, name: &str) -> (value: Result<String, ResponseError>)
    ensures
        match first_value(header_lines(headers@), name@) {
            Some(v) => value matches Ok(found) && found@ == v,
            None => value matches Err(ResponseError::HeaderNotFound { name: missing }) && missing@
                == name@,
        },
{
    match find_header(headers, name) {
        Some(value) => Ok(String::from_str(value)),
        None => Err(ResponseError::HeaderNotFound { name: String::from_str(name) }),
    }
}

/// The value of the header `name`, if the response has it.
pub fn optional_header(headers: &Vec<Header>, name: &str) -> (value: Option<String>)
    ensures
        match first_value(header_lines(headers@), name@) {
            Some(v) => value matches Some(found) && found@ == v,
            None => value is None,
        },
{
    match find_header(headers, name) {
        Some(value) => Some(String::from_str(value)),
        None => None,
    }
}

/// The entity tag of the resource.
pub fn etag_from_headers(headers: &Vec<Header>) -> (etag: Result<String, ResponseError>)
    ensures
        match first_value(header_lines(headers@), ETAG@) {
            Some(v) => etag matches Ok(found) && found@ == v,
            None => etag matches Err(ResponseError::HeaderNotFound { name: missing }) && missing@
                == ETAG@,
        },
{
    required_header(headers, ETAG)
}

/// The token with which the next page is asked for. A response without it is
/// the last page.
pub fn continuation_token_from_headers_optional(headers: &Vec<Header>) -> (token: Option<String>)
    ensures
        match first_value(header_lines(headers@), HEADER_CONTINUATION@) {
            Some(v) => token matches Some(found) && found@ == v,
            None => token is None,
        },
{
    optional_header(headers, HEADER_CONTINUATION)
}

/// The headers by which a request can be traced and accounted for.
#[derive(Debug)]
pub struct Diagnostics {
    /// The id under which the service logged the request.
    pub activity_id: String,
    /// What the request cost, in request units, as the service wrote it.
    pub charge: String,
    /// The token of the session, where the service gave one.
    pub session_token: Option<String>,
}

/// The diagnostics that `lines` hold, or the name of the first header that is
/// missing.
pub open spec fn diagnostics_of(lines: Seq<(Seq<char>, Seq<char>)>) -> Result<
    (Seq<char>, Seq<char>, Option<Seq<char>>),
    Seq<char>,
> {
    match first_value(lines, ACTIVITY_ID@) {
        None => Err(ACTIVITY_ID@),
        Some(activity_id) => match first_value(lines, HEADER_REQUEST_CHARGE@) {
            None => Err(HEADER_REQUEST_CHARGE@),
            Some(charge) => Ok((activity_id, charge, first_value(lines, HEADER_SESSION_TOKEN@))),
        },
    }
}

impl View for Diagnostics {
    type V = (Seq<char>, Seq<char>, Option<Seq<char>>);

    open spec fn view(&self) -> (Seq<char>, Seq<char>, Option<Seq<char>>) {
        (
            self.activity_id@,
            self.charge@,
            match self.session_token {
                Some(token) => Some(token@),
                None => None,
            },
        )
    }
}

impl Diagnostics {
    /// Looks up the diagnostic headers. The activity id and the charge must be
    /// there; the session token may be missing.
    pub fn from_headers(headers: &Vec<Header>) -> (diagnostics: Result<Diagnostics, ResponseError>)
        ensures
            match diagnostics_of(header_lines(headers@)) {
                Ok(found) => diagnostics matches Ok(d) && d@ == found,
                Err(name) => diagnostics matches Err(
                    ResponseError::HeaderNotFound { name: missing },
                ) && missing@ == name,
            },
    {
        let activity_id = match required_header(headers, ACTIVITY_ID) {
            Ok(activity_id) => activity_id,
            Err(e) => {
                return Err(e);
            },
        };
        let charge = match required_header(headers, HEADER_REQUEST_CHARGE) {
            Ok(charge) => charge,
            Err(e) => {
                return Err(e);
            },
        };
        let session_token = optional_header(headers, HEADER_SESSION_TOKEN);
        Ok(Diagnostics { activity_id, charge, session_token })
    }
}

/// The entity tag and the diagnostics that `lines` hold, or the name of the
/// first header that is missing.
pub open spec fn etag_and_diagnostics_of(lines: Seq<(Seq<char>, Seq<char>)>) -> Result<
    (Seq<char>, (Seq<char>, Seq<char>, Option<Seq<char>>)),
    Seq<char>,
> {
    match first_value(lines, ETAG@) {
        None => Err(ETAG@),
        Some(etag) => match diagnostics_of(lines) {
            Err(name) => Err(name),
            Ok(diagnostics) => Ok((etag, diagnostics)),
        },
    }
}

/// Looks up the entity tag and the diagnostic headers.
pub fn etag_and_diagnostics_from_headers(headers: &Vec<Header>) -> (found: Result<
    (String, Diagnostics),
    ResponseError,
>)
    ensures
        match etag_and_diagnostics_of(header_lines(headers@)) {
            Ok(expected) => found matches Ok(f) && (f.0@, f.1@) == expected,
            Err(name) => found matches Err(ResponseError::HeaderNotFound { name: missing })
                && missing@ == name,
        },
{
    let etag = match etag_from_headers(headers) {
        Ok(etag) => etag,
        Err(e) => {
            return Err(e);
        },
    };
    match Diagnostics::from_headers(headers) {
        Ok(diagnostics) => Ok((etag, diagnostics)),
        Err(e) => Err(e),
    }
}

/// A decoded resource together with the headers it came with.
#[derive(Debug)]
pub struct Decoded<T> {
    pub resource: T,
    pub headers: Vec<Header>,
}

/// The outcome of looking a resource up by its key: it is there, or it is
/// not. That it is not there is an answer, not a failure.
#[derive(Debug)]
pub enum Existence<T> {
    /// The resource, decoded, and the headers it came with.
    Found(Decoded<T>),
    /// No resource; only the headers of the answer.
    NotFound { headers: Vec<Header> },
}

/// Sorts a response to a lookup by key. The status that says "not found"
/// gives `NotFound`, with the headers alone; the expected status gives
/// `Found`, with the body still undecoded; any other status is a failure.
pub fn check_existence(response: RawResponse, expected_status_code: u16) -> (checked: Result<
    Existence<Vec<u8>>,
    ResponseError,
>)
    ensures
        response.status == STATUS_NOT_FOUND ==> checked == Ok::<Existence<Vec<u8>>, ResponseError>(
            Existence::NotFound { headers: response.headers },
        ),
        response.status != STATUS_NOT_FOUND && response.status == expected_status_code ==> checked
            == Ok::<Existence<Vec<u8>>, ResponseError>(
            Existence::Found(Decoded { resource: response.body, headers: response.headers }),
        ),
        response.status != STATUS_NOT_FOUND && response.status != expected_status_code ==> checked
            == Err::<Existence<Vec<u8>>, ResponseError>(
            ResponseError::UnexpectedStatus {
                expected: expected_status_code,
                received: response.status,
                headers: response.headers,
                body: response.body,
            },
        ),
{
    if response.status == STATUS_NOT_FOUND {
        Ok(Existence::NotFound { headers: response.headers })
    } else {
        match check_status_extract_headers_and_body(response, expected_status_code) {
            Ok((headers, body)) => Ok(Existence::Found(Decoded { resource: body, headers })),
            Err(e) => Err(e),
        }
    }
}

/// Hands `body` to the decoder. A body that the decoder cannot read is kept
/// in the error.
pub fn decode_body<T, F>(body: Vec<u8>, decode: F) -> (decoded: Result<T, ResponseError>) where
    F: FnOnce(&Vec<u8>) -> Option<T>,

    requires
        call_requires(decode, (&body,)),
    ensures
        match decoded {
            Ok(resource) => call_ensures(decode, (&body,), Some(resource)),
            Err(e) => e == (ResponseError::BodyDecode { body }) && call_ensures(
                decode,
                (&body,),
                None::<T>,
            ),
        },
{
    match decode(&body) {
        Some(resource) => Ok(resource),
        None => Err(ResponseError::BodyDecode { body }),
    }
}

/// The decoder for operations where the resource cannot be absent: the status
/// must be the expected one, and then the body is decoded.
pub fn decode_unconditionally<T, F>(
    response: RawResponse,
    expected_status_code: u16,
    decode: F,
) -> (decoded: Result<Decoded<T>, ResponseError>) where F: FnOnce(&Vec<u8>) -> Option<T>
    requires
        call_requires(decode, (&response.body,)),
    ensures
        response.status != expected_status_code ==> decoded == Err::<Decoded<T>, ResponseError>(
            ResponseError::UnexpectedStatus {
                expected: expected_status_code,
                received: response.status,
                headers: response.headers,
                body: response.body,
            },
        ),
        response.status == expected_status_code ==> match decoded {
            Ok(d) => d.headers == response.headers && call_ensures(
                decode,
                (&response.body,),
                Some(d.resource),
            ),
            Err(e) => e == (ResponseError::BodyDecode { body: response.body }) && call_ensures(
                decode,
                (&response.body,),
                None::<T>,
            ),
        },
{
    match check_status_extract_headers_and_body(response, expected_status_code) {
        Ok((headers, body)) => match decode_body(body, decode) {
            Ok(resource) => Ok(Decoded { resource, headers }),
            Err(e) => Err(e),
        },
        Err(e) => Err(e),
    }
}

/// The decoder for lookups by key. The status that says "not found" gives
/// the `NotFound` outcome, with the headers and nothing of the body; the
/// expected status gives `Found`, with the decoded body; any other status is
/// a failure.
pub fn decode_if_found<T, F>(
    response: RawResponse,
    expected_status_code: u16,
    decode: F,
) -> (decoded: Result<Existence<T>, ResponseError>) where F: FnOnce(&Vec<u8>) -> Option<T>
    requires
        call_requires(decode, (&response.body,)),
    ensures
        response.status == STATUS_NOT_FOUND ==> decoded == Ok::<Existence<T>, ResponseError>(
            Existence::NotFound { headers: response.headers },
        ),
        response.status != STATUS_NOT_FOUND && response.status != expected_status_code ==> decoded
            == Err::<Existence<T>, ResponseError>(
            ResponseError::UnexpectedStatus {
                expected: expected_status_code,
                received: response.status,
                headers: response.headers,
                body: response.body,
            },
        ),
        response.status != STATUS_NOT_FOUND && response.status == expected_status_code ==> match (
        decoded) {
            Ok(Existence::Found(d)) => d.headers == response.headers && call_ensures(
                decode,
                (&response.body,),
                Some(d.resource),
            ),
            Ok(Existence::NotFound { .. }) => false,
            Err(e) => e == (ResponseError::BodyDecode { body: response.body }) && call_ensures(
                decode,
                (&response.body,),
                None::<T>,
            ),
        },
{
    match check_existence(response, expected_status_code) {
        Ok(Existence::NotFound { headers }) => Ok(Existence::NotFound { headers }),
        Ok(Existence::Found(found)) => match decode_body(found.resource, decode) {
            Ok(resource) => Ok(Existence::Found(Decoded { resource, headers: found.headers })),
            Err(e) => Err(e),
        },
        Err(e) => Err(e),
    }
}

} // verus!
