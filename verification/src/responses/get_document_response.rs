//! The answer to the lookup of a document.
use crate::request::header_lines;
use crate::responses::check_existence;
use crate::responses::decode_body;
use crate::responses::diagnostics_of;
use crate::responses::etag_and_diagnostics_from_headers;
use crate::responses::etag_and_diagnostics_of;
use crate::responses::Diagnostics;
use crate::responses::Existence;
use crate::responses::RawResponse;
use crate::responses::ResponseError;
use crate::responses::STATUS_NOT_FOUND;
use crate::responses::STATUS_OK;
use vstd::prelude::*;

verus! {

/// A document that the service holds.
#[derive(Debug)]
pub struct FoundDocumentResponse<T> {
    /// The document, decoded.
    pub document: T,
    /// The entity tag of the document.
    pub etag: String,
    pub diagnostics: Diagnostics,
}

/// The answer that there is no such document: no payload, only diagnostics.
#[derive(Debug)]
pub struct NotFoundDocumentResponse {
    pub diagnostics: Diagnostics,
}

/// What the service says of one document: it is there, or it is not.
#[derive(Debug)]
pub enum GetDocumentResponse<T> {
    Found(FoundDocumentResponse<T>),
    NotFound(NotFoundDocumentResponse),
}

impl<T> GetDocumentResponse<T> {
    /// Reads the answer to the lookup of a document. `STATUS_NOT_FOUND`
    /// gives `NotFound`, for which only the diagnostics are read and the body
    /// is never decoded. `STATUS_OK` gives `Found`: the entity tag and the
    /// diagnostics must be among the headers, and then the body goes to
    /// `decode`. Any other status is a failure.
    pub fn from_response<F>(response: RawResponse, decode: F) -> (typed: Result<
        Self,
        ResponseError,
    >) where F: FnOnce(&Vec<u8>) -> Option<T>
        requires
            call_requires(decode, (&response.body,)),
        ensures
            response.status == STATUS_NOT_FOUND ==> match diagnostics_of(
                header_lines(response.headers@),
            ) {
                Err(name) => typed matches Err(ResponseError::HeaderNotFound { name: missing })
                    && missing@ == name,
                Ok(expected) => typed matches Ok(GetDocumentResponse::NotFound(n))
                    && n.diagnostics@ == expected,
            },
            response.status != STATUS_NOT_FOUND && response.status != STATUS_OK ==> typed == Err::<
                Self,
                ResponseError,
            >(
                ResponseError::UnexpectedStatus {
                    expected: STATUS_OK,
                    received: response.status,
                    headers: response.headers,
                    body: response.body,
                },
            ),
            response.status == STATUS_OK ==> match etag_and_diagnostics_of(
                header_lines(response.headers@),
            ) {
                Err(name) => typed matches Err(ResponseError::HeaderNotFound { name: missing })
                    && missing@ == name,
                Ok(expected) => match typed {
                    Ok(GetDocumentResponse::Found(f)) => (f.etag@, f.diagnostics@) == expected
                        && call_ensures(decode, (&response.body,), Some(f.document)),
                    Ok(GetDocumentResponse::NotFound(_)) => false,
                    Err(e) => e == (ResponseError::BodyDecode { body: response.body })
                        && call_ensures(decode, (&response.body,), None::<T>),
                },
            },
    {
        match check_existence(response, STATUS_OK) {
            Ok(Existence::NotFound { headers }) => match Diagnostics::from_headers(&headers) {
                Ok(diagnostics) => Ok(
                    GetDocumentResponse::NotFound(NotFoundDocumentResponse { diagnostics }),
                ),
                Err(e) => Err(e),
            },
            Ok(Existence::Found(found)) => {
                let (etag, diagnostics) = match etag_and_diagnostics_from_headers(&found.headers) {
                    Ok(parts) => parts,
                    Err(e) => {
                        return Err(e);
                    },
                };
                match decode_body(found.resource, decode) {
                    Ok(document) => Ok(
                        GetDocumentResponse::Found(
                            FoundDocumentResponse { document, etag, diagnostics },
                        ),
                    ),
                    Err(e) => Err(e),
                }
            },
            Err(e) => Err(e),
        }
    }
}

} // verus!
