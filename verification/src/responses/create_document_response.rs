//! The answer to the creation of a document.
use crate::request::header_lines;
use crate::responses::check_status_extract_headers_and_body;
use crate::responses::decode_body;
use crate::responses::Diagnostics;
use crate::responses::RawResponse;
use crate::responses::ResponseError;
use crate::responses::etag_and_diagnostics_from_headers;
use crate::responses::etag_and_diagnostics_of;
use crate::responses::STATUS_CREATED;
use vstd::prelude::*;

verus! {

/// What the service says once it has created a document.
#[derive(Debug)]
pub struct CreateDocumentResponse<T> {
    /// The attributes that the service holds of the new document, decoded.
    pub document_attributes: T,
    /// The entity tag of the document as it now stands.
    pub etag: String,
    pub diagnostics: Diagnostics,
}

impl<T> CreateDocumentResponse<T> {
    /// Reads the answer to the creation of a document. The status must be `STATUS_CREATED`;
    /// then the entity tag and the diagnostics must be among the headers;
    /// then the body goes to `decode`, whose answer decides between the typed
    /// response and a decoding failure.
    pub fn from_response<F>(response: RawResponse, decode: F) -> (typed: Result<
        Self,
        ResponseError,
    >) where F: FnOnce(&Vec<u8>) -> Option<T>
        requires
            call_requires(decode, (&response.body,)),
        ensures
            response.status != STATUS_CREATED ==> typed == Err::<Self, ResponseError>(
                ResponseError::UnexpectedStatus {
                    expected: STATUS_CREATED,
                    received: response.status,
                    headers: response.headers,
                    body: response.body,
                },
            ),
            response.status == STATUS_CREATED ==> match etag_and_diagnostics_of(
                header_lines(response.headers@),
            ) {
                Err(name) => typed matches Err(ResponseError::HeaderNotFound { name: missing })
                    && missing@ == name,
                Ok(expected) => match typed {
                    Ok(t) => (t.etag@, t.diagnostics@) == expected && call_ensures(
                        decode,
                        (&response.body,),
                        Some(t.document_attributes),
                    ),
                    Err(e) => e == (ResponseError::BodyDecode { body: response.body })
                        && call_ensures(decode, (&response.body,), None::<T>),
                },
            },
    {
        let (headers, body) = match check_status_extract_headers_and_body(
            response,
            STATUS_CREATED,
        ) {
            Ok(parts) => parts,
            Err(e) => {
                return Err(e);
            },
        };
        let (etag, diagnostics) = match etag_and_diagnostics_from_headers(&headers) {
            Ok(found) => found,
            Err(e) => {
                return Err(e);
            },
        };
        match decode_body(body, decode) {
            Ok(document_attributes) => Ok(
                CreateDocumentResponse { document_attributes, etag, diagnostics },
            ),
            Err(e) => Err(e),
        }
    }
}

} // verus!
