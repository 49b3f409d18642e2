//! One page of the documents of a collection.
use crate::request::header_lines;
use crate::responses::check_status_extract_headers_and_body;
use crate::responses::decode_body;
use crate::responses::Diagnostics;
use crate::responses::RawResponse;
use crate::responses::ResponseError;
use crate::headers::HEADER_CONTINUATION;
use crate::request::first_value;
use crate::responses::continuation_token_from_headers_optional;
use crate::responses::diagnostics_of;
use crate::responses::STATUS_OK;
use vstd::prelude::*;

verus! {

/// One page of a listing: the documents of the page, decoded, and the token
/// that asks for the next page. The last page has no token.
#[derive(Debug)]
pub struct ListDocumentsResponse<T> {
    /// The documents of this page, decoded.
    pub documents: T,
    /// The token with which the next page is asked for; none when this is the
    /// last page.
    pub continuation_token: Option<String>,
    pub diagnostics: Diagnostics,
}

impl<T> ListDocumentsResponse<T> {
    /// The token of the page, as characters.
    pub open spec fn continuation(self) -> Option<Seq<char>> {
        match self.continuation_token {
            Some(token) => Some(token@),
            None => None,
        }
    }

    /// Reads one page. The status must be `STATUS_OK`; then the diagnostics
    /// must be among the headers; the continuation token is taken if it is
    /// there; then the body goes to `decode`, whose answer decides between
    /// the page and a decoding failure.
    pub fn from_response<F>(response: RawResponse, decode: F) -> (typed: Result<
        Self,
        ResponseError,
    >) where F: FnOnce(&Vec<u8>) -> Option<T>
        requires
            call_requires(decode, (&response.body,)),
        ensures
            response.status != STATUS_OK ==> typed == Err::<Self, ResponseError>(
                ResponseError::UnexpectedStatus {
                    expected: STATUS_OK,
                    received: response.status,
                    headers: response.headers,
                    body: response.body,
                },
            ),
            response.status == STATUS_OK ==> match diagnostics_of(header_lines(response.headers@)) {
                Err(name) => typed matches Err(ResponseError::HeaderNotFound { name: missing })
                    && missing@ == name,
                Ok(expected) => match typed {
                    Ok(t) => t.diagnostics@ == expected && t.continuation() == first_value(
                        header_lines(response.headers@),
                        HEADER_CONTINUATION@,
                    ) && call_ensures(decode, (&response.body,), Some(t.documents)),
                    Err(e) => e == (ResponseError::BodyDecode { body: response.body })
                        && call_ensures(decode, (&response.body,), None::<T>),
                },
            },
    {
        let (headers, body) = match check_status_extract_headers_and_body(response, STATUS_OK) {
            Ok(parts) => parts,
            Err(e) => {
                return Err(e);
            },
        };
        let diagnostics = match Diagnostics::from_headers(&headers) {
            Ok(diagnostics) => diagnostics,
            Err(e) => {
                return Err(e);
            },
        };
        let continuation_token = continuation_token_from_headers_optional(&headers);
        match decode_body(body, decode) {
            Ok(documents) => Ok(
                ListDocumentsResponse { documents, continuation_token, diagnostics },
            ),
            Err(e) => Err(e),
        }
    }
}

} // verus!
