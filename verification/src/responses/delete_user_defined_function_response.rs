//! The answer to the deletion of a user defined function.
use crate::request::header_lines;
use crate::responses::check_status_extract_headers_and_body;
use crate::responses::diagnostics_of;
use crate::responses::Diagnostics;
use crate::responses::RawResponse;
use crate::responses::ResponseError;
use crate::responses::STATUS_NO_CONTENT;
use vstd::prelude::*;

verus! {

/// What the service says once it has deleted a user defined function: there
/// is no body, only the diagnostics.
#[derive(Debug)]
pub struct DeleteUserDefinedFunctionResponse {
    pub diagnostics: Diagnostics,
}

impl DeleteUserDefinedFunctionResponse {
    /// Reads the answer to the deletion. The status must be
    /// `STATUS_NO_CONTENT`, and the diagnostics must be among the headers.
    pub fn from_response(response: RawResponse) -> (typed: Result<Self, ResponseError>)
        ensures
            response.status != STATUS_NO_CONTENT ==> typed == Err::<Self, ResponseError>(
                ResponseError::UnexpectedStatus {
                    expected: STATUS_NO_CONTENT,
                    received: response.status,
                    headers: response.headers,
                    body: response.body,
                },
            ),
            response.status == STATUS_NO_CONTENT ==> match diagnostics_of(
                header_lines(response.headers@),
            ) {
                Err(name) => typed matches Err(ResponseError::HeaderNotFound { name: missing })
                    && missing@ == name,
                Ok(expected) => typed matches Ok(t) && t.diagnostics@ == expected,
            },
    {
        let (headers, _body) = match check_status_extract_headers_and_body(
            response,
            STATUS_NO_CONTENT,
        ) {
            Ok(parts) => parts,
            Err(e) => {
                return Err(e);
            },
        };
        match Diagnostics::from_headers(&headers) {
            Ok(diagnostics) => Ok(DeleteUserDefinedFunctionResponse { diagnostics }),
            Err(e) => Err(e),
        }
    }
}

} // verus!
