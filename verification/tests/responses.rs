use azure_sdk_cosmos::request::Header;
use azure_sdk_cosmos::responses::check_existence;
use azure_sdk_cosmos::responses::check_status_extract_headers_and_body;
use azure_sdk_cosmos::responses::continuation_token_from_headers_optional;
use azure_sdk_cosmos::responses::decode_body;
use azure_sdk_cosmos::responses::decode_if_found;
use azure_sdk_cosmos::responses::decode_unconditionally;
use azure_sdk_cosmos::responses::etag_and_diagnostics_from_headers;
use azure_sdk_cosmos::responses::etag_from_headers;
use azure_sdk_cosmos::responses::optional_header;
use azure_sdk_cosmos::responses::required_header;
use azure_sdk_cosmos::responses::CreateDocumentResponse;
use azure_sdk_cosmos::responses::DeleteUserDefinedFunctionResponse;
use azure_sdk_cosmos::responses::Diagnostics;
use azure_sdk_cosmos::responses::Existence;
use azure_sdk_cosmos::responses::GetDocumentResponse;
use azure_sdk_cosmos::responses::ListDocumentsResponse;
use azure_sdk_cosmos::responses::RawResponse;
use azure_sdk_cosmos::responses::ReplaceDocumentResponse;
use azure_sdk_cosmos::responses::ResponseError;
use azure_sdk_cosmos::responses::STATUS_CREATED;
use azure_sdk_cosmos::responses::STATUS_NOT_FOUND;
use azure_sdk_cosmos::responses::STATUS_NO_CONTENT;
use azure_sdk_cosmos::responses::STATUS_OK;

fn headers(pairs: &[(&str, &str)]) -> Vec<Header> {
    pairs.iter().map(|(n, v)| Header::new(n, v)).collect()
}

fn full_headers() -> Vec<Header> {
    headers(&[
        ("etag", "\"00-aa\""),
        ("x-ms-activity-id", "act-9"),
        ("x-ms-request-charge", "6.29"),
        ("x-ms-session-token", "0:15"),
    ])
}

fn raw(status: u16, pairs: Vec<Header>, body: &str) -> RawResponse {
    RawResponse { status, headers: pairs, body: body.as_bytes().to_vec() }
}

fn text(body: &Vec<u8>) -> Option<String> {
    String::from_utf8(body.clone()).ok()
}

fn number(body: &Vec<u8>) -> Option<u32> {
    std::str::from_utf8(body).ok().and_then(|s| s.parse().ok())
}

#[test]
fn the_status_codes_are_those_of_the_wire() {
    assert_eq!(STATUS_OK, 200);
    assert_eq!(STATUS_CREATED, 201);
    assert_eq!(STATUS_NO_CONTENT, 204);
    assert_eq!(STATUS_NOT_FOUND, 404);
}

#[test]
fn the_expected_status_hands_out_headers_and_body_unchanged() {
    let checked = check_status_extract_headers_and_body(raw(200, full_headers(), "payload"), 200);
    let (headers, body) = checked.unwrap();
    assert_eq!(headers.len(), 4);
    assert_eq!(headers[0].name, "etag");
    assert_eq!(headers[3].value, "0:15");
    assert_eq!(body, b"payload".to_vec());
}

#[test]
fn another_status_keeps_the_whole_response_in_the_error() {
    for status in [199u16, 201, 204, 304, 400, 404, 409, 500] {
        let checked = check_status_extract_headers_and_body(raw(status, full_headers(), "why"), 200);
        match checked {
            Err(ResponseError::UnexpectedStatus { expected, received, headers, body }) => {
                assert_eq!(expected, 200);
                assert_eq!(received, status);
                assert_eq!(headers.len(), 4);
                assert_eq!(headers[1].value, "act-9");
                assert_eq!(body, b"why".to_vec());
            }
            other => panic!("unexpected outcome: {:?}", other),
        }
    }
}

#[test]
fn a_required_header_that_is_missing_is_named_in_the_error() {
    let h = headers(&[("a", "1")]);
    assert_eq!(required_header(&h, "a").unwrap(), "1");
    match required_header(&h, "b") {
        Err(ResponseError::HeaderNotFound { name }) => assert_eq!(name, "b"),
        other => panic!("unexpected outcome: {:?}", other),
    }
    assert_eq!(optional_header(&h, "a"), Some("1".to_string()));
    assert_eq!(optional_header(&h, "b"), None);
}

#[test]
fn the_entity_tag_and_the_token_are_read_from_their_headers() {
    let h = headers(&[("x-ms-continuation", "next"), ("etag", "tag")]);
    assert_eq!(etag_from_headers(&h).unwrap(), "tag");
    assert_eq!(continuation_token_from_headers_optional(&h), Some("next".to_string()));
    let none = headers(&[]);
    assert_eq!(continuation_token_from_headers_optional(&none), None);
    match etag_from_headers(&none) {
        Err(ResponseError::HeaderNotFound { name }) => assert_eq!(name, "etag"),
        other => panic!("unexpected outcome: {:?}", other),
    }
}

#[test]
fn diagnostics_need_the_activity_id_and_the_charge_but_not_the_session() {
    let d = Diagnostics::from_headers(&full_headers()).unwrap();
    assert_eq!(d.activity_id, "act-9");
    assert_eq!(d.charge, "6.29");
    assert_eq!(d.session_token, Some("0:15".to_string()));

    let d = Diagnostics::from_headers(&headers(&[
        ("x-ms-request-charge", "1"),
        ("x-ms-activity-id", "a"),
    ]))
    .unwrap();
    assert_eq!(d.session_token, None);

    match Diagnostics::from_headers(&headers(&[("x-ms-request-charge", "1")])) {
        Err(ResponseError::HeaderNotFound { name }) => assert_eq!(name, "x-ms-activity-id"),
        other => panic!("unexpected outcome: {:?}", other),
    }
    match Diagnostics::from_headers(&headers(&[("x-ms-activity-id", "a")])) {
        Err(ResponseError::HeaderNotFound { name }) => assert_eq!(name, "x-ms-request-charge"),
        other => panic!("unexpected outcome: {:?}", other),
    }
    match Diagnostics::from_headers(&headers(&[])) {
        Err(ResponseError::HeaderNotFound { name }) => assert_eq!(name, "x-ms-activity-id"),
        other => panic!("unexpected outcome: {:?}", other),
    }
}

#[test]
fn the_entity_tag_is_looked_up_before_the_diagnostics() {
    let (etag, d) = etag_and_diagnostics_from_headers(&full_headers()).unwrap();
    assert_eq!(etag, "\"00-aa\"");
    assert_eq!(d.activity_id, "act-9");
    match etag_and_diagnostics_from_headers(&headers(&[])) {
        Err(ResponseError::HeaderNotFound { name }) => assert_eq!(name, "etag"),
        other => panic!("unexpected outcome: {:?}", other),
    }
    match etag_and_diagnostics_from_headers(&headers(&[("etag", "t")])) {
        Err(ResponseError::HeaderNotFound { name }) => assert_eq!(name, "x-ms-activity-id"),
        other => panic!("unexpected outcome: {:?}", other),
    }
}

#[test]
fn a_body_that_cannot_be_decoded_is_kept_in_the_error() {
    assert_eq!(decode_body(b"12".to_vec(), number).unwrap(), 12);
    match decode_body(b"twelve".to_vec(), number) {
        Err(ResponseError::BodyDecode { body }) => assert_eq!(body, b"twelve".to_vec()),
        other => panic!("unexpected outcome: {:?}", other),
    }
}

#[test]
fn the_unconditional_decoder_decodes_only_under_the_expected_status() {
    let d = decode_unconditionally(raw(201, full_headers(), "44"), 201, number).unwrap();
    assert_eq!(d.resource, 44);
    assert_eq!(d.headers.len(), 4);

    match decode_unconditionally(raw(201, full_headers(), "x"), 201, number) {
        Err(ResponseError::BodyDecode { body }) => assert_eq!(body, b"x".to_vec()),
        other => panic!("unexpected outcome: {:?}", other),
    }
    match decode_unconditionally(raw(404, full_headers(), "44"), 201, number) {
        Err(ResponseError::UnexpectedStatus { expected, received, .. }) => {
            assert_eq!((expected, received), (201, 404));
        }
        other => panic!("unexpected outcome: {:?}", other),
    }
}

#[test]
fn a_status_of_not_found_gives_the_not_found_outcome_without_a_payload() {
    match decode_if_found(raw(404, full_headers(), "not even read"), 200, number) {
        Ok(Existence::NotFound { headers }) => assert_eq!(headers.len(), 4),
        other => panic!("unexpected outcome: {:?}", other),
    }
    match check_existence(raw(404, headers(&[]), "x"), 200) {
        Ok(Existence::NotFound { headers }) => assert!(headers.is_empty()),
        other => panic!("unexpected outcome: {:?}", other),
    }
}

#[test]
fn the_success_status_gives_the_found_outcome_with_the_resource() {
    match decode_if_found(raw(200, full_headers(), "17"), 200, number) {
        Ok(Existence::Found(found)) => {
            assert_eq!(found.resource, 17);
            assert_eq!(found.headers.len(), 4);
        }
        other => panic!("unexpected outcome: {:?}", other),
    }
    match check_existence(raw(200, full_headers(), "raw"), 200) {
        Ok(Existence::Found(found)) => assert_eq!(found.resource, b"raw".to_vec()),
        other => panic!("unexpected outcome: {:?}", other),
    }
}

#[test]
fn the_existence_decoder_fails_on_any_other_status_and_on_a_bad_body() {
    match decode_if_found(raw(500, full_headers(), "17"), 200, number) {
        Err(ResponseError::UnexpectedStatus { expected, received, body, .. }) => {
            assert_eq!((expected, received), (200, 500));
            assert_eq!(body, b"17".to_vec());
        }
        other => panic!("unexpected outcome: {:?}", other),
    }
    match decode_if_found(raw(200, full_headers(), "seventeen"), 200, number) {
        Err(ResponseError::BodyDecode { body }) => assert_eq!(body, b"seventeen".to_vec()),
        other => panic!("unexpected outcome: {:?}", other),
    }
}

#[test]
fn a_replacement_is_answered_with_200() {
    let r = ReplaceDocumentResponse::from_response(raw(200, full_headers(), "attrs"), text).unwrap();
    assert_eq!(r.document_attributes, "attrs");
    assert_eq!(r.etag, "\"00-aa\"");
    assert_eq!(r.diagnostics.charge, "6.29");

    match ReplaceDocumentResponse::from_response(raw(201, full_headers(), "attrs"), text) {
        Err(ResponseError::UnexpectedStatus { expected, received, .. }) => {
            assert_eq!((expected, received), (200, 201));
        }
        other => panic!("unexpected outcome: {:?}", other),
    }
    match ReplaceDocumentResponse::from_response(raw(200, headers(&[]), "attrs"), text) {
        Err(ResponseError::HeaderNotFound { name }) => assert_eq!(name, "etag"),
        other => panic!("unexpected outcome: {:?}", other),
    }
    match ReplaceDocumentResponse::from_response(raw(200, full_headers(), "nan"), number) {
        Err(ResponseError::BodyDecode { body }) => assert_eq!(body, b"nan".to_vec()),
        other => panic!("unexpected outcome: {:?}", other),
    }
}

#[test]
fn a_missing_header_is_reported_before_the_body_is_decoded() {
    match ReplaceDocumentResponse::from_response(raw(200, headers(&[("etag", "t")]), "nan"), number) {
        Err(ResponseError::HeaderNotFound { name }) => assert_eq!(name, "x-ms-activity-id"),
        other => panic!("unexpected outcome: {:?}", other),
    }
}

#[test]
fn a_creation_is_answered_with_201() {
    let r = CreateDocumentResponse::from_response(raw(201, full_headers(), "5"), number).unwrap();
    assert_eq!(r.document_attributes, 5);
    assert_eq!(r.etag, "\"00-aa\"");
    match CreateDocumentResponse::from_response(raw(200, full_headers(), "5"), number) {
        Err(ResponseError::UnexpectedStatus { expected, received, .. }) => {
            assert_eq!((expected, received), (201, 200));
        }
        other => panic!("unexpected outcome: {:?}", other),
    }
}

#[test]
fn a_deletion_is_answered_with_204_and_no_body() {
    let r = DeleteUserDefinedFunctionResponse::from_response(raw(204, full_headers(), "")).unwrap();
    assert_eq!(r.diagnostics.activity_id, "act-9");
    assert_eq!(r.diagnostics.session_token, Some("0:15".to_string()));
    match DeleteUserDefinedFunctionResponse::from_response(raw(200, full_headers(), "")) {
        Err(ResponseError::UnexpectedStatus { expected, received, .. }) => {
            assert_eq!((expected, received), (204, 200));
        }
        other => panic!("unexpected outcome: {:?}", other),
    }
    match DeleteUserDefinedFunctionResponse::from_response(raw(204, headers(&[]), "")) {
        Err(ResponseError::HeaderNotFound { name }) => assert_eq!(name, "x-ms-activity-id"),
        other => panic!("unexpected outcome: {:?}", other),
    }
}

#[test]
fn a_page_carries_its_token_if_the_service_sent_one() {
    let mut h = full_headers();
    h.push(Header::new("x-ms-continuation", "more"));
    let page = ListDocumentsResponse::from_response(raw(200, h, "3"), number).unwrap();
    assert_eq!(page.documents, 3);
    assert_eq!(page.continuation_token, Some("more".to_string()));

    let page = ListDocumentsResponse::from_response(raw(200, full_headers(), "2"), number).unwrap();
    assert_eq!(page.documents, 2);
    assert_eq!(page.continuation_token, None);

    match ListDocumentsResponse::from_response(raw(404, full_headers(), "2"), number) {
        Err(ResponseError::UnexpectedStatus { expected, received, .. }) => {
            assert_eq!((expected, received), (200, 404));
        }
        other => panic!("unexpected outcome: {:?}", other),
    }
    match ListDocumentsResponse::from_response(raw(200, full_headers(), "two"), number) {
        Err(ResponseError::BodyDecode { body }) => assert_eq!(body, b"two".to_vec()),
        other => panic!("unexpected outcome: {:?}", other),
    }
}

#[test]
fn a_document_that_is_there_is_found_with_its_tag() {
    match GetDocumentResponse::from_response(raw(200, full_headers(), "doc"), text).unwrap() {
        GetDocumentResponse::Found(found) => {
            assert_eq!(found.document, "doc");
            assert_eq!(found.etag, "\"00-aa\"");
            assert_eq!(found.diagnostics.activity_id, "act-9");
        }
        other => panic!("unexpected outcome: {:?}", other),
    }
}

#[test]
fn a_document_that_is_not_there_is_not_an_error() {
    let only_diagnostics = headers(&[("x-ms-activity-id", "a"), ("x-ms-request-charge", "1")]);
    match GetDocumentResponse::from_response(raw(404, only_diagnostics, "{\"code\":\"NotFound\"}"), number)
        .unwrap()
    {
        GetDocumentResponse::NotFound(not_found) => {
            assert_eq!(not_found.diagnostics.activity_id, "a");
            assert_eq!(not_found.diagnostics.charge, "1");
        }
        other => panic!("unexpected outcome: {:?}", other),
    }
}

#[test]
fn a_lookup_fails_on_other_statuses_missing_headers_and_bad_bodies() {
    match GetDocumentResponse::from_response(raw(304, full_headers(), "doc"), text) {
        Err(ResponseError::UnexpectedStatus { expected, received, .. }) => {
            assert_eq!((expected, received), (200, 304));
        }
        other => panic!("unexpected outcome: {:?}", other),
    }
    match GetDocumentResponse::from_response(raw(404, headers(&[]), "doc"), text) {
        Err(ResponseError::HeaderNotFound { name }) => assert_eq!(name, "x-ms-activity-id"),
        other => panic!("unexpected outcome: {:?}", other),
    }
    match GetDocumentResponse::from_response(raw(200, headers(&[]), "doc"), text) {
        Err(ResponseError::HeaderNotFound { name }) => assert_eq!(name, "etag"),
        other => panic!("unexpected outcome: {:?}", other),
    }
    match GetDocumentResponse::from_response(raw(200, full_headers(), "doc"), number) {
        Err(ResponseError::BodyDecode { body }) => assert_eq!(body, b"doc".to_vec()),
        other => panic!("unexpected outcome: {:?}", other),
    }
}
