use azure_sdk_cosmos::request::find_header;
use azure_sdk_cosmos::request::Header;
use azure_sdk_cosmos::request::Method;
use azure_sdk_cosmos::request::Request;
use azure_sdk_cosmos::request::ResourceType;

fn lines(request: &Request) -> Vec<(String, String)> {
    request.headers().iter().map(|h| (h.name.clone(), h.value.clone())).collect()
}

#[test]
fn methods_are_written_in_upper_case() {
    assert_eq!(Method::Get.as_str(), "GET");
    assert_eq!(Method::Post.as_str(), "POST");
    assert_eq!(Method::Put.as_str(), "PUT");
    assert_eq!(Method::Delete.as_str(), "DELETE");
}

#[test]
fn resource_types_name_their_path_segment() {
    assert_eq!(ResourceType::Databases.as_str(), "dbs");
    assert_eq!(ResourceType::Collections.as_str(), "colls");
    assert_eq!(ResourceType::Documents.as_str(), "docs");
    assert_eq!(ResourceType::StoredProcedures.as_str(), "sprocs");
    assert_eq!(ResourceType::Users.as_str(), "users");
    assert_eq!(ResourceType::Permissions.as_str(), "permissions");
    assert_eq!(ResourceType::Attachments.as_str(), "attachments");
    assert_eq!(ResourceType::PartitionKeyRanges.as_str(), "pkranges");
    assert_eq!(ResourceType::UserDefinedFunctions.as_str(), "udfs");
    assert_eq!(ResourceType::Triggers.as_str(), "triggers");
}

#[test]
fn new_request_has_neither_headers_nor_body() {
    let request = Request::new("https://x.example", "dbs/a", Method::Get, ResourceType::Databases);
    assert_eq!(request.method(), Method::Get);
    assert_eq!(request.resource_type(), ResourceType::Databases);
    assert_eq!(request.base_uri(), "https://x.example");
    assert_eq!(request.path(), "dbs/a");
    assert_eq!(request.uri(), "https://x.example/dbs/a");
    assert!(request.headers().is_empty());
    assert_eq!(request.payload(), None);
}

#[test]
fn headers_keep_the_order_in_which_they_were_added() {
    let request = Request::new("b", "p", Method::Post, ResourceType::Documents)
        .header("one", "1")
        .header("two", "2")
        .header("three", "3");
    assert_eq!(
        lines(&request),
        vec![
            ("one".to_string(), "1".to_string()),
            ("two".to_string(), "2".to_string()),
            ("three".to_string(), "3".to_string()),
        ]
    );
}

#[test]
fn header_value_gives_the_first_line_of_that_name() {
    let request = Request::new("b", "p", Method::Post, ResourceType::Documents)
        .header("one", "1")
        .header("two", "2")
        .header("one", "again");
    assert_eq!(request.header_value("one"), Some("1"));
    assert_eq!(request.header_value("two"), Some("2"));
    assert_eq!(request.header_value("three"), None);
    assert_eq!(request.header_value("One"), None);
}

#[test]
fn body_replaces_an_earlier_body() {
    let request = Request::new("b", "p", Method::Put, ResourceType::Documents)
        .body("{\"a\":1}")
        .body("{\"a\":2}");
    assert_eq!(request.payload(), Some("{\"a\":2}"));
}

#[test]
fn find_header_on_an_empty_list_finds_nothing() {
    let headers: Vec<Header> = Vec::new();
    assert_eq!(find_header(&headers, "etag"), None);
}

#[test]
fn header_clone_keeps_name_and_value() {
    let header = Header::new("etag", "\"00-11\"");
    let copy = header.clone();
    assert_eq!(copy.name, "etag");
    assert_eq!(copy.value, "\"00-11\"");
}

#[test]
fn the_resource_link_of_a_single_resource_is_its_path() {
    let request = Request::new("b", "dbs/db/colls/coll/docs/a", Method::Get, ResourceType::Documents);
    assert_eq!(request.resource_link(), "dbs/db/colls/coll/docs/a");
    let request = Request::new("b", "dbs/x", Method::Get, ResourceType::Databases);
    assert_eq!(request.resource_link(), "dbs/x");
    let request = Request::new("b", "dbs/db/colls/coll/udfs/f", Method::Delete, ResourceType::UserDefinedFunctions);
    assert_eq!(request.resource_link(), "dbs/db/colls/coll/udfs/f");
}

#[test]
fn the_resource_link_of_a_listing_is_the_path_of_the_owner() {
    let request = Request::new("b", "dbs/db/colls/coll/docs", Method::Get, ResourceType::Documents);
    assert_eq!(request.resource_link(), "dbs/db/colls/coll");
    let request = Request::new("b", "dbs/é/colls/ü/docs", Method::Post, ResourceType::Documents);
    assert_eq!(request.resource_link(), "dbs/é/colls/ü");
    let request = Request::new("b", "dbs/db/colls", Method::Get, ResourceType::Collections);
    assert_eq!(request.resource_link(), "dbs/db");
    let request = Request::new("b", "dbs", Method::Get, ResourceType::Databases);
    assert_eq!(request.resource_link(), "");
}

#[test]
fn the_resource_link_is_cut_only_at_a_whole_segment_of_the_own_type() {
    let request = Request::new("b", "dbs/db/colls/coll/mydocs", Method::Get, ResourceType::Documents);
    assert_eq!(request.resource_link(), "dbs/db/colls/coll/mydocs");
    let request = Request::new("b", "xdbs", Method::Get, ResourceType::Databases);
    assert_eq!(request.resource_link(), "xdbs");
    let request = Request::new("b", "dbs/db/colls/coll/udfs/docs", Method::Get, ResourceType::UserDefinedFunctions);
    assert_eq!(request.resource_link(), "dbs/db/colls/coll/udfs/docs");
    let request = Request::new("b", "/docs", Method::Get, ResourceType::Documents);
    assert_eq!(request.resource_link(), "");
    let request = Request::new("b", "", Method::Get, ResourceType::Documents);
    assert_eq!(request.resource_link(), "");
}

#[test]
fn authorizing_adds_date_version_and_authorization_at_the_end() {
    let request = Request::new("b", "dbs", Method::Get, ResourceType::Databases)
        .header("user-agent", "ua")
        .authorized("Wed, 01 Jul 2020 14:05:45 GMT", "type%3Dmaster%26ver%3D1.0%26sig%3Dabc");
    assert_eq!(
        lines(&request),
        vec![
            ("user-agent".to_string(), "ua".to_string()),
            ("x-ms-date".to_string(), "Wed, 01 Jul 2020 14:05:45 GMT".to_string()),
            ("x-ms-version".to_string(), "2018-12-31".to_string()),
            ("authorization".to_string(), "type%3Dmaster%26ver%3D1.0%26sig%3Dabc".to_string()),
        ]
    );
}
