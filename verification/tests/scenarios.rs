use azure_sdk_cosmos::capabilities::ContinuationSupport;
use azure_sdk_cosmos::capabilities::DocumentIdSupport;
use azure_sdk_cosmos::capabilities::DocumentSupport;
use azure_sdk_cosmos::capabilities::IfMatchConditionSupport;
use azure_sdk_cosmos::capabilities::MaxItemCountSupport;
use azure_sdk_cosmos::capabilities::PartitionKeysSupport;
use azure_sdk_cosmos::clients::Client;
use azure_sdk_cosmos::clients::CollectionClient;
use azure_sdk_cosmos::clients::DefaultCosmosUri;
use azure_sdk_cosmos::document::Document;
use azure_sdk_cosmos::modify_conditions::IfMatchCondition;
use azure_sdk_cosmos::pagination::Pager;
use azure_sdk_cosmos::partition_keys::PartitionKeys;
use azure_sdk_cosmos::request::Header;
use azure_sdk_cosmos::request::Method;
use azure_sdk_cosmos::request::Request;
use azure_sdk_cosmos::responses::CreateDocumentResponse;
use azure_sdk_cosmos::responses::GetDocumentResponse;
use azure_sdk_cosmos::responses::ListDocumentsResponse;
use azure_sdk_cosmos::responses::RawResponse;
use azure_sdk_cosmos::responses::ReplaceDocumentResponse;
use azure_sdk_cosmos::responses::ResponseError;
use serde_json::Number;
use serde_json::Value;

/// A stand-in for the service: it keeps documents in the order in which they
/// were created and answers the requests that the builders make.
struct Service {
    documents: Vec<Value>,
    requests: usize,
}

impl Service {
    fn new() -> Service {
        Service { documents: Vec::new(), requests: 0 }
    }

    fn diagnostics(&self) -> Vec<Header> {
        vec![
            Header::new("x-ms-activity-id", "00000000-0000-0000-0000-000000000000"),
            Header::new("x-ms-request-charge", "1"),
        ]
    }

    fn answer(&self, status: u16, mut extra: Vec<Header>, body: String) -> RawResponse {
        let mut headers = self.diagnostics();
        headers.append(&mut extra);
        RawResponse { status, headers, body: body.into_bytes() }
    }

    fn position(&self, id: &str) -> Option<usize> {
        self.documents.iter().position(|d| d.get("id").and_then(|v| v.as_str()) == Some(id))
    }

    fn etag_of(&self, at: usize) -> String {
        let tag = serde_json::to_string(&self.documents[at]).unwrap().len();
        format!("\"{}\"", tag)
    }

    fn serve(&mut self, request: &Request) -> RawResponse {
        self.requests += 1;
        let path = request.path().to_string();
        let list_path = "dbs/db/colls/coll/docs";
        match request.method() {
            Method::Post if path == list_path => {
                let document: Value = serde_json::from_str(request.payload().unwrap()).unwrap();
                let id = document.get("id").and_then(|v| v.as_str()).unwrap().to_string();
                if self.position(&id).is_some() {
                    return self.answer(409, vec![], "{\"code\":\"Conflict\"}".to_string());
                }
                self.documents.push(document.clone());
                let etag = self.etag_of(self.documents.len() - 1);
                self.answer(201, vec![Header::new("etag", &etag)], serde_json::to_string(&document).unwrap())
            }
            Method::Get if path == list_path => {
                let start: usize =
                    request.header_value("x-ms-continuation").map(|t| t.parse().unwrap()).unwrap_or(0);
                let size: usize = request
                    .header_value("x-ms-max-item-count")
                    .map(|t| t.parse().unwrap())
                    .unwrap_or(self.documents.len());
                let end = std::cmp::min(start + size, self.documents.len());
                let page = Value::Array(self.documents[start..end].to_vec());
                let extra = if end < self.documents.len() {
                    vec![Header::new("x-ms-continuation", &end.to_string())]
                } else {
                    vec![]
                };
                self.answer(200, extra, serde_json::to_string(&page).unwrap())
            }
            Method::Get => {
                let id = path.strip_prefix("dbs/db/colls/coll/docs/").unwrap();
                match self.position(id) {
                    Some(at) => {
                        let etag = self.etag_of(at);
                        let body = serde_json::to_string(&self.documents[at]).unwrap();
                        self.answer(200, vec![Header::new("etag", &etag)], body)
                    }
                    None => self.answer(404, vec![], "{\"code\":\"NotFound\"}".to_string()),
                }
            }
            Method::Put => {
                let id = path.strip_prefix("dbs/db/colls/coll/docs/").unwrap();
                match self.position(id) {
                    Some(at) => {
                        let current = self.etag_of(at);
                        if let Some(wanted) = request.header_value("if-match") {
                            if wanted != current {
                                return self.answer(412, vec![], "{\"code\":\"PreconditionFailed\"}".to_string());
                            }
                        }
                        self.documents[at] = serde_json::from_str(request.payload().unwrap()).unwrap();
                        let etag = self.etag_of(at);
                        let body = serde_json::to_string(&self.documents[at]).unwrap();
                        self.answer(200, vec![Header::new("etag", &etag)], body)
                    }
                    None => self.answer(404, vec![], "{\"code\":\"NotFound\"}".to_string()),
                }
            }
            _ => self.answer(405, vec![], String::new()),
        }
    }
}

fn sample(id: &str, n: u64) -> Value {
    let mut fields = serde_json::Map::new();
    fields.insert("id".to_string(), Value::String(id.to_string()));
    fields.insert("n".to_string(), Value::Number(Number::from(n)));
    Value::Object(fields)
}

fn value(body: &Vec<u8>) -> Option<Value> {
    serde_json::from_slice(body).ok()
}

fn values(body: &Vec<u8>) -> Option<Vec<Value>> {
    serde_json::from_slice(body).ok()
}

fn create<'a>(
    service: &mut Service,
    collection: &CollectionClient<'a, DefaultCosmosUri>,
    document: &Value,
) -> Result<CreateDocumentResponse<Value>, ResponseError> {
    let serialized = Document::new(serde_json::to_string(document).unwrap());
    let mut keys = PartitionKeys::new();
    keys.push(document.get("id").and_then(|v| v.as_str()).unwrap()).unwrap();
    let request = collection.create_document().with_document(&serialized).with_partition_keys(&keys).request();
    CreateDocumentResponse::from_response(service.serve(&request), value)
}

#[test]
fn five_documents_are_listed_in_a_page_of_three_and_a_page_of_two() {
    let client = Client::new(DefaultCosmosUri::new("acc"));
    let database = client.with_database("db");
    let collection = database.with_collection("coll");
    let mut service = Service::new();

    create(&mut service, &collection, &sample("a", 1)).unwrap();
    for (id, n) in [("b", 2), ("c", 3), ("d", 4), ("e", 5)] {
        create(&mut service, &collection, &sample(id, n)).unwrap();
    }

    let request = collection.list_documents().with_max_item_count(3).request();
    let first = ListDocumentsResponse::from_response(service.serve(&request), values).unwrap();
    assert_eq!(first.documents.len(), 3);
    assert_eq!(first.documents[0], sample("a", 1));
    let token = first.continuation_token.expect("the first page must carry a token");
    assert!(!token.is_empty());

    let request = collection.list_documents().with_continuation(&token).request();
    let second = ListDocumentsResponse::from_response(service.serve(&request), values).unwrap();
    assert_eq!(second.documents.len(), 2);
    assert_eq!(second.documents[1], sample("e", 5));
    assert!(second.continuation_token.is_none());
}

#[test]
fn a_walk_in_pages_of_two_over_five_documents_makes_three_requests() {
    let client = Client::new(DefaultCosmosUri::new("acc"));
    let database = client.with_database("db");
    let collection = database.with_collection("coll");
    let mut service = Service::new();
    for (id, n) in [("a", 1), ("b", 2), ("c", 3), ("d", 4), ("e", 5)] {
        create(&mut service, &collection, &sample(id, n)).unwrap();
    }
    let before = service.requests;

    let mut pager = Pager::new();
    let mut sizes = Vec::new();
    let mut seen = Vec::new();
    while !pager.is_done() {
        let builder = collection.list_documents().with_max_item_count(2);
        let request = match pager.continuation() {
            Some(token) => builder.with_continuation(token).request(),
            None => builder.request(),
        };
        let page = ListDocumentsResponse::from_response(service.serve(&request), values).unwrap();
        sizes.push(page.documents.len());
        seen.extend(page.documents);
        pager.advance(page.continuation_token);
    }
    assert_eq!(sizes, vec![2, 2, 1]);
    assert_eq!(service.requests - before, 3);
    assert_eq!(seen, service.documents);
}

#[test]
fn a_document_comes_back_as_it_was_sent() {
    let client = Client::new(DefaultCosmosUri::new("acc"));
    let database = client.with_database("db");
    let collection = database.with_collection("coll");
    let mut service = Service::new();

    let mut fields = serde_json::Map::new();
    fields.insert("id".to_string(), Value::String("unique_id500".to_string()));
    fields.insert("a_string".to_string(), Value::String("Something \"here\"\n".to_string()));
    fields.insert("a_number".to_string(), Value::Number(Number::from(600u64)));
    fields.insert("a_timestamp".to_string(), Value::Number(Number::from(-5i64)));
    fields.insert("nested".to_string(), Value::Array(vec![Value::Null, Value::Bool(true)]));
    let sent = Value::Object(fields);

    let created = create(&mut service, &collection, &sent).unwrap();
    assert_eq!(created.document_attributes, sent);

    let mut keys = PartitionKeys::new();
    keys.push("unique_id500").unwrap();
    let document = collection.with_document("unique_id500", &keys);
    let request = document.get_document().request();
    match GetDocumentResponse::from_response(service.serve(&request), value).unwrap() {
        GetDocumentResponse::Found(found) => assert_eq!(found.document, sent),
        other => panic!("unexpected outcome: {:?}", other),
    }
}

#[test]
fn a_document_that_was_never_created_is_not_found() {
    let client = Client::new(DefaultCosmosUri::new("acc"));
    let database = client.with_database("db");
    let collection = database.with_collection("coll");
    let mut service = Service::new();
    create(&mut service, &collection, &sample("unique_id3", 3)).unwrap();

    let mut keys = PartitionKeys::new();
    keys.push("unique_id100").unwrap();
    let document = collection.with_document("unique_id100", &keys);
    let outcome = GetDocumentResponse::from_response(service.serve(&document.get_document().request()), value);
    assert!(matches!(outcome, Ok(GetDocumentResponse::NotFound(_))));
}

#[test]
fn a_replacement_under_the_tag_that_was_read_succeeds_and_under_a_stale_tag_fails() {
    let client = Client::new(DefaultCosmosUri::new("acc"));
    let database = client.with_database("db");
    let collection = database.with_collection("coll");
    let mut service = Service::new();
    let created = create(&mut service, &collection, &sample("a", 1)).unwrap();

    let changed = Document::new(serde_json::to_string(&sample("a", 1000)).unwrap());
    let mut keys = PartitionKeys::new();
    keys.push("a").unwrap();
    let builder = collection
        .replace_document()
        .with_document(&changed)
        .with_partition_keys(&keys)
        .with_document_id("a")
        .with_if_match_condition(IfMatchCondition::Match(&created.etag));

    let replaced = ReplaceDocumentResponse::from_response(service.serve(&builder.request()), value).unwrap();
    assert_eq!(replaced.document_attributes, sample("a", 1000));
    assert_ne!(replaced.etag, created.etag);

    match ReplaceDocumentResponse::from_response(service.serve(&builder.request()), value) {
        Err(ResponseError::UnexpectedStatus { expected, received, body, .. }) => {
            assert_eq!((expected, received), (200, 412));
            assert_eq!(body, b"{\"code\":\"PreconditionFailed\"}".to_vec());
        }
        other => panic!("unexpected outcome: {:?}", other),
    }
}

#[test]
fn creating_the_same_document_twice_is_reported_with_the_status_of_the_service() {
    let client = Client::new(DefaultCosmosUri::new("acc"));
    let database = client.with_database("db");
    let collection = database.with_collection("coll");
    let mut service = Service::new();
    create(&mut service, &collection, &sample("a", 1)).unwrap();
    match create(&mut service, &collection, &sample("a", 2)) {
        Err(ResponseError::UnexpectedStatus { expected, received, .. }) => {
            assert_eq!((expected, received), (201, 409));
        }
        other => panic!("unexpected outcome: {:?}", other),
    }
}
