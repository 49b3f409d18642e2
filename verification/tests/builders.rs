use azure_sdk_cosmos::capabilities::ActivityIdOption;
use azure_sdk_cosmos::capabilities::ActivityIdSupport;
use azure_sdk_cosmos::capabilities::AllowTentativeWritesSupport;
use azure_sdk_cosmos::capabilities::ConsistencyLevelOption;
use azure_sdk_cosmos::capabilities::ConsistencyLevelSupport;
use azure_sdk_cosmos::capabilities::ContinuationOption;
use azure_sdk_cosmos::capabilities::ContinuationSupport;
use azure_sdk_cosmos::capabilities::DocumentClientRequired;
use azure_sdk_cosmos::capabilities::DocumentSupport;
use azure_sdk_cosmos::capabilities::IfMatchConditionSupport;
use azure_sdk_cosmos::capabilities::IfModifiedSinceSupport;
use azure_sdk_cosmos::capabilities::IndexingDirectiveSupport;
use azure_sdk_cosmos::capabilities::IsUpsertOption;
use azure_sdk_cosmos::capabilities::IsUpsertSupport;
use azure_sdk_cosmos::capabilities::MaxItemCountOption;
use azure_sdk_cosmos::capabilities::MaxItemCountSupport;
use azure_sdk_cosmos::capabilities::PartitionKeysRequired;
use azure_sdk_cosmos::capabilities::PartitionKeysSupport;
use azure_sdk_cosmos::capabilities::UserAgentOption;
use azure_sdk_cosmos::capabilities::UserAgentSupport;
use azure_sdk_cosmos::capabilities::UserDefinedFunctionClientRequired;
use azure_sdk_cosmos::clients::Client;
use azure_sdk_cosmos::clients::DefaultCosmosUri;
use azure_sdk_cosmos::consistency_level::ConsistencyLevel;
use azure_sdk_cosmos::date_time::UtcDateTime;
use azure_sdk_cosmos::document::Document;
use azure_sdk_cosmos::indexing_directive::IndexingDirective;
use azure_sdk_cosmos::modify_conditions::IfMatchCondition;
use azure_sdk_cosmos::partition_keys::PartitionKeys;
use azure_sdk_cosmos::request::Method;
use azure_sdk_cosmos::request::Request;
use azure_sdk_cosmos::request::ResourceType;
use azure_sdk_cosmos::requests::DeleteUserDefinedFunctionBuilder;
use azure_sdk_cosmos::traits::DocumentTrait;
use azure_sdk_cosmos::traits::UserDefinedFunctionTrait;

fn lines(request: &Request) -> Vec<(String, String)> {
    request.headers().iter().map(|h| (h.name.clone(), h.value.clone())).collect()
}

fn pair(name: &str, value: &str) -> (String, String) {
    (name.to_string(), value.to_string())
}

#[test]
fn delete_function_with_defaults_sends_no_header_and_no_body() {
    let client = Client::new(DefaultCosmosUri::new("acc"));
    let database = client.with_database("db");
    let collection = database.with_collection("coll");
    let function = collection.with_user_defined_function("fun");
    let request = function.delete_user_defined_function().request();
    assert_eq!(request.method(), Method::Delete);
    assert_eq!(request.resource_type(), ResourceType::UserDefinedFunctions);
    assert_eq!(request.path(), "dbs/db/colls/coll/udfs/fun");
    assert!(request.headers().is_empty());
    assert_eq!(request.payload(), None);
}

#[test]
fn delete_function_with_every_option_sends_them_in_the_order_of_assembly() {
    let client = Client::new(DefaultCosmosUri::new("acc"));
    let database = client.with_database("db");
    let collection = database.with_collection("coll");
    let function = collection.with_user_defined_function("fun");
    let builder = DeleteUserDefinedFunctionBuilder::new(&function)
        .with_consistency_level(ConsistencyLevel::Session("tok"))
        .with_activity_id("aid")
        .with_user_agent("ua");
    assert_eq!(builder.user_agent(), Some("ua"));
    assert_eq!(builder.activity_id(), Some("aid"));
    assert!(matches!(builder.consistency_level(), Some(ConsistencyLevel::Session("tok"))));
    assert_eq!(builder.user_defined_function_client().user_defined_function_name(), "fun");
    let request = builder.request();
    assert_eq!(
        lines(&request),
        vec![
            pair("user-agent", "ua"),
            pair("x-ms-activity-id", "aid"),
            pair("x-ms-consistency-level", "Session"),
            pair("x-ms-session-token", "tok"),
        ]
    );
}

#[test]
fn delete_function_keeps_the_second_value_and_can_branch() {
    let client = Client::new(DefaultCosmosUri::new("acc"));
    let database = client.with_database("db");
    let collection = database.with_collection("coll");
    let function = collection.with_user_defined_function("fun");
    let base = function.delete_user_defined_function().with_user_agent("one");
    let branch = base.clone().with_user_agent("two").with_activity_id("x");
    assert_eq!(lines(&base.request()), vec![pair("user-agent", "one")]);
    assert_eq!(
        lines(&branch.request()),
        vec![pair("user-agent", "two"), pair("x-ms-activity-id", "x")]
    );
}

#[test]
fn list_documents_with_defaults_asks_for_the_first_page() {
    let client = Client::new(DefaultCosmosUri::new("acc"));
    let database = client.with_database("db");
    let collection = database.with_collection("coll");
    let builder = collection.list_documents();
    assert_eq!(builder.continuation(), None);
    assert_eq!(builder.max_item_count(), None);
    let request = builder.request();
    assert_eq!(request.method(), Method::Get);
    assert_eq!(request.resource_type(), ResourceType::Documents);
    assert_eq!(request.path(), "dbs/db/colls/coll/docs");
    assert!(request.headers().is_empty());
    assert_eq!(request.payload(), None);
}

#[test]
fn list_documents_sends_the_page_size_in_decimal_and_the_token_as_given() {
    let client = Client::new(DefaultCosmosUri::new("acc"));
    let database = client.with_database("db");
    let collection = database.with_collection("coll");
    let request = collection
        .list_documents()
        .with_max_item_count(3)
        .with_continuation("{\"token\":\"+RID:x\"}")
        .with_user_agent("ua")
        .with_if_match_condition(IfMatchCondition::NotMatch("e"))
        .request();
    assert_eq!(
        lines(&request),
        vec![
            pair("if-none-match", "e"),
            pair("user-agent", "ua"),
            pair("x-ms-continuation", "{\"token\":\"+RID:x\"}"),
            pair("x-ms-max-item-count", "3"),
        ]
    );
    let request = collection.list_documents().with_max_item_count(u32::MAX).request();
    assert_eq!(request.header_value("x-ms-max-item-count"), Some("4294967295"));
    let request = collection.list_documents().with_max_item_count(0).request();
    assert_eq!(request.header_value("x-ms-max-item-count"), Some("0"));
}

#[test]
fn get_document_always_sends_the_partition_keys_of_its_client() {
    let client = Client::new(DefaultCosmosUri::new("acc"));
    let database = client.with_database("db");
    let collection = database.with_collection("coll");
    let mut keys = PartitionKeys::new();
    assert!(keys.push("unique_id3").is_ok());
    let document = collection.with_document("unique_id3", &keys);
    let builder = document.get_document();
    assert_eq!(builder.document_client().document_name(), "unique_id3");
    assert_eq!(builder.partition_keys().to_json(), "[\"unique_id3\"]");
    let request = builder.request();
    assert_eq!(request.method(), Method::Get);
    assert_eq!(request.resource_type(), ResourceType::Documents);
    assert_eq!(request.path(), "dbs/db/colls/coll/docs/unique_id3");
    assert_eq!(lines(&request), vec![pair("x-ms-documentdb-partitionkey", "[\"unique_id3\"]")]);
    assert_eq!(request.payload(), None);
}

#[test]
fn get_document_with_every_option_sends_them_before_the_partition_keys() {
    let client = Client::new(DefaultCosmosUri::new("acc"));
    let database = client.with_database("db");
    let collection = database.with_collection("coll");
    let keys = PartitionKeys::new();
    let document = collection.with_document("d", &keys);
    let since = UtcDateTime::from_timestamp(0).unwrap();
    let request = document
        .get_document()
        .with_consistency_level(ConsistencyLevel::Strong)
        .with_activity_id("aid")
        .with_user_agent("ua")
        .with_if_modified_since(&since)
        .with_if_match_condition(IfMatchCondition::Match("e"))
        .request();
    assert_eq!(
        lines(&request),
        vec![
            pair("if-match", "e"),
            pair("if-modified-since", "Thu, 1 Jan 1970 00:00:00 +0000"),
            pair("user-agent", "ua"),
            pair("x-ms-activity-id", "aid"),
            pair("x-ms-consistency-level", "Strong"),
            pair("x-ms-documentdb-partitionkey", "[]"),
        ]
    );
}

#[test]
fn create_document_with_defaults_posts_to_the_documents_of_the_collection() {
    let client = Client::new(DefaultCosmosUri::new("acc"));
    let database = client.with_database("db");
    let collection = database.with_collection("coll");
    let document = Document::new("{\"id\":\"a\",\"n\":1}".to_string());
    let mut keys = PartitionKeys::new();
    assert!(keys.push("a").is_ok());
    let builder = collection.create_document();
    assert!(!builder.is_complete());
    assert!(!builder.is_upsert());
    let builder = builder.with_partition_keys(&keys);
    assert!(!builder.is_complete());
    let builder = builder.with_document(&document);
    assert!(builder.is_complete());
    let request = builder.request();
    assert_eq!(request.method(), Method::Post);
    assert_eq!(request.resource_type(), ResourceType::Documents);
    assert_eq!(request.path(), "dbs/db/colls/coll/docs");
    assert_eq!(
        lines(&request),
        vec![
            pair("x-ms-documentdb-partitionkey", "[\"a\"]"),
            pair("x-ms-documentdb-is-upsert", "false"),
            pair("x-ms-cosmos-allow-tentative-writes", "false"),
        ]
    );
    assert_eq!(request.payload(), Some("{\"id\":\"a\",\"n\":1}"));
}

#[test]
fn create_document_with_every_option_sends_every_header() {
    let client = Client::new(DefaultCosmosUri::new("acc"));
    let database = client.with_database("db");
    let collection = database.with_collection("coll");
    let document = Document::new("{}".to_string());
    let mut keys = PartitionKeys::new();
    keys.push_number(7);
    let since = UtcDateTime::from_timestamp(86_400).unwrap();
    let request = collection
        .create_document()
        .with_document(&document)
        .with_partition_keys(&keys)
        .with_is_upsert(true)
        .with_indexing_directive(IndexingDirective::Include)
        .with_if_match_condition(IfMatchCondition::Match("e"))
        .with_if_modified_since(&since)
        .with_user_agent("ua")
        .with_activity_id("aid")
        .with_consistency_level(ConsistencyLevel::Bounded)
        .with_allow_tentative_writes(true)
        .request();
    assert_eq!(
        lines(&request),
        vec![
            pair("if-match", "e"),
            pair("if-modified-since", "Fri, 2 Jan 1970 00:00:00 +0000"),
            pair("user-agent", "ua"),
            pair("x-ms-activity-id", "aid"),
            pair("x-ms-consistency-level", "Bounded"),
            pair("x-ms-documentdb-partitionkey", "[7]"),
            pair("x-ms-documentdb-is-upsert", "true"),
            pair("x-ms-indexing-directive", "Include"),
            pair("x-ms-cosmos-allow-tentative-writes", "true"),
        ]
    );
}

#[test]
fn create_document_gives_the_same_request_for_both_orders() {
    let client = Client::new(DefaultCosmosUri::new("acc"));
    let database = client.with_database("db");
    let collection = database.with_collection("coll");
    let document = Document::new("{\"id\":\"z\"}".to_string());
    let mut keys = PartitionKeys::new();
    assert!(keys.push("z").is_ok());
    let one = collection.create_document().with_document(&document).with_partition_keys(&keys).request();
    let two = collection.create_document().with_partition_keys(&keys).with_document(&document).request();
    assert_eq!(one.uri(), two.uri());
    assert_eq!(lines(&one), lines(&two));
    assert_eq!(one.payload(), two.payload());
}
