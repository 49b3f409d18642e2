use azure_sdk_cosmos::capabilities::ActivityIdOption;
use azure_sdk_cosmos::capabilities::ActivityIdSupport;
use azure_sdk_cosmos::capabilities::AllowTentativeWritesOption;
use azure_sdk_cosmos::capabilities::AllowTentativeWritesSupport;
use azure_sdk_cosmos::capabilities::CollectionClientRequired;
use azure_sdk_cosmos::capabilities::ConsistencyLevelOption;
use azure_sdk_cosmos::capabilities::ConsistencyLevelSupport;
use azure_sdk_cosmos::capabilities::DocumentIdRequired;
use azure_sdk_cosmos::capabilities::DocumentIdSupport;
use azure_sdk_cosmos::capabilities::DocumentRequired;
use azure_sdk_cosmos::capabilities::DocumentSupport;
use azure_sdk_cosmos::capabilities::IfMatchConditionOption;
use azure_sdk_cosmos::capabilities::IfMatchConditionSupport;
use azure_sdk_cosmos::capabilities::IfModifiedSinceOption;
use azure_sdk_cosmos::capabilities::IfModifiedSinceSupport;
use azure_sdk_cosmos::capabilities::IndexingDirectiveOption;
use azure_sdk_cosmos::capabilities::IndexingDirectiveSupport;
use azure_sdk_cosmos::capabilities::PartitionKeysRequired;
use azure_sdk_cosmos::capabilities::PartitionKeysSupport;
use azure_sdk_cosmos::capabilities::UserAgentOption;
use azure_sdk_cosmos::capabilities::UserAgentSupport;
use azure_sdk_cosmos::clients::Client;
use azure_sdk_cosmos::clients::DefaultCosmosUri;
use azure_sdk_cosmos::consistency_level::ConsistencyLevel;
use azure_sdk_cosmos::date_time::UtcDateTime;
use azure_sdk_cosmos::document::Document;
use azure_sdk_cosmos::indexing_directive::IndexingDirective;
use azure_sdk_cosmos::modify_conditions::IfMatchCondition;
use azure_sdk_cosmos::partition_keys::PartitionKeys;
use azure_sdk_cosmos::request::Method;
use azure_sdk_cosmos::request::Request;
use azure_sdk_cosmos::request::ResourceType;
use azure_sdk_cosmos::requests::ReplaceDocumentBuilder;
use azure_sdk_cosmos::traits::CollectionTrait;

fn lines(request: &Request) -> Vec<(String, String)> {
    request.headers().iter().map(|h| (h.name.clone(), h.value.clone())).collect()
}

fn pair(name: &str, value: &str) -> (String, String) {
    (name.to_string(), value.to_string())
}

fn keys_of(key: &str) -> PartitionKeys {
    let mut keys = PartitionKeys::new();
    assert!(keys.push(key).is_ok());
    keys
}

#[test]
fn replace_with_defaults_sends_partition_keys_and_the_tentative_writes_flag() {
    let client = Client::new(DefaultCosmosUri::new("acc"));
    let database = client.with_database("db");
    let collection = database.with_collection("coll");
    let document = Document::new("{\"id\":\"a\",\"n\":1}".to_string());
    let keys = keys_of("a");

    let request = collection
        .replace_document()
        .with_document(&document)
        .with_partition_keys(&keys)
        .with_document_id("a")
        .request();

    assert_eq!(request.method(), Method::Put);
    assert_eq!(request.resource_type(), ResourceType::Documents);
    assert_eq!(request.path(), "dbs/db/colls/coll/docs/a");
    assert_eq!(request.uri(), "https://acc.documents.azure.com/dbs/db/colls/coll/docs/a");
    assert_eq!(
        lines(&request),
        vec![
            pair("x-ms-documentdb-partitionkey", "[\"a\"]"),
            pair("x-ms-cosmos-allow-tentative-writes", "false"),
        ]
    );
    assert_eq!(request.payload(), Some("{\"id\":\"a\",\"n\":1}"));
}

#[test]
fn replace_with_every_option_sends_every_header_in_the_order_of_assembly() {
    let client = Client::new(DefaultCosmosUri::new("acc"));
    let database = client.with_database("db");
    let collection = database.with_collection("coll");
    let document = Document::new("{}".to_string());
    let keys = keys_of("pk");
    let since = UtcDateTime::from_timestamp(1_431_648_000).unwrap();

    let request = collection
        .replace_document()
        .with_allow_tentative_writes(true)
        .with_consistency_level(ConsistencyLevel::Session("token-7"))
        .with_activity_id("act-1")
        .with_user_agent("agent/1.0")
        .with_if_modified_since(&since)
        .with_if_match_condition(IfMatchCondition::Match("\"etag-1\""))
        .with_indexing_directive(IndexingDirective::Exclude)
        .with_document_id("doc")
        .with_partition_keys(&keys)
        .with_document(&document)
        .request();

    assert_eq!(
        lines(&request),
        vec![
            pair("x-ms-indexing-directive", "Exclude"),
            pair("if-match", "\"etag-1\""),
            pair("if-modified-since", "Fri, 15 May 2015 00:00:00 +0000"),
            pair("user-agent", "agent/1.0"),
            pair("x-ms-activity-id", "act-1"),
            pair("x-ms-consistency-level", "Session"),
            pair("x-ms-session-token", "token-7"),
            pair("x-ms-documentdb-partitionkey", "[\"pk\"]"),
            pair("x-ms-cosmos-allow-tentative-writes", "true"),
        ]
    );
    assert_eq!(request.payload(), Some("{}"));
    assert_eq!(request.path(), "dbs/db/colls/coll/docs/doc");
}

#[test]
fn replace_states_a_condition_that_the_tag_does_not_match() {
    let client = Client::new(DefaultCosmosUri::new("acc"));
    let database = client.with_database("db");
    let collection = database.with_collection("coll");
    let document = Document::new("{}".to_string());
    let keys = keys_of("pk");
    let request = collection
        .replace_document()
        .with_document(&document)
        .with_partition_keys(&keys)
        .with_document_id("doc")
        .with_if_match_condition(IfMatchCondition::NotMatch("*"))
        .with_indexing_directive(IndexingDirective::Include)
        .request();
    assert_eq!(request.header_value("if-none-match"), Some("*"));
    assert_eq!(request.header_value("if-match"), None);
    assert_eq!(request.header_value("x-ms-indexing-directive"), Some("Include"));
}

#[test]
fn replace_names_each_consistency_level_and_sends_a_token_only_with_a_session() {
    let client = Client::new(DefaultCosmosUri::new("acc"));
    let database = client.with_database("db");
    let collection = database.with_collection("coll");
    let document = Document::new("{}".to_string());
    let keys = keys_of("pk");
    let cases = [
        (ConsistencyLevel::Strong, "Strong", None),
        (ConsistencyLevel::Bounded, "Bounded", None),
        (ConsistencyLevel::Session("s"), "Session", Some("s")),
        (ConsistencyLevel::ConsistentPrefix, "Prefix", None),
        (ConsistencyLevel::Eventual, "Eventual", None),
    ];
    for (level, name, token) in cases {
        assert_eq!(level.to_consistency_level_header(), name);
        let request = collection
            .replace_document()
            .with_document(&document)
            .with_partition_keys(&keys)
            .with_document_id("doc")
            .with_consistency_level(level)
            .request();
        assert_eq!(request.header_value("x-ms-consistency-level"), Some(name));
        assert_eq!(request.header_value("x-ms-session-token"), token);
    }
}

#[test]
fn replace_gives_the_same_request_for_every_order_of_the_mandatory_parameters() {
    let client = Client::new(DefaultCosmosUri::new("acc"));
    let database = client.with_database("db");
    let collection = database.with_collection("coll");
    let document = Document::new("{\"id\":\"a\"}".to_string());
    let keys = keys_of("a");
    let b = || collection.replace_document().with_user_agent("ua");

    let requests = vec![
        b().with_document(&document).with_partition_keys(&keys).with_document_id("a").request(),
        b().with_document(&document).with_document_id("a").with_partition_keys(&keys).request(),
        b().with_partition_keys(&keys).with_document(&document).with_document_id("a").request(),
        b().with_partition_keys(&keys).with_document_id("a").with_document(&document).request(),
        b().with_document_id("a").with_document(&document).with_partition_keys(&keys).request(),
        b().with_document_id("a").with_partition_keys(&keys).with_document(&document).request(),
    ];
    for request in &requests {
        assert_eq!(request.method(), requests[0].method());
        assert_eq!(request.uri(), requests[0].uri());
        assert_eq!(lines(request), lines(&requests[0]));
        assert_eq!(request.payload(), requests[0].payload());
    }
    assert_eq!(requests[0].header_value("user-agent"), Some("ua"));
}

#[test]
fn replace_keeps_the_second_value_of_a_parameter_set_twice() {
    let client = Client::new(DefaultCosmosUri::new("acc"));
    let database = client.with_database("db");
    let collection = database.with_collection("coll");
    let first = Document::new("{\"v\":1}".to_string());
    let second = Document::new("{\"v\":2}".to_string());
    let keys_first = keys_of("one");
    let keys_second = keys_of("two");

    let request = collection
        .replace_document()
        .with_user_agent("first")
        .with_user_agent("second")
        .with_activity_id("a1")
        .with_activity_id("a2")
        .with_allow_tentative_writes(true)
        .with_allow_tentative_writes(false)
        .with_indexing_directive(IndexingDirective::Include)
        .with_indexing_directive(IndexingDirective::Default)
        .with_document(&first)
        .with_document(&second)
        .with_partition_keys(&keys_first)
        .with_partition_keys(&keys_second)
        .with_document_id("id1")
        .with_document_id("id2")
        .request();

    assert_eq!(
        lines(&request),
        vec![
            pair("user-agent", "second"),
            pair("x-ms-activity-id", "a2"),
            pair("x-ms-documentdb-partitionkey", "[\"two\"]"),
            pair("x-ms-cosmos-allow-tentative-writes", "false"),
        ]
    );
    assert_eq!(request.payload(), Some("{\"v\":2}"));
    assert_eq!(request.path(), "dbs/db/colls/coll/docs/id2");
}

#[test]
fn replace_is_complete_only_with_all_three_mandatory_parameters() {
    let client = Client::new(DefaultCosmosUri::new("acc"));
    let database = client.with_database("db");
    let collection = database.with_collection("coll");
    let document = Document::new("{}".to_string());
    let keys = keys_of("k");

    let builder = ReplaceDocumentBuilder::new(&collection);
    assert!(!builder.is_complete());
    let builder = builder.with_user_agent("ua").with_allow_tentative_writes(true);
    assert!(!builder.is_complete());
    let builder = builder.with_document(&document);
    assert!(!builder.is_complete());
    let builder = builder.with_document_id("d");
    assert!(!builder.is_complete());
    let builder = builder.with_partition_keys(&keys);
    assert!(builder.is_complete());
    let builder = builder.with_activity_id("x");
    assert!(builder.is_complete());
}

#[test]
fn replace_can_branch_from_a_partly_configured_builder() {
    let client = Client::new(DefaultCosmosUri::new("acc"));
    let database = client.with_database("db");
    let collection = database.with_collection("coll");
    let document = Document::new("{}".to_string());
    let keys = keys_of("k");

    let base = collection.replace_document().with_document(&document).with_partition_keys(&keys);
    let one = base.clone().with_document_id("one").request();
    let two = base.clone().with_document_id("two").with_user_agent("ua").request();
    assert!(!base.is_complete());
    assert_eq!(one.path(), "dbs/db/colls/coll/docs/one");
    assert_eq!(one.header_value("user-agent"), None);
    assert_eq!(two.path(), "dbs/db/colls/coll/docs/two");
    assert_eq!(two.header_value("user-agent"), Some("ua"));
}

#[test]
fn replace_accessors_give_what_was_set() {
    let client = Client::new(DefaultCosmosUri::new("acc"));
    let database = client.with_database("db");
    let collection = database.with_collection("coll");
    let document = Document::new("{\"a\":true}".to_string());
    let keys = keys_of("k");
    let since = UtcDateTime::from_timestamp(0).unwrap();

    let initial = collection.replace_document();
    assert_eq!(initial.indexing_directive(), IndexingDirective::Default);
    assert!(initial.if_match_condition().is_none());
    assert!(initial.if_modified_since().is_none());
    assert_eq!(initial.user_agent(), None);
    assert_eq!(initial.activity_id(), None);
    assert!(initial.consistency_level().is_none());
    assert!(!initial.allow_tentative_writes());
    assert_eq!(initial.collection_client().collection_name(), "coll");

    let builder = initial
        .with_document(&document)
        .with_partition_keys(&keys)
        .with_document_id("d")
        .with_indexing_directive(IndexingDirective::Include)
        .with_if_match_condition(IfMatchCondition::Match("e"))
        .with_if_modified_since(&since)
        .with_user_agent("ua")
        .with_activity_id("aid")
        .with_consistency_level(ConsistencyLevel::Eventual)
        .with_allow_tentative_writes(true);
    assert_eq!(builder.document().as_str(), "{\"a\":true}");
    assert_eq!(builder.partition_keys().to_json(), "[\"k\"]");
    assert_eq!(builder.document_id(), "d");
    assert_eq!(builder.indexing_directive(), IndexingDirective::Include);
    assert!(matches!(builder.if_match_condition(), Some(IfMatchCondition::Match("e"))));
    assert_eq!(builder.if_modified_since().map(|d| d.timestamp()), Some(0));
    assert_eq!(builder.user_agent(), Some("ua"));
    assert_eq!(builder.activity_id(), Some("aid"));
    assert!(matches!(builder.consistency_level(), Some(ConsistencyLevel::Eventual)));
    assert!(builder.allow_tentative_writes());
}
