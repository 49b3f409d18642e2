use azure_sdk_cosmos::clients::build_collection_path;
use azure_sdk_cosmos::clients::Client;
use azure_sdk_cosmos::clients::CollectionClient;
use azure_sdk_cosmos::clients::CosmosUriBuilder;
use azure_sdk_cosmos::clients::CustomCosmosUri;
use azure_sdk_cosmos::clients::DatabaseClient;
use azure_sdk_cosmos::clients::DefaultCosmosUri;
use azure_sdk_cosmos::partition_keys::PartitionKeys;
use azure_sdk_cosmos::request::Method;
use azure_sdk_cosmos::request::ResourceType;
use azure_sdk_cosmos::traits::AttachmentTrait;
use azure_sdk_cosmos::traits::CollectionBuilderTrait;
use azure_sdk_cosmos::traits::CollectionTrait;
use azure_sdk_cosmos::traits::CosmosClient;
use azure_sdk_cosmos::traits::DatabaseTrait;
use azure_sdk_cosmos::traits::DocumentBuilderTrait;
use azure_sdk_cosmos::traits::DocumentTrait;
use azure_sdk_cosmos::traits::PermissionTrait;
use azure_sdk_cosmos::traits::StoredProcedureTrait;
use azure_sdk_cosmos::traits::TriggerBuilderTrait;
use azure_sdk_cosmos::traits::TriggerTrait;
use azure_sdk_cosmos::traits::UserDefinedFunctionBuilderTrait;
use azure_sdk_cosmos::traits::UserDefinedFunctionTrait;
use azure_sdk_cosmos::traits::UserTrait;

#[test]
fn the_default_endpoint_is_made_from_the_account() {
    let uri = DefaultCosmosUri::new("myaccount");
    assert_eq!(uri.build_base_uri(), "https://myaccount.documents.azure.com");
}

#[test]
fn a_custom_endpoint_is_kept_as_given() {
    let uri = CustomCosmosUri::new("https://localhost:8081".to_string());
    assert_eq!(uri.build_base_uri(), "https://localhost:8081");
}

#[test]
fn the_main_client_starts_a_request_without_headers_or_body() {
    let client = Client::new(DefaultCosmosUri::new("acc"));
    let request = client.prepare_request("dbs/x/colls", Method::Get, ResourceType::Collections);
    assert_eq!(request.method(), Method::Get);
    assert_eq!(request.resource_type(), ResourceType::Collections);
    assert_eq!(request.base_uri(), "https://acc.documents.azure.com");
    assert_eq!(request.path(), "dbs/x/colls");
    assert_eq!(request.uri(), "https://acc.documents.azure.com/dbs/x/colls");
    assert!(request.headers().is_empty());
    assert_eq!(request.payload(), None);
}

#[test]
fn a_database_request_addresses_the_database() {
    let client = Client::new(DefaultCosmosUri::new("acc"));
    let database = client.with_database("pollo");
    assert_eq!(database.database_name(), "pollo");
    let request = database.prepare_request(Method::Delete);
    assert_eq!(request.method(), Method::Delete);
    assert_eq!(request.resource_type(), ResourceType::Databases);
    assert_eq!(request.path(), "dbs/pollo");
}

#[test]
fn the_path_of_a_collection_names_database_and_collection() {
    assert_eq!(build_collection_path("db", "coll"), "dbs/db/colls/coll");
    assert_eq!(build_collection_path("", ""), "dbs//colls/");
}

#[test]
fn each_level_hands_on_the_names_above_it() {
    let client = Client::new(DefaultCosmosUri::new("acc"));
    let database = DatabaseClient::new(&client, "db");
    let collection = CollectionClient::new(&database, "coll");
    assert_eq!(collection.database_name(), "db");
    assert_eq!(collection.collection_name(), "coll");
    assert_eq!(collection.main_client().prepare_request("p", Method::Get, ResourceType::Documents).base_uri(),
        "https://acc.documents.azure.com");

    let mut keys = PartitionKeys::new();
    assert!(keys.push("k").is_ok());
    let document = collection.with_document("doc", &keys);
    assert_eq!(document.database_name(), "db");
    assert_eq!(document.collection_name(), "coll");
    assert_eq!(document.document_name(), "doc");
    assert_eq!(document.partition_keys().to_json(), "[\"k\"]");

    let function = collection.with_user_defined_function("fun");
    assert_eq!(function.database_name(), "db");
    assert_eq!(function.collection_name(), "coll");
    assert_eq!(function.user_defined_function_name(), "fun");
}

#[test]
fn with_collection_borrows_the_database() {
    let client = Client::new(CustomCosmosUri::new("http://emulator".to_string()));
    let database = client.with_database("db");
    let collection = database.with_collection("coll");
    assert_eq!(collection.database_name(), "db");
    assert_eq!(collection.collection_name(), "coll");
    assert_eq!(database.main_client().prepare_request("", Method::Get, ResourceType::Databases).uri(),
        "http://emulator/");
}

#[test]
fn the_clients_below_a_collection_know_the_whole_chain() {
    let client = Client::new(DefaultCosmosUri::new("acc"));
    let database = client.with_database("db");
    let collection = database.with_collection("coll");

    let procedure = collection.with_stored_procedure("proc");
    assert_eq!(procedure.database_name(), "db");
    assert_eq!(procedure.collection_name(), "coll");
    assert_eq!(procedure.stored_procedure_name(), "proc");

    let trigger = collection.with_trigger("trig");
    assert_eq!(trigger.database_name(), "db");
    assert_eq!(trigger.collection_name(), "coll");
    assert_eq!(trigger.trigger_name(), "trig");

    let keys = PartitionKeys::new();
    let document = collection.with_document("doc", &keys);
    let attachment = document.with_attachment("att");
    assert_eq!(attachment.database_name(), "db");
    assert_eq!(attachment.collection_name(), "coll");
    assert_eq!(attachment.document_name(), "doc");
    assert_eq!(attachment.attachment_name(), "att");
    assert_eq!(
        attachment.main_client().prepare_request("x", Method::Get, ResourceType::Attachments).base_uri(),
        "https://acc.documents.azure.com"
    );
}

#[test]
fn the_clients_below_a_database_know_the_whole_chain() {
    let client = Client::new(DefaultCosmosUri::new("acc"));
    let database = client.with_database("db");
    let user = database.with_user("ann");
    assert_eq!(user.database_name(), "db");
    assert_eq!(user.user_name(), "ann");
    let permission = user.with_permission("read");
    assert_eq!(permission.database_name(), "db");
    assert_eq!(permission.user_name(), "ann");
    assert_eq!(permission.permission_name(), "read");
}

#[test]
fn a_collection_request_addresses_the_collection() {
    let client = Client::new(DefaultCosmosUri::new("acc"));
    let database = client.with_database("db");
    let collection = database.with_collection("coll");
    let request = CollectionBuilderTrait::prepare_request(&collection, Method::Put);
    assert_eq!(request.method(), Method::Put);
    assert_eq!(request.resource_type(), ResourceType::Collections);
    assert_eq!(request.path(), "dbs/db/colls/coll");
    assert_eq!(request.uri(), "https://acc.documents.azure.com/dbs/db/colls/coll");
    assert!(request.headers().is_empty());
    assert_eq!(request.payload(), None);
}

#[test]
fn a_document_request_addresses_the_document() {
    let client = Client::new(DefaultCosmosUri::new("acc"));
    let database = client.with_database("db");
    let collection = database.with_collection("coll");
    let keys = PartitionKeys::new();
    let document = collection.with_document("doc", &keys);
    let request = DocumentBuilderTrait::prepare_request(&document, Method::Delete);
    assert_eq!(request.method(), Method::Delete);
    assert_eq!(request.resource_type(), ResourceType::Documents);
    assert_eq!(request.path(), "dbs/db/colls/coll/docs/doc");
}

#[test]
fn a_function_request_addresses_the_function_or_all_functions() {
    let client = Client::new(DefaultCosmosUri::new("acc"));
    let database = client.with_database("db");
    let collection = database.with_collection("coll");
    let function = collection.with_user_defined_function("fun");
    let one = UserDefinedFunctionBuilderTrait::prepare_request(&function, Method::Put, true);
    assert_eq!(one.path(), "dbs/db/colls/coll/udfs/fun");
    assert_eq!(one.resource_type(), ResourceType::UserDefinedFunctions);
    assert_eq!(one.resource_link(), "dbs/db/colls/coll/udfs/fun");
    let all = UserDefinedFunctionBuilderTrait::prepare_request(&function, Method::Post, false);
    assert_eq!(all.path(), "dbs/db/colls/coll/udfs");
    assert_eq!(all.method(), Method::Post);
    assert_eq!(all.resource_link(), "dbs/db/colls/coll");
}

#[test]
fn a_trigger_request_addresses_the_trigger_or_all_triggers() {
    let client = Client::new(DefaultCosmosUri::new("acc"));
    let database = client.with_database("db");
    let collection = database.with_collection("coll");
    let trigger = collection.with_trigger("trig");
    let one = TriggerBuilderTrait::prepare_request(&trigger, Method::Delete, true);
    assert_eq!(one.path(), "dbs/db/colls/coll/triggers/trig");
    assert_eq!(one.resource_type(), ResourceType::Triggers);
    let all = TriggerBuilderTrait::prepare_request(&trigger, Method::Get, false);
    assert_eq!(all.path(), "dbs/db/colls/coll/triggers");
    assert_eq!(all.resource_link(), "dbs/db/colls/coll");
}
