//! The clients of the resource hierarchy: account, database, collection and
//! what lives in a collection. Each level borrows the one above it.
use crate::request::Method;
use crate::request::Request;
use crate::traits::CosmosClient;
use crate::traits::CosmosTrait;
use vstd::prelude::*;

pub mod attachment_client;
pub mod collection_client;
pub mod database_client;
pub mod document_client;
pub mod permission_client;
pub mod stored_procedure_client;
pub mod trigger_client;
pub mod user_client;
pub mod user_defined_function_client;

pub use crate::request::ResourceType;
pub use attachment_client::AttachmentClient;
pub use collection_client::CollectionClient;
pub use database_client::DatabaseClient;
pub use document_client::DocumentClient;
pub use permission_client::PermissionClient;
pub use stored_procedure_client::StoredProcedureClient;
pub use trigger_client::TriggerClient;
pub use user_client::UserClient;
pub use user_defined_function_client::UserDefinedFunctionClient;

verus! {

/// Where the service of an account is reached.
pub trait CosmosUriBuilder {
    /// The address of the service, without a trailing slash.
    spec fn base_uri(&self) -> Seq<char>;

    /// The address of the service, without a trailing slash.
    fn build_base_uri(&self) -> (uri: &str)
        ensures
            uri@ == self.base_uri(),
    ;
}

/// The public endpoint of an account: `https://`, the account's name and
/// `.documents.azure.com`.
#[derive(Debug)]
pub struct DefaultCosmosUri {
    uri: String,
}

impl DefaultCosmosUri {
    /// The address of the public endpoint of `account`.
    pub open spec fn uri_of(account: Seq<char>) -> Seq<char> {
        "https://"@ + account + ".documents.azure.com"@
    }

    /// The public endpoint of `account`.
    pub fn new(account: &str) -> (uri: DefaultCosmosUri)
        ensures
            uri.base_uri() == Self::uri_of(account@),
    {
        let mut uri = String::from_str("https://");
        uri.append(account);
        uri.append(".documents.azure.com");
        DefaultCosmosUri { uri }
    }
}

impl CosmosUriBuilder for DefaultCosmosUri {
    closed spec fn base_uri(&self) -> Seq<char> {
        self.uri@
    }

    fn build_base_uri(&self) -> (uri: &str) {
        self.uri.as_str()
    }
}

/// An endpoint at an address of the caller's choosing, such as a local
/// emulator.
#[derive(Debug)]
pub struct CustomCosmosUri {
    uri: String,
}

impl CustomCosmosUri {
    /// The endpoint at `uri`.
    pub fn new(uri: String) -> (custom: CustomCosmosUri)
        ensures
            custom.base_uri() == uri@,
    {
        CustomCosmosUri { uri }
    }
}

impl CosmosUriBuilder for CustomCosmosUri {
    closed spec fn base_uri(&self) -> Seq<char> {
        self.uri@
    }

    fn build_base_uri(&self) -> (uri: &str) {
        self.uri.as_str()
    }
}

/// The path of a database.
pub open spec fn database_path(database: Seq<char>) -> Seq<char> {
    "dbs/"@ + database
}

/// The path of a collection.
pub open spec fn collection_path(database: Seq<char>, collection: Seq<char>) -> Seq<char> {
    database_path(database) + "/colls/"@ + collection
}

/// The path of a document.
pub open spec fn document_path(
    database: Seq<char>,
    collection: Seq<char>,
    document: Seq<char>,
) -> Seq<char> {
    collection_path(database, collection) + "/docs/"@ + document
}

/// The path under which the documents of a collection are listed and created.
pub open spec fn documents_path(database: Seq<char>, collection: Seq<char>) -> Seq<char> {
    collection_path(database, collection) + "/docs"@
}

/// The path of a user defined function, or, without a name, the path under
/// which the functions of a collection are listed and created.
pub open spec fn user_defined_function_path(
    database: Seq<char>,
    collection: Seq<char>,
    name: Option<Seq<char>>,
) -> Seq<char> {
    match name {
        Some(n) => collection_path(database, collection) + "/udfs/"@ + n,
        None => collection_path(database, collection) + "/udfs"@,
    }
}

/// The path of a trigger, or, without a name, the path under which the
/// triggers of a collection are listed and created.
pub open spec fn trigger_path(
    database: Seq<char>,
    collection: Seq<char>,
    name: Option<Seq<char>>,
) -> Seq<char> {
    match name {
        Some(n) => collection_path(database, collection) + "/triggers/"@ + n,
        None => collection_path(database, collection) + "/triggers"@,
    }
}

/// Writes the path of a collection.
pub fn build_collection_path(database: &str, collection: &str) -> (path: String)
    ensures
        path@ == collection_path(database@, collection@),
{
    let mut path = String::from_str("dbs/");
    path.append(database);
    path.append("/colls/");
    path.append(collection);
    path
}

/// The client of an account: the root of the hierarchy.
#[derive(Debug)]
pub struct Client<CUB> where CUB: CosmosUriBuilder {
    cosmos_uri_builder: CUB,
}

impl<CUB> Client<CUB> where CUB: CosmosUriBuilder {
    /// The client of the account served at the address that
    /// `cosmos_uri_builder` gives.
    pub fn new(cosmos_uri_builder: CUB) -> (client: Client<CUB>)
        ensures
            client.service_uri() == cosmos_uri_builder.base_uri(),
    {
        Client { cosmos_uri_builder }
    }

    /// The client of the database `database_name`.
    pub fn with_database<'a>(&'a self, database_name: &'a str) -> (database: DatabaseClient<
        'a,
        CUB,
    >)
        ensures
            database.service_uri() == self.service_uri(),
            database.database() == database_name@,
    {
        DatabaseClient::new(self, database_name)
    }
}

impl<CUB> CosmosClient for Client<CUB> where CUB: CosmosUriBuilder {
    closed spec fn service_uri(&self) -> Seq<char> {
        self.cosmos_uri_builder.base_uri()
    }

    fn prepare_request(
        &self,
        uri_path: &str,
        http_method: Method,
        resource_type: ResourceType,
    ) -> (request: Request) {
        Request::new(self.cosmos_uri_builder.build_base_uri(), uri_path, http_method, resource_type)
    }
}

impl<CUB> CosmosTrait<CUB> for Client<CUB> where CUB: CosmosUriBuilder {

}

} // verus!
