//! The client of one collection.
use crate::clients::build_collection_path;
use crate::clients::collection_path;
use crate::clients::Client;
use crate::clients::CosmosUriBuilder;
use crate::clients::DatabaseClient;
use crate::clients::DocumentClient;
use crate::clients::StoredProcedureClient;
use crate::clients::TriggerClient;
use crate::clients::UserDefinedFunctionClient;
use crate::partition_keys::PartitionKeys;
use crate::clients::ResourceType;
use crate::request::Method;
use crate::request::Request;
use crate::request::RequestView;
use crate::requests::CreateDocumentBuilder;
use crate::requests::CreateDocumentModel;
use crate::requests::ListDocumentsBuilder;
use crate::requests::ListDocumentsModel;
use crate::requests::ReplaceDocumentBuilder;
use crate::requests::ReplaceDocumentModel;
use crate::to_assign::No;
use crate::traits::CollectionBuilderTrait;
use crate::traits::CollectionTrait;
use crate::traits::CosmosClient;
use crate::traits::DatabaseTrait;
use vstd::prelude::*;

verus! {

/// The client of one collection of a database.
#[derive(Debug)]
pub struct CollectionClient<'a, CUB> where CUB: CosmosUriBuilder {
    database_client: &'a DatabaseClient<'a, CUB>,
    collection_name: &'a str,
}

impl<'a, CUB> CollectionClient<'a, CUB> where CUB: CosmosUriBuilder {
    /// The address of the service that holds the collection.
    pub closed spec fn service_uri(&self) -> Seq<char> {
        self.database_client.service_uri()
    }

    /// The name of the database that holds the collection.
    pub closed spec fn database(&self) -> Seq<char> {
        self.database_client.database()
    }

    /// The name of the collection.
    pub closed spec fn collection(&self) -> Seq<char> {
        self.collection_name@
    }

    pub fn new(database_client: &'a DatabaseClient<'a, CUB>, collection_name: &'a str) -> (client:
        Self)
        ensures
            client.service_uri() == database_client.service_uri(),
            client.database() == database_client.database(),
            client.collection() == collection_name@,
    {
        CollectionClient { database_client, collection_name }
    }

    /// The client of the account that holds the collection.
    pub fn main_client(&self) -> (client: &Client<CUB>)
        ensures
            client.service_uri() == self.service_uri(),
    {
        self.database_client.main_client()
    }
}

impl<'a, CUB> CollectionTrait<'a, CUB> for CollectionClient<'a, CUB> where CUB: CosmosUriBuilder {
    fn database_name(&self) -> (name: &'a str)
        ensures
            name@ == self.database(),
    {
        self.database_client.database_name()
    }

    fn collection_name(&self) -> (name: &'a str)
        ensures
            name@ == self.collection(),
    {
        self.collection_name
    }
}

impl<'a, CUB> CollectionClient<'a, CUB> where CUB: CosmosUriBuilder {
    /// Starts a listing of the documents of the collection.
    pub fn list_documents(&self) -> (builder: ListDocumentsBuilder<'_, '_, CUB>)
        ensures
            builder@ == ListDocumentsModel::initial(
                self.service_uri(),
                self.database(),
                self.collection(),
            ),
    {
        ListDocumentsBuilder::new(self)
    }

    /// Starts the creation of a document in the collection.
    pub fn create_document(&self) -> (builder: CreateDocumentBuilder<'_, '_, CUB, No, No>)
        ensures
            builder@ == CreateDocumentModel::initial(
                self.service_uri(),
                self.database(),
                self.collection(),
            ),
    {
        CreateDocumentBuilder::new(self)
    }

    /// Starts the replacement of a document of the collection.
    pub fn replace_document(&self) -> (builder: ReplaceDocumentBuilder<'_, '_, CUB, No, No, No>)
        ensures
            builder@ == ReplaceDocumentModel::initial(
                self.service_uri(),
                self.database(),
                self.collection(),
            ),
    {
        ReplaceDocumentBuilder::new(self)
    }

    /// The client of the user defined function `user_defined_function_name`
    /// of the collection.
    pub fn with_user_defined_function<'c>(
        &'c self,
        user_defined_function_name: &'c str,
    ) -> (client: UserDefinedFunctionClient<'c, CUB>)
        ensures
            client.service_uri() == self.service_uri(),
            client.database() == self.database(),
            client.collection() == self.collection(),
            client.user_defined_function() == user_defined_function_name@,
    {
        UserDefinedFunctionClient::new(self, user_defined_function_name)
    }

    /// The client of the stored procedure `stored_procedure_name` of the
    /// collection.
    pub fn with_stored_procedure<'c>(&'c self, stored_procedure_name: &'c str) -> (client:
        StoredProcedureClient<'c, CUB>)
        ensures
            client.service_uri() == self.service_uri(),
            client.database() == self.database(),
            client.collection() == self.collection(),
            client.stored_procedure() == stored_procedure_name@,
    {
        StoredProcedureClient::new(self, stored_procedure_name)
    }

    /// The client of the trigger `trigger_name` of the collection.
    pub fn with_trigger<'c>(&'c self, trigger_name: &'c str) -> (client: TriggerClient<'c, CUB>)
        ensures
            client.service_uri() == self.service_uri(),
            client.database() == self.database(),
            client.collection() == self.collection(),
            client.trigger() == trigger_name@,
    {
        TriggerClient::new(self, trigger_name)
    }

    /// The client of the document `document_name` of the collection, which
    /// lives in the partition that `partition_keys` select.
    pub fn with_document<'c>(
        &'c self,
        document_name: &'c str,
        partition_keys: &'c PartitionKeys,
    ) -> (client: DocumentClient<'c, CUB>)
        ensures
            client.service_uri() == self.service_uri(),
            client.database() == self.database(),
            client.collection() == self.collection(),
            client.document() == document_name@,
            client.keys() == partition_keys@,
    {
        DocumentClient::new(self, document_name, partition_keys)
    }
}

impl<'a, CUB> CollectionBuilderTrait<'a, CUB> for CollectionClient<'a, CUB> where
    CUB: CosmosUriBuilder,
 {
    fn prepare_request(&self, method: Method) -> (request: Request)
        ensures
            request@ == RequestView::bare(
                self.service_uri(),
                collection_path(self.database(), self.collection()),
                method,
                ResourceType::Collections,
            ),
    {
        let path = build_collection_path(self.database_name(), self.collection_name());
        self.main_client().prepare_request(path.as_str(), method, ResourceType::Collections)
    }
}

} // verus!
