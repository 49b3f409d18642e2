//! The client of one document.
use crate::clients::build_collection_path;
use crate::clients::AttachmentClient;
use crate::clients::document_path;
use crate::clients::Client;
use crate::clients::CollectionClient;
use crate::clients::CosmosUriBuilder;
use crate::clients::ResourceType;
use crate::partition_keys::PartitionKeys;
use crate::request::Method;
use crate::request::Request;
use crate::request::RequestView;
use crate::requests::GetDocumentBuilder;
use crate::requests::GetDocumentModel;
use crate::traits::CollectionTrait;
use crate::traits::CosmosClient;
use crate::traits::DocumentBuilderTrait;
use crate::traits::DocumentTrait;
use vstd::prelude::*;

verus! {

/// The client of one document of a collection. A document is addressed by
/// its name together with its partition keys.
#[derive(Debug)]
pub struct DocumentClient<'a, CUB> where CUB: CosmosUriBuilder {
    collection_client: &'a CollectionClient<'a, CUB>,
    document_name: &'a str,
    partition_keys: &'a PartitionKeys,
}

impl<'a, CUB> DocumentClient<'a, CUB> where CUB: CosmosUriBuilder {
    /// The address of the service that holds the document.
    pub closed spec fn service_uri(&self) -> Seq<char> {
        self.collection_client.service_uri()
    }

    /// The name of the database that holds the document.
    pub closed spec fn database(&self) -> Seq<char> {
        self.collection_client.database()
    }

    /// The name of the collection that holds the document.
    pub closed spec fn collection(&self) -> Seq<char> {
        self.collection_client.collection()
    }

    /// The name of the document.
    pub closed spec fn document(&self) -> Seq<char> {
        self.document_name@
    }

    /// The partition keys of the document, each as JSON text.
    pub closed spec fn keys(&self) -> Seq<Seq<char>> {
        self.partition_keys@
    }

    pub fn new(
        collection_client: &'a CollectionClient<'a, CUB>,
        document_name: &'a str,
        partition_keys: &'a PartitionKeys,
    ) -> (client: Self)
        ensures
            client.service_uri() == collection_client.service_uri(),
            client.database() == collection_client.database(),
            client.collection() == collection_client.collection(),
            client.document() == document_name@,
            client.keys() == partition_keys@,
    {
        DocumentClient { collection_client, document_name, partition_keys }
    }

    /// The client of the account that holds the document.
    pub fn main_client(&self) -> (client: &Client<CUB>)
        ensures
            client.service_uri() == self.service_uri(),
    {
        self.collection_client.main_client()
    }

    /// The client of the attachment `attachment_name` of the document.
    pub fn with_attachment<'c>(&'c self, attachment_name: &'c str) -> (client: AttachmentClient<
        'c,
        CUB,
    >)
        ensures
            client.service_uri() == self.service_uri(),
            client.database() == self.database(),
            client.collection() == self.collection(),
            client.document() == self.document(),
            client.attachment() == attachment_name@,
    {
        AttachmentClient::new(self, attachment_name)
    }

    /// Starts the lookup of the document.
    pub fn get_document(&self) -> (builder: GetDocumentBuilder<'_, '_, CUB>)
        ensures
            builder@ == GetDocumentModel::initial(
                self.service_uri(),
                self.database(),
                self.collection(),
                self.document(),
                self.keys(),
            ),
    {
        GetDocumentBuilder::new(self)
    }
}

impl<'a, CUB> DocumentTrait<'a, CUB> for DocumentClient<'a, CUB> where CUB: CosmosUriBuilder {
    fn database_name(&self) -> (name: &'a str)
        ensures
            name@ == self.database(),
    {
        self.collection_client.database_name()
    }

    fn collection_name(&self) -> (name: &'a str)
        ensures
            name@ == self.collection(),
    {
        self.collection_client.collection_name()
    }

    fn document_name(&self) -> (name: &'a str)
        ensures
            name@ == self.document(),
    {
        self.document_name
    }

    fn partition_keys(&self) -> (partition_keys: &'a PartitionKeys)
        ensures
            partition_keys@ == self.keys(),
    {
        self.partition_keys
    }
}

impl<'a, CUB> DocumentBuilderTrait<'a, CUB> for DocumentClient<'a, CUB> where
    CUB: CosmosUriBuilder,
 {
    fn prepare_request(&self, method: Method) -> (request: Request)
        ensures
            request@ == RequestView::bare(
                self.service_uri(),
                document_path(self.database(), self.collection(), self.document()),
                method,
                ResourceType::Documents,
            ),
    {
        let mut path = build_collection_path(self.database_name(), self.collection_name());
        path.append("/docs/");
        path.append(self.document_name());
        self.main_client().prepare_request(path.as_str(), method, ResourceType::Documents)
    }
}

} // verus!
