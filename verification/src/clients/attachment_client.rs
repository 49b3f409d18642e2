//! The client of one attachment.
use crate::clients::Client;
use crate::clients::CosmosUriBuilder;
use crate::clients::DocumentClient;
use crate::traits::AttachmentTrait;
use crate::traits::CosmosClient;
use crate::traits::DocumentTrait;
use vstd::prelude::*;

verus! {

/// The client of one attachment of a document.
#[derive(Debug)]
pub struct AttachmentClient<'a, CUB> where CUB: CosmosUriBuilder {
    document_client: &'a DocumentClient<'a, CUB>,
    attachment_name: &'a str,
}

impl<'a, CUB> AttachmentClient<'a, CUB> where CUB: CosmosUriBuilder {
    /// The address of the service that holds the document.
    pub closed spec fn service_uri(&self) -> Seq<char> {
        self.document_client.service_uri()
    }

    /// The name of the database that holds the document.
    pub closed spec fn database(&self) -> Seq<char> {
        self.document_client.database()
    }

    /// The name of the collection that holds the document.
    pub closed spec fn collection(&self) -> Seq<char> {
        self.document_client.collection()
    }

    /// The name of the document.
    pub closed spec fn document(&self) -> Seq<char> {
        self.document_client.document()
    }

    /// The name of the attachment.
    pub closed spec fn attachment(&self) -> Seq<char> {
        self.attachment_name@
    }

    pub fn new(
        document_client: &'a DocumentClient<'a, CUB>,
        attachment_name: &'a str,
    ) -> (client: Self)
        ensures
            client.service_uri() == document_client.service_uri(),
            client.database() == document_client.database(),
            client.collection() == document_client.collection(),
            client.document() == document_client.document(),
            client.attachment() == attachment_name@,
    {
        AttachmentClient { document_client, attachment_name }
    }

    /// The client of the account at the root of the hierarchy.
    pub fn main_client(&self) -> (client: &Client<CUB>)
        ensures
            client.service_uri() == self.service_uri(),
    {
        self.document_client.main_client()
    }
}

impl<'a, CUB> AttachmentTrait<'a, CUB> for AttachmentClient<'a, CUB> where CUB: CosmosUriBuilder {
    fn database_name(&self) -> (name: &'a str)
        ensures
            name@ == self.database(),
    {
        self.document_client.database_name()
    }

    fn collection_name(&self) -> (name: &'a str)
        ensures
            name@ == self.collection(),
    {
        self.document_client.collection_name()
    }

    fn document_name(&self) -> (name: &'a str)
        ensures
            name@ == self.document(),
    {
        self.document_client.document_name()
    }

    fn attachment_name(&self) -> (name: &'a str)
        ensures
            name@ == self.attachment(),
    {
        self.attachment_name
    }
}

} // verus!
