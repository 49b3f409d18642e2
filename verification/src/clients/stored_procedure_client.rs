//! The client of one stored procedure.
use crate::clients::Client;
use crate::clients::CollectionClient;
use crate::clients::CosmosUriBuilder;
use crate::traits::CollectionTrait;
use crate::traits::CosmosClient;
use crate::traits::StoredProcedureTrait;
use vstd::prelude::*;

verus! {

/// The client of one stored procedure of a collection.
#[derive(Debug)]
pub struct StoredProcedureClient<'a, CUB> where CUB: CosmosUriBuilder {
    collection_client: &'a CollectionClient<'a, CUB>,
    stored_procedure_name: &'a str,
}

impl<'a, CUB> StoredProcedureClient<'a, CUB> where CUB: CosmosUriBuilder {
    /// The address of the service that holds the collection.
    pub closed spec fn service_uri(&self) -> Seq<char> {
        self.collection_client.service_uri()
    }

    /// The name of the database that holds the collection.
    pub closed spec fn database(&self) -> Seq<char> {
        self.collection_client.database()
    }

    /// The name of the collection.
    pub closed spec fn collection(&self) -> Seq<char> {
        self.collection_client.collection()
    }

    /// The name of the stored procedure.
    pub closed spec fn stored_procedure(&self) -> Seq<char> {
        self.stored_procedure_name@
    }

    pub fn new(
        collection_client: &'a CollectionClient<'a, CUB>,
        stored_procedure_name: &'a str,
    ) -> (client: Self)
        ensures
            client.service_uri() == collection_client.service_uri(),
            client.database() == collection_client.database(),
            client.collection() == collection_client.collection(),
            client.stored_procedure() == stored_procedure_name@,
    {
        StoredProcedureClient { collection_client, stored_procedure_name }
    }

    /// The client of the account at the root of the hierarchy.
    pub fn main_client(&self) -> (client: &Client<CUB>)
        ensures
            client.service_uri() == self.service_uri(),
    {
        self.collection_client.main_client()
    }
}

impl<'a, CUB> StoredProcedureTrait<'a, CUB> for StoredProcedureClient<'a, CUB> where
    CUB: CosmosUriBuilder,
 {
    fn database_name(&self) -> (name: &'a str)
        ensures
            name@ == self.database(),
    {
        self.collection_client.database_name()
    }

    fn collection_name(&self) -> (name: &'a str)
        ensures
            name@ == self.collection(),
    {
        self.collection_client.collection_name()
    }

    fn stored_procedure_name(&self) -> (name: &'a str)
        ensures
            name@ == self.stored_procedure(),
    {
        self.stored_procedure_name
    }
}

} // verus!
