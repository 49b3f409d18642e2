//! The client of one database.
use crate::clients::database_path;
use crate::clients::Client;
use crate::clients::CollectionClient;
use crate::clients::CosmosUriBuilder;
use crate::clients::ResourceType;
use crate::clients::UserClient;
use crate::request::Method;
use crate::request::Request;
use crate::request::RequestView;
use crate::traits::CosmosClient;
use crate::traits::DatabaseTrait;
use vstd::prelude::*;

verus! {

/// The client of one database of an account.
#[derive(Debug)]
pub struct DatabaseClient<'a, CUB> where CUB: CosmosUriBuilder {
    main_client: &'a Client<CUB>,
    database_name: &'a str,
}

impl<'a, CUB> DatabaseClient<'a, CUB> where CUB: CosmosUriBuilder {
    /// The address of the service that holds the database.
    pub closed spec fn service_uri(&self) -> Seq<char> {
        self.main_client.service_uri()
    }

    /// The name of the database.
    pub closed spec fn database(&self) -> Seq<char> {
        self.database_name@
    }

    pub fn new(main_client: &'a Client<CUB>, database_name: &'a str) -> (client: Self)
        ensures
            client.service_uri() == main_client.service_uri(),
            client.database() == database_name@,
    {
        DatabaseClient { main_client, database_name }
    }

    /// The client of the account that holds the database.
    pub fn main_client(&self) -> (client: &'a Client<CUB>)
        ensures
            client.service_uri() == self.service_uri(),
    {
        self.main_client
    }

    /// The client of the collection `collection_name` of this database.
    pub fn with_collection<'c>(&'c self, collection_name: &'c str) -> (collection: CollectionClient<
        'c,
        CUB,
    >)
        ensures
            collection.service_uri() == self.service_uri(),
            collection.database() == self.database(),
            collection.collection() == collection_name@,
    {
        CollectionClient::new(self, collection_name)
    }

    /// The client of the user `user_name` of this database.
    pub fn with_user<'c>(&'c self, user_name: &'c str) -> (client: UserClient<'c, CUB>)
        ensures
            client.service_uri() == self.service_uri(),
            client.database() == self.database(),
            client.user() == user_name@,
    {
        UserClient::new(self, user_name)
    }

    /// Starts a request that addresses the database.
    pub fn prepare_request(&self, method: Method) -> (request: Request)
        ensures
            request@ == RequestView::bare(
                self.service_uri(),
                database_path(self.database()),
                method,
                ResourceType::Databases,
            ),
    {
        let mut path = String::from_str("dbs/");
        path.append(self.database_name);
        self.main_client.prepare_request(path.as_str(), method, ResourceType::Databases)
    }
}

impl<'a, CUB> DatabaseTrait<'a, CUB> for DatabaseClient<'a, CUB> where CUB: CosmosUriBuilder {
    fn database_name(&self) -> (name: &'a str)
        ensures
            name@ == self.database(),
    {
        self.database_name
    }
}

} // verus!
