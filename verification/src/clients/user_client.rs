//! The client of one user.
use crate::clients::Client;
use crate::clients::CosmosUriBuilder;
use crate::clients::DatabaseClient;
use crate::clients::PermissionClient;
use crate::traits::CosmosClient;
use crate::traits::DatabaseTrait;
use crate::traits::UserTrait;
use vstd::prelude::*;

verus! {

/// The client of one user of a database.
#[derive(Debug)]
pub struct UserClient<'a, CUB> where CUB: CosmosUriBuilder {
    database_client: &'a DatabaseClient<'a, CUB>,
    user_name: &'a str,
}

impl<'a, CUB> UserClient<'a, CUB> where CUB: CosmosUriBuilder {
    /// The address of the service that holds the database.
    pub closed spec fn service_uri(&self) -> Seq<char> {
        self.database_client.service_uri()
    }

    /// The name of the database.
    pub closed spec fn database(&self) -> Seq<char> {
        self.database_client.database()
    }

    /// The name of the user.
    pub closed spec fn user(&self) -> Seq<char> {
        self.user_name@
    }

    pub fn new(database_client: &'a DatabaseClient<'a, CUB>, user_name: &'a str) -> (client: Self)
        ensures
            client.service_uri() == database_client.service_uri(),
            client.database() == database_client.database(),
            client.user() == user_name@,
    {
        UserClient { database_client, user_name }
    }

    /// The client of the account at the root of the hierarchy.
    pub fn main_client(&self) -> (client: &Client<CUB>)
        ensures
            client.service_uri() == self.service_uri(),
    {
        self.database_client.main_client()
    }

    /// The client of the permission `permission_name` of this user.
    pub fn with_permission<'c>(&'c self, permission_name: &'c str) -> (client: PermissionClient<
        'c,
        CUB,
    >)
        ensures
            client.service_uri() == self.service_uri(),
            client.database() == self.database(),
            client.user() == self.user(),
            client.permission() == permission_name@,
    {
        PermissionClient::new(self, permission_name)
    }
}

impl<'a, CUB> UserTrait<'a, CUB> for UserClient<'a, CUB> where CUB: CosmosUriBuilder {
    fn database_name(&self) -> (name: &'a str)
        ensures
            name@ == self.database(),
    {
        self.database_client.database_name()
    }

    fn user_name(&self) -> (name: &'a str)
        ensures
            name@ == self.user(),
    {
        self.user_name
    }
}

} // verus!
