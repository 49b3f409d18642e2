//! The client of one permission.
use crate::clients::Client;
use crate::clients::CosmosUriBuilder;
use crate::clients::UserClient;
use crate::traits::CosmosClient;
use crate::traits::PermissionTrait;
use crate::traits::UserTrait;
use vstd::prelude::*;

verus! {

/// The client of one permission of a user.
#[derive(Debug)]
pub struct PermissionClient<'a, CUB> where CUB: CosmosUriBuilder {
    user_client: &'a UserClient<'a, CUB>,
    permission_name: &'a str,
}

impl<'a, CUB> PermissionClient<'a, CUB> where CUB: CosmosUriBuilder {
    /// The address of the service that holds the database.
    pub closed spec fn service_uri(&self) -> Seq<char> {
        self.user_client.service_uri()
    }

    /// The name of the database.
    pub closed spec fn database(&self) -> Seq<char> {
        self.user_client.database()
    }

    /// The name of the user.
    pub closed spec fn user(&self) -> Seq<char> {
        self.user_client.user()
    }

    /// The name of the permission.
    pub closed spec fn permission(&self) -> Seq<char> {
        self.permission_name@
    }

    pub fn new(user_client: &'a UserClient<'a, CUB>, permission_name: &'a str) -> (client: Self)
        ensures
            client.service_uri() == user_client.service_uri(),
            client.database() == user_client.database(),
            client.user() == user_client.user(),
            client.permission() == permission_name@,
    {
        PermissionClient { user_client, permission_name }
    }

    /// The client of the account at the root of the hierarchy.
    pub fn main_client(&self) -> (client: &Client<CUB>)
        ensures
            client.service_uri() == self.service_uri(),
    {
        self.user_client.main_client()
    }
}

impl<'a, CUB> PermissionTrait<'a, CUB> for PermissionClient<'a, CUB> where CUB: CosmosUriBuilder {
    fn database_name(&self) -> (name: &'a str)
        ensures
            name@ == self.database(),
    {
        self.user_client.database_name()
    }

    fn user_name(&self) -> (name: &'a str)
        ensures
            name@ == self.user(),
    {
        self.user_client.user_name()
    }

    fn permission_name(&self) -> (name: &'a str)
        ensures
            name@ == self.permission(),
    {
        self.permission_name
    }
}

} // verus!
