//! The client of one user defined function.
use crate::clients::build_collection_path;
use crate::clients::user_defined_function_path;
use crate::clients::Client;
use crate::clients::CollectionClient;
use crate::clients::CosmosUriBuilder;
use crate::clients::ResourceType;
use crate::request::Method;
use crate::request::Request;
use crate::request::RequestView;
use crate::requests::DeleteUserDefinedFunctionBuilder;
use crate::traits::CollectionTrait;
use crate::traits::CosmosClient;
use crate::traits::UserDefinedFunctionBuilderTrait;
use crate::traits::UserDefinedFunctionTrait;
use vstd::prelude::*;

verus! {

/// The client of one user defined function of a collection.
#[derive(Debug)]
pub struct UserDefinedFunctionClient<'a, CUB> where CUB: CosmosUriBuilder {
    collection_client: &'a CollectionClient<'a, CUB>,
    user_defined_function_name: &'a str,
}

impl<'a, CUB> UserDefinedFunctionClient<'a, CUB> where CUB: CosmosUriBuilder {
    /// The address of the service that holds the function.
    pub closed spec fn service_uri(&self) -> Seq<char> {
        self.collection_client.service_uri()
    }

    /// The name of the database that holds the function.
    pub closed spec fn database(&self) -> Seq<char> {
        self.collection_client.database()
    }

    /// The name of the collection that holds the function.
    pub closed spec fn collection(&self) -> Seq<char> {
        self.collection_client.collection()
    }

    /// The name of the function.
    pub closed spec fn user_defined_function(&self) -> Seq<char> {
        self.user_defined_function_name@
    }

    pub fn new(
        collection_client: &'a CollectionClient<'a, CUB>,
        user_defined_function_name: &'a str,
    ) -> (client: Self)
        ensures
            client.service_uri() == collection_client.service_uri(),
            client.database() == collection_client.database(),
            client.collection() == collection_client.collection(),
            client.user_defined_function() == user_defined_function_name@,
    {
        UserDefinedFunctionClient { collection_client, user_defined_function_name }
    }

    /// The client of the account that holds the function.
    pub fn main_client(&self) -> (client: &Client<CUB>)
        ensures
            client.service_uri() == self.service_uri(),
    {
        self.collection_client.main_client()
    }

    /// Starts the deletion of the function.
    pub fn delete_user_defined_function(&self) -> (builder: DeleteUserDefinedFunctionBuilder<
        '_,
        CUB,
    >)
        ensures
            builder@ == crate::requests::DeleteUserDefinedFunctionModel::initial(
                self.service_uri(),
                self.database(),
                self.collection(),
                self.user_defined_function(),
            ),
    {
        DeleteUserDefinedFunctionBuilder::new(self)
    }
}

impl<'a, CUB> UserDefinedFunctionTrait<'a, CUB> for UserDefinedFunctionClient<'a, CUB> where
    CUB: CosmosUriBuilder,
 {
    fn database_name(&self) -> (name: &'a str)
        ensures
            name@ == self.database(),
    {
        self.collection_client.database_name()
    }

    fn collection_name(&self) -> (name: &'a str)
        ensures
            name@ == self.collection(),
    {
        self.collection_client.collection_name()
    }

    fn user_defined_function_name(&self) -> (name: &'a str)
        ensures
            name@ == self.user_defined_function(),
    {
        self.user_defined_function_name
    }
}

impl<'a, CUB> UserDefinedFunctionBuilderTrait<'a, CUB> for UserDefinedFunctionClient<
    'a,
    CUB,
> where CUB: CosmosUriBuilder {
    fn prepare_request(&self, method: Method, specify_user_defined_function_name: bool) -> (request:
        Request)
        ensures
            request@ == RequestView::bare(
                self.service_uri(),
                user_defined_function_path(
                    self.database(),
                    self.collection(),
                    if specify_user_defined_function_name {
                        Some(self.user_defined_function())
                    } else {
                        None
                    },
                ),
                method,
                ResourceType::UserDefinedFunctions,
            ),
    {
        let mut path = build_collection_path(self.database_name(), self.collection_name());
        if specify_user_defined_function_name {
            path.append("/udfs/");
            path.append(self.user_defined_function_name());
        } else {
            path.append("/udfs");
        }
        self.main_client().prepare_request(
            path.as_str(),
            method,
            ResourceType::UserDefinedFunctions,
        )
    }
}

} // verus!
