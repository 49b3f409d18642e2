//! The client of one trigger.
use crate::clients::Client;
use crate::clients::CollectionClient;
use crate::clients::CosmosUriBuilder;
use crate::clients::ResourceType;
use crate::clients::build_collection_path;
use crate::clients::trigger_path;
use crate::request::Method;
use crate::request::Request;
use crate::request::RequestView;
use crate::traits::CollectionTrait;
use crate::traits::CosmosClient;
use crate::traits::TriggerBuilderTrait;
use crate::traits::TriggerTrait;
use vstd::prelude::*;

verus! {

/// The client of one trigger of a collection.
#[derive(Debug)]
pub struct TriggerClient<'a, CUB> where CUB: CosmosUriBuilder {
    collection_client: &'a CollectionClient<'a, CUB>,
    trigger_name: &'a str,
}

impl<'a, CUB> TriggerClient<'a, CUB> where CUB: CosmosUriBuilder {
    /// The address of the service that holds the collection.
    pub closed spec fn service_uri(&self) -> Seq<char> {
        self.collection_client.service_uri()
    }

    /// The name of the database that holds the collection.
    pub closed spec fn database(&self) -> Seq<char> {
        self.collection_client.database()
    }

    /// The name of the collection.
    pub closed spec fn collection(&self) -> Seq<char> {
        self.collection_client.collection()
    }

    /// The name of the trigger.
    pub closed spec fn trigger(&self) -> Seq<char> {
        self.trigger_name@
    }

    pub fn new(
        collection_client: &'a CollectionClient<'a, CUB>,
        trigger_name: &'a str,
    ) -> (client: Self)
        ensures
            client.service_uri() == collection_client.service_uri(),
            client.database() == collection_client.database(),
            client.collection() == collection_client.collection(),
            client.trigger() == trigger_name@,
    {
        TriggerClient { collection_client, trigger_name }
    }

    /// The client of the account at the root of the hierarchy.
    pub fn main_client(&self) -> (client: &Client<CUB>)
        ensures
            client.service_uri() == self.service_uri(),
    {
        self.collection_client.main_client()
    }
}

impl<'a, CUB> TriggerTrait<'a, CUB> for TriggerClient<'a, CUB> where CUB: CosmosUriBuilder {
    fn database_name(&self) -> (name: &'a str)
        ensures
            name@ == self.database(),
    {
        self.collection_client.database_name()
    }

    fn collection_name(&self) -> (name: &'a str)
        ensures
            name@ == self.collection(),
    {
        self.collection_client.collection_name()
    }

    fn trigger_name(&self) -> (name: &'a str)
        ensures
            name@ == self.trigger(),
    {
        self.trigger_name
    }
}

impl<'a, CUB> TriggerBuilderTrait<'a, CUB> for TriggerClient<'a, CUB> where CUB: CosmosUriBuilder {
    fn prepare_request(&self, method: Method, specify_trigger_name: bool) -> (request: Request)
        ensures
            request@ == RequestView::bare(
                self.service_uri(),
                trigger_path(
                    self.database(),
                    self.collection(),
                    if specify_trigger_name {
                        Some(self.trigger())
                    } else {
                        None
                    },
                ),
                method,
                ResourceType::Triggers,
            ),
    {
        let mut path = build_collection_path(self.database_name(), self.collection_name());
        if specify_trigger_name {
            path.append("/triggers/");
            path.append(self.trigger_name());
        } else {
            path.append("/triggers");
        }
        self.main_client().prepare_request(path.as_str(), method, ResourceType::Triggers)
    }
}

} // verus!
