//! What the clients of the resource hierarchy have in common.
use crate::clients::CosmosUriBuilder;
use crate::partition_keys::PartitionKeys;
use crate::request::Method;
use crate::request::Request;
use crate::request::ResourceType;
use std::fmt::Debug;
use vstd::prelude::*;

verus! {

/// A client of the service account: it knows where the service is and starts
/// every request.
pub trait CosmosClient {
    /// The address of the service.
    spec fn service_uri(&self) -> Seq<char>;

    /// Starts a request for the resource at `uri_path`: no headers yet, no
    /// body.
    fn prepare_request(
        &self,
        uri_path: &str,
        http_method: Method,
        resource_type: ResourceType,
    ) -> (request: Request)
        ensures
            request@ == crate::request::RequestView::bare(
                self.service_uri(),
                uri_path@,
                http_method,
                resource_type,
            ),
    ;
}

/// Something that knows the client of its account.
pub trait HasCosmosClient<C>: Debug where C: CosmosClient {
    fn cosmos_client(&self) -> &C;
}

/// A client of one database, whatever the client of the account is.
pub trait DatabaseClient<C>: HasCosmosClient<C> where C: CosmosClient {
    fn database_name(&self) -> &str;
}

/// Something that knows the client of its database.
pub trait HasDatabaseClient<C, D>: Debug where C: CosmosClient, D: DatabaseClient<C> {
    fn database_client(&self) -> &D;
}

/// A client of an account that can be turned into the client of one of its
/// databases.
pub trait IntoDatabaseClient<C, D>: Debug where C: CosmosClient, D: DatabaseClient<C> {
    fn with_database(self, database_name: String) -> D;
}

/// A client of one collection, whatever the clients above it are.
pub trait CollectionClient<C, D>: HasDatabaseClient<C, D> where
    C: CosmosClient,
    D: DatabaseClient<C>,
 {
    fn collection_name(&self) -> &str;
}

/// The root of the hierarchy: the client of an account.
pub trait CosmosTrait<CUB> where CUB: CosmosUriBuilder {

}

/// The names that identify a database.
pub trait DatabaseTrait<'a, CUB> where CUB: CosmosUriBuilder {
    fn database_name(&self) -> &'a str;
}

/// The names that identify a collection.
pub trait CollectionTrait<'a, CUB> where CUB: CosmosUriBuilder {
    fn database_name(&self) -> &'a str;

    fn collection_name(&self) -> &'a str;
}

/// Starting a request that addresses a collection.
pub trait CollectionBuilderTrait<'a, CUB>: CollectionTrait<'a, CUB> where
    CUB: CosmosUriBuilder,
 {
    fn prepare_request(&self, method: Method) -> Request;
}

/// The names and the partition keys that identify a document.
pub trait DocumentTrait<'a, CUB> where CUB: CosmosUriBuilder {
    fn database_name(&self) -> &'a str;

    fn collection_name(&self) -> &'a str;

    fn document_name(&self) -> &'a str;

    fn partition_keys(&self) -> &'a PartitionKeys;
}

/// Starting a request that addresses a document.
pub trait DocumentBuilderTrait<'a, CUB>: DocumentTrait<'a, CUB> where
    CUB: CosmosUriBuilder,
 {
    fn prepare_request(&self, method: Method) -> Request;
}

/// The names that identify a stored procedure.
pub trait StoredProcedureTrait<'a, CUB> where CUB: CosmosUriBuilder {
    fn database_name(&self) -> &'a str;

    fn collection_name(&self) -> &'a str;

    fn stored_procedure_name(&self) -> &'a str;
}

/// The names that identify a user defined function.
pub trait UserDefinedFunctionTrait<'a, CUB> where CUB: CosmosUriBuilder {
    fn database_name(&self) -> &'a str;

    fn collection_name(&self) -> &'a str;

    fn user_defined_function_name(&self) -> &'a str;
}

/// Starting a request that addresses one user defined function or, without
/// its name, the functions of its collection.
pub trait UserDefinedFunctionBuilderTrait<'a, CUB>: UserDefinedFunctionTrait<
    'a,
    CUB,
> where CUB: CosmosUriBuilder {
    fn prepare_request(&self, method: Method, specify_user_defined_function_name: bool) -> Request;
}

/// The names that identify a trigger.
pub trait TriggerTrait<'a, CUB> where CUB: CosmosUriBuilder {
    fn database_name(&self) -> &'a str;

    fn collection_name(&self) -> &'a str;

    fn trigger_name(&self) -> &'a str;
}

/// Starting a request that addresses one trigger or, without its name, the
/// triggers of its collection.
pub trait TriggerBuilderTrait<'a, CUB>: TriggerTrait<'a, CUB> where CUB: CosmosUriBuilder {
    fn prepare_request(&self, method: Method, specify_trigger_name: bool) -> Request;
}

/// The names that identify an attachment.
pub trait AttachmentTrait<'a, CUB> where CUB: CosmosUriBuilder {
    fn database_name(&self) -> &'a str;

    fn collection_name(&self) -> &'a str;

    fn document_name(&self) -> &'a str;

    fn attachment_name(&self) -> &'a str;
}

/// The names that identify a user.
pub trait UserTrait<'a, CUB> where CUB: CosmosUriBuilder {
    fn database_name(&self) -> &'a str;

    fn user_name(&self) -> &'a str;
}

/// The names that identify a permission.
pub trait PermissionTrait<'a, CUB> where CUB: CosmosUriBuilder {
    fn database_name(&self) -> &'a str;

    fn user_name(&self) -> &'a str;

    fn permission_name(&self) -> &'a str;
}

} // verus!
