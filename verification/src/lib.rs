//! Typed request builders and response decoders for the REST interface of a
//! cloud document database.
//!
//! Every operation is a builder whose type records which mandatory parameters
//! have been supplied. A builder turns into a [`request::Request`] only once
//! all of them are present, and a raw response is checked against the
//! operation's expected status before anything is read from it.

pub mod capabilities;
pub mod clients;
pub mod consistency_level;
pub mod date_time;
pub mod document;
pub mod headers;
pub mod indexing_directive;
pub mod laws;
pub mod modify_conditions;
pub mod pagination;
pub mod partition_keys;
pub mod request;
pub mod requests;
pub mod responses;
pub mod text;
pub mod to_assign;
pub mod traits;

pub use to_assign::No;
pub use to_assign::ToAssign;
pub use to_assign::Yes;
pub use traits::AttachmentTrait;
pub use traits::CollectionTrait;
pub use traits::CosmosClient;
pub use traits::CosmosTrait;
pub use traits::DatabaseTrait;
pub use traits::DocumentTrait;
pub use traits::PermissionTrait;
pub use traits::StoredProcedureTrait;
pub use traits::TriggerTrait;
pub use traits::UserDefinedFunctionTrait;
pub use traits::UserTrait;
