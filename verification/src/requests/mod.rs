//! One builder per operation.
pub mod create_document_builder;
pub mod delete_user_defined_function_builder;
pub mod get_document_builder;
pub mod list_documents_builder;
pub mod replace_document_builder;

pub use create_document_builder::CreateDocumentBuilder;
pub use create_document_builder::CreateDocumentModel;
pub use delete_user_defined_function_builder::DeleteUserDefinedFunctionBuilder;
pub use delete_user_defined_function_builder::DeleteUserDefinedFunctionModel;
pub use get_document_builder::GetDocumentBuilder;
pub use get_document_builder::GetDocumentModel;
pub use list_documents_builder::ListDocumentsBuilder;
pub use list_documents_builder::ListDocumentsModel;
pub use replace_document_builder::ReplaceDocumentBuilder;
pub use replace_document_builder::ReplaceDocumentModel;
