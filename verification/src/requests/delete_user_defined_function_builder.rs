//! Deleting a user defined function.
use crate::capabilities::with_consistency_level;
use crate::capabilities::ActivityIdOption;
use crate::capabilities::ActivityIdSupport;
use crate::capabilities::ConsistencyLevelOption;
use crate::capabilities::ConsistencyLevelSupport;
use crate::capabilities::UserAgentOption;
use crate::capabilities::UserAgentSupport;
use crate::capabilities::UserDefinedFunctionClientRequired;
use crate::clients::user_defined_function_path;
use crate::clients::CosmosUriBuilder;
use crate::clients::ResourceType;
use crate::clients::UserDefinedFunctionClient;
use crate::consistency_level::ConsistencyLevel;
use crate::consistency_level::ConsistencyLevelView;
use crate::headers::ACTIVITY_ID;
use crate::headers::USER_AGENT;
use crate::request::Method;
use crate::request::Request;
use crate::request::RequestView;
use crate::text::text_of;
use crate::traits::UserDefinedFunctionBuilderTrait;
use vstd::prelude::*;

verus! {

/// What a deletion of a user defined function has been told so far.
pub struct DeleteUserDefinedFunctionModel {
    pub service_uri: Seq<char>,
    pub database: Seq<char>,
    pub collection: Seq<char>,
    pub user_defined_function: Seq<char>,
    pub user_agent: Option<Seq<char>>,
    pub activity_id: Option<Seq<char>>,
    pub consistency_level: Option<ConsistencyLevelView>,
}

impl DeleteUserDefinedFunctionModel {
    /// The deletion of a function with every option absent.
    pub open spec fn initial(
        service_uri: Seq<char>,
        database: Seq<char>,
        collection: Seq<char>,
        user_defined_function: Seq<char>,
    ) -> Self {
        DeleteUserDefinedFunctionModel {
            service_uri,
            database,
            collection,
            user_defined_function,
            user_agent: None,
            activity_id: None,
            consistency_level: None,
        }
    }

    pub open spec fn with_user_agent(self, user_agent: Seq<char>) -> Self {
        DeleteUserDefinedFunctionModel { user_agent: Some(user_agent), ..self }
    }

    pub open spec fn with_activity_id(self, activity_id: Seq<char>) -> Self {
        DeleteUserDefinedFunctionModel { activity_id: Some(activity_id), ..self }
    }

    pub open spec fn with_consistency_level(self, consistency_level: ConsistencyLevelView) -> Self {
        DeleteUserDefinedFunctionModel { consistency_level: Some(consistency_level), ..self }
    }

    /// The request that carries out the deletion: a `DELETE` of the function's
    /// path, with the headers of the options that are present and no body.
    pub open spec fn request(self) -> RequestView {
        with_consistency_level(
            RequestView::bare(
                self.service_uri,
                user_defined_function_path(
                    self.database,
                    self.collection,
                    Some(self.user_defined_function),
                ),
                Method::Delete,
                ResourceType::UserDefinedFunctions,
            ).with_optional_header(USER_AGENT@, self.user_agent).with_optional_header(
                ACTIVITY_ID@,
                self.activity_id,
            ),
            self.consistency_level,
        )
    }
}

/// The builder of the request that deletes a user defined function. Nothing
/// is mandatory, so the request can be had at any time.
#[derive(Debug)]
pub struct DeleteUserDefinedFunctionBuilder<'a, CUB> where CUB: CosmosUriBuilder {
    user_defined_function_client: &'a UserDefinedFunctionClient<'a, CUB>,
    user_agent: Option<&'a str>,
    activity_id: Option<&'a str>,
    consistency_level: Option<ConsistencyLevel<'a>>,
}

impl<'a, CUB> View for DeleteUserDefinedFunctionBuilder<'a, CUB> where CUB: CosmosUriBuilder {
    type V = DeleteUserDefinedFunctionModel;

    closed spec fn view(&self) -> DeleteUserDefinedFunctionModel {
        DeleteUserDefinedFunctionModel {
            service_uri: self.user_defined_function_client.service_uri(),
            database: self.user_defined_function_client.database(),
            collection: self.user_defined_function_client.collection(),
            user_defined_function: self.user_defined_function_client.user_defined_function(),
            user_agent: text_of(self.user_agent),
            activity_id: text_of(self.activity_id),
            consistency_level: match self.consistency_level {
                Some(level) => Some(level@),
                None => None,
            },
        }
    }
}

impl<'a, CUB> DeleteUserDefinedFunctionBuilder<'a, CUB> where CUB: CosmosUriBuilder {
    pub fn new(user_defined_function_client: &'a UserDefinedFunctionClient<'a, CUB>) -> (builder:
        DeleteUserDefinedFunctionBuilder<'a, CUB>)
        ensures
            builder@ == DeleteUserDefinedFunctionModel::initial(
                user_defined_function_client.service_uri(),
                user_defined_function_client.database(),
                user_defined_function_client.collection(),
                user_defined_function_client.user_defined_function(),
            ),
    {
        DeleteUserDefinedFunctionBuilder {
            user_defined_function_client,
            user_agent: None,
            activity_id: None,
            consistency_level: None,
        }
    }

    /// The request that carries out the deletion.
    pub fn request(&self) -> (request: Request)
        ensures
            request@ == self@.request(),
    {
        let req = self.user_defined_function_client.prepare_request(Method::Delete, true);
        let req = UserAgentOption::add_header(self, req);
        let req = ActivityIdOption::add_header(self, req);
        let req = ConsistencyLevelOption::add_header(self, req);
        req
    }
}

impl<'a, CUB> Clone for DeleteUserDefinedFunctionBuilder<'a, CUB> where CUB: CosmosUriBuilder {
    fn clone(&self) -> (copy: Self)
        ensures
            copy@ == self@,
    {
        DeleteUserDefinedFunctionBuilder {
            user_defined_function_client: self.user_defined_function_client,
            user_agent: self.user_agent,
            activity_id: self.activity_id,
            consistency_level: self.consistency_level,
        }
    }
}

impl<'a, CUB> UserDefinedFunctionClientRequired<'a, CUB> for DeleteUserDefinedFunctionBuilder<
    'a,
    CUB,
> where CUB: CosmosUriBuilder {
    fn user_defined_function_client(&self) -> (client: &'a UserDefinedFunctionClient<'a, CUB>)
        ensures
            client.service_uri() == self@.service_uri,
            client.database() == self@.database,
            client.collection() == self@.collection,
            client.user_defined_function() == self@.user_defined_function,
    {
        self.user_defined_function_client
    }
}

impl<'a, CUB> UserAgentOption<'a> for DeleteUserDefinedFunctionBuilder<'a, CUB> where
    CUB: CosmosUriBuilder,
 {
    open spec fn user_agent_value(&self) -> Option<Seq<char>> {
        self@.user_agent
    }

    fn user_agent(&self) -> (user_agent: Option<&'a str>) {
        self.user_agent
    }
}

impl<'a, CUB> ActivityIdOption<'a> for DeleteUserDefinedFunctionBuilder<'a, CUB> where
    CUB: CosmosUriBuilder,
 {
    open spec fn activity_id_value(&self) -> Option<Seq<char>> {
        self@.activity_id
    }

    fn activity_id(&self) -> (activity_id: Option<&'a str>) {
        self.activity_id
    }
}

impl<'a, CUB> ConsistencyLevelOption<'a> for DeleteUserDefinedFunctionBuilder<'a, CUB> where
    CUB: CosmosUriBuilder,
 {
    open spec fn consistency_level_value(&self) -> Option<ConsistencyLevelView> {
        self@.consistency_level
    }

    fn consistency_level(&self) -> (consistency_level: Option<ConsistencyLevel<'a>>) {
        self.consistency_level
    }
}

impl<'a, CUB> UserAgentSupport<'a> for DeleteUserDefinedFunctionBuilder<'a, CUB> where
    CUB: CosmosUriBuilder,
 {
    type O = DeleteUserDefinedFunctionBuilder<'a, CUB>;

    fn with_user_agent(self, user_agent: &'a str) -> (out: Self::O)
        ensures
            out@ == self@.with_user_agent(user_agent@),
    {
        DeleteUserDefinedFunctionBuilder {
            user_defined_function_client: self.user_defined_function_client,
            user_agent: Some(user_agent),
            activity_id: self.activity_id,
            consistency_level: self.consistency_level,
        }
    }
}

impl<'a, CUB> ActivityIdSupport<'a> for DeleteUserDefinedFunctionBuilder<'a, CUB> where
    CUB: CosmosUriBuilder,
 {
    type O = DeleteUserDefinedFunctionBuilder<'a, CUB>;

    fn with_activity_id(self, activity_id: &'a str) -> (out: Self::O)
        ensures
            out@ == self@.with_activity_id(activity_id@),
    {
        DeleteUserDefinedFunctionBuilder {
            user_defined_function_client: self.user_defined_function_client,
            user_agent: self.user_agent,
            activity_id: Some(activity_id),
            consistency_level: self.consistency_level,
        }
    }
}

impl<'a, CUB> ConsistencyLevelSupport<'a> for DeleteUserDefinedFunctionBuilder<'a, CUB> where
    CUB: CosmosUriBuilder,
 {
    type O = DeleteUserDefinedFunctionBuilder<'a, CUB>;

    fn with_consistency_level(self, consistency_level: ConsistencyLevel<'a>) -> (out: Self::O)
        ensures
            out@ == self@.with_consistency_level(consistency_level@),
    {
        DeleteUserDefinedFunctionBuilder {
            user_defined_function_client: self.user_defined_function_client,
            user_agent: self.user_agent,
            activity_id: self.activity_id,
            consistency_level: Some(consistency_level),
        }
    }
}

} // verus!
