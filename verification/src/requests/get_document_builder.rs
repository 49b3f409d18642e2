//! Looking a document up by its name and partition keys.
use crate::capabilities::ActivityIdOption;
use crate::capabilities::ActivityIdSupport;
use crate::capabilities::ConsistencyLevelOption;
use crate::capabilities::ConsistencyLevelSupport;
use crate::capabilities::DocumentClientRequired;
use crate::capabilities::IfMatchConditionOption;
use crate::capabilities::IfMatchConditionSupport;
use crate::capabilities::IfModifiedSinceOption;
use crate::capabilities::IfModifiedSinceSupport;
use crate::capabilities::PartitionKeysRequired;
use crate::capabilities::UserAgentOption;
use crate::capabilities::UserAgentSupport;
use crate::capabilities::with_consistency_level;
use crate::capabilities::with_if_match_condition;
use crate::capabilities::with_if_modified_since;
use crate::clients::CosmosUriBuilder;
use crate::clients::DocumentClient;
use crate::clients::ResourceType;
use crate::clients::document_path;
use crate::consistency_level::ConsistencyLevel;
use crate::consistency_level::ConsistencyLevelView;
use crate::date_time::UtcDateTime;
use crate::headers::ACTIVITY_ID;
use crate::headers::HEADER_DOCUMENTDB_PARTITIONKEY;
use crate::headers::USER_AGENT;
use crate::modify_conditions::IfMatchCondition;
use crate::modify_conditions::IfMatchConditionView;
use crate::partition_keys::PartitionKeys;
use crate::partition_keys::json_array;
use crate::request::Method;
use crate::request::Request;
use crate::request::RequestView;
use crate::text::text_of;
use crate::traits::DocumentBuilderTrait;
use crate::traits::DocumentTrait;
use vstd::prelude::*;

verus! {

/// What a lookup of a document has been told so far.
pub struct GetDocumentModel {
    pub service_uri: Seq<char>,
    pub database: Seq<char>,
    pub collection: Seq<char>,
    pub document_name: Seq<char>,
    pub partition_keys: Seq<Seq<char>>,
    pub if_match_condition: Option<IfMatchConditionView>,
    pub if_modified_since: Option<int>,
    pub user_agent: Option<Seq<char>>,
    pub activity_id: Option<Seq<char>>,
    pub consistency_level: Option<ConsistencyLevelView>,
}

impl GetDocumentModel {
    /// The lookup with every option absent.
    pub open spec fn initial(
        service_uri: Seq<char>,
        database: Seq<char>,
        collection: Seq<char>,
        document_name: Seq<char>,
        partition_keys: Seq<Seq<char>>,
    ) -> Self {
        GetDocumentModel {
            service_uri,
            database,
            collection,
            document_name,
            partition_keys,
            if_match_condition: None,
            if_modified_since: None,
            user_agent: None,
            activity_id: None,
            consistency_level: None,
        }
    }

    pub open spec fn with_if_match_condition(
        self,
        if_match_condition: IfMatchConditionView,
    ) -> Self {
        GetDocumentModel { if_match_condition: Some(if_match_condition), ..self }
    }

    pub open spec fn with_if_modified_since(self, if_modified_since: int) -> Self {
        GetDocumentModel { if_modified_since: Some(if_modified_since), ..self }
    }

    pub open spec fn with_user_agent(self, user_agent: Seq<char>) -> Self {
        GetDocumentModel { user_agent: Some(user_agent), ..self }
    }

    pub open spec fn with_activity_id(self, activity_id: Seq<char>) -> Self {
        GetDocumentModel { activity_id: Some(activity_id), ..self }
    }

    pub open spec fn with_consistency_level(self, consistency_level: ConsistencyLevelView) -> Self {
        GetDocumentModel { consistency_level: Some(consistency_level), ..self }
    }

    /// The headers that the parameters contribute to `request`, in the order
    /// in which they are added.
    pub open spec fn add_headers(self, request: RequestView) -> RequestView {
        let request = with_if_match_condition(request, self.if_match_condition);
        let request = with_if_modified_since(request, self.if_modified_since);
        let request = request.with_optional_header(USER_AGENT@, self.user_agent);
        let request = request.with_optional_header(ACTIVITY_ID@, self.activity_id);
        let request = with_consistency_level(request, self.consistency_level);
        request.with_header(HEADER_DOCUMENTDB_PARTITIONKEY@, json_array(self.partition_keys))
    }

    /// The request that looks the document up: a `GET` of the document's path,
    /// with the headers of the options that are present, the partition keys
    /// and no body.
    pub open spec fn request(self) -> RequestView {
        self.add_headers(
            RequestView::bare(
                self.service_uri,
                document_path(self.database, self.collection, self.document_name),
                Method::Get,
                ResourceType::Documents,
            ),
        )
    }
}

/// The builder of the request that looks a document up. The document's name
/// and partition keys come from its client; nothing else is mandatory, so
/// the request can be had at any time.
#[derive(Debug)]
pub struct GetDocumentBuilder<'a, 'b, CUB> where CUB: CosmosUriBuilder {
    document_client: &'a DocumentClient<'a, CUB>,
    if_match_condition: Option<IfMatchCondition<'b>>,
    if_modified_since: Option<&'b UtcDateTime>,
    user_agent: Option<&'b str>,
    activity_id: Option<&'b str>,
    consistency_level: Option<ConsistencyLevel<'b>>,
}

impl<'a, 'b, CUB> View for GetDocumentBuilder<'a, 'b, CUB> where CUB: CosmosUriBuilder {
    type V = GetDocumentModel;

    closed spec fn view(&self) -> GetDocumentModel {
        GetDocumentModel {
            service_uri: self.document_client.service_uri(),
            database: self.document_client.database(),
            collection: self.document_client.collection(),
            document_name: self.document_client.document(),
            partition_keys: self.document_client.keys(),
            if_match_condition: match self.if_match_condition {
                Some(condition) => Some(condition@),
                None => None,
            },
            if_modified_since: match self.if_modified_since {
                Some(since) => Some(since@),
                None => None,
            },
            user_agent: text_of(self.user_agent),
            activity_id: text_of(self.activity_id),
            consistency_level: match self.consistency_level {
                Some(level) => Some(level@),
                None => None,
            },
        }
    }
}

impl<'a, 'b, CUB> GetDocumentBuilder<'a, 'b, CUB> where CUB: CosmosUriBuilder {
    pub fn new(
        document_client: &'a DocumentClient<'a, CUB>,
    ) -> (builder: GetDocumentBuilder<'a, 'b, CUB>)
        ensures
            builder@ == GetDocumentModel::initial(
                document_client.service_uri(),
                document_client.database(),
                document_client.collection(),
                document_client.document(),
                document_client.keys(),
            ),
    {
        GetDocumentBuilder {
            document_client,
            if_match_condition: None,
            if_modified_since: None,
            user_agent: None,
            activity_id: None,
            consistency_level: None,
        }
    }
}

impl<'a, 'b, CUB> Clone for GetDocumentBuilder<'a, 'b, CUB> where CUB: CosmosUriBuilder {
    fn clone(&self) -> (copy: Self)
        ensures
            copy@ == self@,
    {
        GetDocumentBuilder {
            document_client: self.document_client,
            if_match_condition: self.if_match_condition,
            if_modified_since: self.if_modified_since,
            user_agent: self.user_agent,
            activity_id: self.activity_id,
            consistency_level: self.consistency_level,
        }
    }
}

impl<'a, 'b, CUB> GetDocumentBuilder<'a, 'b, CUB> where CUB: CosmosUriBuilder {
    /// The request that looks the document up.
    pub fn request(&self) -> (request: Request)
        ensures
            request@ == self@.request(),
    {
        let mut req = self.document_client.prepare_request(Method::Get);
        req = IfMatchConditionOption::add_header(self, req);
        req = IfModifiedSinceOption::add_header(self, req);
        req = UserAgentOption::add_header(self, req);
        req = ActivityIdOption::add_header(self, req);
        req = ConsistencyLevelOption::add_header(self, req);
        req = PartitionKeysRequired::add_header(self, req);
        req
    }
}

impl<'a, 'b, CUB> DocumentClientRequired<'a, CUB>
    for GetDocumentBuilder<'a, 'b, CUB>
where
    CUB: CosmosUriBuilder,
{
    fn document_client(&self) -> (client: &'a DocumentClient<'a, CUB>)
        ensures
            client.service_uri() == self@.service_uri,
            client.database() == self@.database,
            client.collection() == self@.collection,
            client.document() == self@.document_name,
            client.keys() == self@.partition_keys,
    {
        self.document_client
    }
}

impl<'a, 'b, CUB> PartitionKeysRequired<'a>
    for GetDocumentBuilder<'a, 'b, CUB>
where
    CUB: CosmosUriBuilder,
{
    open spec fn partition_keys_value(&self) -> Seq<Seq<char>> {
        self@.partition_keys
    }

    fn partition_keys(&self) -> (partition_keys: &'a PartitionKeys) {
        self.document_client.partition_keys()
    }
}

impl<'a, 'b, CUB> IfMatchConditionOption<'b>
    for GetDocumentBuilder<'a, 'b, CUB>
where
    CUB: CosmosUriBuilder,
{
    open spec fn if_match_condition_value(&self) -> Option<IfMatchConditionView> {
        self@.if_match_condition
    }

    fn if_match_condition(&self) -> (if_match_condition: Option<IfMatchCondition<'b>>) {
        self.if_match_condition
    }
}

impl<'a, 'b, CUB> IfModifiedSinceOption<'b>
    for GetDocumentBuilder<'a, 'b, CUB>
where
    CUB: CosmosUriBuilder,
{
    open spec fn if_modified_since_value(&self) -> Option<int> {
        self@.if_modified_since
    }

    fn if_modified_since(&self) -> (if_modified_since: Option<&'b UtcDateTime>) {
        self.if_modified_since
    }
}

impl<'a, 'b, CUB> UserAgentOption<'b>
    for GetDocumentBuilder<'a, 'b, CUB>
where
    CUB: CosmosUriBuilder,
{
    open spec fn user_agent_value(&self) -> Option<Seq<char>> {
        self@.user_agent
    }

    fn user_agent(&self) -> (user_agent: Option<&'b str>) {
        self.user_agent
    }
}

impl<'a, 'b, CUB> ActivityIdOption<'b>
    for GetDocumentBuilder<'a, 'b, CUB>
where
    CUB: CosmosUriBuilder,
{
    open spec fn activity_id_value(&self) -> Option<Seq<char>> {
        self@.activity_id
    }

    fn activity_id(&self) -> (activity_id: Option<&'b str>) {
        self.activity_id
    }
}

impl<'a, 'b, CUB> ConsistencyLevelOption<'b>
    for GetDocumentBuilder<'a, 'b, CUB>
where
    CUB: CosmosUriBuilder,
{
    open spec fn consistency_level_value(&self) -> Option<ConsistencyLevelView> {
        self@.consistency_level
    }

    fn consistency_level(&self) -> (consistency_level: Option<ConsistencyLevel<'b>>) {
        self.consistency_level
    }
}

impl<'a, 'b, CUB> IfMatchConditionSupport<'b>
    for GetDocumentBuilder<'a, 'b, CUB>
where
    CUB: CosmosUriBuilder,
{
    type O = GetDocumentBuilder<'a, 'b, CUB>;

    fn with_if_match_condition(self, if_match_condition: IfMatchCondition<'b>) -> (out: Self::O)
        ensures
            out@ == self@.with_if_match_condition(if_match_condition@),
    {
        GetDocumentBuilder {
            document_client: self.document_client,
            if_match_condition: Some(if_match_condition),
            if_modified_since: self.if_modified_since,
            user_agent: self.user_agent,
            activity_id: self.activity_id,
            consistency_level: self.consistency_level,
        }
    }
}

impl<'a, 'b, CUB> IfModifiedSinceSupport<'b>
    for GetDocumentBuilder<'a, 'b, CUB>
where
    CUB: CosmosUriBuilder,
{
    type O = GetDocumentBuilder<'a, 'b, CUB>;

    fn with_if_modified_since(self, if_modified_since: &'b UtcDateTime) -> (out: Self::O)
        ensures
            out@ == self@.with_if_modified_since(if_modified_since@),
    {
        GetDocumentBuilder {
            document_client: self.document_client,
            if_match_condition: self.if_match_condition,
            if_modified_since: Some(if_modified_since),
            user_agent: self.user_agent,
            activity_id: self.activity_id,
            consistency_level: self.consistency_level,
        }
    }
}

impl<'a, 'b, CUB> UserAgentSupport<'b>
    for GetDocumentBuilder<'a, 'b, CUB>
where
    CUB: CosmosUriBuilder,
{
    type O = GetDocumentBuilder<'a, 'b, CUB>;

    fn with_user_agent(self, user_agent: &'b str) -> (out: Self::O)
        ensures
            out@ == self@.with_user_agent(user_agent@),
    {
        GetDocumentBuilder {
            document_client: self.document_client,
            if_match_condition: self.if_match_condition,
            if_modified_since: self.if_modified_since,
            user_agent: Some(user_agent),
            activity_id: self.activity_id,
            consistency_level: self.consistency_level,
        }
    }
}

impl<'a, 'b, CUB> ActivityIdSupport<'b>
    for GetDocumentBuilder<'a, 'b, CUB>
where
    CUB: CosmosUriBuilder,
{
    type O = GetDocumentBuilder<'a, 'b, CUB>;

    fn with_activity_id(self, activity_id: &'b str) -> (out: Self::O)
        ensures
            out@ == self@.with_activity_id(activity_id@),
    {
        GetDocumentBuilder {
            document_client: self.document_client,
            if_match_condition: self.if_match_condition,
            if_modified_since: self.if_modified_since,
            user_agent: self.user_agent,
            activity_id: Some(activity_id),
            consistency_level: self.consistency_level,
        }
    }
}

impl<'a, 'b, CUB> ConsistencyLevelSupport<'b>
    for GetDocumentBuilder<'a, 'b, CUB>
where
    CUB: CosmosUriBuilder,
{
    type O = GetDocumentBuilder<'a, 'b, CUB>;

    fn with_consistency_level(self, consistency_level: ConsistencyLevel<'b>) -> (out: Self::O)
        ensures
            out@ == self@.with_consistency_level(consistency_level@),
    {
        GetDocumentBuilder {
            document_client: self.document_client,
            if_match_condition: self.if_match_condition,
            if_modified_since: self.if_modified_since,
            user_agent: self.user_agent,
            activity_id: self.activity_id,
            consistency_level: Some(consistency_level),
        }
    }
}

} // verus!
