//! Listing the documents of a collection, page by page.
use crate::capabilities::ActivityIdOption;
use crate::capabilities::ActivityIdSupport;
use crate::capabilities::CollectionClientRequired;
use crate::capabilities::ConsistencyLevelOption;
use crate::capabilities::ConsistencyLevelSupport;
use crate::capabilities::ContinuationOption;
use crate::capabilities::ContinuationSupport;
use crate::capabilities::IfMatchConditionOption;
use crate::capabilities::IfMatchConditionSupport;
use crate::capabilities::MaxItemCountOption;
use crate::capabilities::MaxItemCountSupport;
use crate::capabilities::UserAgentOption;
use crate::capabilities::UserAgentSupport;
use crate::capabilities::with_consistency_level;
use crate::capabilities::with_if_match_condition;
use crate::capabilities::with_max_item_count;
use crate::clients::CollectionClient;
use crate::clients::CosmosUriBuilder;
use crate::clients::ResourceType;
use crate::clients::build_collection_path;
use crate::clients::documents_path;
use crate::consistency_level::ConsistencyLevel;
use crate::consistency_level::ConsistencyLevelView;
use crate::headers::ACTIVITY_ID;
use crate::headers::HEADER_CONTINUATION;
use crate::headers::USER_AGENT;
use crate::modify_conditions::IfMatchCondition;
use crate::modify_conditions::IfMatchConditionView;
use crate::request::Method;
use crate::request::Request;
use crate::request::RequestView;
use crate::text::text_of;
use crate::traits::CollectionTrait;
use crate::traits::CosmosClient;
use vstd::prelude::*;

verus! {

/// What a listing of documents has been told so far.
pub struct ListDocumentsModel {
    pub service_uri: Seq<char>,
    pub database: Seq<char>,
    pub collection: Seq<char>,
    pub if_match_condition: Option<IfMatchConditionView>,
    pub user_agent: Option<Seq<char>>,
    pub activity_id: Option<Seq<char>>,
    pub consistency_level: Option<ConsistencyLevelView>,
    pub continuation: Option<Seq<char>>,
    pub max_item_count: Option<u32>,
}

impl ListDocumentsModel {
    /// The listing with every option absent: it asks for the first page and
    /// leaves the size of the page to the service.
    pub open spec fn initial(
        service_uri: Seq<char>,
        database: Seq<char>,
        collection: Seq<char>,
    ) -> Self {
        ListDocumentsModel {
            service_uri,
            database,
            collection,
            if_match_condition: None,
            user_agent: None,
            activity_id: None,
            consistency_level: None,
            continuation: None,
            max_item_count: None,
        }
    }

    pub open spec fn with_if_match_condition(
        self,
        if_match_condition: IfMatchConditionView,
    ) -> Self {
        ListDocumentsModel { if_match_condition: Some(if_match_condition), ..self }
    }

    pub open spec fn with_user_agent(self, user_agent: Seq<char>) -> Self {
        ListDocumentsModel { user_agent: Some(user_agent), ..self }
    }

    pub open spec fn with_activity_id(self, activity_id: Seq<char>) -> Self {
        ListDocumentsModel { activity_id: Some(activity_id), ..self }
    }

    pub open spec fn with_consistency_level(self, consistency_level: ConsistencyLevelView) -> Self {
        ListDocumentsModel { consistency_level: Some(consistency_level), ..self }
    }

    pub open spec fn with_continuation(self, continuation: Seq<char>) -> Self {
        ListDocumentsModel { continuation: Some(continuation), ..self }
    }

    pub open spec fn with_max_item_count(self, max_item_count: u32) -> Self {
        ListDocumentsModel { max_item_count: Some(max_item_count), ..self }
    }

    /// The headers that the parameters contribute to `request`, in the order
    /// in which they are added.
    pub open spec fn add_headers(self, request: RequestView) -> RequestView {
        let request = with_if_match_condition(request, self.if_match_condition);
        let request = request.with_optional_header(USER_AGENT@, self.user_agent);
        let request = request.with_optional_header(ACTIVITY_ID@, self.activity_id);
        let request = with_consistency_level(request, self.consistency_level);
        let request = request.with_optional_header(HEADER_CONTINUATION@, self.continuation);
        with_max_item_count(request, self.max_item_count)
    }

    /// The request that asks for one page: a `GET` of the documents of the
    /// collection, with the headers of the options that are present and no
    /// body.
    pub open spec fn request(self) -> RequestView {
        self.add_headers(
            RequestView::bare(
                self.service_uri,
                documents_path(self.database, self.collection),
                Method::Get,
                ResourceType::Documents,
            ),
        )
    }
}

/// The builder of the request that lists the documents of a collection.
/// Nothing is mandatory, so the request can be had at any time.
#[derive(Debug)]
pub struct ListDocumentsBuilder<'a, 'b, CUB> where CUB: CosmosUriBuilder {
    collection_client: &'a CollectionClient<'a, CUB>,
    if_match_condition: Option<IfMatchCondition<'b>>,
    user_agent: Option<&'b str>,
    activity_id: Option<&'b str>,
    consistency_level: Option<ConsistencyLevel<'b>>,
    continuation: Option<&'b str>,
    max_item_count: Option<u32>,
}

impl<'a, 'b, CUB> View for ListDocumentsBuilder<'a, 'b, CUB> where CUB: CosmosUriBuilder {
    type V = ListDocumentsModel;

    closed spec fn view(&self) -> ListDocumentsModel {
        ListDocumentsModel {
            service_uri: self.collection_client.service_uri(),
            database: self.collection_client.database(),
            collection: self.collection_client.collection(),
            if_match_condition: match self.if_match_condition {
                Some(condition) => Some(condition@),
                None => None,
            },
            user_agent: text_of(self.user_agent),
            activity_id: text_of(self.activity_id),
            consistency_level: match self.consistency_level {
                Some(level) => Some(level@),
                None => None,
            },
            continuation: text_of(self.continuation),
            max_item_count: self.max_item_count,
        }
    }
}

impl<'a, 'b, CUB> ListDocumentsBuilder<'a, 'b, CUB> where CUB: CosmosUriBuilder {
    pub fn new(
        collection_client: &'a CollectionClient<'a, CUB>,
    ) -> (builder: ListDocumentsBuilder<'a, 'b, CUB>)
        ensures
            builder@ == ListDocumentsModel::initial(
                collection_client.service_uri(),
                collection_client.database(),
                collection_client.collection(),
            ),
    {
        ListDocumentsBuilder {
            collection_client,
            if_match_condition: None,
            user_agent: None,
            activity_id: None,
            consistency_level: None,
            continuation: None,
            max_item_count: None,
        }
    }
}

impl<'a, 'b, CUB> Clone for ListDocumentsBuilder<'a, 'b, CUB> where CUB: CosmosUriBuilder {
    fn clone(&self) -> (copy: Self)
        ensures
            copy@ == self@,
    {
        ListDocumentsBuilder {
            collection_client: self.collection_client,
            if_match_condition: self.if_match_condition,
            user_agent: self.user_agent,
            activity_id: self.activity_id,
            consistency_level: self.consistency_level,
            continuation: self.continuation,
            max_item_count: self.max_item_count,
        }
    }
}

impl<'a, 'b, CUB> ListDocumentsBuilder<'a, 'b, CUB> where CUB: CosmosUriBuilder {
    /// The request that asks for one page.
    pub fn request(&self) -> (request: Request)
        ensures
            request@ == self@.request(),
    {
        let mut path = build_collection_path(
            self.collection_client.database_name(),
            self.collection_client.collection_name(),
        );
        path.append("/docs");
        let mut req = self.collection_client.main_client().prepare_request(
            path.as_str(),
            Method::Get,
            ResourceType::Documents,
        );
        req = IfMatchConditionOption::add_header(self, req);
        req = UserAgentOption::add_header(self, req);
        req = ActivityIdOption::add_header(self, req);
        req = ConsistencyLevelOption::add_header(self, req);
        req = ContinuationOption::add_header(self, req);
        req = MaxItemCountOption::add_header(self, req);
        req
    }
}

impl<'a, 'b, CUB> CollectionClientRequired<'a, CUB>
    for ListDocumentsBuilder<'a, 'b, CUB>
where
    CUB: CosmosUriBuilder,
{
    fn collection_client(&self) -> (client: &'a CollectionClient<'a, CUB>)
        ensures
            client.service_uri() == self@.service_uri,
            client.database() == self@.database,
            client.collection() == self@.collection,
    {
        self.collection_client
    }
}

impl<'a, 'b, CUB> IfMatchConditionOption<'b>
    for ListDocumentsBuilder<'a, 'b, CUB>
where
    CUB: CosmosUriBuilder,
{
    open spec fn if_match_condition_value(&self) -> Option<IfMatchConditionView> {
        self@.if_match_condition
    }

    fn if_match_condition(&self) -> (if_match_condition: Option<IfMatchCondition<'b>>) {
        self.if_match_condition
    }
}

impl<'a, 'b, CUB> UserAgentOption<'b>
    for ListDocumentsBuilder<'a, 'b, CUB>
where
    CUB: CosmosUriBuilder,
{
    open spec fn user_agent_value(&self) -> Option<Seq<char>> {
        self@.user_agent
    }

    fn user_agent(&self) -> (user_agent: Option<&'b str>) {
        self.user_agent
    }
}

impl<'a, 'b, CUB> ActivityIdOption<'b>
    for ListDocumentsBuilder<'a, 'b, CUB>
where
    CUB: CosmosUriBuilder,
{
    open spec fn activity_id_value(&self) -> Option<Seq<char>> {
        self@.activity_id
    }

    fn activity_id(&self) -> (activity_id: Option<&'b str>) {
        self.activity_id
    }
}

impl<'a, 'b, CUB> ConsistencyLevelOption<'b>
    for ListDocumentsBuilder<'a, 'b, CUB>
where
    CUB: CosmosUriBuilder,
{
    open spec fn consistency_level_value(&self) -> Option<ConsistencyLevelView> {
        self@.consistency_level
    }

    fn consistency_level(&self) -> (consistency_level: Option<ConsistencyLevel<'b>>) {
        self.consistency_level
    }
}

impl<'a, 'b, CUB> ContinuationOption<'b>
    for ListDocumentsBuilder<'a, 'b, CUB>
where
    CUB: CosmosUriBuilder,
{
    open spec fn continuation_value(&self) -> Option<Seq<char>> {
        self@.continuation
    }

    fn continuation(&self) -> (continuation: Option<&'b str>) {
        self.continuation
    }
}

impl<'a, 'b, CUB> MaxItemCountOption
    for ListDocumentsBuilder<'a, 'b, CUB>
where
    CUB: CosmosUriBuilder,
{
    open spec fn max_item_count_value(&self) -> Option<u32> {
        self@.max_item_count
    }

    fn max_item_count(&self) -> (max_item_count: Option<u32>) {
        self.max_item_count
    }
}

impl<'a, 'b, CUB> IfMatchConditionSupport<'b>
    for ListDocumentsBuilder<'a, 'b, CUB>
where
    CUB: CosmosUriBuilder,
{
    type O = ListDocumentsBuilder<'a, 'b, CUB>;

    fn with_if_match_condition(self, if_match_condition: IfMatchCondition<'b>) -> (out: Self::O)
        ensures
            out@ == self@.with_if_match_condition(if_match_condition@),
    {
        ListDocumentsBuilder {
            collection_client: self.collection_client,
            if_match_condition: Some(if_match_condition),
            user_agent: self.user_agent,
            activity_id: self.activity_id,
            consistency_level: self.consistency_level,
            continuation: self.continuation,
            max_item_count: self.max_item_count,
        }
    }
}

impl<'a, 'b, CUB> UserAgentSupport<'b>
    for ListDocumentsBuilder<'a, 'b, CUB>
where
    CUB: CosmosUriBuilder,
{
    type O = ListDocumentsBuilder<'a, 'b, CUB>;

    fn with_user_agent(self, user_agent: &'b str) -> (out: Self::O)
        ensures
            out@ == self@.with_user_agent(user_agent@),
    {
        ListDocumentsBuilder {
            collection_client: self.collection_client,
            if_match_condition: self.if_match_condition,
            user_agent: Some(user_agent),
            activity_id: self.activity_id,
            consistency_level: self.consistency_level,
            continuation: self.continuation,
            max_item_count: self.max_item_count,
        }
    }
}

impl<'a, 'b, CUB> ActivityIdSupport<'b>
    for ListDocumentsBuilder<'a, 'b, CUB>
where
    CUB: CosmosUriBuilder,
{
    type O = ListDocumentsBuilder<'a, 'b, CUB>;

    fn with_activity_id(self, activity_id: &'b str) -> (out: Self::O)
        ensures
            out@ == self@.with_activity_id(activity_id@),
    {
        ListDocumentsBuilder {
            collection_client: self.collection_client,
            if_match_condition: self.if_match_condition,
            user_agent: self.user_agent,
            activity_id: Some(activity_id),
            consistency_level: self.consistency_level,
            continuation: self.continuation,
            max_item_count: self.max_item_count,
        }
    }
}

impl<'a, 'b, CUB> ConsistencyLevelSupport<'b>
    for ListDocumentsBuilder<'a, 'b, CUB>
where
    CUB: CosmosUriBuilder,
{
    type O = ListDocumentsBuilder<'a, 'b, CUB>;

    fn with_consistency_level(self, consistency_level: ConsistencyLevel<'b>) -> (out: Self::O)
        ensures
            out@ == self@.with_consistency_level(consistency_level@),
    {
        ListDocumentsBuilder {
            collection_client: self.collection_client,
            if_match_condition: self.if_match_condition,
            user_agent: self.user_agent,
            activity_id: self.activity_id,
            consistency_level: Some(consistency_level),
            continuation: self.continuation,
            max_item_count: self.max_item_count,
        }
    }
}

impl<'a, 'b, CUB> ContinuationSupport<'b>
    for ListDocumentsBuilder<'a, 'b, CUB>
where
    CUB: CosmosUriBuilder,
{
    type O = ListDocumentsBuilder<'a, 'b, CUB>;

    fn with_continuation(self, continuation: &'b str) -> (out: Self::O)
        ensures
            out@ == self@.with_continuation(continuation@),
    {
        ListDocumentsBuilder {
            collection_client: self.collection_client,
            if_match_condition: self.if_match_condition,
            user_agent: self.user_agent,
            activity_id: self.activity_id,
            consistency_level: self.consistency_level,
            continuation: Some(continuation),
            max_item_count: self.max_item_count,
        }
    }
}

impl<'a, 'b, CUB> MaxItemCountSupport
    for ListDocumentsBuilder<'a, 'b, CUB>
where
    CUB: CosmosUriBuilder,
{
    type O = ListDocumentsBuilder<'a, 'b, CUB>;

    fn with_max_item_count(self, max_item_count: u32) -> (out: Self::O)
        ensures
            out@ == self@.with_max_item_count(max_item_count),
    {
        ListDocumentsBuilder {
            collection_client: self.collection_client,
            if_match_condition: self.if_match_condition,
            user_agent: self.user_agent,
            activity_id: self.activity_id,
            consistency_level: self.consistency_level,
            continuation: self.continuation,
            max_item_count: Some(max_item_count),
        }
    }
}

} // verus!
