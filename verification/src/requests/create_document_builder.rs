//! Creating a document.
use crate::capabilities::ActivityIdOption;
use crate::capabilities::ActivityIdSupport;
use crate::capabilities::AllowTentativeWritesOption;
use crate::capabilities::AllowTentativeWritesSupport;
use crate::capabilities::CollectionClientRequired;
use crate::capabilities::ConsistencyLevelOption;
use crate::capabilities::ConsistencyLevelSupport;
use crate::capabilities::DocumentRequired;
use crate::capabilities::DocumentSupport;
use crate::capabilities::IfMatchConditionOption;
use crate::capabilities::IfMatchConditionSupport;
use crate::capabilities::IfModifiedSinceOption;
use crate::capabilities::IfModifiedSinceSupport;
use crate::capabilities::IndexingDirectiveOption;
use crate::capabilities::IndexingDirectiveSupport;
use crate::capabilities::IsUpsertOption;
use crate::capabilities::IsUpsertSupport;
use crate::capabilities::PartitionKeysRequired;
use crate::capabilities::PartitionKeysSupport;
use crate::capabilities::UserAgentOption;
use crate::capabilities::UserAgentSupport;
use crate::capabilities::flag_text;
use crate::capabilities::with_consistency_level;
use crate::capabilities::with_if_match_condition;
use crate::capabilities::with_if_modified_since;
use crate::clients::CollectionClient;
use crate::clients::CosmosUriBuilder;
use crate::clients::ResourceType;
use crate::clients::build_collection_path;
use crate::clients::documents_path;
use crate::consistency_level::ConsistencyLevel;
use crate::consistency_level::ConsistencyLevelView;
use crate::date_time::UtcDateTime;
use crate::document::Document;
use crate::headers::ACTIVITY_ID;
use crate::headers::HEADER_ALLOW_MULTIPLE_WRITES;
use crate::headers::HEADER_DOCUMENTDB_IS_UPSERT;
use crate::headers::HEADER_DOCUMENTDB_PARTITIONKEY;
use crate::headers::HEADER_INDEXING_DIRECTIVE;
use crate::headers::USER_AGENT;
use crate::indexing_directive::IndexingDirective;
use crate::modify_conditions::IfMatchCondition;
use crate::modify_conditions::IfMatchConditionView;
use crate::partition_keys::PartitionKeys;
use crate::partition_keys::json_array;
use crate::request::Method;
use crate::request::Request;
use crate::request::RequestView;
use crate::text::text_of;
use crate::to_assign::No;
use crate::to_assign::ToAssign;
use crate::to_assign::Yes;
use crate::traits::CollectionTrait;
use crate::traits::CosmosClient;
use std::marker::PhantomData;
use vstd::prelude::*;

verus! {

/// What a creation of a document has been told so far.
pub struct CreateDocumentModel {
    pub service_uri: Seq<char>,
    pub database: Seq<char>,
    pub collection: Seq<char>,
    pub document: Option<Seq<char>>,
    pub partition_keys: Option<Seq<Seq<char>>>,
    pub is_upsert: bool,
    pub indexing_directive: IndexingDirective,
    pub if_match_condition: Option<IfMatchConditionView>,
    pub if_modified_since: Option<int>,
    pub user_agent: Option<Seq<char>>,
    pub activity_id: Option<Seq<char>>,
    pub consistency_level: Option<ConsistencyLevelView>,
    pub allow_tentative_writes: bool,
}

impl CreateDocumentModel {
    /// The creation with nothing supplied: the mandatory parameters are
    /// missing, the document is not an upsert, the indexing directive is the
    /// default, tentative writes are not allowed and every other option is
    /// absent.
    pub open spec fn initial(
        service_uri: Seq<char>,
        database: Seq<char>,
        collection: Seq<char>,
    ) -> Self {
        CreateDocumentModel {
            service_uri,
            database,
            collection,
            document: None,
            partition_keys: None,
            is_upsert: false,
            indexing_directive: IndexingDirective::Default,
            if_match_condition: None,
            if_modified_since: None,
            user_agent: None,
            activity_id: None,
            consistency_level: None,
            allow_tentative_writes: false,
        }
    }

    pub open spec fn with_document(self, document: Seq<char>) -> Self {
        CreateDocumentModel { document: Some(document), ..self }
    }

    pub open spec fn with_partition_keys(self, partition_keys: Seq<Seq<char>>) -> Self {
        CreateDocumentModel { partition_keys: Some(partition_keys), ..self }
    }

    pub open spec fn with_is_upsert(self, is_upsert: bool) -> Self {
        CreateDocumentModel { is_upsert, ..self }
    }

    pub open spec fn with_indexing_directive(self, indexing_directive: IndexingDirective) -> Self {
        CreateDocumentModel { indexing_directive, ..self }
    }

    pub open spec fn with_if_match_condition(
        self,
        if_match_condition: IfMatchConditionView,
    ) -> Self {
        CreateDocumentModel { if_match_condition: Some(if_match_condition), ..self }
    }

    pub open spec fn with_if_modified_since(self, if_modified_since: int) -> Self {
        CreateDocumentModel { if_modified_since: Some(if_modified_since), ..self }
    }

    pub open spec fn with_user_agent(self, user_agent: Seq<char>) -> Self {
        CreateDocumentModel { user_agent: Some(user_agent), ..self }
    }

    pub open spec fn with_activity_id(self, activity_id: Seq<char>) -> Self {
        CreateDocumentModel { activity_id: Some(activity_id), ..self }
    }

    pub open spec fn with_consistency_level(self, consistency_level: ConsistencyLevelView) -> Self {
        CreateDocumentModel { consistency_level: Some(consistency_level), ..self }
    }

    pub open spec fn with_allow_tentative_writes(self, allow_tentative_writes: bool) -> Self {
        CreateDocumentModel { allow_tentative_writes, ..self }
    }

    /// Whether every mandatory parameter has been supplied.
    pub open spec fn is_complete(self) -> bool {
        self.document is Some && self.partition_keys is Some
    }

    /// The headers that the parameters contribute to `request`, in the order
    /// in which they are added.
    pub open spec fn add_headers(self, request: RequestView) -> RequestView
        recommends
            self.is_complete(),
    {
        let request = with_if_match_condition(request, self.if_match_condition);
        let request = with_if_modified_since(request, self.if_modified_since);
        let request = request.with_optional_header(USER_AGENT@, self.user_agent);
        let request = request.with_optional_header(ACTIVITY_ID@, self.activity_id);
        let request = with_consistency_level(request, self.consistency_level);
        let request = request.with_header(
            HEADER_DOCUMENTDB_PARTITIONKEY@,
            json_array(self.partition_keys.unwrap()),
        );
        let request = request.with_header(HEADER_DOCUMENTDB_IS_UPSERT@, flag_text(self.is_upsert));
        let request = request.with_optional_header(
            HEADER_INDEXING_DIRECTIVE@,
            self.indexing_directive.header_value(),
        );
        request.with_header(
            HEADER_ALLOW_MULTIPLE_WRITES@,
            flag_text(self.allow_tentative_writes),
        )
    }

    /// The request that carries out the creation: a `POST` to the documents of
    /// the collection, with the headers of the parameters and the serialized
    /// document as body.
    pub open spec fn request(self) -> RequestView
        recommends
            self.is_complete(),
    {
        self.add_headers(
            RequestView::bare(
                self.service_uri,
                documents_path(self.database, self.collection),
                Method::Post,
                ResourceType::Documents,
            ),
        ).with_body(self.document.unwrap())
    }
}

/// The builder of the request that creates a document. The document and
/// its partition keys are mandatory: the last two type parameters record
/// which of them have been supplied, and the request can be had only when
/// both are `Yes`.
#[derive(Debug)]
pub struct CreateDocumentBuilder<'a, 'b, CUB, DocumentSet, PartitionKeysSet>
where
    DocumentSet: ToAssign,
    PartitionKeysSet: ToAssign,
    CUB: CosmosUriBuilder,
{
    collection_client: &'a CollectionClient<'a, CUB>,
    p_document: PhantomData<DocumentSet>,
    p_partition_keys: PhantomData<PartitionKeysSet>,
    document: Option<&'b Document>,
    partition_keys: Option<&'b PartitionKeys>,
    is_upsert: bool,
    indexing_directive: IndexingDirective,
    if_match_condition: Option<IfMatchCondition<'b>>,
    if_modified_since: Option<&'b UtcDateTime>,
    user_agent: Option<&'b str>,
    activity_id: Option<&'b str>,
    consistency_level: Option<ConsistencyLevel<'b>>,
    allow_tentative_writes: bool,
}

impl<'a, 'b, CUB, DocumentSet, PartitionKeysSet> View
    for CreateDocumentBuilder<'a, 'b, CUB, DocumentSet, PartitionKeysSet>
where
    DocumentSet: ToAssign,
    PartitionKeysSet: ToAssign,
    CUB: CosmosUriBuilder,
{
    type V = CreateDocumentModel;

    closed spec fn view(&self) -> CreateDocumentModel {
        CreateDocumentModel {
            service_uri: self.collection_client.service_uri(),
            database: self.collection_client.database(),
            collection: self.collection_client.collection(),
            document: match self.document {
                Some(document) => Some(document@),
                None => None,
            },
            partition_keys: match self.partition_keys {
                Some(partition_keys) => Some(partition_keys@),
                None => None,
            },
            is_upsert: self.is_upsert,
            indexing_directive: self.indexing_directive,
            if_match_condition: match self.if_match_condition {
                Some(condition) => Some(condition@),
                None => None,
            },
            if_modified_since: match self.if_modified_since {
                Some(since) => Some(since@),
                None => None,
            },
            user_agent: text_of(self.user_agent),
            activity_id: text_of(self.activity_id),
            consistency_level: match self.consistency_level {
                Some(level) => Some(level@),
                None => None,
            },
            allow_tentative_writes: self.allow_tentative_writes,
        }
    }
}

impl<'a, 'b, CUB> CreateDocumentBuilder<'a, 'b, CUB, No, No> where CUB: CosmosUriBuilder {
    pub fn new(
        collection_client: &'a CollectionClient<'a, CUB>,
    ) -> (builder: CreateDocumentBuilder<'a, 'b, CUB, No, No>)
        ensures
            builder@ == CreateDocumentModel::initial(
                collection_client.service_uri(),
                collection_client.database(),
                collection_client.collection(),
            ),
    {
        CreateDocumentBuilder {
            collection_client,
            p_document: PhantomData,
            p_partition_keys: PhantomData,
            document: None,
            partition_keys: None,
            is_upsert: false,
            indexing_directive: IndexingDirective::Default,
            if_match_condition: None,
            if_modified_since: None,
            user_agent: None,
            activity_id: None,
            consistency_level: None,
            allow_tentative_writes: false,
        }
    }
}

impl<'a, 'b, CUB, DocumentSet, PartitionKeysSet>
    CreateDocumentBuilder<'a, 'b, CUB, DocumentSet, PartitionKeysSet>
where
    DocumentSet: ToAssign,
    PartitionKeysSet: ToAssign,
    CUB: CosmosUriBuilder,
{
    /// A mandatory slot holds a value exactly when its flag says so.
    #[verifier::type_invariant]
    spec fn slots_follow_flags(self) -> bool {
        &&& DocumentSet::is_set() <==> self.document is Some
        &&& PartitionKeysSet::is_set() <==> self.partition_keys is Some
    }

    /// Whether every mandatory parameter has been supplied. The flags in the
    /// builder's type say the same as the values it holds.
    pub fn is_complete(&self) -> (complete: bool)
        ensures
            complete == self@.is_complete(),
            self@.document is Some <==> DocumentSet::is_set(),
            self@.partition_keys is Some <==> PartitionKeysSet::is_set(),
    {
        proof {
            use_type_invariant(self);
        }
        self.document.is_some() && self.partition_keys.is_some()
    }
}

impl<'a, 'b, CUB, DocumentSet, PartitionKeysSet> Clone
    for CreateDocumentBuilder<'a, 'b, CUB, DocumentSet, PartitionKeysSet>
where
    DocumentSet: ToAssign,
    PartitionKeysSet: ToAssign,
    CUB: CosmosUriBuilder,
{
    fn clone(&self) -> (copy: Self)
        ensures
            copy@ == self@,
    {
        proof {
            use_type_invariant(self);
        }
        CreateDocumentBuilder {
            collection_client: self.collection_client,
            p_document: PhantomData,
            p_partition_keys: PhantomData,
            document: self.document,
            partition_keys: self.partition_keys,
            is_upsert: self.is_upsert,
            indexing_directive: self.indexing_directive,
            if_match_condition: self.if_match_condition,
            if_modified_since: self.if_modified_since,
            user_agent: self.user_agent,
            activity_id: self.activity_id,
            consistency_level: self.consistency_level,
            allow_tentative_writes: self.allow_tentative_writes,
        }
    }
}

impl<'a, 'b, CUB> CreateDocumentBuilder<'a, 'b, CUB, Yes, Yes> where CUB: CosmosUriBuilder {
    /// The request that carries out the creation. It exists because both
    /// mandatory parameters are present.
    pub fn request(&self) -> (request: Request)
        ensures
            self@.is_complete(),
            request@ == self@.request(),
    {
        proof {
            use_type_invariant(self);
        }
        let mut path = build_collection_path(
            self.collection_client.database_name(),
            self.collection_client.collection_name(),
        );
        path.append("/docs");
        let mut req = self.collection_client.main_client().prepare_request(
            path.as_str(),
            Method::Post,
            ResourceType::Documents,
        );
        req = IfMatchConditionOption::add_header(self, req);
        req = IfModifiedSinceOption::add_header(self, req);
        req = UserAgentOption::add_header(self, req);
        req = ActivityIdOption::add_header(self, req);
        req = ConsistencyLevelOption::add_header(self, req);
        req = PartitionKeysRequired::add_header(self, req);
        req = IsUpsertOption::add_header(self, req);
        req = IndexingDirectiveOption::add_header(self, req);
        req = AllowTentativeWritesOption::add_header(self, req);
        req.body(self.document().as_str())
    }
}

impl<'a, 'b, CUB, DocumentSet, PartitionKeysSet> CollectionClientRequired<'a, CUB>
    for CreateDocumentBuilder<'a, 'b, CUB, DocumentSet, PartitionKeysSet>
where
    DocumentSet: ToAssign,
    PartitionKeysSet: ToAssign,
    CUB: CosmosUriBuilder,
{
    fn collection_client(&self) -> (client: &'a CollectionClient<'a, CUB>)
        ensures
            client.service_uri() == self@.service_uri,
            client.database() == self@.database,
            client.collection() == self@.collection,
    {
        self.collection_client
    }
}

impl<'a, 'b, CUB, PartitionKeysSet> DocumentRequired<'b>
    for CreateDocumentBuilder<'a, 'b, CUB, Yes, PartitionKeysSet>
where
    PartitionKeysSet: ToAssign,
    CUB: CosmosUriBuilder,
{
    open spec fn document_value(&self) -> Seq<char> {
        self@.document.unwrap()
    }

    fn document(&self) -> (document: &'b Document) {
        proof {
            use_type_invariant(self);
        }
        self.document.unwrap()
    }
}

impl<'a, 'b, CUB, DocumentSet> PartitionKeysRequired<'b>
    for CreateDocumentBuilder<'a, 'b, CUB, DocumentSet, Yes>
where
    DocumentSet: ToAssign,
    CUB: CosmosUriBuilder,
{
    open spec fn partition_keys_value(&self) -> Seq<Seq<char>> {
        self@.partition_keys.unwrap()
    }

    fn partition_keys(&self) -> (partition_keys: &'b PartitionKeys) {
        proof {
            use_type_invariant(self);
        }
        self.partition_keys.unwrap()
    }
}

impl<'a, 'b, CUB, DocumentSet, PartitionKeysSet> IsUpsertOption
    for CreateDocumentBuilder<'a, 'b, CUB, DocumentSet, PartitionKeysSet>
where
    DocumentSet: ToAssign,
    PartitionKeysSet: ToAssign,
    CUB: CosmosUriBuilder,
{
    open spec fn is_upsert_value(&self) -> bool {
        self@.is_upsert
    }

    fn is_upsert(&self) -> (is_upsert: bool) {
        self.is_upsert
    }
}

impl<'a, 'b, CUB, DocumentSet, PartitionKeysSet> IndexingDirectiveOption
    for CreateDocumentBuilder<'a, 'b, CUB, DocumentSet, PartitionKeysSet>
where
    DocumentSet: ToAssign,
    PartitionKeysSet: ToAssign,
    CUB: CosmosUriBuilder,
{
    open spec fn indexing_directive_value(&self) -> IndexingDirective {
        self@.indexing_directive
    }

    fn indexing_directive(&self) -> (indexing_directive: IndexingDirective) {
        self.indexing_directive
    }
}

impl<'a, 'b, CUB, DocumentSet, PartitionKeysSet> IfMatchConditionOption<'b>
    for CreateDocumentBuilder<'a, 'b, CUB, DocumentSet, PartitionKeysSet>
where
    DocumentSet: ToAssign,
    PartitionKeysSet: ToAssign,
    CUB: CosmosUriBuilder,
{
    open spec fn if_match_condition_value(&self) -> Option<IfMatchConditionView> {
        self@.if_match_condition
    }

    fn if_match_condition(&self) -> (if_match_condition: Option<IfMatchCondition<'b>>) {
        self.if_match_condition
    }
}

impl<'a, 'b, CUB, DocumentSet, PartitionKeysSet> IfModifiedSinceOption<'b>
    for CreateDocumentBuilder<'a, 'b, CUB, DocumentSet, PartitionKeysSet>
where
    DocumentSet: ToAssign,
    PartitionKeysSet: ToAssign,
    CUB: CosmosUriBuilder,
{
    open spec fn if_modified_since_value(&self) -> Option<int> {
        self@.if_modified_since
    }

    fn if_modified_since(&self) -> (if_modified_since: Option<&'b UtcDateTime>) {
        self.if_modified_since
    }
}

impl<'a, 'b, CUB, DocumentSet, PartitionKeysSet> UserAgentOption<'b>
    for CreateDocumentBuilder<'a, 'b, CUB, DocumentSet, PartitionKeysSet>
where
    DocumentSet: ToAssign,
    PartitionKeysSet: ToAssign,
    CUB: CosmosUriBuilder,
{
    open spec fn user_agent_value(&self) -> Option<Seq<char>> {
        self@.user_agent
    }

    fn user_agent(&self) -> (user_agent: Option<&'b str>) {
        self.user_agent
    }
}

impl<'a, 'b, CUB, DocumentSet, PartitionKeysSet> ActivityIdOption<'b>
    for CreateDocumentBuilder<'a, 'b, CUB, DocumentSet, PartitionKeysSet>
where
    DocumentSet: ToAssign,
    PartitionKeysSet: ToAssign,
    CUB: CosmosUriBuilder,
{
    open spec fn activity_id_value(&self) -> Option<Seq<char>> {
        self@.activity_id
    }

    fn activity_id(&self) -> (activity_id: Option<&'b str>) {
        self.activity_id
    }
}

impl<'a, 'b, CUB, DocumentSet, PartitionKeysSet> ConsistencyLevelOption<'b>
    for CreateDocumentBuilder<'a, 'b, CUB, DocumentSet, PartitionKeysSet>
where
    DocumentSet: ToAssign,
    PartitionKeysSet: ToAssign,
    CUB: CosmosUriBuilder,
{
    open spec fn consistency_level_value(&self) -> Option<ConsistencyLevelView> {
        self@.consistency_level
    }

    fn consistency_level(&self) -> (consistency_level: Option<ConsistencyLevel<'b>>) {
        self.consistency_level
    }
}

impl<'a, 'b, CUB, DocumentSet, PartitionKeysSet> AllowTentativeWritesOption
    for CreateDocumentBuilder<'a, 'b, CUB, DocumentSet, PartitionKeysSet>
where
    DocumentSet: ToAssign,
    PartitionKeysSet: ToAssign,
    CUB: CosmosUriBuilder,
{
    open spec fn allow_tentative_writes_value(&self) -> bool {
        self@.allow_tentative_writes
    }

    fn allow_tentative_writes(&self) -> (allow_tentative_writes: bool) {
        self.allow_tentative_writes
    }
}

impl<'a, 'b, CUB, DocumentSet, PartitionKeysSet> DocumentSupport<'b>
    for CreateDocumentBuilder<'a, 'b, CUB, DocumentSet, PartitionKeysSet>
where
    DocumentSet: ToAssign,
    PartitionKeysSet: ToAssign,
    CUB: CosmosUriBuilder,
{
    type O = CreateDocumentBuilder<'a, 'b, CUB, Yes, PartitionKeysSet>;

    fn with_document(self, document: &'b Document) -> (out: Self::O)
        ensures
            out@ == self@.with_document(document@),
    {
        proof {
            use_type_invariant(&self);
        }
        CreateDocumentBuilder {
            collection_client: self.collection_client,
            p_document: PhantomData,
            p_partition_keys: PhantomData,
            document: Some(document),
            partition_keys: self.partition_keys,
            is_upsert: self.is_upsert,
            indexing_directive: self.indexing_directive,
            if_match_condition: self.if_match_condition,
            if_modified_since: self.if_modified_since,
            user_agent: self.user_agent,
            activity_id: self.activity_id,
            consistency_level: self.consistency_level,
            allow_tentative_writes: self.allow_tentative_writes,
        }
    }
}

impl<'a, 'b, CUB, DocumentSet, PartitionKeysSet> PartitionKeysSupport<'b>
    for CreateDocumentBuilder<'a, 'b, CUB, DocumentSet, PartitionKeysSet>
where
    DocumentSet: ToAssign,
    PartitionKeysSet: ToAssign,
    CUB: CosmosUriBuilder,
{
    type O = CreateDocumentBuilder<'a, 'b, CUB, DocumentSet, Yes>;

    fn with_partition_keys(self, partition_keys: &'b PartitionKeys) -> (out: Self::O)
        ensures
            out@ == self@.with_partition_keys(partition_keys@),
    {
        proof {
            use_type_invariant(&self);
        }
        CreateDocumentBuilder {
            collection_client: self.collection_client,
            p_document: PhantomData,
            p_partition_keys: PhantomData,
            document: self.document,
            partition_keys: Some(partition_keys),
            is_upsert: self.is_upsert,
            indexing_directive: self.indexing_directive,
            if_match_condition: self.if_match_condition,
            if_modified_since: self.if_modified_since,
            user_agent: self.user_agent,
            activity_id: self.activity_id,
            consistency_level: self.consistency_level,
            allow_tentative_writes: self.allow_tentative_writes,
        }
    }
}

impl<'a, 'b, CUB, DocumentSet, PartitionKeysSet> IsUpsertSupport
    for CreateDocumentBuilder<'a, 'b, CUB, DocumentSet, PartitionKeysSet>
where
    DocumentSet: ToAssign,
    PartitionKeysSet: ToAssign,
    CUB: CosmosUriBuilder,
{
    type O = CreateDocumentBuilder<'a, 'b, CUB, DocumentSet, PartitionKeysSet>;

    fn with_is_upsert(self, is_upsert: bool) -> (out: Self::O)
        ensures
            out@ == self@.with_is_upsert(is_upsert),
    {
        proof {
            use_type_invariant(&self);
        }
        CreateDocumentBuilder {
            collection_client: self.collection_client,
            p_document: PhantomData,
            p_partition_keys: PhantomData,
            document: self.document,
            partition_keys: self.partition_keys,
            is_upsert,
            indexing_directive: self.indexing_directive,
            if_match_condition: self.if_match_condition,
            if_modified_since: self.if_modified_since,
            user_agent: self.user_agent,
            activity_id: self.activity_id,
            consistency_level: self.consistency_level,
            allow_tentative_writes: self.allow_tentative_writes,
        }
    }
}

impl<'a, 'b, CUB, DocumentSet, PartitionKeysSet> IndexingDirectiveSupport
    for CreateDocumentBuilder<'a, 'b, CUB, DocumentSet, PartitionKeysSet>
where
    DocumentSet: ToAssign,
    PartitionKeysSet: ToAssign,
    CUB: CosmosUriBuilder,
{
    type O = CreateDocumentBuilder<'a, 'b, CUB, DocumentSet, PartitionKeysSet>;

    fn with_indexing_directive(self, indexing_directive: IndexingDirective) -> (out: Self::O)
        ensures
            out@ == self@.with_indexing_directive(indexing_directive),
    {
        proof {
            use_type_invariant(&self);
        }
        CreateDocumentBuilder {
            collection_client: self.collection_client,
            p_document: PhantomData,
            p_partition_keys: PhantomData,
            document: self.document,
            partition_keys: self.partition_keys,
            is_upsert: self.is_upsert,
            indexing_directive,
            if_match_condition: self.if_match_condition,
            if_modified_since: self.if_modified_since,
            user_agent: self.user_agent,
            activity_id: self.activity_id,
            consistency_level: self.consistency_level,
            allow_tentative_writes: self.allow_tentative_writes,
        }
    }
}

impl<'a, 'b, CUB, DocumentSet, PartitionKeysSet> IfMatchConditionSupport<'b>
    for CreateDocumentBuilder<'a, 'b, CUB, DocumentSet, PartitionKeysSet>
where
    DocumentSet: ToAssign,
    PartitionKeysSet: ToAssign,
    CUB: CosmosUriBuilder,
{
    type O = CreateDocumentBuilder<'a, 'b, CUB, DocumentSet, PartitionKeysSet>;

    fn with_if_match_condition(self, if_match_condition: IfMatchCondition<'b>) -> (out: Self::O)
        ensures
            out@ == self@.with_if_match_condition(if_match_condition@),
    {
        proof {
            use_type_invariant(&self);
        }
        CreateDocumentBuilder {
            collection_client: self.collection_client,
            p_document: PhantomData,
            p_partition_keys: PhantomData,
            document: self.document,
            partition_keys: self.partition_keys,
            is_upsert: self.is_upsert,
            indexing_directive: self.indexing_directive,
            if_match_condition: Some(if_match_condition),
            if_modified_since: self.if_modified_since,
            user_agent: self.user_agent,
            activity_id: self.activity_id,
            consistency_level: self.consistency_level,
            allow_tentative_writes: self.allow_tentative_writes,
        }
    }
}

impl<'a, 'b, CUB, DocumentSet, PartitionKeysSet> IfModifiedSinceSupport<'b>
    for CreateDocumentBuilder<'a, 'b, CUB, DocumentSet, PartitionKeysSet>
where
    DocumentSet: ToAssign,
    PartitionKeysSet: ToAssign,
    CUB: CosmosUriBuilder,
{
    type O = CreateDocumentBuilder<'a, 'b, CUB, DocumentSet, PartitionKeysSet>;

    fn with_if_modified_since(self, if_modified_since: &'b UtcDateTime) -> (out: Self::O)
        ensures
            out@ == self@.with_if_modified_since(if_modified_since@),
    {
        proof {
            use_type_invariant(&self);
        }
        CreateDocumentBuilder {
            collection_client: self.collection_client,
            p_document: PhantomData,
            p_partition_keys: PhantomData,
            document: self.document,
            partition_keys: self.partition_keys,
            is_upsert: self.is_upsert,
            indexing_directive: self.indexing_directive,
            if_match_condition: self.if_match_condition,
            if_modified_since: Some(if_modified_since),
            user_agent: self.user_agent,
            activity_id: self.activity_id,
            consistency_level: self.consistency_level,
            allow_tentative_writes: self.allow_tentative_writes,
        }
    }
}

impl<'a, 'b, CUB, DocumentSet, PartitionKeysSet> UserAgentSupport<'b>
    for CreateDocumentBuilder<'a, 'b, CUB, DocumentSet, PartitionKeysSet>
where
    DocumentSet: ToAssign,
    PartitionKeysSet: ToAssign,
    CUB: CosmosUriBuilder,
{
    type O = CreateDocumentBuilder<'a, 'b, CUB, DocumentSet, PartitionKeysSet>;

    fn with_user_agent(self, user_agent: &'b str) -> (out: Self::O)
        ensures
            out@ == self@.with_user_agent(user_agent@),
    {
        proof {
            use_type_invariant(&self);
        }
        CreateDocumentBuilder {
            collection_client: self.collection_client,
            p_document: PhantomData,
            p_partition_keys: PhantomData,
            document: self.document,
            partition_keys: self.partition_keys,
            is_upsert: self.is_upsert,
            indexing_directive: self.indexing_directive,
            if_match_condition: self.if_match_condition,
            if_modified_since: self.if_modified_since,
            user_agent: Some(user_agent),
            activity_id: self.activity_id,
            consistency_level: self.consistency_level,
            allow_tentative_writes: self.allow_tentative_writes,
        }
    }
}

impl<'a, 'b, CUB, DocumentSet, PartitionKeysSet> ActivityIdSupport<'b>
    for CreateDocumentBuilder<'a, 'b, CUB, DocumentSet, PartitionKeysSet>
where
    DocumentSet: ToAssign,
    PartitionKeysSet: ToAssign,
    CUB: CosmosUriBuilder,
{
    type O = CreateDocumentBuilder<'a, 'b, CUB, DocumentSet, PartitionKeysSet>;

    fn with_activity_id(self, activity_id: &'b str) -> (out: Self::O)
        ensures
            out@ == self@.with_activity_id(activity_id@),
    {
        proof {
            use_type_invariant(&self);
        }
        CreateDocumentBuilder {
            collection_client: self.collection_client,
            p_document: PhantomData,
            p_partition_keys: PhantomData,
            document: self.document,
            partition_keys: self.partition_keys,
            is_upsert: self.is_upsert,
            indexing_directive: self.indexing_directive,
            if_match_condition: self.if_match_condition,
            if_modified_since: self.if_modified_since,
            user_agent: self.user_agent,
            activity_id: Some(activity_id),
            consistency_level: self.consistency_level,
            allow_tentative_writes: self.allow_tentative_writes,
        }
    }
}

impl<'a, 'b, CUB, DocumentSet, PartitionKeysSet> ConsistencyLevelSupport<'b>
    for CreateDocumentBuilder<'a, 'b, CUB, DocumentSet, PartitionKeysSet>
where
    DocumentSet: ToAssign,
    PartitionKeysSet: ToAssign,
    CUB: CosmosUriBuilder,
{
    type O = CreateDocumentBuilder<'a, 'b, CUB, DocumentSet, PartitionKeysSet>;

    fn with_consistency_level(self, consistency_level: ConsistencyLevel<'b>) -> (out: Self::O)
        ensures
            out@ == self@.with_consistency_level(consistency_level@),
    {
        proof {
            use_type_invariant(&self);
        }
        CreateDocumentBuilder {
            collection_client: self.collection_client,
            p_document: PhantomData,
            p_partition_keys: PhantomData,
            document: self.document,
            partition_keys: self.partition_keys,
            is_upsert: self.is_upsert,
            indexing_directive: self.indexing_directive,
            if_match_condition: self.if_match_condition,
            if_modified_since: self.if_modified_since,
            user_agent: self.user_agent,
            activity_id: self.activity_id,
            consistency_level: Some(consistency_level),
            allow_tentative_writes: self.allow_tentative_writes,
        }
    }
}

impl<'a, 'b, CUB, DocumentSet, PartitionKeysSet> AllowTentativeWritesSupport
    for CreateDocumentBuilder<'a, 'b, CUB, DocumentSet, PartitionKeysSet>
where
    DocumentSet: ToAssign,
    PartitionKeysSet: ToAssign,
    CUB: CosmosUriBuilder,
{
    type O = CreateDocumentBuilder<'a, 'b, CUB, DocumentSet, PartitionKeysSet>;

    fn with_allow_tentative_writes(self, allow_tentative_writes: bool) -> (out: Self::O)
        ensures
            out@ == self@.with_allow_tentative_writes(allow_tentative_writes),
    {
        proof {
            use_type_invariant(&self);
        }
        CreateDocumentBuilder {
            collection_client: self.collection_client,
            p_document: PhantomData,
            p_partition_keys: PhantomData,
            document: self.document,
            partition_keys: self.partition_keys,
            is_upsert: self.is_upsert,
            indexing_directive: self.indexing_directive,
            if_match_condition: self.if_match_condition,
            if_modified_since: self.if_modified_since,
            user_agent: self.user_agent,
            activity_id: self.activity_id,
            consistency_level: self.consistency_level,
            allow_tentative_writes,
        }
    }
}

} // verus!
