//! One trait per request parameter. A parameter that may be absent has an
//! `Option` trait, a mandatory one a `Required` trait; both read the value a
//! builder holds and say what it adds to a request. The `Support` traits set
//! the value.
use crate::clients::CollectionClient;
use crate::clients::CosmosUriBuilder;
use crate::clients::DocumentClient;
use crate::clients::UserDefinedFunctionClient;
use crate::consistency_level::ConsistencyLevel;
use crate::consistency_level::ConsistencyLevelView;
use crate::date_time::rfc2822_text;
use crate::date_time::UtcDateTime;
use crate::document::Document;
use crate::headers::ACTIVITY_ID;
use crate::headers::HEADER_ALLOW_MULTIPLE_WRITES;
use crate::headers::HEADER_CONSISTENCY_LEVEL;
use crate::headers::HEADER_CONTINUATION;
use crate::headers::HEADER_DOCUMENTDB_IS_UPSERT;
use crate::headers::HEADER_DOCUMENTDB_PARTITIONKEY;
use crate::headers::HEADER_INDEXING_DIRECTIVE;
use crate::headers::HEADER_MAX_ITEM_COUNT;
use crate::headers::HEADER_SESSION_TOKEN;
use crate::headers::IF_MATCH;
use crate::headers::IF_MODIFIED_SINCE;
use crate::headers::IF_NONE_MATCH;
use crate::headers::USER_AGENT;
use crate::indexing_directive::IndexingDirective;
use crate::modify_conditions::IfMatchCondition;
use crate::modify_conditions::IfMatchConditionView;
use crate::partition_keys::json_array;
use crate::partition_keys::PartitionKeys;
use crate::request::Request;
use crate::request::RequestView;
use crate::text::decimal;
use crate::text::decimal_string;
use crate::text::text_of;
use vstd::prelude::*;

verus! {

/// The text of a flag in a header.
pub open spec fn flag_text(flag: bool) -> Seq<char> {
    if flag {
        "true"@
    } else {
        "false"@
    }
}

/// `request` with the headers that select a consistency level: the level's
/// name and, for a session, its token.
pub open spec fn with_consistency_level(
    request: RequestView,
    level: Option<ConsistencyLevelView>,
) -> RequestView {
    match level {
        Some(l) => request.with_header(
            HEADER_CONSISTENCY_LEVEL@,
            l.header_value(),
        ).with_optional_header(HEADER_SESSION_TOKEN@, l.session_token()),
        None => request,
    }
}

/// `request` with the header that states a condition on the entity tag.
pub open spec fn with_if_match_condition(
    request: RequestView,
    condition: Option<IfMatchConditionView>,
) -> RequestView {
    match condition {
        Some(c) => request.with_header(c.header_name(), c.etag()),
        None => request,
    }
}

/// `request` with the header that makes it conditional on a change since the
/// instant `since`.
pub open spec fn with_if_modified_since(request: RequestView, since: Option<int>) -> RequestView {
    match since {
        Some(timestamp) => request.with_header(IF_MODIFIED_SINCE@, rfc2822_text(timestamp)),
        None => request,
    }
}

/// `request` with the header that limits the number of items of a page.
pub open spec fn with_max_item_count(request: RequestView, count: Option<u32>) -> RequestView {
    match count {
        Some(n) => request.with_header(HEADER_MAX_ITEM_COUNT@, decimal(n as nat)),
        None => request,
    }
}

/// A builder that holds the client of its collection.
pub trait CollectionClientRequired<'a, CUB> where CUB: CosmosUriBuilder {
    fn collection_client(&self) -> &'a CollectionClient<'a, CUB>;
}

/// A builder that holds the client of its user defined function.
pub trait UserDefinedFunctionClientRequired<'a, CUB> where CUB: CosmosUriBuilder {
    fn user_defined_function_client(&self) -> &'a UserDefinedFunctionClient<'a, CUB>;
}

/// A builder that holds the client of its document.
pub trait DocumentClientRequired<'a, CUB> where CUB: CosmosUriBuilder {
    fn document_client(&self) -> &'a DocumentClient<'a, CUB>;
}

/// A builder that may hold a user agent.
pub trait UserAgentOption<'a> {
    /// The user agent held.
    spec fn user_agent_value(&self) -> Option<Seq<char>>;

    fn user_agent(&self) -> (user_agent: Option<&'a str>)
        ensures
            text_of(user_agent) == self.user_agent_value(),
    ;

    /// Adds the user agent, if there is one.
    fn add_header(&self, request: Request) -> (out: Request)
        ensures
            out@ == request@.with_optional_header(USER_AGENT@, self.user_agent_value()),
    {
        match self.user_agent() {
            Some(user_agent) => request.header(USER_AGENT, user_agent),
            None => request,
        }
    }
}

/// A builder on which a user agent can be set.
pub trait UserAgentSupport<'a>: Sized {
    type O: UserAgentOption<'a>;

    fn with_user_agent(self, user_agent: &'a str) -> (out: Self::O)
        ensures
            out.user_agent_value() == Some(user_agent@),
    ;
}

/// A builder that may hold an activity id.
pub trait ActivityIdOption<'a> {
    /// The activity id held.
    spec fn activity_id_value(&self) -> Option<Seq<char>>;

    fn activity_id(&self) -> (activity_id: Option<&'a str>)
        ensures
            text_of(activity_id) == self.activity_id_value(),
    ;

    /// Adds the activity id, if there is one.
    fn add_header(&self, request: Request) -> (out: Request)
        ensures
            out@ == request@.with_optional_header(ACTIVITY_ID@, self.activity_id_value()),
    {
        match self.activity_id() {
            Some(activity_id) => request.header(ACTIVITY_ID, activity_id),
            None => request,
        }
    }
}

/// A builder on which an activity id can be set.
pub trait ActivityIdSupport<'a>: Sized {
    type O: ActivityIdOption<'a>;

    fn with_activity_id(self, activity_id: &'a str) -> (out: Self::O)
        ensures
            out.activity_id_value() == Some(activity_id@),
    ;
}

/// A builder that may hold a consistency level.
pub trait ConsistencyLevelOption<'a> {
    /// The consistency level held.
    spec fn consistency_level_value(&self) -> Option<ConsistencyLevelView>;

    fn consistency_level(&self) -> (consistency_level: Option<ConsistencyLevel<'a>>)
        ensures
            match consistency_level {
                Some(level) => self.consistency_level_value() == Some(level@),
                None => self.consistency_level_value() is None,
            },
    ;

    /// Adds the consistency level, if there is one, and with a session level
    /// the session token.
    fn add_header(&self, request: Request) -> (out: Request)
        ensures
            out@ == with_consistency_level(request@, self.consistency_level_value()),
    {
        match self.consistency_level() {
            Some(level) => {
                let request = request.header(
                    HEADER_CONSISTENCY_LEVEL,
                    level.to_consistency_level_header(),
                );
                match level {
                    ConsistencyLevel::Session(session_token) => request.header(
                        HEADER_SESSION_TOKEN,
                        session_token,
                    ),
                    _ => request,
                }
            },
            None => request,
        }
    }
}

/// A builder on which a consistency level can be set.
pub trait ConsistencyLevelSupport<'a>: Sized {
    type O: ConsistencyLevelOption<'a>;

    fn with_consistency_level(self, consistency_level: ConsistencyLevel<'a>) -> (out: Self::O)
        ensures
            out.consistency_level_value() == Some(consistency_level@),
    ;
}

/// A builder that holds an indexing directive.
pub trait IndexingDirectiveOption {
    /// The indexing directive held.
    spec fn indexing_directive_value(&self) -> IndexingDirective;

    fn indexing_directive(&self) -> (indexing_directive: IndexingDirective)
        ensures
            indexing_directive == self.indexing_directive_value(),
    ;

    /// Adds the indexing directive, unless it is the default.
    fn add_header(&self, request: Request) -> (out: Request)
        ensures
            out@ == request@.with_optional_header(
                HEADER_INDEXING_DIRECTIVE@,
                self.indexing_directive_value().header_value(),
            ),
    {
        match self.indexing_directive().to_header_value() {
            Some(value) => request.header(HEADER_INDEXING_DIRECTIVE, value),
            None => request,
        }
    }
}

/// A builder on which an indexing directive can be set.
pub trait IndexingDirectiveSupport: Sized {
    type O: IndexingDirectiveOption;

    fn with_indexing_directive(self, indexing_directive: IndexingDirective) -> (out: Self::O)
        ensures
            out.indexing_directive_value() == indexing_directive,
    ;
}

/// A builder that may hold a condition on the entity tag.
pub trait IfMatchConditionOption<'a> {
    /// The condition on the entity tag held.
    spec fn if_match_condition_value(&self) -> Option<IfMatchConditionView>;

    fn if_match_condition(&self) -> (if_match_condition: Option<IfMatchCondition<'a>>)
        ensures
            match if_match_condition {
                Some(condition) => self.if_match_condition_value() == Some(condition@),
                None => self.if_match_condition_value() is None,
            },
    ;

    /// Adds the condition on the entity tag, if there is one.
    fn add_header(&self, request: Request) -> (out: Request)
        ensures
            out@ == with_if_match_condition(request@, self.if_match_condition_value()),
    {
        match self.if_match_condition() {
            Some(IfMatchCondition::Match(etag)) => request.header(IF_MATCH, etag),
            Some(IfMatchCondition::NotMatch(etag)) => request.header(IF_NONE_MATCH, etag),
            None => request,
        }
    }
}

/// A builder on which a condition on the entity tag can be set.
pub trait IfMatchConditionSupport<'a>: Sized {
    type O: IfMatchConditionOption<'a>;

    fn with_if_match_condition(self, if_match_condition: IfMatchCondition<'a>) -> (out: Self::O)
        ensures
            out.if_match_condition_value() == Some(if_match_condition@),
    ;
}

/// A builder that may hold an instant since which the target must have changed.
pub trait IfModifiedSinceOption<'a> {
    /// The instant held, in seconds since the epoch.
    spec fn if_modified_since_value(&self) -> Option<int>;

    fn if_modified_since(&self) -> (if_modified_since: Option<&'a UtcDateTime>)
        ensures
            match if_modified_since {
                Some(since) => self.if_modified_since_value() == Some(since@),
                None => self.if_modified_since_value() is None,
            },
    ;

    /// Adds the instant, if there is one, as RFC 2822 text.
    fn add_header(&self, request: Request) -> (out: Request)
        ensures
            out@ == with_if_modified_since(request@, self.if_modified_since_value()),
    {
        match self.if_modified_since() {
            Some(since) => request.header(IF_MODIFIED_SINCE, since.to_rfc2822()),
            None => request,
        }
    }
}

/// A builder on which an instant since which the target must have changed can be set.
pub trait IfModifiedSinceSupport<'a>: Sized {
    type O: IfModifiedSinceOption<'a>;

    fn with_if_modified_since(self, if_modified_since: &'a UtcDateTime) -> (out: Self::O)
        ensures
            out.if_modified_since_value() == Some(if_modified_since@),
    ;
}

/// A builder that holds the flag that allows tentative writes.
pub trait AllowTentativeWritesOption {
    /// The flag held.
    spec fn allow_tentative_writes_value(&self) -> bool;

    fn allow_tentative_writes(&self) -> (allow_tentative_writes: bool)
        ensures
            allow_tentative_writes == self.allow_tentative_writes_value(),
    ;

    /// Adds the flag, whatever it is.
    fn add_header(&self, request: Request) -> (out: Request)
        ensures
            out@ == request@.with_header(
                HEADER_ALLOW_MULTIPLE_WRITES@,
                flag_text(self.allow_tentative_writes_value()),
            ),
    {
        if self.allow_tentative_writes() {
            request.header(HEADER_ALLOW_MULTIPLE_WRITES, "true")
        } else {
            request.header(HEADER_ALLOW_MULTIPLE_WRITES, "false")
        }
    }
}

/// A builder on which the flag that allows tentative writes can be set.
pub trait AllowTentativeWritesSupport: Sized {
    type O: AllowTentativeWritesOption;

    fn with_allow_tentative_writes(self, allow_tentative_writes: bool) -> (out: Self::O)
        ensures
            out.allow_tentative_writes_value() == allow_tentative_writes,
    ;
}

/// A builder that holds the flag that turns a creation into an upsert.
pub trait IsUpsertOption {
    /// The flag held.
    spec fn is_upsert_value(&self) -> bool;

    fn is_upsert(&self) -> (is_upsert: bool)
        ensures
            is_upsert == self.is_upsert_value(),
    ;

    /// Adds the flag, whatever it is.
    fn add_header(&self, request: Request) -> (out: Request)
        ensures
            out@ == request@.with_header(
                HEADER_DOCUMENTDB_IS_UPSERT@,
                flag_text(self.is_upsert_value()),
            ),
    {
        if self.is_upsert() {
            request.header(HEADER_DOCUMENTDB_IS_UPSERT, "true")
        } else {
            request.header(HEADER_DOCUMENTDB_IS_UPSERT, "false")
        }
    }
}

/// A builder on which the flag that turns a creation into an upsert can be set.
pub trait IsUpsertSupport: Sized {
    type O: IsUpsertOption;

    fn with_is_upsert(self, is_upsert: bool) -> (out: Self::O)
        ensures
            out.is_upsert_value() == is_upsert,
    ;
}

/// A builder that holds a document.
pub trait DocumentRequired<'a> {
    /// The serialized document held.
    spec fn document_value(&self) -> Seq<char>;

    fn document(&self) -> (document: &'a Document)
        ensures
            document@ == self.document_value(),
    ;
}

/// A builder on which a document can be set.
pub trait DocumentSupport<'a>: Sized {
    type O: DocumentRequired<'a>;

    fn with_document(self, document: &'a Document) -> (out: Self::O)
        ensures
            out.document_value() == document@,
    ;
}

/// A builder that holds partition keys.
pub trait PartitionKeysRequired<'a> {
    /// The partition keys held, each as JSON text.
    spec fn partition_keys_value(&self) -> Seq<Seq<char>>;

    fn partition_keys(&self) -> (partition_keys: &'a PartitionKeys)
        ensures
            partition_keys@ == self.partition_keys_value(),
    ;

    /// Adds the partition keys as a JSON array.
    fn add_header(&self, request: Request) -> (out: Request)
        ensures
            out@ == request@.with_header(
                HEADER_DOCUMENTDB_PARTITIONKEY@,
                json_array(self.partition_keys_value()),
            ),
    {
        let serialized = self.partition_keys().to_json();
        request.header(HEADER_DOCUMENTDB_PARTITIONKEY, serialized.as_str())
    }
}

/// A builder on which partition keys can be set.
pub trait PartitionKeysSupport<'a>: Sized {
    type O: PartitionKeysRequired<'a>;

    fn with_partition_keys(self, partition_keys: &'a PartitionKeys) -> (out: Self::O)
        ensures
            out.partition_keys_value() == partition_keys@,
    ;
}

/// A builder that holds a document id.
pub trait DocumentIdRequired<'a> {
    /// The document id held.
    spec fn document_id_value(&self) -> Seq<char>;

    fn document_id(&self) -> (document_id: &'a str)
        ensures
            document_id@ == self.document_id_value(),
    ;
}

/// A builder on which a document id can be set.
pub trait DocumentIdSupport<'a>: Sized {
    type O: DocumentIdRequired<'a>;

    fn with_document_id(self, document_id: &'a str) -> (out: Self::O)
        ensures
            out.document_id_value() == document_id@,
    ;
}

/// A builder that may hold a continuation token.
pub trait ContinuationOption<'a> {
    /// The continuation token held.
    spec fn continuation_value(&self) -> Option<Seq<char>>;

    fn continuation(&self) -> (continuation: Option<&'a str>)
        ensures
            text_of(continuation) == self.continuation_value(),
    ;

    /// Adds the continuation token, if there is one.
    fn add_header(&self, request: Request) -> (out: Request)
        ensures
            out@ == request@.with_optional_header(HEADER_CONTINUATION@, self.continuation_value()),
    {
        match self.continuation() {
            Some(continuation) => request.header(HEADER_CONTINUATION, continuation),
            None => request,
        }
    }
}

/// A builder on which a continuation token can be set.
pub trait ContinuationSupport<'a>: Sized {
    type O: ContinuationOption<'a>;

    fn with_continuation(self, continuation: &'a str) -> (out: Self::O)
        ensures
            out.continuation_value() == Some(continuation@),
    ;
}

/// A builder that may hold a limit on the items of a page.
pub trait MaxItemCountOption {
    /// The limit on the items of a page held.
    spec fn max_item_count_value(&self) -> Option<u32>;

    fn max_item_count(&self) -> (max_item_count: Option<u32>)
        ensures
            max_item_count == self.max_item_count_value(),
    ;

    /// Adds the limit on the items of a page, if there is one, in decimal.
    fn add_header(&self, request: Request) -> (out: Request)
        ensures
            out@ == with_max_item_count(request@, self.max_item_count_value()),
    {
        match self.max_item_count() {
            Some(count) => {
                let text = decimal_string(count as u64);
                request.header(HEADER_MAX_ITEM_COUNT, text.as_str())
            },
            None => request,
        }
    }
}

/// A builder on which a limit on the items of a page can be set.
pub trait MaxItemCountSupport: Sized {
    type O: MaxItemCountOption;

    fn with_max_item_count(self, max_item_count: u32) -> (out: Self::O)
        ensures
            out.max_item_count_value() == Some(max_item_count),
    ;
}

} // verus!
