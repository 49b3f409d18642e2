//! What holds of the builders and of the walk through pages, whatever the
//! values: each statement below is proved from the definitions of the models.
use crate::capabilities::flag_text;
use crate::capabilities::with_consistency_level;
use crate::capabilities::with_if_match_condition;
use crate::capabilities::with_if_modified_since;
use crate::date_time::rfc2822_text;
use crate::headers::request_header_names;
use crate::headers::request_header_names_differ;
use crate::headers::ACTIVITY_ID;
use crate::headers::HEADER_CONSISTENCY_LEVEL;
use crate::headers::HEADER_DOCUMENTDB_IS_UPSERT;
use crate::headers::HEADER_INDEXING_DIRECTIVE;
use crate::headers::USER_AGENT;
use crate::clients::document_path;
use crate::clients::documents_path;
use crate::clients::user_defined_function_path;
use crate::consistency_level::ConsistencyLevelView;
use crate::headers::HEADER_ALLOW_MULTIPLE_WRITES;
use crate::headers::HEADER_DOCUMENTDB_PARTITIONKEY;
use crate::indexing_directive::IndexingDirective;
use crate::modify_conditions::IfMatchConditionView;
use crate::pagination::PagerView;
use crate::partition_keys::json_array;
use crate::request::Method;
use crate::request::RequestView;
use crate::request::ResourceType;
use crate::requests::CreateDocumentModel;
use crate::requests::DeleteUserDefinedFunctionModel;
use crate::requests::GetDocumentModel;
use crate::requests::ListDocumentsModel;
use crate::requests::ReplaceDocumentModel;
use vstd::prelude::*;

verus! {

/// A replacement is complete exactly when the document, the partition keys
/// and the document id have all been supplied. Supplying all three completes
/// it from any state; from the initial state, leaving any of them out leaves
/// it incomplete.
pub proof fn replace_is_complete_iff_all_mandatory_supplied(
    model: ReplaceDocumentModel,
    service_uri: Seq<char>,
    database: Seq<char>,
    collection: Seq<char>,
    document: Seq<char>,
    partition_keys: Seq<Seq<char>>,
    document_id: Seq<char>,
)
    ensures
        model.with_document(document).with_partition_keys(partition_keys).with_document_id(
            document_id,
        ).is_complete(),
        ({
            let initial = ReplaceDocumentModel::initial(service_uri, database, collection);
            &&& !initial.is_complete()
            &&& !initial.with_document(document).is_complete()
            &&& !initial.with_partition_keys(partition_keys).is_complete()
            &&& !initial.with_document_id(document_id).is_complete()
            &&& !initial.with_document(document).with_partition_keys(partition_keys).is_complete()
            &&& !initial.with_document(document).with_document_id(document_id).is_complete()
            &&& !initial.with_partition_keys(partition_keys).with_document_id(
                document_id,
            ).is_complete()
        }),
{
}

/// Setting an option of a replacement neither supplies nor removes a
/// mandatory parameter.
pub proof fn replace_options_leave_completeness_alone(
    model: ReplaceDocumentModel,
    indexing_directive: IndexingDirective,
    if_match_condition: IfMatchConditionView,
    if_modified_since: int,
    user_agent: Seq<char>,
    activity_id: Seq<char>,
    consistency_level: ConsistencyLevelView,
    allow_tentative_writes: bool,
)
    ensures
        model.with_indexing_directive(indexing_directive).is_complete() == model.is_complete(),
        model.with_if_match_condition(if_match_condition).is_complete() == model.is_complete(),
        model.with_if_modified_since(if_modified_since).is_complete() == model.is_complete(),
        model.with_user_agent(user_agent).is_complete() == model.is_complete(),
        model.with_activity_id(activity_id).is_complete() == model.is_complete(),
        model.with_consistency_level(consistency_level).is_complete() == model.is_complete(),
        model.with_allow_tentative_writes(allow_tentative_writes).is_complete()
            == model.is_complete(),
{
}

/// The order in which the mandatory parameters of a replacement are supplied
/// does not matter: all six orders give the same state, and so the same
/// request.
pub proof fn replace_mandatory_order_is_irrelevant(
    model: ReplaceDocumentModel,
    document: Seq<char>,
    partition_keys: Seq<Seq<char>>,
    document_id: Seq<char>,
)
    ensures
        ({
            let reference = model.with_document(document).with_partition_keys(
                partition_keys,
            ).with_document_id(document_id);
            &&& model.with_document(document).with_document_id(document_id).with_partition_keys(
                partition_keys,
            ) == reference
            &&& model.with_partition_keys(partition_keys).with_document(document).with_document_id(
                document_id,
            ) == reference
            &&& model.with_partition_keys(partition_keys).with_document_id(
                document_id,
            ).with_document(document) == reference
            &&& model.with_document_id(document_id).with_document(document).with_partition_keys(
                partition_keys,
            ) == reference
            &&& model.with_document_id(document_id).with_partition_keys(
                partition_keys,
            ).with_document(document) == reference
            &&& model.with_document(document).with_document_id(document_id).with_partition_keys(
                partition_keys,
            ).request() == reference.request()
            &&& model.with_partition_keys(partition_keys).with_document(document).with_document_id(
                document_id,
            ).request() == reference.request()
            &&& model.with_partition_keys(partition_keys).with_document_id(
                document_id,
            ).with_document(document).request() == reference.request()
            &&& model.with_document_id(document_id).with_document(document).with_partition_keys(
                partition_keys,
            ).request() == reference.request()
            &&& model.with_document_id(document_id).with_partition_keys(
                partition_keys,
            ).with_document(document).request() == reference.request()
        }),
{
}

/// A mandatory parameter of a replacement and an option can be set in either
/// order.
pub proof fn replace_mandatory_and_option_commute(
    model: ReplaceDocumentModel,
    document: Seq<char>,
    partition_keys: Seq<Seq<char>>,
    document_id: Seq<char>,
    user_agent: Seq<char>,
    consistency_level: ConsistencyLevelView,
)
    ensures
        model.with_user_agent(user_agent).with_document(document) == model.with_document(
            document,
        ).with_user_agent(user_agent),
        model.with_user_agent(user_agent).with_partition_keys(partition_keys)
            == model.with_partition_keys(partition_keys).with_user_agent(user_agent),
        model.with_user_agent(user_agent).with_document_id(document_id) == model.with_document_id(
            document_id,
        ).with_user_agent(user_agent),
        model.with_consistency_level(consistency_level).with_document(document)
            == model.with_document(document).with_consistency_level(consistency_level),
        model.with_consistency_level(consistency_level).with_partition_keys(partition_keys)
            == model.with_partition_keys(partition_keys).with_consistency_level(consistency_level),
        model.with_consistency_level(consistency_level).with_document_id(document_id)
            == model.with_document_id(document_id).with_consistency_level(consistency_level),
{
}

/// Setting a parameter of a replacement twice leaves the second value: the
/// first might as well not have been set.
pub proof fn replace_second_value_wins(
    model: ReplaceDocumentModel,
    documents: (Seq<char>, Seq<char>),
    partition_keys: (Seq<Seq<char>>, Seq<Seq<char>>),
    document_ids: (Seq<char>, Seq<char>),
    indexing_directives: (IndexingDirective, IndexingDirective),
    if_match_conditions: (IfMatchConditionView, IfMatchConditionView),
    instants: (int, int),
    user_agents: (Seq<char>, Seq<char>),
    activity_ids: (Seq<char>, Seq<char>),
    consistency_levels: (ConsistencyLevelView, ConsistencyLevelView),
    flags: (bool, bool),
)
    ensures
        model.with_document(documents.0).with_document(documents.1) == model.with_document(
            documents.1,
        ),
        model.with_partition_keys(partition_keys.0).with_partition_keys(partition_keys.1)
            == model.with_partition_keys(partition_keys.1),
        model.with_document_id(document_ids.0).with_document_id(document_ids.1)
            == model.with_document_id(document_ids.1),
        model.with_indexing_directive(indexing_directives.0).with_indexing_directive(
            indexing_directives.1,
        ) == model.with_indexing_directive(indexing_directives.1),
        model.with_if_match_condition(if_match_conditions.0).with_if_match_condition(
            if_match_conditions.1,
        ) == model.with_if_match_condition(if_match_conditions.1),
        model.with_if_modified_since(instants.0).with_if_modified_since(instants.1)
            == model.with_if_modified_since(instants.1),
        model.with_user_agent(user_agents.0).with_user_agent(user_agents.1)
            == model.with_user_agent(user_agents.1),
        model.with_activity_id(activity_ids.0).with_activity_id(activity_ids.1)
            == model.with_activity_id(activity_ids.1),
        model.with_consistency_level(consistency_levels.0).with_consistency_level(
            consistency_levels.1,
        ) == model.with_consistency_level(consistency_levels.1),
        model.with_allow_tentative_writes(flags.0).with_allow_tentative_writes(flags.1)
            == model.with_allow_tentative_writes(flags.1),
{
}

/// A replacement whose options were never set asks for exactly two headers:
/// the partition keys and the flag for tentative writes, which says `false`.
/// No header names an indexing directive, a condition, a user agent, an
/// activity id or a consistency level.
pub proof fn replace_defaults_contribute_two_headers(
    service_uri: Seq<char>,
    database: Seq<char>,
    collection: Seq<char>,
    document: Seq<char>,
    partition_keys: Seq<Seq<char>>,
    document_id: Seq<char>,
)
    ensures
        ReplaceDocumentModel::initial(service_uri, database, collection).with_document(
            document,
        ).with_partition_keys(partition_keys).with_document_id(document_id).request() == (
        RequestView {
            method: Method::Put,
            resource_type: ResourceType::Documents,
            base_uri: service_uri,
            path: document_path(database, collection, document_id),
            headers: seq![
                (HEADER_DOCUMENTDB_PARTITIONKEY@, json_array(partition_keys)),
                (HEADER_ALLOW_MULTIPLE_WRITES@, flag_text(false)),
            ],
            body: Some(document),
        }),
{
    let request = ReplaceDocumentModel::initial(service_uri, database, collection).with_document(
        document,
    ).with_partition_keys(partition_keys).with_document_id(document_id).request();
    assert(request.headers =~= seq![
        (HEADER_DOCUMENTDB_PARTITIONKEY@, json_array(partition_keys)),
        (HEADER_ALLOW_MULTIPLE_WRITES@, flag_text(false)),
    ]);
}

/// The names of the header lines `lines`, in order.
pub open spec fn names_of(lines: Seq<(Seq<char>, Seq<char>)>) -> Seq<Seq<char>> {
    Seq::new(lines.len(), |i: int| lines[i].0)
}

/// Whether `name` is one of the names of request headers whose places in
/// the list of those names are in `places`.
pub open spec fn is_name_at(name: Seq<char>, places: Set<int>) -> bool {
    exists|k: int|
        0 <= k < request_header_names().len() && places.contains(k)
            && #[trigger] request_header_names()[k] == name
}

/// Every line of `lines` is named by one of the names at `places`, and no two
/// lines have the same name.
pub open spec fn drawn_once_from(lines: Seq<(Seq<char>, Seq<char>)>, places: Set<int>) -> bool {
    &&& names_of(lines).no_duplicates()
    &&& forall|i: int| 0 <= i < lines.len() ==> is_name_at((#[trigger] lines[i]).0, places)
}

/// Adding a line under a name that has not been used keeps the names
/// different from each other; so does adding nothing.
pub proof fn fresh_name_keeps_names_apart(
    lines: Seq<(Seq<char>, Seq<char>)>,
    places: Set<int>,
    k: int,
    value: Seq<char>,
)
    requires
        drawn_once_from(lines, places),
        0 <= k < request_header_names().len(),
        !places.contains(k),
    ensures
        drawn_once_from(lines.push((request_header_names()[k], value)), places.insert(k)),
        drawn_once_from(lines, places.insert(k)),
{
    request_header_names_differ();
    let names = request_header_names();
    let longer = lines.push((names[k], value));
    assert forall|i: int| 0 <= i < lines.len() implies is_name_at(
        (#[trigger] lines[i]).0,
        places.insert(k),
    ) && lines[i].0 != names[k] by {
        assert(is_name_at(lines[i].0, places));
        let ki = choose|ki: int|
            0 <= ki < names.len() && places.contains(ki) && #[trigger] names[ki] == lines[i].0;
        assert(places.insert(k).contains(ki));
        assert(ki != k);
    }
    assert forall|i: int| 0 <= i < longer.len() implies is_name_at(
        (#[trigger] longer[i]).0,
        places.insert(k),
    ) by {
        if i < lines.len() {
            assert(longer[i] == lines[i]);
        } else {
            assert(places.insert(k).contains(k));
            assert(names[k] == longer[i].0);
        }
    }
    let longer_names = names_of(longer);
    assert forall|i: int, j: int|
        0 <= i < longer_names.len() && 0 <= j < longer_names.len() && i != j implies longer_names[i]
        != longer_names[j] by {
        if i < lines.len() && j < lines.len() {
            assert(names_of(lines)[i] != names_of(lines)[j]);
            assert(longer[i] == lines[i] && longer[j] == lines[j]);
        } else if i < lines.len() {
            assert(longer[i] == lines[i]);
        } else {
            assert(longer[j] == lines[j]);
        }
    }
}

/// No request that replaces a document names a header twice, whatever was
/// set: every parameter writes under a name of its own.
pub proof fn replace_request_names_no_header_twice(model: ReplaceDocumentModel)
    requires
        model.is_complete(),
    ensures
        names_of(model.request().headers).no_duplicates(),
{
    let names = request_header_names();
    let none: Seq<char> = Seq::empty();
    let r0 = RequestView::bare(
        model.service_uri,
        document_path(model.database, model.collection, model.document_id.unwrap()),
        Method::Put,
        ResourceType::Documents,
    );
    let a0 = Set::<int>::empty();
    assert(names_of(r0.headers) =~= Seq::<Seq<char>>::empty());
    assert(drawn_once_from(r0.headers, a0));

    let r1 = r0.with_optional_header(
        HEADER_INDEXING_DIRECTIVE@,
        model.indexing_directive.header_value(),
    );
    let a1 = a0.insert(8);
    fresh_name_keeps_names_apart(
        r0.headers,
        a0,
        8,
        match model.indexing_directive.header_value() {
            Some(v) => v,
            None => none,
        },
    );
    assert(drawn_once_from(r1.headers, a1));

    let r2 = with_if_match_condition(r1, model.if_match_condition);
    let a2 = a1.insert(1).insert(2);
    fresh_name_keeps_names_apart(r1.headers, a1, 1, none);
    match model.if_match_condition {
        Some(IfMatchConditionView::Match(etag)) => {
            fresh_name_keeps_names_apart(r1.headers, a1, 1, etag);
            fresh_name_keeps_names_apart(r2.headers, a1.insert(1), 2, none);
        },
        Some(IfMatchConditionView::NotMatch(etag)) => {
            fresh_name_keeps_names_apart(r1.headers, a1.insert(1), 2, etag);
        },
        None => {
            fresh_name_keeps_names_apart(r1.headers, a1.insert(1), 2, none);
        },
    }
    assert(drawn_once_from(r2.headers, a2));

    let r3 = with_if_modified_since(r2, model.if_modified_since);
    let a3 = a2.insert(3);
    fresh_name_keeps_names_apart(
        r2.headers,
        a2,
        3,
        match model.if_modified_since {
            Some(t) => rfc2822_text(t),
            None => none,
        },
    );
    assert(drawn_once_from(r3.headers, a3));

    let r4 = r3.with_optional_header(USER_AGENT@, model.user_agent);
    let a4 = a3.insert(0);
    fresh_name_keeps_names_apart(
        r3.headers,
        a3,
        0,
        match model.user_agent {
            Some(v) => v,
            None => none,
        },
    );
    assert(drawn_once_from(r4.headers, a4));

    let r5 = r4.with_optional_header(ACTIVITY_ID@, model.activity_id);
    let a5 = a4.insert(4);
    fresh_name_keeps_names_apart(
        r4.headers,
        a4,
        4,
        match model.activity_id {
            Some(v) => v,
            None => none,
        },
    );
    assert(drawn_once_from(r5.headers, a5));

    let r6 = with_consistency_level(r5, model.consistency_level);
    let a6 = a5.insert(7).insert(6);
    match model.consistency_level {
        Some(level) => {
            fresh_name_keeps_names_apart(r5.headers, a5, 7, level.header_value());
            let named = r5.with_header(HEADER_CONSISTENCY_LEVEL@, level.header_value());
            fresh_name_keeps_names_apart(
                named.headers,
                a5.insert(7),
                6,
                match level.session_token() {
                    Some(token) => token,
                    None => none,
                },
            );
        },
        None => {
            fresh_name_keeps_names_apart(r5.headers, a5, 7, none);
            fresh_name_keeps_names_apart(r5.headers, a5.insert(7), 6, none);
        },
    }
    assert(drawn_once_from(r6.headers, a6));

    let r7 = r6.with_header(
        HEADER_DOCUMENTDB_PARTITIONKEY@,
        json_array(model.partition_keys.unwrap()),
    );
    let a7 = a6.insert(10);
    fresh_name_keeps_names_apart(r6.headers, a6, 10, json_array(model.partition_keys.unwrap()));
    assert(drawn_once_from(r7.headers, a7));

    let r8 = r7.with_header(HEADER_ALLOW_MULTIPLE_WRITES@, flag_text(model.allow_tentative_writes));
    fresh_name_keeps_names_apart(r7.headers, a7, 12, flag_text(model.allow_tentative_writes));
    assert(model.request().headers == r8.headers);
}

/// The order in which the mandatory parameters of a creation are supplied
/// does not matter, and the creation is complete exactly when both have been
/// supplied.
pub proof fn create_mandatory_order_is_irrelevant(
    model: CreateDocumentModel,
    service_uri: Seq<char>,
    database: Seq<char>,
    collection: Seq<char>,
    document: Seq<char>,
    partition_keys: Seq<Seq<char>>,
)
    ensures
        model.with_document(document).with_partition_keys(partition_keys)
            == model.with_partition_keys(partition_keys).with_document(document),
        model.with_document(document).with_partition_keys(partition_keys).request()
            == model.with_partition_keys(partition_keys).with_document(document).request(),
        model.with_document(document).with_partition_keys(partition_keys).is_complete(),
        ({
            let initial = CreateDocumentModel::initial(service_uri, database, collection);
            &&& !initial.is_complete()
            &&& !initial.with_document(document).is_complete()
            &&& !initial.with_partition_keys(partition_keys).is_complete()
        }),
{
}

/// Setting a parameter of a creation twice leaves the second value.
pub proof fn create_second_value_wins(
    model: CreateDocumentModel,
    documents: (Seq<char>, Seq<char>),
    partition_keys: (Seq<Seq<char>>, Seq<Seq<char>>),
    upserts: (bool, bool),
    indexing_directives: (IndexingDirective, IndexingDirective),
    if_match_conditions: (IfMatchConditionView, IfMatchConditionView),
    instants: (int, int),
    user_agents: (Seq<char>, Seq<char>),
    activity_ids: (Seq<char>, Seq<char>),
    consistency_levels: (ConsistencyLevelView, ConsistencyLevelView),
    flags: (bool, bool),
)
    ensures
        model.with_document(documents.0).with_document(documents.1) == model.with_document(
            documents.1,
        ),
        model.with_partition_keys(partition_keys.0).with_partition_keys(partition_keys.1)
            == model.with_partition_keys(partition_keys.1),
        model.with_is_upsert(upserts.0).with_is_upsert(upserts.1) == model.with_is_upsert(
            upserts.1,
        ),
        model.with_indexing_directive(indexing_directives.0).with_indexing_directive(
            indexing_directives.1,
        ) == model.with_indexing_directive(indexing_directives.1),
        model.with_if_match_condition(if_match_conditions.0).with_if_match_condition(
            if_match_conditions.1,
        ) == model.with_if_match_condition(if_match_conditions.1),
        model.with_if_modified_since(instants.0).with_if_modified_since(instants.1)
            == model.with_if_modified_since(instants.1),
        model.with_user_agent(user_agents.0).with_user_agent(user_agents.1)
            == model.with_user_agent(user_agents.1),
        model.with_activity_id(activity_ids.0).with_activity_id(activity_ids.1)
            == model.with_activity_id(activity_ids.1),
        model.with_consistency_level(consistency_levels.0).with_consistency_level(
            consistency_levels.1,
        ) == model.with_consistency_level(consistency_levels.1),
        model.with_allow_tentative_writes(flags.0).with_allow_tentative_writes(flags.1)
            == model.with_allow_tentative_writes(flags.1),
{
}

/// A creation whose options were never set asks for exactly three headers:
/// the partition keys, the upsert flag and the flag for tentative writes,
/// both of which say `false`.
pub proof fn create_defaults_contribute_three_headers(
    service_uri: Seq<char>,
    database: Seq<char>,
    collection: Seq<char>,
    document: Seq<char>,
    partition_keys: Seq<Seq<char>>,
)
    ensures
        CreateDocumentModel::initial(service_uri, database, collection).with_document(
            document,
        ).with_partition_keys(partition_keys).request() == (RequestView {
            method: Method::Post,
            resource_type: ResourceType::Documents,
            base_uri: service_uri,
            path: documents_path(database, collection),
            headers: seq![
                (HEADER_DOCUMENTDB_PARTITIONKEY@, json_array(partition_keys)),
                (HEADER_DOCUMENTDB_IS_UPSERT@, flag_text(false)),
                (HEADER_ALLOW_MULTIPLE_WRITES@, flag_text(false)),
            ],
            body: Some(document),
        }),
{
    let request = CreateDocumentModel::initial(service_uri, database, collection).with_document(
        document,
    ).with_partition_keys(partition_keys).request();
    assert(request.headers =~= seq![
        (HEADER_DOCUMENTDB_PARTITIONKEY@, json_array(partition_keys)),
        (HEADER_DOCUMENTDB_IS_UPSERT@, flag_text(false)),
        (HEADER_ALLOW_MULTIPLE_WRITES@, flag_text(false)),
    ]);
}

/// A deletion of a user defined function, a listing and a lookup whose
/// options were never set send no header of their own; the lookup sends the
/// partition keys of its document and nothing else. None of them has a body.
pub proof fn requests_without_options_carry_no_optional_header(
    service_uri: Seq<char>,
    database: Seq<char>,
    collection: Seq<char>,
    name: Seq<char>,
    partition_keys: Seq<Seq<char>>,
)
    ensures
        DeleteUserDefinedFunctionModel::initial(service_uri, database, collection, name).request()
            == RequestView::bare(
            service_uri,
            user_defined_function_path(database, collection, Some(name)),
            Method::Delete,
            ResourceType::UserDefinedFunctions,
        ),
        ListDocumentsModel::initial(service_uri, database, collection).request()
            == RequestView::bare(
            service_uri,
            documents_path(database, collection),
            Method::Get,
            ResourceType::Documents,
        ),
        GetDocumentModel::initial(
            service_uri,
            database,
            collection,
            name,
            partition_keys,
        ).request() == RequestView::bare(
            service_uri,
            document_path(database, collection, name),
            Method::Get,
            ResourceType::Documents,
        ).with_header(HEADER_DOCUMENTDB_PARTITIONKEY@, json_array(partition_keys)),
{
}

/// Setting an option of a deletion, of a listing or of a lookup twice leaves
/// the second value.
pub proof fn options_keep_the_second_value(
    deletion: DeleteUserDefinedFunctionModel,
    listing: ListDocumentsModel,
    lookup: GetDocumentModel,
    texts: (Seq<char>, Seq<char>),
    counts: (u32, u32),
    instants: (int, int),
    if_match_conditions: (IfMatchConditionView, IfMatchConditionView),
    consistency_levels: (ConsistencyLevelView, ConsistencyLevelView),
)
    ensures
        deletion.with_user_agent(texts.0).with_user_agent(texts.1) == deletion.with_user_agent(
            texts.1,
        ),
        deletion.with_activity_id(texts.0).with_activity_id(texts.1) == deletion.with_activity_id(
            texts.1,
        ),
        deletion.with_consistency_level(consistency_levels.0).with_consistency_level(
            consistency_levels.1,
        ) == deletion.with_consistency_level(consistency_levels.1),
        listing.with_if_match_condition(if_match_conditions.0).with_if_match_condition(
            if_match_conditions.1,
        ) == listing.with_if_match_condition(if_match_conditions.1),
        listing.with_user_agent(texts.0).with_user_agent(texts.1) == listing.with_user_agent(
            texts.1,
        ),
        listing.with_activity_id(texts.0).with_activity_id(texts.1) == listing.with_activity_id(
            texts.1,
        ),
        listing.with_consistency_level(consistency_levels.0).with_consistency_level(
            consistency_levels.1,
        ) == listing.with_consistency_level(consistency_levels.1),
        listing.with_continuation(texts.0).with_continuation(texts.1) == listing.with_continuation(
            texts.1,
        ),
        listing.with_max_item_count(counts.0).with_max_item_count(counts.1)
            == listing.with_max_item_count(counts.1),
        lookup.with_if_match_condition(if_match_conditions.0).with_if_match_condition(
            if_match_conditions.1,
        ) == lookup.with_if_match_condition(if_match_conditions.1),
        lookup.with_if_modified_since(instants.0).with_if_modified_since(instants.1)
            == lookup.with_if_modified_since(instants.1),
        lookup.with_user_agent(texts.0).with_user_agent(texts.1) == lookup.with_user_agent(
            texts.1,
        ),
        lookup.with_activity_id(texts.0).with_activity_id(texts.1) == lookup.with_activity_id(
            texts.1,
        ),
        lookup.with_consistency_level(consistency_levels.0).with_consistency_level(
            consistency_levels.1,
        ) == lookup.with_consistency_level(consistency_levels.1),
{
}

/// A walk through pages asks for one page more than the number of pages that
/// came with a token before the first page without one, and then stops: if
/// the first `n` pages carry a token and the next one does not, the walk
/// takes `n + 1` pages, however many the service would still give.
pub proof fn walk_stops_after_first_page_without_token(tokens: Seq<Option<Seq<char>>>, n: nat)
    requires
        n < tokens.len(),
        forall|i: int| 0 <= i < n ==> (#[trigger] tokens[i]) is Some,
        tokens[n as int] is None,
    ensures
        PagerView::Start.pages_taken(tokens) == n + 1,
{
    walk_from_any_state(PagerView::Start, tokens, n);
}

/// The same from any state that still wants a page.
pub proof fn walk_from_any_state(state: PagerView, tokens: Seq<Option<Seq<char>>>, n: nat)
    requires
        state.wants_page(),
        n < tokens.len(),
        forall|i: int| 0 <= i < n ==> (#[trigger] tokens[i]) is Some,
        tokens[n as int] is None,
    ensures
        state.pages_taken(tokens) == n + 1,
    decreases n,
{
    let rest = tokens.drop_first();
    if n == 0 {
        assert(state.advance(tokens[0]) == PagerView::Done);
        assert(PagerView::Done.pages_taken(rest) == 0);
    } else {
        assert(tokens[0] is Some);
        assert forall|i: int| 0 <= i < n - 1 implies (#[trigger] rest[i]) is Some by {
            assert(rest[i] == tokens[i + 1]);
        }
        assert(rest[n - 1] == tokens[n as int]);
        walk_from_any_state(state.advance(tokens[0]), rest, (n - 1) as nat);
    }
}

/// Each request of a walk after the first carries the token of the page
/// before it, and a walk that is done neither wants a page nor leaves that
/// state.
pub proof fn walk_sends_the_token_it_received(state: PagerView, token: Seq<char>, later: Option<
    Seq<char>,
>)
    ensures
        PagerView::Start.token() is None,
        state.wants_page() ==> state.advance(Some(token)).token() == Some(token),
        state.wants_page() ==> state.advance(Some(token)).wants_page(),
        !state.advance(None).wants_page(),
        !state.advance(None).advance(later).wants_page(),
{
}

} // verus!
