//! The names of the headers that the service understands.
use vstd::prelude::*;

verus! {

pub const USER_AGENT: &'static str = "user-agent";

pub const IF_MATCH: &'static str = "if-match";

pub const IF_NONE_MATCH: &'static str = "if-none-match";

pub const IF_MODIFIED_SINCE: &'static str = "if-modified-since";

pub const ETAG: &'static str = "etag";

pub const ACTIVITY_ID: &'static str = "x-ms-activity-id";

pub const HEADER_CONTINUATION: &'static str = "x-ms-continuation";

pub const HEADER_SESSION_TOKEN: &'static str = "x-ms-session-token";

pub const HEADER_CONSISTENCY_LEVEL: &'static str = "x-ms-consistency-level";

pub const HEADER_INDEXING_DIRECTIVE: &'static str = "x-ms-indexing-directive";

pub const HEADER_MAX_ITEM_COUNT: &'static str = "x-ms-max-item-count";

pub const HEADER_DOCUMENTDB_PARTITIONKEY: &'static str = "x-ms-documentdb-partitionkey";

pub const HEADER_DOCUMENTDB_IS_UPSERT: &'static str = "x-ms-documentdb-is-upsert";

pub const HEADER_ALLOW_MULTIPLE_WRITES: &'static str = "x-ms-cosmos-allow-tentative-writes";

pub const HEADER_REQUEST_CHARGE: &'static str = "x-ms-request-charge";

pub const HEADER_DATE: &'static str = "x-ms-date";

pub const HEADER_VERSION: &'static str = "x-ms-version";

pub const AUTHORIZATION: &'static str = "authorization";

/// The version of the service's interface that the requests are written for.
pub const AZURE_VERSION: &'static str = "2018-12-31";

/// The names of the headers that the builders write into requests.
pub open spec fn request_header_names() -> Seq<Seq<char>> {
    seq![
        USER_AGENT@,
        IF_MATCH@,
        IF_NONE_MATCH@,
        IF_MODIFIED_SINCE@,
        ACTIVITY_ID@,
        HEADER_CONTINUATION@,
        HEADER_SESSION_TOKEN@,
        HEADER_CONSISTENCY_LEVEL@,
        HEADER_INDEXING_DIRECTIVE@,
        HEADER_MAX_ITEM_COUNT@,
        HEADER_DOCUMENTDB_PARTITIONKEY@,
        HEADER_DOCUMENTDB_IS_UPSERT@,
        HEADER_ALLOW_MULTIPLE_WRITES@,
        HEADER_DATE@,
        HEADER_VERSION@,
        AUTHORIZATION@,
    ]
}

/// No two parameters write to the same header: the names are all different.
pub proof fn request_header_names_differ()
    ensures
        request_header_names().no_duplicates(),
{
    reveal_strlit("user-agent");
    reveal_strlit("if-match");
    reveal_strlit("if-none-match");
    reveal_strlit("if-modified-since");
    reveal_strlit("x-ms-activity-id");
    reveal_strlit("x-ms-continuation");
    reveal_strlit("x-ms-session-token");
    reveal_strlit("x-ms-consistency-level");
    reveal_strlit("x-ms-indexing-directive");
    reveal_strlit("x-ms-max-item-count");
    reveal_strlit("x-ms-documentdb-partitionkey");
    reveal_strlit("x-ms-documentdb-is-upsert");
    reveal_strlit("x-ms-cosmos-allow-tentative-writes");
    reveal_strlit("x-ms-date");
    reveal_strlit("x-ms-version");
    reveal_strlit("authorization");
    let names = request_header_names();
    let lengths: Seq<nat> = seq![10, 8, 13, 17, 16, 17, 18, 22, 23, 19, 28, 25, 34, 9, 12, 13];
    assert(names.len() == 16);
    assert(names[0].len() == 10);
    assert(names[1].len() == 8);
    assert(names[2].len() == 13 && names[2][0] == 'i');
    assert(names[3].len() == 17 && names[3][0] == 'i');
    assert(names[4].len() == 16);
    assert(names[5].len() == 17 && names[5][0] == 'x');
    assert(names[6].len() == 18);
    assert(names[7].len() == 22);
    assert(names[8].len() == 23);
    assert(names[9].len() == 19);
    assert(names[10].len() == 28);
    assert(names[11].len() == 25);
    assert(names[12].len() == 34);
    assert(names[13].len() == 9);
    assert(names[14].len() == 12);
    assert(names[15].len() == 13 && names[15][0] == 'a');
    assert forall|i: int, j: int| 0 <= i < names.len() && 0 <= j < names.len() && i != j implies
        names[i] != names[j] by {
        assert(names[i].len() == lengths[i]);
        assert(names[j].len() == lengths[j]);
        if lengths[i] == lengths[j] {
            assert(names[i][0] != names[j][0]);
        }
    }
}

} // verus!
