//! The row of the table of deleted articles.

use crate::collector::article::DeletedArticle;
use crate::stamp::fresh_token;
use vstd::prelude::*;

verus! {

/// The table that holds the notices of deleted articles.
pub const TABLE_NAME: &'static str = "article_deleted";

/// One row of the table of deleted articles.
#[derive(Clone, Copy, PartialEq, Eq, Structural, Debug)]
pub struct Delete {
    /// The identifier of the row.
    pub uid: u128,
    pub id: u64,
    /// When the absence was seen, in microseconds since the Unix epoch.
    pub timestamp: i64,
}

impl crate::entity::Entity for Delete {
    fn table_name() -> (name: &'static str)
        ensures
            name@ == TABLE_NAME@,
    {
        TABLE_NAME
    }
}

impl Delete {
    /// The row for the notice `v` under the identifier `uid`.
    pub fn from_with(v: DeletedArticle, uid: u128) -> (row: Delete)
        ensures
            row == (Delete { uid, id: v.id, timestamp: v.timestamp }),
    {
        Delete { uid, id: v.id, timestamp: v.timestamp }
    }

    /// The row for the notice `v` under a fresh identifier.
    pub fn from(v: DeletedArticle) -> (row: Delete)
        ensures
            row.id == v.id,
            row.timestamp == v.timestamp,
    {
        let uid = fresh_token();
        Delete::from_with(v, uid)
    }
}

/// `rows` holds one row for each of `notices`, in order, with its number and
/// its time. Nothing is said of the identifiers.
pub open spec fn same_notices(rows: Seq<Delete>, notices: Seq<DeletedArticle>) -> bool {
    &&& rows.len() == notices.len()
    &&& forall|i: int|
        0 <= i < rows.len() ==> (#[trigger] rows[i]).id == notices[i].id && rows[i].timestamp
            == notices[i].timestamp
}

/// The rows to insert for the notices `rows`: one row for each, in order,
/// each under a fresh identifier.
pub fn insert(rows: Vec<DeletedArticle>) -> (out: Vec<Delete>)
    ensures
        same_notices(out@, rows@),
{
    let mut out: Vec<Delete> = Vec::new();
    for notice in it: rows
        invariant
            it.seq() == rows@,
            same_notices(out@, rows@.take(it.index() as int)),
    {
        let ghost before = out@;
        out.push(Delete::from(notice));
        assert forall|i: int| 0 <= i < out@.len() implies (#[trigger] out@[i]).id == rows@.take(
            it.index() + 1,
        )[i].id && out@[i].timestamp == rows@.take(it.index() + 1)[i].timestamp by {
            if i < before.len() {
                assert(out@[i] == before[i]);
                assert(rows@.take(it.index() as int)[i] == rows@.take(it.index() + 1)[i]);
            }
        }
    }
    assert(rows@.take(rows@.len() as int) =~= rows@);
    out
}

} // verus!
