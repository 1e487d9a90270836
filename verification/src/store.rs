//! The storage gateway.
//!
//! The relational store is reached by the embedding program. The gateway says
//! which statement to send (`StoreRequest`) and what the answer (`StoreReply`)
//! means for the caller: `list_cats`, `get_cat_by_id` and `insert_cat` turn a
//! reply into the gateway's result.

use vstd::prelude::*;
use crate::error::Error;
use crate::models::{cat_views, Cat, CatView, NewCat, NewCatView};

verus! {

/// A statement for the store.
#[derive(Debug, PartialEq, Eq)]
pub enum StoreRequest {
    /// The first `limit` rows, in storage order.
    List { limit: u32 },
    /// The row with this id, if there is one.
    Get { id: i32 },
    /// Insert this cat and return the new row.
    Insert(NewCat),
}

/// What the store answered.
#[derive(Debug, PartialEq, Eq)]
pub enum StoreReply {
    /// No connection could be acquired from the pool.
    Unavailable,
    /// The store rejected the statement.
    Failed,
    /// The statement ran; these are the rows it returned.
    Rows(Vec<Cat>),
}

/// The mathematical value of a `StoreRequest`.
pub enum StoreRequestView {
    List { limit: int },
    Get { id: int },
    Insert(NewCatView),
}

/// The mathematical value of a `StoreReply`.
pub enum StoreReplyView {
    Unavailable,
    Failed,
    Rows(Seq<CatView>),
}

impl View for StoreRequest {
    type V = StoreRequestView;

    open spec fn view(&self) -> StoreRequestView {
        match self {
            StoreRequest::List { limit } => StoreRequestView::List { limit: *limit as int },
            StoreRequest::Get { id } => StoreRequestView::Get { id: *id as int },
            StoreRequest::Insert(cat) => StoreRequestView::Insert(cat@),
        }
    }
}

impl View for StoreReply {
    type V = StoreReplyView;

    open spec fn view(&self) -> StoreReplyView {
        match self {
            StoreReply::Unavailable => StoreReplyView::Unavailable,
            StoreReply::Failed => StoreReplyView::Failed,
            StoreReply::Rows(rows) => StoreReplyView::Rows(cat_views(rows@)),
        }
    }
}

/// The first `limit` elements of `rows`, or all of them if there are fewer.
pub open spec fn first_rows(rows: Seq<CatView>, limit: int) -> Seq<CatView> {
    if rows.len() <= limit {
        rows
    } else {
        rows.take(limit)
    }
}

/// The first element of `rows` whose id is `id`.
pub open spec fn find_by_id(rows: Seq<CatView>, id: int) -> Option<CatView>
    decreases rows.len(),
{
    if rows.len() == 0 {
        None
    } else if rows.first().id == id {
        Some(rows.first())
    } else {
        find_by_id(rows.drop_first(), id)
    }
}

/// What `list_cats` returns for a reply.
pub open spec fn list_outcome(reply: StoreReplyView, limit: int) -> Result<Seq<CatView>, Error> {
    match reply {
        StoreReplyView::Unavailable => Err(Error::Unavailable),
        StoreReplyView::Failed => Err(Error::Query),
        StoreReplyView::Rows(rows) => Ok(first_rows(rows, limit)),
    }
}

/// What `get_cat_by_id` returns for a reply.
pub open spec fn get_outcome(reply: StoreReplyView, id: int) -> Result<CatView, Error> {
    match reply {
        StoreReplyView::Unavailable => Err(Error::Unavailable),
        StoreReplyView::Failed => Err(Error::Query),
        StoreReplyView::Rows(rows) => match find_by_id(rows, id) {
            Some(cat) => Ok(cat),
            None => Err(Error::NotFound),
        },
    }
}

/// What `insert_cat` returns for a reply.
pub open spec fn insert_outcome(reply: StoreReplyView) -> Result<CatView, Error> {
    match reply {
        StoreReplyView::Unavailable => Err(Error::Unavailable),
        StoreReplyView::Failed => Err(Error::Query),
        StoreReplyView::Rows(rows) => if rows.len() == 0 {
            Err(Error::Query)
        } else {
            Ok(rows.first())
        },
    }
}

/// The view of a gateway result that carries one cat.
pub open spec fn cat_outcome(outcome: Result<Cat, Error>) -> Result<CatView, Error> {
    match outcome {
        Ok(cat) => Ok(cat@),
        Err(error) => Err(error),
    }
}

/// The view of a gateway result that carries a list of cats.
pub open spec fn cats_outcome(outcome: Result<Vec<Cat>, Error>) -> Result<Seq<CatView>, Error> {
    match outcome {
        Ok(cats) => Ok(cat_views(cats@)),
        Err(error) => Err(error),
    }
}

/// If no element before position `k` has the id and the one at `k` has it,
/// `find_by_id` gives the element at `k`.
pub proof fn lemma_find_first(rows: Seq<CatView>, id: int, k: int)
    requires
        0 <= k < rows.len(),
        rows[k].id == id,
        forall|j: int| 0 <= j < k ==> rows[j].id != id,
    ensures
        find_by_id(rows, id) == Some(rows[k]),
    decreases k,
{
    if k > 0 {
        let rest = rows.drop_first();
        assert(rest[k - 1] == rows[k]);
        assert forall|j: int| 0 <= j < k - 1 implies rest[j].id != id by {
            assert(rest[j] == rows[j + 1]);
        }
        lemma_find_first(rest, id, k - 1);
    }
}

/// `find_by_id` gives nothing exactly when no element has the id, and what it
/// gives is an element with that id.
pub proof fn lemma_find_by_id(rows: Seq<CatView>, id: int)
    ensures
        find_by_id(rows, id) is None <==> forall|j: int| 0 <= j < rows.len() ==> rows[j].id != id,
        find_by_id(rows, id) matches Some(cat) ==> cat.id == id && rows.contains(cat),
    decreases rows.len(),
{
    if rows.len() > 0 {
        let rest = rows.drop_first();
        lemma_find_by_id(rest, id);
        if rows.first().id == id {
            assert(rows[0].id == id);
        } else {
            assert forall|j: int| 0 <= j < rest.len() implies rest[j] == rows[j + 1] by {}
            if find_by_id(rest, id) is None {
                assert forall|j: int| 0 <= j < rows.len() implies rows[j].id != id by {
                    if j > 0 {
                        assert(rest[j - 1] == rows[j]);
                    }
                }
            } else {
                let cat = find_by_id(rest, id)->0;
                let j = choose|j: int| 0 <= j < rest.len() && rest[j] == cat;
                assert(rows[j + 1] == cat);
            }
        }
    }
}

/// Lists cats in storage order, at most `limit` of them.
///
/// Fails with `Unavailable` if no connection was to be had and with `Query` if
/// the store rejected the statement. Otherwise the result holds the first
/// `limit` rows of the reply, and all of them when there are no more than
/// `limit`.
pub fn list_cats(reply: StoreReply, limit: u32) -> (outcome: Result<Vec<Cat>, Error>)
    ensures
        cats_outcome(outcome) == list_outcome(reply@, limit as int),
        outcome matches Ok(cats) ==> cats.len() <= limit,
{
    match reply {
        StoreReply::Unavailable => Err(Error::Unavailable),
        StoreReply::Failed => Err(Error::Query),
        StoreReply::Rows(rows) => {
            let mut rows = rows;
            let ghost all = rows@;
            if rows.len() > limit as usize {
                rows.truncate(limit as usize);
                assert(cat_views(rows@) =~= first_rows(cat_views(all), limit as int));
            }
            Ok(rows)
        },
    }
}

/// Finds the cat with the given id.
///
/// Fails with `Unavailable` or `Query` as the reply says, and with `NotFound`
/// if no row of the reply has the id. Otherwise the result is the first row
/// that has it: never a row with another id, never a made-up one.
pub fn get_cat_by_id(reply: StoreReply, id: i32) -> (outcome: Result<Cat, Error>)
    ensures
        cat_outcome(outcome) == get_outcome(reply@, id as int),
{
    match reply {
        StoreReply::Unavailable => Err(Error::Unavailable),
        StoreReply::Failed => Err(Error::Query),
        StoreReply::Rows(rows) => {
            let mut rows = rows;
            let ghost all = cat_views(rows@);
            let mut i: usize = 0;
            while i < rows.len()
                invariant
                    i <= rows.len(),
                    all == cat_views(rows@),
                    reply@ == StoreReplyView::Rows(all),
                    forall|j: int| 0 <= j < i ==> all[j].id != id,
                decreases rows.len() - i,
            {
                if rows[i].id == id {
                    proof {
                        assert(all[i as int] == rows@[i as int]@);
                        lemma_find_first(all, id as int, i as int);
                    }
                    return Ok(rows.swap_remove(i));
                }
                i += 1;
            }
            proof {
                lemma_find_by_id(all, id as int);
            }
            Err(Error::NotFound)
        },
    }
}

/// Confirms an insert.
///
/// Fails with `Unavailable` or `Query` as the reply says, and with `Query` if
/// the store returned no row. Otherwise the result is the row that the store
/// returned, with the id that it assigned.
pub fn insert_cat(reply: StoreReply) -> (outcome: Result<Cat, Error>)
    ensures
        cat_outcome(outcome) == insert_outcome(reply@),
{
    match reply {
        StoreReply::Unavailable => Err(Error::Unavailable),
        StoreReply::Failed => Err(Error::Query),
        StoreReply::Rows(rows) => {
            let mut rows = rows;
            if rows.len() == 0 {
                Err(Error::Query)
            } else {
                Ok(rows.swap_remove(0))
            }
        },
    }
}

} // verus!
