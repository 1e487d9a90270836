//! An in-memory table of cats that answers the gateway's statements.
//!
//! The table is the model of the relational store: append-only, ids assigned
//! in increasing order starting at 1. It stands in for the store wherever the
//! service runs without a database, and it is what the gateway's laws are
//! stated against.

use vstd::prelude::*;
use crate::error::Error;
use crate::models::{cat_views, Cat, CatView, NewCatView};
use crate::store::{
    find_by_id, first_rows, get_outcome, insert_outcome, lemma_find_by_id, lemma_find_first,
    list_outcome, StoreReply, StoreReplyView, StoreRequest, StoreRequestView,
};

verus! {

/// The rows of the table and the highest id handed out so far.
pub struct CatTable {
    rows: Vec<Cat>,
    highest_id: i32,
}

/// The mathematical value of a `CatTable`.
pub struct CatTableView {
    pub rows: Seq<CatView>,
    pub highest_id: int,
}

impl View for CatTable {
    type V = CatTableView;

    closed spec fn view(&self) -> CatTableView {
        CatTableView { rows: cat_views(self.rows@), highest_id: self.highest_id as int }
    }
}

impl CatTableView {
    /// Ids are positive, strictly increasing in storage order, and none
    /// exceeds the highest id handed out.
    pub open spec fn wf(self) -> bool {
        &&& 0 <= self.highest_id <= i32::MAX
        &&& forall|i: int| 0 <= i < self.rows.len() ==> 1 <= (#[trigger] self.rows[i]).id <= self.highest_id
        &&& forall|i: int, j: int|
            0 <= i < j < self.rows.len() ==> (#[trigger] self.rows[i]).id < (#[trigger] self.rows[j]).id
    }

    /// Whether some row has this id.
    pub open spec fn has_id(self, id: int) -> bool {
        exists|i: int| 0 <= i < self.rows.len() && (#[trigger] self.rows[i]).id == id
    }

    /// The rows that a `Get` returns: the row with the id, if there is one.
    pub open spec fn rows_with_id(self, id: int) -> Seq<CatView> {
        match find_by_id(self.rows, id) {
            Some(cat) => seq![cat],
            None => Seq::empty(),
        }
    }

    /// The table after a statement.
    pub open spec fn after(self, request: StoreRequestView) -> CatTableView {
        match request {
            StoreRequestView::Insert(cat) => if self.highest_id < i32::MAX {
                CatTableView {
                    rows: self.rows.push(cat.with_id(self.highest_id + 1)),
                    highest_id: self.highest_id + 1,
                }
            } else {
                self
            },
            _ => self,
        }
    }

    /// The reply to a statement. An insert fails once the ids are used up.
    pub open spec fn reply(self, request: StoreRequestView) -> StoreReplyView {
        match request {
            StoreRequestView::List { limit } => StoreReplyView::Rows(first_rows(self.rows, limit)),
            StoreRequestView::Get { id } => StoreReplyView::Rows(self.rows_with_id(id)),
            StoreRequestView::Insert(cat) => if self.highest_id < i32::MAX {
                StoreReplyView::Rows(seq![cat.with_id(self.highest_id + 1)])
            } else {
                StoreReplyView::Failed
            },
        }
    }
}

impl CatTable {
    /// An empty table.
    pub fn new() -> (table: CatTable)
        ensures
            table@.wf(),
            table@.rows == Seq::<CatView>::empty(),
            table@.highest_id == 0,
    {
        let table = CatTable { rows: Vec::new(), highest_id: 0 };
        assert(table@.rows =~= Seq::<CatView>::empty());
        table
    }

    /// Runs a statement against the table.
    pub fn answer(&mut self, request: StoreRequest) -> (reply: StoreReply)
        requires
            old(self)@.wf(),
        ensures
            final(self)@.wf(),
            final(self)@ == old(self)@.after(request@),
            reply@ == old(self)@.reply(request@),
    {
        match request {
            StoreRequest::List { limit } => StoreReply::Rows(self.first(limit)),
            StoreRequest::Get { id } => StoreReply::Rows(self.with_id(id)),
            StoreRequest::Insert(cat) => {
                if self.highest_id == i32::MAX {
                    StoreReply::Failed
                } else {
                    let ghost before = self@;
                    let id = self.highest_id + 1;
                    let row = Cat { id, name: cat.name, image_path: cat.image_path };
                    let copy = row.clone();
                    self.rows.push(row);
                    self.highest_id = id;
                    assert(self@.rows =~= before.rows.push(cat@.with_id(id as int)));
                    let mut rows: Vec<Cat> = Vec::new();
                    rows.push(copy);
                    assert(cat_views(rows@) =~= seq![cat@.with_id(id as int)]);
                    StoreReply::Rows(rows)
                }
            },
        }
    }

    /// Copies of the first `limit` rows.
    fn first(&self, limit: u32) -> (rows: Vec<Cat>)
        ensures
            cat_views(rows@) == first_rows(self@.rows, limit as int),
    {
        let mut rows: Vec<Cat> = Vec::new();
        let mut i: usize = 0;
        while i < self.rows.len() && i < limit as usize
            invariant
                i <= self.rows.len(),
                i <= limit,
                rows@ == self.rows@.take(i as int),
            decreases self.rows.len() - i,
        {
            rows.push(self.rows[i].clone());
            i += 1;
            assert(rows@ =~= self.rows@.take(i as int));
        }
        assert(cat_views(rows@) =~= first_rows(self@.rows, limit as int));
        rows
    }

    /// A copy of the row with this id, if there is one.
    fn with_id(&self, id: i32) -> (rows: Vec<Cat>)
        ensures
            cat_views(rows@) == self@.rows_with_id(id as int),
    {
        let mut rows: Vec<Cat> = Vec::new();
        let ghost all = self@.rows;
        let mut i: usize = 0;
        while i < self.rows.len()
            invariant
                i <= self.rows.len(),
                all == cat_views(self.rows@),
                rows@.len() == 0,
                forall|j: int| 0 <= j < i ==> all[j].id != id,
            decreases self.rows.len() - i,
        {
            if self.rows[i].id == id {
                rows.push(self.rows[i].clone());
                proof {
                    assert(all[i as int] == self.rows@[i as int]@);
                    lemma_find_first(all, id as int, i as int);
                    assert(cat_views(rows@) =~= seq![all[i as int]]);
                }
                return rows;
            }
            i += 1;
        }
        proof {
            lemma_find_by_id(all, id as int);
            assert(cat_views(rows@) =~= Seq::<CatView>::empty());
        }
        rows
    }
}

/// A cat that was inserted is found again under the id that the insert
/// returned, with the name and the image path it was inserted with.
pub proof fn lemma_insert_then_get(table: CatTableView, cat: NewCatView)
    requires
        table.wf(),
        insert_outcome(table.reply(StoreRequestView::Insert(cat))) is Ok,
    ensures
        ({
            let inserted = insert_outcome(table.reply(StoreRequestView::Insert(cat)))->Ok_0;
            let request = StoreRequestView::Get { id: inserted.id };
            let fetched = get_outcome(table.after(StoreRequestView::Insert(cat)).reply(request), inserted.id);
            &&& inserted.name == cat.name
            &&& inserted.image_path == cat.image_path
            &&& fetched is Ok && fetched->Ok_0 == inserted
        }),
{
    let id = table.highest_id + 1;
    let row = cat.with_id(id);
    let after = table.after(StoreRequestView::Insert(cat));
    assert(seq![row].first() == row);
    assert(after.rows[table.rows.len() as int] == row);
    assert forall|j: int| 0 <= j < table.rows.len() implies after.rows[j].id != id by {
        assert(after.rows[j] == table.rows[j]);
    }
    lemma_find_first(after.rows, id, table.rows.len() as int);
    assert(after.rows_with_id(id) == seq![row]);
    lemma_find_first(seq![row], id, 0);
}

/// A list never holds more than `limit` cats, it is the beginning of the
/// table in storage order, and it is the whole table when the table holds no
/// more than `limit` rows.
pub proof fn lemma_list_is_bounded(table: CatTableView, limit: int)
    requires
        0 <= limit,
    ensures
        ({
            let listed = list_outcome(table.reply(StoreRequestView::List { limit }), limit);
            &&& listed is Ok
            &&& listed->Ok_0.len() <= limit
            &&& listed->Ok_0.is_prefix_of(table.rows)
            &&& table.rows.len() <= limit ==> listed->Ok_0 == table.rows
        }),
{
}

/// Fetching an id that no row has fails with `NotFound`; fetching one that a
/// row has gives a row of the table with that id. Nothing else is returned.
pub proof fn lemma_get_by_id(table: CatTableView, id: int)
    ensures
        ({
            let fetched = get_outcome(table.reply(StoreRequestView::Get { id }), id);
            &&& !table.has_id(id) ==> fetched is Err && fetched->Err_0 == Error::NotFound
            &&& table.has_id(id) ==> fetched is Ok && fetched->Ok_0.id == id && table.rows.contains(
                fetched->Ok_0,
            )
        }),
{
    lemma_find_by_id(table.rows, id);
    match find_by_id(table.rows, id) {
        Some(cat) => {
            assert(seq![cat].first() == cat);
            lemma_find_first(seq![cat], id, 0);
            let i = choose|i: int| 0 <= i < table.rows.len() && table.rows[i] == cat;
            assert(table.rows[i].id == id);
        },
        None => {
            assert(find_by_id(Seq::<CatView>::empty(), id) is None);
        },
    }
}

/// No statement breaks the table: ids stay positive, increasing and below
/// the highest id handed out.
pub proof fn lemma_after_keeps_wf(table: CatTableView, request: StoreRequestView)
    requires
        table.wf(),
    ensures
        table.after(request).wf(),
{
}

/// Only a successful insert changes the table, and it appends one row.
pub proof fn lemma_table_changes_by_insert_only(table: CatTableView, request: StoreRequestView)
    ensures
        ({
            let after = table.after(request);
            if request is Insert && table.reply(request) is Rows {
                &&& after.rows.len() == table.rows.len() + 1
                &&& after.rows.drop_last() == table.rows
            } else {
                after == table
            }
        }),
{
    let after = table.after(request);
    if request is Insert && table.reply(request) is Rows {
        assert(after.rows.drop_last() =~= table.rows);
    }
}

} // verus!
