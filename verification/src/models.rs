//! The memo record and the table that holds the memos.
//!
//! A `MemoTable` keeps its rows in memory, in the order in which their ids
//! were assigned. What a table is, mathematically, is its `TableView`; the
//! five storage operations are stated over that view.

use vstd::prelude::*;

verus! {

/// A memo as the table holds it: the id that the table assigned and the text.
#[derive(Debug, PartialEq, Eq)]
pub struct Memo {
    pub id: i32,
    pub body: String,
}

/// What a memo is, mathematically: its id and the characters of its body.
pub struct MemoView {
    pub id: int,
    pub body: Seq<char>,
}

impl View for Memo {
    type V = MemoView;

    open spec fn view(&self) -> MemoView {
        MemoView { id: self.id as int, body: self.body@ }
    }
}

impl Clone for Memo {
    fn clone(&self) -> (copy: Memo)
        ensures
            copy == *self,
    {
        Memo { id: self.id, body: self.body.clone() }
    }
}

/// The views of a sequence of memos, one for one.
pub open spec fn memo_views(memos: Seq<Memo>) -> Seq<MemoView> {
    memos.map_values(|memo: Memo| memo@)
}

/// What a listing is, mathematically: the memos' views, or the failure.
pub open spec fn listing_view(listing: Result<Vec<Memo>, StorageError>) -> Result<
    Seq<MemoView>,
    StorageError,
> {
    match listing {
        Ok(memos) => Ok(memo_views(memos@)),
        Err(failure) => Err(failure),
    }
}

/// What the answer to a search is, mathematically: the view of the memo that
/// was found, if one was, or the failure.
pub open spec fn found_view(found: Result<Option<Memo>, StorageError>) -> Result<
    Option<MemoView>,
    StorageError,
> {
    match found {
        Ok(Some(memo)) => Ok(Some(memo@)),
        Ok(None) => Ok(None),
        Err(failure) => Err(failure),
    }
}

/// A memo that has no id yet: what is handed to the table for insertion.
#[derive(Debug)]
pub struct NewMemo<'a> {
    pub body: &'a str,
}

/// The one failure that a storage operation reports. It carries no detail:
/// whoever runs the operation logs the cause where it arises.
#[derive(Debug, Clone, Copy, PartialEq, Eq)]
pub struct StorageError;

/// What a table is, mathematically.
pub struct TableView {
    /// The rows, in the order in which the table lists them.
    pub rows: Seq<MemoView>,
    /// The id assigned last. The next memo gets the one after it.
    pub last_id: int,
}

impl TableView {
    /// Ids grow along the rows, so none occurs twice, and none is beyond the
    /// id assigned last.
    pub open spec fn valid(self) -> bool {
        &&& i32::MIN <= self.last_id <= i32::MAX
        &&& forall|i: int| 0 <= i < self.rows.len() ==> (#[trigger] self.rows[i]).id <= self.last_id
        &&& forall|i: int, j: int|
            0 <= i < j < self.rows.len() ==> (#[trigger] self.rows[i]).id < (#[trigger] self.rows[j]).id
    }

    /// A table without rows whose next id follows `last_id`.
    pub open spec fn empty(last_id: int) -> TableView {
        TableView { rows: Seq::empty(), last_id }
    }

    /// Some row has this id.
    pub open spec fn holds(self, id: int) -> bool {
        exists|i: int| 0 <= i < self.rows.len() && (#[trigger] self.rows[i]).id == id
    }

    /// The row with this id, if there is one.
    pub open spec fn find(self, id: int) -> Option<MemoView> {
        if self.holds(id) {
            Some(self.rows[choose|i: int| 0 <= i < self.rows.len() && (#[trigger] self.rows[i]).id == id])
        } else {
            None
        }
    }

    /// No id is left to assign.
    pub open spec fn full(self) -> bool {
        self.last_id >= i32::MAX
    }

    /// The id that the next inserted memo gets.
    pub open spec fn next_id(self) -> int {
        self.last_id + 1
    }

    /// The table after a memo with this body was inserted: one more row, at
    /// the end, under the next id.
    pub open spec fn insert(self, body: Seq<char>) -> TableView {
        TableView {
            rows: self.rows.push(MemoView { id: self.next_id(), body }),
            last_id: self.next_id(),
        }
    }

    /// The table after every row with this id got this body.
    pub open spec fn update(self, id: int, body: Seq<char>) -> TableView {
        TableView {
            rows: self.rows.map_values(
                |row: MemoView|
                    if row.id == id {
                        MemoView { id, body }
                    } else {
                        row
                    },
            ),
            last_id: self.last_id,
        }
    }

    /// The table after every row with this id was taken out.
    pub open spec fn remove(self, id: int) -> TableView {
        TableView { rows: self.rows.filter(|row: MemoView| row.id != id), last_id: self.last_id }
    }
}

/// The memos, held in memory. Ids are handed out in growing order and never
/// a second time, whatever is removed in between.
pub struct MemoTable {
    rows: Vec<Memo>,
    last_id: i32,
}

impl View for MemoTable {
    type V = TableView;

    closed spec fn view(&self) -> TableView {
        TableView { rows: memo_views(self.rows@), last_id: self.last_id as int }
    }
}

impl MemoTable {
    /// An empty table whose first memo gets the id 1.
    pub fn new() -> (table: MemoTable)
        ensures
            table@ == TableView::empty(0),
            table@.valid(),
    {
        MemoTable::starting_after(0)
    }

    /// An empty table whose first memo gets the id after `last_id`.
    pub fn starting_after(last_id: i32) -> (table: MemoTable)
        ensures
            table@ == TableView::empty(last_id as int),
            table@.valid(),
    {
        let table = MemoTable { rows: Vec::new(), last_id };
        assert(table@.rows =~= Seq::empty());
        table
    }

    /// Where the row with this id stands, if there is one.
    fn position(&self, id: i32) -> (place: Option<usize>)
        ensures
            match place {
                Some(at) => at < self.rows@.len() && self.rows@[at as int].id == id,
                None => forall|i: int| 0 <= i < self.rows@.len() ==> (#[trigger] self.rows@[i]).id != id,
            },
    {
        let mut at: usize = 0;
        while at < self.rows.len()
            invariant
                at <= self.rows@.len(),
                forall|i: int| 0 <= i < at ==> (#[trigger] self.rows@[i]).id != id,
            decreases self.rows@.len() - at,
        {
            if self.rows[at].id == id {
                return Some(at);
            }
            at += 1;
        }
        None
    }
}

/// In a valid table, the row found under an id is the one row that has it.
pub proof fn lemma_find_at(table: TableView, at: int)
    requires
        table.valid(),
        0 <= at < table.rows.len(),
    ensures
        table.holds(table.rows[at].id),
        table.find(table.rows[at].id) == Some(table.rows[at]),
{
    let id = table.rows[at].id;
    let chosen = choose|i: int| 0 <= i < table.rows.len() && (#[trigger] table.rows[i]).id == id;
    assert(chosen == at) by {
        if chosen < at {
            assert(table.rows[chosen].id < table.rows[at].id);
        } else if at < chosen {
            assert(table.rows[at].id < table.rows[chosen].id);
        }
    }
}

/// Every memo, in the order of the ids.
pub fn all_memos(table: &MemoTable) -> (listing: Result<Vec<Memo>, StorageError>)
    ensures
        listing_view(listing) == Ok::<Seq<MemoView>, StorageError>(table@.rows),
{
    let mut memos: Vec<Memo> = Vec::new();
    let mut at: usize = 0;
    while at < table.rows.len()
        invariant
            at <= table.rows@.len(),
            memos@ == table.rows@.take(at as int),
        decreases table.rows@.len() - at,
    {
        memos.push(table.rows[at].clone());
        at += 1;
    }
    assert(memos@ == table.rows@);
    Ok(memos)
}

/// The memo with this id, or `None` where the table holds none. That there is
/// none is an answer, not a failure.
pub fn find_memo(memo_id: i32, table: &MemoTable) -> (found: Result<Option<Memo>, StorageError>)
    requires
        table@.valid(),
    ensures
        found_view(found) == Ok::<Option<MemoView>, StorageError>(table@.find(memo_id as int)),
{
    match table.position(memo_id) {
        Some(at) => {
            proof {
                lemma_find_at(table@, at as int);
            }
            Ok(Some(table.rows[at].clone()))
        },
        None => Ok(None),
    }
}

/// Filtering keeps a sequence whose every element passes.
pub proof fn lemma_filter_keeps_all(rows: Seq<MemoView>, pass: spec_fn(MemoView) -> bool)
    requires
        forall|i: int| 0 <= i < rows.len() ==> pass(#[trigger] rows[i]),
    ensures
        rows.filter(pass) == rows,
    decreases rows.len(),
{
    reveal(Seq::filter);
    if rows.len() > 0 {
        lemma_filter_keeps_all(rows.drop_last(), pass);
        assert(rows.drop_last().push(rows.last()) =~= rows);
    }
}

/// In a valid table, taking out every row with the id of the row at `at`
/// takes out that row and no other.
pub proof fn lemma_remove_at(table: TableView, at: int)
    requires
        table.valid(),
        0 <= at < table.rows.len(),
    ensures
        table.remove(table.rows[at].id).rows == table.rows.remove(at),
{
    let id = table.rows[at].id;
    let pass = |row: MemoView| row.id != id;
    let before = table.rows.subrange(0, at);
    let hit = seq![table.rows[at]];
    let after = table.rows.subrange(at + 1, table.rows.len() as int);
    assert(table.rows =~= before + hit + after);
    assert forall|i: int| 0 <= i < before.len() implies pass(#[trigger] before[i]) by {
        assert(table.rows[i].id < table.rows[at].id);
    }
    assert forall|i: int| 0 <= i < after.len() implies pass(#[trigger] after[i]) by {
        assert(table.rows[at].id < table.rows[at + 1 + i].id);
    }
    lemma_filter_keeps_all(before, pass);
    lemma_filter_keeps_all(after, pass);
    assert(hit.filter(pass) =~= Seq::empty()) by {
        reveal_with_fuel(Seq::filter, 2);
    }
    Seq::filter_distributes_over_add(before, hit, pass);
    Seq::filter_distributes_over_add(before + hit, after, pass);
    assert(before + Seq::<MemoView>::empty() + after =~= table.rows.remove(at));
}

/// Stores a new memo with this body under the next id. Fails, and leaves the
/// table as it was, where no id is left.
pub fn insert_new_memo(memo_body: &str, table: &mut MemoTable) -> (stored: Result<(), StorageError>)
    requires
        old(table)@.valid(),
    ensures
        final(table)@.valid(),
        old(table)@.full() ==> stored is Err && final(table)@ == old(table)@,
        !old(table)@.full() ==> stored is Ok && final(table)@ == old(table)@.insert(memo_body@),
{
    let new_memo = NewMemo { body: memo_body };
    if table.last_id == i32::MAX {
        return Err(StorageError);
    }
    let id: i32 = table.last_id + 1;
    table.last_id = id;
    table.rows.push(Memo { id, body: new_memo.body.to_owned() });
    assert(table@.rows =~= old(table)@.insert(memo_body@).rows);
    Ok(())
}

/// Gives the memo with this id this body. Where the table holds no such memo,
/// nothing changes, and that is no failure.
pub fn update_memo_body(memo_id: i32, memo_body: &str, table: &mut MemoTable) -> (stored: Result<
    (),
    StorageError,
>)
    requires
        old(table)@.valid(),
    ensures
        stored is Ok,
        final(table)@.valid(),
        final(table)@ == old(table)@.update(memo_id as int, memo_body@),
{
    let ghost updated = old(table)@.update(memo_id as int, memo_body@);
    match table.position(memo_id) {
        Some(at) => {
            table.rows[at] = Memo { id: memo_id, body: memo_body.to_owned() };
            assert forall|i: int| 0 <= i < updated.rows.len() implies table@.rows[i]
                == updated.rows[i] by {
                if i < at {
                    assert(old(table)@.rows[i].id < old(table)@.rows[at as int].id);
                } else if at < i {
                    assert(old(table)@.rows[at as int].id < old(table)@.rows[i].id);
                }
            }
        },
        None => {
            assert forall|i: int| 0 <= i < updated.rows.len() implies table@.rows[i]
                == updated.rows[i] by {
                assert(old(table).rows@[i].id != memo_id);
            }
        },
    }
    assert(table@.rows =~= updated.rows);
    Ok(())
}

/// Takes the memo with this id out of the table. Where the table holds no
/// such memo, nothing changes, and that is no failure.
pub fn remove_memo(memo_id: i32, table: &mut MemoTable) -> (stored: Result<(), StorageError>)
    requires
        old(table)@.valid(),
    ensures
        stored is Ok,
        final(table)@.valid(),
        final(table)@ == old(table)@.remove(memo_id as int),
{
    match table.position(memo_id) {
        Some(at) => {
            proof {
                lemma_remove_at(table@, at as int);
            }
            table.rows.remove(at);
            assert(table@.rows =~= old(table)@.rows.remove(at as int));
        },
        None => {
            proof {
                lemma_filter_keeps_all(table@.rows, |row: MemoView| row.id != memo_id as int);
            }
        },
    }
    Ok(())
}

} // verus!
