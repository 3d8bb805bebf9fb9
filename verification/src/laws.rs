//! What holds of the table and the handlers together, whatever the table
//! holds and whatever is asked of it.

use crate::handlers::{edit_reply, write_reply, ReplyView};
use crate::models::{
    lemma_filter_keeps_all, lemma_find_at, lemma_remove_at, MemoView, StorageError, TableView,
};
use crate::views::{escaped, escaped_char, is_markup};
use vstd::prelude::*;

verus! {

/// A memo that was created is listed. After the insertion the listing is the
/// one from before and then the new memo, which has the body as it was given
/// and an id that no listed memo had; in a table that was empty it is the one
/// memo listed.
pub proof fn law_created_memo_is_listed(table: TableView, body: Seq<char>)
    requires
        table.valid(),
        !table.full(),
    ensures
        table.insert(body).valid(),
        !table.holds(table.next_id()),
        table.insert(body).rows == table.rows.push(MemoView { id: table.next_id(), body }),
        forall|i: int|
            0 <= i < table.insert(body).rows.len() && (#[trigger] table.insert(body).rows[i]).id
                == table.next_id() ==> i == table.rows.len(),
        table.rows.len() == 0 ==> table.insert(body).rows == seq![
            MemoView { id: table.next_id(), body },
        ],
{
    let after = table.insert(body);
    assert forall|i: int| 0 <= i < after.rows.len() && (#[trigger] after.rows[i]).id
        == table.next_id() implies i == table.rows.len() by {
        if i < table.rows.len() {
            assert(table.rows[i].id <= table.last_id);
        }
    }
    if table.rows.len() == 0 {
        assert(after.rows =~= seq![MemoView { id: table.next_id(), body }]);
    }
}

/// An id that the table has not assigned yet is the id of no memo.
pub proof fn law_unassigned_id_is_absent(table: TableView, id: int)
    requires
        table.valid(),
        id > table.last_id,
    ensures
        !table.holds(id),
{
}

/// A memo that the table does not hold is not found, which is no failure,
/// and the edit form answers with 404.
pub proof fn law_absent_memo_is_not_found(table: TableView, id: int)
    requires
        !table.holds(id),
    ensures
        table.find(id) is None,
        edit_reply(Ok(table.find(id))) == ReplyView::NotFound,
        edit_reply(Ok(table.find(id))).status() == 404,
{
}

/// After a memo's body was updated, the memo is found with the new body.
pub proof fn law_updated_memo_is_found(table: TableView, id: int, body: Seq<char>)
    requires
        table.valid(),
        table.holds(id),
    ensures
        table.update(id, body).valid(),
        table.update(id, body).find(id) == Some(MemoView { id, body }),
{
    let after = table.update(id, body);
    let at = choose|i: int| 0 <= i < table.rows.len() && (#[trigger] table.rows[i]).id == id;
    assert forall|i: int, j: int| 0 <= i < j < after.rows.len() implies (#[trigger] after.rows[i]).id
        < (#[trigger] after.rows[j]).id by {
        assert(table.rows[i].id < table.rows[j].id);
    }
    assert forall|i: int| 0 <= i < after.rows.len() implies (#[trigger] after.rows[i]).id
        <= after.last_id by {
        assert(table.rows[i].id <= table.last_id);
    }
    assert(after.rows[at] == MemoView { id, body });
    lemma_find_at(after, at);
}

/// An update of a memo that the table does not hold succeeds with 204 and
/// leaves the table as it was: no row is added and none is changed.
pub proof fn law_update_of_absent_memo_changes_nothing(table: TableView, id: int, body: Seq<char>)
    requires
        !table.holds(id),
    ensures
        table.update(id, body) == table,
        write_reply(Ok::<(), StorageError>(())).status() == 204,
{
    assert(table.update(id, body).rows =~= table.rows);
}

/// After a memo was deleted no listing shows it, and every other memo is
/// found as before. Deleting it once more succeeds with 204 as the first time
/// did and changes nothing.
pub proof fn law_deleted_memo_is_gone(table: TableView, id: int)
    requires
        table.valid(),
    ensures
        table.remove(id).valid(),
        !table.remove(id).holds(id),
        table.remove(id).find(id) is None,
        forall|other: int| other != id ==> table.remove(id).find(other) == table.find(other),
        table.remove(id).remove(id) == table.remove(id),
        write_reply(Ok::<(), StorageError>(())).status() == 204,
{
    let after = table.remove(id);
    let pass = |row: MemoView| row.id != id;
    if table.holds(id) {
        let at = choose|i: int| 0 <= i < table.rows.len() && (#[trigger] table.rows[i]).id == id;
        lemma_remove_at(table, at);
        assert(after.rows == table.rows.remove(at));
        assert forall|i: int| 0 <= i < after.rows.len() implies (#[trigger] after.rows[i]).id
            != id && after.rows[i].id <= after.last_id by {
            if i < at {
                assert(table.rows[i].id < table.rows[at].id);
            } else {
                assert(table.rows[at].id < table.rows[i + 1].id);
            }
        }
        assert forall|i: int, j: int| 0 <= i < j < after.rows.len() implies (
        #[trigger] after.rows[i]).id < (#[trigger] after.rows[j]).id by {
            let from_i = if i < at { i } else { i + 1 };
            let from_j = if j < at { j } else { j + 1 };
            assert(table.rows[from_i].id < table.rows[from_j].id);
        }
        assert forall|other: int| other != id implies after.find(other) == table.find(other) by {
            if table.holds(other) {
                let was = choose|i: int|
                    0 <= i < table.rows.len() && (#[trigger] table.rows[i]).id == other;
                let is = if was < at { was } else { was - 1 };
                assert(after.rows[is] == table.rows[was]);
                lemma_find_at(table, was);
                lemma_find_at(after, is);
            } else if after.holds(other) {
                let is = choose|i: int|
                    0 <= i < after.rows.len() && (#[trigger] after.rows[i]).id == other;
                let was = if is < at { is } else { is + 1 };
                assert(table.rows[was].id == other);
            }
        }
    } else {
        lemma_filter_keeps_all(table.rows, pass);
        assert(after == table);
    }
    lemma_filter_keeps_all(after.rows, pass);
}

/// A memo that was created is found under the id it was given, with the body
/// exactly as it was given.
pub proof fn law_created_memo_is_found(table: TableView, body: Seq<char>)
    requires
        table.valid(),
        !table.full(),
    ensures
        table.insert(body).find(table.next_id()) == Some(MemoView { id: table.next_id(), body }),
{
    let after = table.insert(body);
    law_created_memo_is_listed(table, body);
    lemma_find_at(after, table.rows.len() as int);
}

/// Escaped text holds no quote and no angle bracket, whatever the text was:
/// a body shown in the edit form cannot end the form's text area, nor open
/// an element of its own.
pub proof fn law_escaped_text_holds_no_markup(text: Seq<char>)
    ensures
        forall|i: int| 0 <= i < escaped(text).len() ==> !is_markup(#[trigger] escaped(text)[i]),
    decreases text.len(),
{
    if text.len() > 0 {
        law_escaped_text_holds_no_markup(text.drop_last());
        let head = escaped(text.drop_last());
        let tail = escaped_char(text.last());
        assert forall|i: int| 0 <= i < escaped(text).len() implies !is_markup(
            #[trigger] escaped(text)[i],
        ) by {
            if i >= head.len() {
                assert(escaped(text)[i] == tail[i - head.len()]);
            }
        }
    }
}

} // verus!
