use memopad::models::{
    all_memos, find_memo, insert_new_memo, remove_memo, update_memo_body, Memo, MemoTable,
    StorageError,
};

fn memo(id: i32, body: &str) -> Memo {
    Memo { id, body: body.to_string() }
}

fn listed(table: &MemoTable) -> Vec<Memo> {
    all_memos(table).unwrap()
}

#[test]
fn new_table_lists_nothing() {
    let table = MemoTable::new();
    assert_eq!(listed(&table), vec![]);
}

#[test]
fn created_memo_is_the_one_listed() {
    let mut table = MemoTable::new();
    assert_eq!(insert_new_memo("hello", &mut table), Ok(()));
    assert_eq!(listed(&table), vec![memo(1, "hello")]);
}

#[test]
fn ids_are_assigned_in_growing_order() {
    let mut table = MemoTable::new();
    insert_new_memo("a", &mut table).unwrap();
    insert_new_memo("b", &mut table).unwrap();
    insert_new_memo("c", &mut table).unwrap();
    assert_eq!(listed(&table), vec![memo(1, "a"), memo(2, "b"), memo(3, "c")]);
}

#[test]
fn equal_bodies_get_rows_of_their_own() {
    let mut table = MemoTable::new();
    insert_new_memo("same", &mut table).unwrap();
    insert_new_memo("same", &mut table).unwrap();
    assert_eq!(listed(&table), vec![memo(1, "same"), memo(2, "same")]);
}

#[test]
fn empty_body_is_stored() {
    let mut table = MemoTable::new();
    assert_eq!(insert_new_memo("", &mut table), Ok(()));
    assert_eq!(find_memo(1, &table), Ok(Some(memo(1, ""))));
}

#[test]
fn table_starts_after_the_id_given() {
    let mut table = MemoTable::starting_after(41);
    insert_new_memo("answer", &mut table).unwrap();
    assert_eq!(listed(&table), vec![memo(42, "answer")]);
}

#[test]
fn table_may_start_below_zero() {
    let mut table = MemoTable::starting_after(-3);
    insert_new_memo("a", &mut table).unwrap();
    insert_new_memo("b", &mut table).unwrap();
    assert_eq!(listed(&table), vec![memo(-2, "a"), memo(-1, "b")]);
    assert_eq!(find_memo(-1, &table), Ok(Some(memo(-1, "b"))));
}

#[test]
fn last_id_can_still_be_assigned() {
    let mut table = MemoTable::starting_after(i32::MAX - 1);
    assert_eq!(insert_new_memo("last", &mut table), Ok(()));
    assert_eq!(listed(&table), vec![memo(i32::MAX, "last")]);
}

#[test]
fn insert_fails_when_no_id_is_left() {
    let mut table = MemoTable::starting_after(i32::MAX - 1);
    insert_new_memo("last", &mut table).unwrap();
    assert_eq!(insert_new_memo("one too many", &mut table), Err(StorageError));
    assert_eq!(listed(&table), vec![memo(i32::MAX, "last")]);
    assert_eq!(insert_new_memo("again", &mut table), Err(StorageError));
}

#[test]
fn find_of_unassigned_id_is_none() {
    let mut table = MemoTable::new();
    insert_new_memo("a", &mut table).unwrap();
    insert_new_memo("b", &mut table).unwrap();
    assert_eq!(find_memo(3, &table), Ok(None));
    assert_eq!(find_memo(0, &table), Ok(None));
    assert_eq!(find_memo(-1, &table), Ok(None));
    assert_eq!(find_memo(i32::MAX, &table), Ok(None));
    assert_eq!(find_memo(i32::MIN, &table), Ok(None));
}

#[test]
fn find_in_empty_table_is_none() {
    let table = MemoTable::new();
    assert_eq!(find_memo(1, &table), Ok(None));
}

#[test]
fn find_gives_the_memo_with_the_id() {
    let mut table = MemoTable::new();
    insert_new_memo("a", &mut table).unwrap();
    insert_new_memo("b", &mut table).unwrap();
    insert_new_memo("c", &mut table).unwrap();
    assert_eq!(find_memo(1, &table), Ok(Some(memo(1, "a"))));
    assert_eq!(find_memo(2, &table), Ok(Some(memo(2, "b"))));
    assert_eq!(find_memo(3, &table), Ok(Some(memo(3, "c"))));
}

#[test]
fn created_body_comes_back_unchanged() {
    let body = "  <b>\"buy\" & 'sell'</b>\n\ttab \u{e9}\u{4e16}\u{1f600} \\ %20 \0 end  ";
    let mut table = MemoTable::new();
    insert_new_memo("first", &mut table).unwrap();
    insert_new_memo(body, &mut table).unwrap();
    let id = listed(&table).last().unwrap().id;
    assert_eq!(id, 2);
    assert_eq!(find_memo(id, &table), Ok(Some(memo(2, body))));
}

#[test]
fn update_replaces_the_body() {
    let mut table = MemoTable::new();
    insert_new_memo("old", &mut table).unwrap();
    insert_new_memo("other", &mut table).unwrap();
    assert_eq!(update_memo_body(1, "new", &mut table), Ok(()));
    assert_eq!(find_memo(1, &table), Ok(Some(memo(1, "new"))));
    assert_eq!(find_memo(2, &table), Ok(Some(memo(2, "other"))));
    assert_eq!(listed(&table), vec![memo(1, "new"), memo(2, "other")]);
}

#[test]
fn update_to_empty_body() {
    let mut table = MemoTable::new();
    insert_new_memo("old", &mut table).unwrap();
    assert_eq!(update_memo_body(1, "", &mut table), Ok(()));
    assert_eq!(find_memo(1, &table), Ok(Some(memo(1, ""))));
}

#[test]
fn later_update_wins() {
    let mut table = MemoTable::new();
    insert_new_memo("old", &mut table).unwrap();
    update_memo_body(1, "first", &mut table).unwrap();
    update_memo_body(1, "second", &mut table).unwrap();
    assert_eq!(listed(&table), vec![memo(1, "second")]);
}

#[test]
fn update_of_missing_id_adds_no_row() {
    let mut table = MemoTable::new();
    insert_new_memo("a", &mut table).unwrap();
    assert_eq!(update_memo_body(2, "ghost", &mut table), Ok(()));
    assert_eq!(update_memo_body(-5, "ghost", &mut table), Ok(()));
    assert_eq!(listed(&table), vec![memo(1, "a")]);
    assert_eq!(find_memo(2, &table), Ok(None));
}

#[test]
fn update_of_missing_id_assigns_no_id() {
    let mut table = MemoTable::new();
    update_memo_body(1, "ghost", &mut table).unwrap();
    insert_new_memo("real", &mut table).unwrap();
    assert_eq!(listed(&table), vec![memo(1, "real")]);
}

#[test]
fn update_in_empty_table() {
    let mut table = MemoTable::new();
    assert_eq!(update_memo_body(1, "ghost", &mut table), Ok(()));
    assert_eq!(listed(&table), vec![]);
}

#[test]
fn remove_takes_the_memo_out() {
    let mut table = MemoTable::new();
    insert_new_memo("a", &mut table).unwrap();
    insert_new_memo("b", &mut table).unwrap();
    insert_new_memo("c", &mut table).unwrap();
    assert_eq!(remove_memo(2, &mut table), Ok(()));
    assert_eq!(listed(&table), vec![memo(1, "a"), memo(3, "c")]);
    assert_eq!(find_memo(2, &table), Ok(None));
    assert_eq!(find_memo(1, &table), Ok(Some(memo(1, "a"))));
    assert_eq!(find_memo(3, &table), Ok(Some(memo(3, "c"))));
}

#[test]
fn remove_first_and_last() {
    let mut table = MemoTable::new();
    insert_new_memo("a", &mut table).unwrap();
    insert_new_memo("b", &mut table).unwrap();
    insert_new_memo("c", &mut table).unwrap();
    remove_memo(1, &mut table).unwrap();
    assert_eq!(listed(&table), vec![memo(2, "b"), memo(3, "c")]);
    remove_memo(3, &mut table).unwrap();
    assert_eq!(listed(&table), vec![memo(2, "b")]);
    remove_memo(2, &mut table).unwrap();
    assert_eq!(listed(&table), vec![]);
}

#[test]
fn remove_twice_is_as_once() {
    let mut table = MemoTable::new();
    insert_new_memo("a", &mut table).unwrap();
    insert_new_memo("b", &mut table).unwrap();
    assert_eq!(remove_memo(1, &mut table), Ok(()));
    let once = listed(&table);
    assert_eq!(remove_memo(1, &mut table), Ok(()));
    assert_eq!(listed(&table), once);
    assert_eq!(once, vec![memo(2, "b")]);
}

#[test]
fn remove_of_missing_id_changes_nothing() {
    let mut table = MemoTable::new();
    insert_new_memo("a", &mut table).unwrap();
    assert_eq!(remove_memo(9, &mut table), Ok(()));
    assert_eq!(remove_memo(0, &mut table), Ok(()));
    assert_eq!(listed(&table), vec![memo(1, "a")]);
}

#[test]
fn remove_in_empty_table() {
    let mut table = MemoTable::new();
    assert_eq!(remove_memo(1, &mut table), Ok(()));
    assert_eq!(listed(&table), vec![]);
}

#[test]
fn removed_id_is_not_assigned_again() {
    let mut table = MemoTable::new();
    insert_new_memo("a", &mut table).unwrap();
    insert_new_memo("b", &mut table).unwrap();
    remove_memo(2, &mut table).unwrap();
    insert_new_memo("c", &mut table).unwrap();
    assert_eq!(listed(&table), vec![memo(1, "a"), memo(3, "c")]);
    assert_eq!(find_memo(2, &table), Ok(None));
}

#[test]
fn update_after_remove_does_not_bring_the_memo_back() {
    let mut table = MemoTable::new();
    insert_new_memo("a", &mut table).unwrap();
    remove_memo(1, &mut table).unwrap();
    update_memo_body(1, "back", &mut table).unwrap();
    assert_eq!(listed(&table), vec![]);
}

#[test]
fn listing_is_a_copy() {
    let mut table = MemoTable::new();
    insert_new_memo("a", &mut table).unwrap();
    let mut copy = listed(&table);
    copy[0].body.push_str(" changed");
    copy.clear();
    assert_eq!(listed(&table), vec![memo(1, "a")]);
}

#[test]
fn memo_clone_is_equal() {
    let seven = memo(7, "seven");
    assert_eq!(seven.clone(), seven);
}
