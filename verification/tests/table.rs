use todo_service::error::StorageFailure;
use todo_service::table::Table;
use todo_service::todo::{NewTodo, Todo, TodoChangeset};

fn payload(title: &str) -> NewTodo {
    NewTodo { title: title.to_string(), description: None }
}

fn row(id: i32, title: &str, done: bool) -> Todo {
    Todo { id, title: title.to_string(), description: None, done, published: false }
}

#[test]
fn table_insert_returns_the_row() {
    let mut table = Table::new();
    assert_eq!(table.insert(payload("a")), Ok(row(1, "a", false)));
    assert_eq!(table.insert(payload("b")), Ok(row(2, "b", false)));
    assert_eq!(table.select_all(), vec![row(1, "a", false), row(2, "b", false)]);
}

#[test]
fn table_starting_after_continues_the_ids() {
    let mut table = Table::starting_after(41);
    assert_eq!(table.insert(payload("a")), Ok(row(42, "a", false)));
}

#[test]
fn table_starting_after_a_negative_id_starts_at_one() {
    let mut table = Table::starting_after(-5);
    assert_eq!(table.insert(payload("a")), Ok(row(1, "a", false)));
}

#[test]
fn table_insert_fails_with_driver_when_full() {
    let mut table = Table::starting_after(i32::MAX);
    assert_eq!(table.insert(payload("a")), Err(StorageFailure::Driver));
    assert_eq!(table.select_all(), vec![]);
}

#[test]
fn table_find_returns_the_row_or_none() {
    let mut table = Table::new();
    table.insert(payload("a")).unwrap();
    table.insert(payload("b")).unwrap();
    assert_eq!(table.find(2), Some(row(2, "b", false)));
    assert_eq!(table.find(3), None);
}

#[test]
fn table_update_returns_the_changed_row() {
    let mut table = Table::new();
    table.insert(payload("a")).unwrap();
    let changes = TodoChangeset { title: Some("z".to_string()), description: None };
    assert_eq!(table.update(1, &changes), Some(row(1, "z", false)));
    assert_eq!(table.update(2, &changes), None);
    assert_eq!(table.select_all(), vec![row(1, "z", false)]);
}

#[test]
fn table_set_done_counts_the_rows() {
    let mut table = Table::new();
    table.insert(payload("a")).unwrap();
    assert_eq!(table.set_done(1, true), 1);
    assert_eq!(table.set_done(2, true), 0);
    assert_eq!(table.select_all(), vec![row(1, "a", true)]);
}

#[test]
fn table_delete_counts_the_rows() {
    let mut table = Table::new();
    table.insert(payload("a")).unwrap();
    table.insert(payload("b")).unwrap();
    assert_eq!(table.delete(1), 1);
    assert_eq!(table.delete(1), 0);
    assert_eq!(table.select_all(), vec![row(2, "b", false)]);
}
