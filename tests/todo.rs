use try_poem::routes::todo::ApiTodo;
use try_poem::schema::todo::{
    TodoCreateRequest, TodoCreateResponses, TodoDeleteResponses, TodoDetailResponses,
    TodoPaginateResponses, TodoRow, TodoUpdateRequest, TodoUpdateResponses,
};
use try_poem::store::TodoTable;

fn post(table: &mut TodoTable, json: TodoCreateRequest) -> TodoCreateResponses {
    let inserted: Result<i64, String> = Ok(table.insert(json.todo, json.is_done));
    if let Some(resp) = ApiTodo.create_inserted(&inserted) {
        return resp;
    }
    let fetched = table.select_by_id(inserted.unwrap()).ok_or("no rows returned".to_string());
    ApiTodo.create_todo(fetched)
}

fn list(table: &TodoTable, page: Option<i32>, page_size: Option<i32>) -> TodoPaginateResponses {
    let q = ApiTodo.page_query(page, page_size);
    let count: Result<i32, String> = Ok(table.count());
    if let Some(resp) = ApiTodo.paginate_counted(&count) {
        return resp;
    }
    let rows = Ok(table.select_page(q.limit, q.offset));
    ApiTodo.get_paginate_todo(&q, count.unwrap(), rows)
}

fn get(table: &TodoTable, id: i32) -> TodoDetailResponses {
    ApiTodo.get_detail_todo(id, Ok(table.select_by_id(id as i64)))
}

fn put(table: &mut TodoTable, id: i32, json: TodoUpdateRequest) -> TodoUpdateResponses {
    let found = Ok(table.select_by_id(id as i64));
    if let Some(resp) = ApiTodo.update_checked(id, &found) {
        return resp;
    }
    table.update(id, json.todo.clone(), json.is_done);
    ApiTodo.update_todo(id, json, Ok(()))
}

fn delete(table: &mut TodoTable, id: i32) -> TodoDeleteResponses {
    let found = Ok(table.select_by_id(id as i64));
    if let Some(resp) = ApiTodo.delete_checked(id, &found) {
        return resp;
    }
    table.delete(id);
    ApiTodo.delete_todo(Ok(()))
}

fn todo(text: &str, is_done: bool) -> TodoCreateRequest {
    TodoCreateRequest { todo: text.to_string(), is_done }
}

fn assert_created(resp: TodoCreateResponses) {
    assert!(matches!(resp, TodoCreateResponses::Success(_)));
}

fn row(table: &TodoTable, id: i64) -> (i32, String, i32) {
    let r = table.select_by_id(id).unwrap();
    (r.id, r.todo, r.is_done)
}

#[test]
fn get_paginate_todo() {
    let mut table = TodoTable::new();
    assert_created(post(&mut table, todo("first todo", false)));
    assert_created(post(&mut table, todo("second todo", true)));

    match list(&table, None, None) {
        TodoPaginateResponses::Success(p) => {
            assert_eq!(p.page, 1);
            assert_eq!(p.page_size, 5);
            assert_eq!(p.num_data, 2);
            assert_eq!(p.num_page, 1);
            assert_eq!(p.results.len(), 2);
            assert_eq!(p.results[0].id, 2);
            assert_eq!(p.results[0].todo, "second todo");
            assert_eq!(p.results[0].is_done, true);
            assert_eq!(p.results[1].id, 1);
            assert_eq!(p.results[1].todo, "first todo");
            assert_eq!(p.results[1].is_done, false);
        }
        _ => panic!("expected a page"),
    }

    match list(&table, Some(2), Some(1)) {
        TodoPaginateResponses::Success(p) => {
            assert_eq!(p.page, 2);
            assert_eq!(p.page_size, 1);
            assert_eq!(p.num_data, 2);
            assert_eq!(p.num_page, 2);
            assert_eq!(p.results.len(), 1);
            assert_eq!(p.results[0].id, 1);
            assert_eq!(p.results[0].todo, "first todo");
            assert_eq!(p.results[0].is_done, false);
        }
        _ => panic!("expected a page"),
    }
}

#[test]
fn get_detail_todo() {
    let mut table = TodoTable::new();
    assert_created(post(&mut table, todo("first todo", false)));

    match get(&table, 1) {
        TodoDetailResponses::Success(t) => {
            assert_eq!(t.id, 1);
            assert_eq!(t.todo, "first todo");
            assert_eq!(t.is_done, false);
        }
        _ => panic!("expected the todo"),
    }

    match get(&table, 2) {
        TodoDetailResponses::NotFound(n) => assert_eq!(n.message, "todo with id 2 not found"),
        _ => panic!("expected a 404"),
    }
}

#[test]
fn create_todo() {
    let mut table = TodoTable::new();
    match post(&mut table, todo("first todo", false)) {
        TodoCreateResponses::Success(t) => {
            assert_eq!(t.id, 1);
            assert_eq!(t.todo, "first todo");
            assert_eq!(t.is_done, false);
        }
        _ => panic!("expected the created todo"),
    }
    let data = row(&table, 1);
    assert_eq!(data.0, 1);
    assert_eq!(data.1, "first todo".to_string());
    assert_eq!(data.2, 0);
}

#[test]
fn update_todo() {
    let mut table = TodoTable::new();
    assert_created(post(&mut table, todo("first todo", false)));

    let body = TodoUpdateRequest { todo: "updated_todo".to_string(), is_done: true };
    match put(&mut table, 1, body) {
        TodoUpdateResponses::Success(t) => {
            assert_eq!(t.id, 1);
            assert_eq!(t.todo, "updated_todo");
            assert_eq!(t.is_done, true);
        }
        _ => panic!("expected the updated todo"),
    }
    let data = row(&table, 1);
    assert_eq!(data.0, 1);
    assert_eq!(data.1, "updated_todo".to_string());
    assert_eq!(data.2, 1);

    let body = TodoUpdateRequest { todo: "first todo".to_string(), is_done: false };
    match put(&mut table, 2, body) {
        TodoUpdateResponses::NotFound(n) => assert_eq!(n.message, "todo with id 2 not found"),
        _ => panic!("expected a 404"),
    }
}

#[test]
fn delete_todo() {
    let mut table = TodoTable::new();
    assert_created(post(&mut table, todo("first todo", false)));

    match delete(&mut table, 1) {
        TodoDeleteResponses::Success(m) => assert_eq!(m.message, "todo deleted successfully"),
        _ => panic!("expected a confirmation"),
    }
    assert!(table.select_by_id(1).is_none());
}

#[test]
fn delete_then_get_is_not_found() {
    let mut table = TodoTable::new();
    assert_created(post(&mut table, todo("a", false)));
    assert_created(post(&mut table, todo("b", true)));
    assert!(matches!(delete(&mut table, 1), TodoDeleteResponses::Success(_)));
    match get(&table, 1) {
        TodoDetailResponses::NotFound(n) => assert_eq!(n.message, "todo with id 1 not found"),
        _ => panic!("expected a 404"),
    }
    match delete(&mut table, 1) {
        TodoDeleteResponses::NotFound(n) => assert_eq!(n.message, "todo with id 1 not found"),
        _ => panic!("expected a 404"),
    }
    assert_eq!(table.count(), 1);
}

#[test]
fn ids_are_not_reused_after_delete() {
    let mut table = TodoTable::new();
    assert_created(post(&mut table, todo("a", false)));
    assert_created(post(&mut table, todo("b", false)));
    assert!(matches!(delete(&mut table, 2), TodoDeleteResponses::Success(_)));
    match post(&mut table, todo("c", true)) {
        TodoCreateResponses::Success(t) => assert_eq!(t.id, 3),
        _ => panic!("expected the created todo"),
    }
}

#[test]
fn create_then_get_returns_created_fields() {
    let mut table = TodoTable::new();
    let id = match post(&mut table, todo("write tests", true)) {
        TodoCreateResponses::Success(t) => t.id,
        _ => panic!("expected the created todo"),
    };
    assert!(id >= 1);
    match get(&table, id) {
        TodoDetailResponses::Success(t) => {
            assert_eq!(t.id, id);
            assert_eq!(t.todo, "write tests");
            assert_eq!(t.is_done, true);
        }
        _ => panic!("expected the todo"),
    }
}

#[test]
fn list_of_empty_table_has_no_pages() {
    let table = TodoTable::new();
    match list(&table, None, None) {
        TodoPaginateResponses::Success(p) => {
            assert_eq!(p.num_data, 0);
            assert_eq!(p.num_page, 0);
            assert!(p.results.is_empty());
        }
        _ => panic!("expected a page"),
    }
}

#[test]
fn list_page_past_the_end_is_empty() {
    let mut table = TodoTable::new();
    for i in 0..7 {
        assert_created(post(&mut table, todo(&format!("todo {}", i), i % 2 == 0)));
    }
    match list(&table, Some(2), None) {
        TodoPaginateResponses::Success(p) => {
            assert_eq!(p.num_data, 7);
            assert_eq!(p.num_page, 2);
            let ids: Vec<i32> = p.results.iter().map(|t| t.id).collect();
            assert_eq!(ids, vec![2, 1]);
        }
        _ => panic!("expected a page"),
    }
    match list(&table, Some(3), None) {
        TodoPaginateResponses::Success(p) => assert!(p.results.is_empty()),
        _ => panic!("expected a page"),
    }
}

#[test]
fn page_query_defaults_and_clamps() {
    let q = ApiTodo.page_query(None, None);
    assert_eq!((q.page, q.page_size, q.limit, q.offset), (1, 5, 5, 0));
    let q = ApiTodo.page_query(Some(3), Some(4));
    assert_eq!((q.page, q.page_size, q.limit, q.offset), (3, 4, 4, 8));
    let q = ApiTodo.page_query(Some(0), Some(-2));
    assert_eq!((q.page, q.page_size, q.limit, q.offset), (1, 5, 5, 0));
    let q = ApiTodo.page_query(Some(i32::MAX), Some(i32::MAX));
    assert_eq!(q.offset, (i32::MAX as i64 - 1) * i32::MAX as i64);
}

#[test]
fn store_failures_become_server_errors() {
    let err = || Err::<(), String>("disk I/O error".to_string());

    match ApiTodo.paginate_counted(&Err("db down".to_string())) {
        Some(TodoPaginateResponses::InternalServerError(e)) => assert_eq!(
            e.error,
            "error: on routes/todo.rs::get_paginate_todo iden:count todo on db error:db down"
        ),
        _ => panic!("expected a 500"),
    }
    assert!(ApiTodo.paginate_counted(&Ok(3)).is_none());

    let q = ApiTodo.page_query(None, None);
    match ApiTodo.get_paginate_todo(&q, 2, Err("timeout".to_string())) {
        TodoPaginateResponses::InternalServerError(e) => assert_eq!(
            e.error,
            "error: on routes/todo.rs::get_paginate_todo iden:find todo on db error:timeout"
        ),
        _ => panic!("expected a 500"),
    }

    match ApiTodo.get_detail_todo(4, Err("locked".to_string())) {
        TodoDetailResponses::InternalServerError(e) => assert_eq!(
            e.error,
            "error: on routes/todo.rs::get_detail_todo iden:find todo on db error:locked"
        ),
        _ => panic!("expected a 500"),
    }

    match ApiTodo.create_inserted(&Err("constraint".to_string())) {
        Some(TodoCreateResponses::InternalServerError(e)) => assert_eq!(
            e.error,
            "error: on routes/todo.rs::create_todo iden:insert todo on db error:constraint"
        ),
        _ => panic!("expected a 500"),
    }
    match ApiTodo.create_todo(Err("gone".to_string())) {
        TodoCreateResponses::InternalServerError(e) => assert_eq!(
            e.error,
            "error: on routes/todo.rs::create_todo iden:find todo on db error:gone"
        ),
        _ => panic!("expected a 500"),
    }

    match ApiTodo.update_checked(9, &Err("locked".to_string())) {
        Some(TodoUpdateResponses::InternalServerError(e)) => assert_eq!(
            e.error,
            "error: on routes/todo.rs::update_todo iden:find todo on db error:locked"
        ),
        _ => panic!("expected a 500"),
    }
    let body = TodoUpdateRequest { todo: "x".to_string(), is_done: false };
    match ApiTodo.update_todo(9, body, err()) {
        TodoUpdateResponses::InternalServerError(e) => assert_eq!(
            e.error,
            "error: on routes/todo.rs::update_todo iden:update todo on db with id = 9 error:disk I/O error"
        ),
        _ => panic!("expected a 500"),
    }

    match ApiTodo.delete_checked(9, &Err("locked".to_string())) {
        Some(TodoDeleteResponses::InternalServerError(e)) => assert_eq!(
            e.error,
            "error: on routes/todo.rs::delete_todo iden:find todo on db error:locked"
        ),
        _ => panic!("expected a 500"),
    }
    match ApiTodo.delete_todo(err()) {
        TodoDeleteResponses::InternalServerError(e) => assert_eq!(
            e.error,
            "error: on routes/todo.rs::delete_todo iden:delete todo error:disk I/O error"
        ),
        _ => panic!("expected a 500"),
    }
}

#[test]
fn row_flags_read_as_booleans() {
    let found = Ok(Some(TodoRow { id: 5, todo: "t".to_string(), is_done: 1 }));
    match ApiTodo.get_detail_todo(5, found) {
        TodoDetailResponses::Success(t) => assert!(t.is_done),
        _ => panic!("expected the todo"),
    }
    let found = Ok(Some(TodoRow { id: 6, todo: "t".to_string(), is_done: 0 }));
    match ApiTodo.get_detail_todo(6, found) {
        TodoDetailResponses::Success(t) => assert!(!t.is_done),
        _ => panic!("expected the todo"),
    }
}

#[test]
fn update_on_missing_id_is_not_found() {
    let table = TodoTable::new();
    match ApiTodo.update_checked(42, &Ok(table.select_by_id(42))) {
        Some(TodoUpdateResponses::NotFound(n)) => assert_eq!(n.message, "todo with id 42 not found"),
        _ => panic!("expected a 404"),
    }
    match ApiTodo.get_detail_todo(-3, Ok(None)) {
        TodoDetailResponses::NotFound(n) => assert_eq!(n.message, "todo with id -3 not found"),
        _ => panic!("expected a 404"),
    }
}
