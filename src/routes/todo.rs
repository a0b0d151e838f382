use vstd::prelude::*;
use vstd::string::StringExecFns;

use crate::schema::common::{
    error_text, InternalServerErrorResponse, NotFoundResponse, OkResponse, PaginateResponse,
};
use crate::schema::todo::{
    PageModel, Reply, TodoCreateOk, TodoCreateResponses, TodoDeleteResponses, TodoDetailFound,
    TodoDetailResponses, TodoModel, TodoPaginateDetail, TodoPaginateResponses, TodoRow,
    TodoUpdateRequest, TodoUpdateResponse, TodoUpdateResponses,
};
use crate::store::{
    find_todo, lemma_find_absent, lemma_without, page_of_rows, table_wf, with_inserted, without,
    TableModel,
};
use crate::text::{decimal_of, push_decimal};
use crate::utils::{ceil_div, div_ceil};

verus! {

/// The page shown when the caller names none, or one below 1.
pub const DEFAULT_PAGE: i32 = 1;

/// The page size used when the caller names none, or one below 1.
pub const DEFAULT_PAGE_SIZE: i32 = 5;

/// The 404 message for a todo id that the store does not hold.
pub open spec fn not_found_text(id: int) -> Seq<char> {
    "todo with id "@ + decimal_of(id) + " not found"@
}

/// The diagnostic text of a store failure in one of the todo handlers.
pub open spec fn todo_error(operation: Seq<char>, step: Seq<char>, detail: Seq<char>) -> Seq<char> {
    error_text("routes/todo.rs"@, operation, step, detail)
}

/// The page that `GET /todo` shows.
pub open spec fn page_number(page: Option<i32>) -> int {
    match page {
        Some(p) => if p >= 1 { p as int } else { DEFAULT_PAGE as int },
        None => DEFAULT_PAGE as int,
    }
}

/// The page size that `GET /todo` uses.
pub open spec fn page_size_number(page_size: Option<i32>) -> int {
    match page_size {
        Some(s) => if s >= 1 { s as int } else { DEFAULT_PAGE_SIZE as int },
        None => DEFAULT_PAGE_SIZE as int,
    }
}

/// What a lookup by id handed back, as the library reasons about it.
pub open spec fn found_view(found: Result<Option<TodoRow>, String>) -> Result<
    Option<TodoModel>,
    Seq<char>,
> {
    match found {
        Ok(Some(row)) => Ok(Some(row@)),
        Ok(None) => Ok(None),
        Err(e) => Err(e@),
    }
}

/// What a statement without a result handed back, as the library reasons about it.
pub open spec fn done_view(done: Result<(), String>) -> Result<(), Seq<char>> {
    match done {
        Ok(()) => Ok(()),
        Err(e) => Err(e@),
    }
}

/// A step's decision: `None` to go on with the next statement, or the reply.
pub open spec fn step_view<R: View>(r: Option<R>) -> Option<R::V> {
    match r {
        Some(x) => Some(x@),
        None => None,
    }
}

/// `GET /todo` after counting: go on where the count succeeded.
pub open spec fn counted_reply(count: Result<i32, String>) -> Option<Reply<PageModel>> {
    match count {
        Ok(_) => None,
        Err(e) => Some(
            Reply::ServerError(todo_error("get_paginate_todo"@, "count todo on db"@, e@)),
        ),
    }
}

/// `GET /todo` after selecting the page.
pub open spec fn page_reply(
    page: int,
    page_size: int,
    num_data: int,
    rows: Result<Seq<TodoModel>, Seq<char>>,
) -> Reply<PageModel> {
    match rows {
        Ok(results) => Reply::Success(
            PageModel {
                page,
                page_size,
                num_data,
                num_page: ceil_div(num_data, page_size),
                results,
            },
        ),
        Err(e) => Reply::ServerError(todo_error("get_paginate_todo"@, "find todo on db"@, e)),
    }
}

/// `GET /todo/{id}` after the lookup.
pub open spec fn detail_reply(id: int, found: Result<Option<TodoModel>, Seq<char>>) -> Reply<
    TodoModel,
> {
    match found {
        Ok(Some(t)) => Reply::Success(t),
        Ok(None) => Reply::NotFound(not_found_text(id)),
        Err(e) => Reply::ServerError(todo_error("get_detail_todo"@, "find todo on db"@, e)),
    }
}

/// `POST /todo` after the insert: go on where it succeeded.
pub open spec fn inserted_reply(inserted: Result<i64, String>) -> Option<Reply<TodoModel>> {
    match inserted {
        Ok(_) => None,
        Err(e) => Some(Reply::ServerError(todo_error("create_todo"@, "insert todo on db"@, e@))),
    }
}

/// `POST /todo` after reading the new row back.
pub open spec fn created_reply(fetched: Result<TodoModel, Seq<char>>) -> Reply<TodoModel> {
    match fetched {
        Ok(t) => Reply::Success(t),
        Err(e) => Reply::ServerError(todo_error("create_todo"@, "find todo on db"@, e)),
    }
}

/// `PUT /todo/{id}` after the lookup: go on where the todo exists.
pub open spec fn update_checked_reply(id: int, found: Result<Option<TodoModel>, Seq<char>>) -> Option<
    Reply<TodoModel>,
> {
    match found {
        Ok(Some(_)) => None,
        Ok(None) => Some(Reply::NotFound(not_found_text(id))),
        Err(e) => Some(Reply::ServerError(todo_error("update_todo"@, "find todo on db"@, e))),
    }
}

/// `PUT /todo/{id}` after the update.
pub open spec fn updated_reply(
    id: int,
    todo: Seq<char>,
    is_done: bool,
    written: Result<(), Seq<char>>,
) -> Reply<TodoModel> {
    match written {
        Ok(()) => Reply::Success(TodoModel { id, todo, is_done }),
        Err(e) => Reply::ServerError(
            todo_error("update_todo"@, "update todo on db with id = "@ + decimal_of(id), e),
        ),
    }
}

/// `DELETE /todo/{id}` after the lookup: go on where the todo exists.
pub open spec fn delete_checked_reply(id: int, found: Result<Option<TodoModel>, Seq<char>>) -> Option<
    Reply<Seq<char>>,
> {
    match found {
        Ok(Some(_)) => None,
        Ok(None) => Some(Reply::NotFound(not_found_text(id))),
        Err(e) => Some(Reply::ServerError(todo_error("delete_todo"@, "find todo on db"@, e))),
    }
}

/// `DELETE /todo/{id}` after the delete.
pub open spec fn deleted_reply(written: Result<(), Seq<char>>) -> Reply<Seq<char>> {
    match written {
        Ok(()) => Reply::Success("todo deleted successfully"@),
        Err(e) => Reply::ServerError(todo_error("delete_todo"@, "delete todo"@, e)),
    }
}

/// Page, page size and the `LIMIT` / `OFFSET` of the page select.
pub struct PageQuery {
    pub page: i32,
    pub page_size: i32,
    pub limit: i32,
    pub offset: i64,
}

fn not_found(id: i32) -> (r: NotFoundResponse)
    ensures
        r.message@ == not_found_text(id as int),
{
    let mut message = String::from_str("todo with id ");
    push_decimal(&mut message, id as i64);
    message.append(" not found");
    NotFoundResponse { message }
}

fn todo_failure(operation: &str, step: &str, detail: &str) -> (r: InternalServerErrorResponse)
    ensures
        r.error@ == todo_error(operation@, step@, detail@),
{
    InternalServerErrorResponse::new("routes/todo.rs", operation, step, detail)
}

/// The CRUD endpoints of the todo resource. Each handler is a sequence of store
/// statements; each function here decides one step from what the store handed back.
pub struct ApiTodo;

impl ApiTodo {
    /// `GET /todo?page=&page_size=`: page and page size, each defaulted when absent
    /// or below 1, with `LIMIT page_size OFFSET (page - 1) * page_size`.
    pub fn page_query(&self, page: Option<i32>, page_size: Option<i32>) -> (q: PageQuery)
        ensures
            q.page == page_number(page),
            q.page_size == page_size_number(page_size),
            q.limit == q.page_size,
            q.offset == (q.page - 1) * q.page_size,
            q.page >= 1,
            q.page_size >= 1,
            q.offset >= 0,
    {
        let page: i32 = match page {
            Some(p) => if p >= 1 { p } else { DEFAULT_PAGE },
            None => DEFAULT_PAGE,
        };
        let page_size: i32 = match page_size {
            Some(s) => if s >= 1 { s } else { DEFAULT_PAGE_SIZE },
            None => DEFAULT_PAGE_SIZE,
        };
        let before = (page - 1) as i64;
        assert(0 <= before * page_size <= (i32::MAX as int) * (i32::MAX as int)) by (nonlinear_arith)
            requires
                0 <= before <= i32::MAX,
                1 <= page_size <= i32::MAX,
        ;
        PageQuery { page, page_size, limit: page_size, offset: before * page_size as i64 }
    }

    /// `GET /todo` once the store counted the todos: a 500 where it failed, else go on.
    pub fn paginate_counted(&self, count: &Result<i32, String>) -> (r: Option<TodoPaginateResponses>)
        ensures
            step_view(r) == counted_reply(*count),
    {
        match count {
            Ok(_) => None,
            Err(e) => Some(
                TodoPaginateResponses::InternalServerError(
                    todo_failure("get_paginate_todo", "count todo on db", e.as_str()),
                ),
            ),
        }
    }

    /// `GET /todo` once the store selected the page: the page with its numbers, or a 500.
    pub fn get_paginate_todo(
        &self,
        q: &PageQuery,
        num_data: i32,
        rows: Result<Vec<TodoRow>, String>,
    ) -> (r: TodoPaginateResponses)
        requires
            q.page_size >= 1,
            num_data >= 0,
        ensures
            r@ == page_reply(
                q.page as int,
                q.page_size as int,
                num_data as int,
                match rows {
                    Ok(v) => Ok(v@.map_values(|x: TodoRow| x@)),
                    Err(e) => Err(e@),
                },
            ),
    {
        match rows {
            Ok(v) => {
                let mut results: Vec<TodoPaginateDetail> = Vec::new();
                let mut i: usize = 0;
                while i < v.len()
                    invariant
                        i <= v@.len(),
                        results@.len() == i,
                        forall|j: int| 0 <= j < i ==> #[trigger] results@[j]@ == v@[j]@,
                    decreases v@.len() - i,
                {
                    results.push(
                        TodoPaginateDetail {
                            id: v[i].id,
                            todo: v[i].todo.clone(),
                            is_done: v[i].is_done == 1,
                        },
                    );
                    i = i + 1;
                }
                assert(results@.map_values(|d: TodoPaginateDetail| d@) =~= v@.map_values(
                    |x: TodoRow| x@,
                ));
                TodoPaginateResponses::Success(
                    PaginateResponse {
                        page: q.page,
                        page_size: q.page_size,
                        num_data,
                        num_page: div_ceil(num_data, q.page_size),
                        results,
                    },
                )
            },
            Err(e) => TodoPaginateResponses::InternalServerError(
                todo_failure("get_paginate_todo", "find todo on db", e.as_str()),
            ),
        }
    }

    /// `GET /todo/{id}` once the store looked the id up: the todo, a 404 naming the
    /// id, or a 500.
    pub fn get_detail_todo(&self, id: i32, found: Result<Option<TodoRow>, String>) -> (r:
        TodoDetailResponses)
        ensures
            r@ == detail_reply(id as int, found_view(found)),
    {
        match found {
            Ok(Some(row)) => TodoDetailResponses::Success(
                TodoDetailFound { id: row.id, todo: row.todo, is_done: row.is_done == 1 },
            ),
            Ok(None) => TodoDetailResponses::NotFound(not_found(id)),
            Err(e) => TodoDetailResponses::InternalServerError(
                todo_failure("get_detail_todo", "find todo on db", e.as_str()),
            ),
        }
    }

    /// `POST /todo` once the store ran the insert: a 500 where it failed, else go on
    /// and read the new row back by the id that the store assigned.
    pub fn create_inserted(&self, inserted: &Result<i64, String>) -> (r: Option<TodoCreateResponses>)
        ensures
            step_view(r) == inserted_reply(*inserted),
    {
        match inserted {
            Ok(_) => None,
            Err(e) => Some(
                TodoCreateResponses::InternalServerError(
                    todo_failure("create_todo", "insert todo on db", e.as_str()),
                ),
            ),
        }
    }

    /// `POST /todo` once the store handed the new row back: that row, or a 500.
    pub fn create_todo(&self, fetched: Result<TodoRow, String>) -> (r: TodoCreateResponses)
        ensures
            r@ == created_reply(
                match fetched {
                    Ok(row) => Ok(row@),
                    Err(e) => Err(e@),
                },
            ),
    {
        match fetched {
            Ok(row) => TodoCreateResponses::Success(
                TodoCreateOk { id: row.id, todo: row.todo, is_done: row.is_done == 1 },
            ),
            Err(e) => TodoCreateResponses::InternalServerError(
                todo_failure("create_todo", "find todo on db", e.as_str()),
            ),
        }
    }

    /// `PUT /todo/{id}` once the store looked the id up: a 404 or a 500, else go on
    /// and update.
    pub fn update_checked(&self, id: i32, found: &Result<Option<TodoRow>, String>) -> (r: Option<
        TodoUpdateResponses,
    >)
        ensures
            step_view(r) == update_checked_reply(id as int, found_view(*found)),
    {
        match found {
            Ok(Some(_)) => None,
            Ok(None) => Some(TodoUpdateResponses::NotFound(not_found(id))),
            Err(e) => Some(
                TodoUpdateResponses::InternalServerError(
                    todo_failure("update_todo", "find todo on db", e.as_str()),
                ),
            ),
        }
    }

    /// `PUT /todo/{id}` once the store ran the update: the todo as the request set
    /// it, or a 500 that names the id.
    pub fn update_todo(&self, id: i32, json: TodoUpdateRequest, written: Result<(), String>) -> (r:
        TodoUpdateResponses)
        ensures
            r@ == updated_reply(id as int, json.todo@, json.is_done, done_view(written)),
    {
        match written {
            Ok(()) => TodoUpdateResponses::Success(
                TodoUpdateResponse { id, todo: json.todo, is_done: json.is_done },
            ),
            Err(e) => {
                let mut step = String::from_str("update todo on db with id = ");
                push_decimal(&mut step, id as i64);
                TodoUpdateResponses::InternalServerError(
                    todo_failure("update_todo", step.as_str(), e.as_str()),
                )
            },
        }
    }

    /// `DELETE /todo/{id}` once the store looked the id up: a 404 or a 500, else go
    /// on and delete.
    pub fn delete_checked(&self, id: i32, found: &Result<Option<TodoRow>, String>) -> (r: Option<
        TodoDeleteResponses,
    >)
        ensures
            step_view(r) == delete_checked_reply(id as int, found_view(*found)),
    {
        match found {
            Ok(Some(_)) => None,
            Ok(None) => Some(TodoDeleteResponses::NotFound(not_found(id))),
            Err(e) => Some(
                TodoDeleteResponses::InternalServerError(
                    todo_failure("delete_todo", "find todo on db", e.as_str()),
                ),
            ),
        }
    }

    /// `DELETE /todo/{id}` once the store ran the delete: a confirmation, or a 500.
    pub fn delete_todo(&self, written: Result<(), String>) -> (r: TodoDeleteResponses)
        ensures
            r@ == deleted_reply(done_view(written)),
    {
        match written {
            Ok(()) => TodoDeleteResponses::Success(
                OkResponse { message: String::from_str("todo deleted successfully") },
            ),
            Err(e) => TodoDeleteResponses::InternalServerError(
                todo_failure("delete_todo", "delete todo", e.as_str()),
            ),
        }
    }
}

/// Creating a todo and then reading it by the id that the store assigned gives
/// back exactly the fields that were created, under an id of at least 1.
pub proof fn lemma_create_then_get(m: TableModel, todo: Seq<char>, is_done: bool)
    requires
        table_wf(m),
    ensures
        m.next_id >= 1,
        find_todo(with_inserted(m, todo, is_done).rows, m.next_id) == Some(
            TodoModel { id: m.next_id, todo, is_done },
        ),
        created_reply(Ok(TodoModel { id: m.next_id, todo, is_done })) == Reply::Success(
            TodoModel { id: m.next_id, todo, is_done },
        ),
        detail_reply(m.next_id, Ok(find_todo(with_inserted(m, todo, is_done).rows, m.next_id)))
            == Reply::Success(TodoModel { id: m.next_id, todo, is_done }),
{
}

/// Reading an id that the table does not hold gives a 404 that names the id.
pub proof fn lemma_get_missing(m: TableModel, id: int)
    requires
        table_wf(m),
        forall|i: int| 0 <= i < m.rows.len() ==> #[trigger] m.rows[i].id != id,
    ensures
        detail_reply(id, Ok(find_todo(m.rows, id))) == Reply::<TodoModel>::NotFound(
            not_found_text(id),
        ),
{
    lemma_find_absent(m.rows, id);
}

/// Listing an empty table after inserting A and then B gives, on the default
/// first page, B and then A.
pub proof fn lemma_list_newest_first(
    m: TableModel,
    a: Seq<char>,
    a_done: bool,
    b: Seq<char>,
    b_done: bool,
)
    requires
        table_wf(m),
        m.rows.len() == 0,
    ensures
        ({
            let after = with_inserted(with_inserted(m, a, a_done), b, b_done);
            let page = page_number(None);
            let size = page_size_number(None);
            page_reply(
                page,
                size,
                after.rows.len() as int,
                Ok(page_of_rows(after.rows, size, (page - 1) * size)),
            ) == Reply::Success(
                PageModel {
                    page: 1,
                    page_size: 5,
                    num_data: 2,
                    num_page: 1,
                    results: seq![
                        TodoModel { id: m.next_id + 1, todo: b, is_done: b_done },
                        TodoModel { id: m.next_id, todo: a, is_done: a_done },
                    ],
                },
            )
        }),
{
    let after = with_inserted(with_inserted(m, a, a_done), b, b_done);
    assert(page_number(None) == 1);
    assert(page_size_number(None) == 5);
    assert(ceil_div(2, 5) == 1);
    assert(after.rows.len() == 2);
    assert(page_of_rows(after.rows, 5, 0) =~= seq![
        TodoModel { id: m.next_id + 1, todo: b, is_done: b_done },
        TodoModel { id: m.next_id, todo: a, is_done: a_done },
    ]);
}

/// Over two todos, page 2 of size 1 holds exactly the older one, of two pages.
pub proof fn lemma_second_page_of_one(m: TableModel)
    requires
        table_wf(m),
        m.rows.len() == 2,
    ensures
        ({
            let page = page_number(Some(2));
            let size = page_size_number(Some(1));
            page_reply(page, size, 2, Ok(page_of_rows(m.rows, size, (page - 1) * size)))
                == Reply::Success(
                PageModel { page: 2, page_size: 1, num_data: 2, num_page: 2, results: seq![m.rows[0]] },
            )
        }),
{
    assert(page_number(Some(2)) == 2);
    assert(page_size_number(Some(1)) == 1);
    assert(ceil_div(2, 1) == 2);
    assert(page_of_rows(m.rows, 1, 1) =~= seq![m.rows[0]]);
}

/// Updating an id that the table does not hold gives a 404, and the update is
/// never run.
pub proof fn lemma_update_missing(m: TableModel, id: int)
    requires
        table_wf(m),
        forall|i: int| 0 <= i < m.rows.len() ==> #[trigger] m.rows[i].id != id,
    ensures
        update_checked_reply(id, Ok(find_todo(m.rows, id))) == Some(
            Reply::<TodoModel>::NotFound(not_found_text(id)),
        ),
{
    lemma_find_absent(m.rows, id);
}

/// After `DELETE /todo/{id}`, whether it found the todo or not, reading the same
/// id gives a 404.
pub proof fn lemma_delete_then_get(m: TableModel, id: int)
    requires
        table_wf(m),
    ensures
        ({
            let after = if find_todo(m.rows, id) is Some {
                without(m.rows, id)
            } else {
                m.rows
            };
            detail_reply(id, Ok(find_todo(after, id))) == Reply::<TodoModel>::NotFound(
                not_found_text(id),
            )
        }),
{
    lemma_without(m.rows, id, 1, m.next_id);
    lemma_find_absent(without(m.rows, id), id);
}

} // verus!
