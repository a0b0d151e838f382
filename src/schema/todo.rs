use vstd::prelude::*;

use crate::schema::common::{
    InternalServerErrorResponse, NotFoundResponse, OkResponse, PaginateResponse,
};

verus! {

/// A todo as the library reasons about it.
pub struct TodoModel {
    pub id: int,
    pub todo: Seq<char>,
    pub is_done: bool,
}

/// A reply of a todo endpoint, with each body reduced to what it says.
pub enum Reply<T> {
    /// 200, with its body.
    Success(T),
    /// 404, with its message.
    NotFound(Seq<char>),
    /// 500, with its diagnostic text.
    ServerError(Seq<char>),
}

/// A page of todos as the library reasons about it.
pub struct PageModel {
    pub page: int,
    pub page_size: int,
    pub num_data: int,
    pub num_page: int,
    pub results: Seq<TodoModel>,
}

/// A row of the `todo` table as the store hands it back; `is_done` is 0 or 1 there.
pub struct TodoRow {
    pub id: i32,
    pub todo: String,
    pub is_done: i32,
}

impl View for TodoRow {
    type V = TodoModel;

    open spec fn view(&self) -> TodoModel {
        TodoModel { id: self.id as int, todo: self.todo@, is_done: self.is_done == 1 }
    }
}

impl TodoRow {
    /// A copy of the row.
    pub fn copy(&self) -> (r: TodoRow)
        ensures
            r == *self,
    {
        TodoRow { id: self.id, todo: self.todo.clone(), is_done: self.is_done }
    }
}

/// One todo of a page.
pub struct TodoPaginateDetail {
    pub id: i32,
    pub todo: String,
    pub is_done: bool,
}

impl View for TodoPaginateDetail {
    type V = TodoModel;

    open spec fn view(&self) -> TodoModel {
        TodoModel { id: self.id as int, todo: self.todo@, is_done: self.is_done }
    }
}

/// The replies of `GET /todo`.
pub enum TodoPaginateResponses {
    /// 200
    Success(PaginateResponse<TodoPaginateDetail>),
    /// 500
    InternalServerError(InternalServerErrorResponse),
}

impl View for TodoPaginateResponses {
    type V = Reply<PageModel>;

    open spec fn view(&self) -> Reply<PageModel> {
        match self {
            TodoPaginateResponses::Success(p) => Reply::Success(
                PageModel {
                    page: p.page as int,
                    page_size: p.page_size as int,
                    num_data: p.num_data as int,
                    num_page: p.num_page as int,
                    results: p.results@.map_values(|d: TodoPaginateDetail| d@),
                },
            ),
            TodoPaginateResponses::InternalServerError(e) => Reply::ServerError(e.error@),
        }
    }
}

/// The body of `GET /todo/{id}` when the todo exists.
pub struct TodoDetailFound {
    pub id: i32,
    pub todo: String,
    pub is_done: bool,
}

/// The replies of `GET /todo/{id}`.
pub enum TodoDetailResponses {
    /// 200
    Success(TodoDetailFound),
    /// 404
    NotFound(NotFoundResponse),
    /// 500
    InternalServerError(InternalServerErrorResponse),
}

impl View for TodoDetailResponses {
    type V = Reply<TodoModel>;

    open spec fn view(&self) -> Reply<TodoModel> {
        match self {
            TodoDetailResponses::Success(b) => Reply::Success(
                TodoModel { id: b.id as int, todo: b.todo@, is_done: b.is_done },
            ),
            TodoDetailResponses::NotFound(n) => Reply::NotFound(n.message@),
            TodoDetailResponses::InternalServerError(e) => Reply::ServerError(e.error@),
        }
    }
}

/// The body of `POST /todo`.
pub struct TodoCreateRequest {
    pub todo: String,
    pub is_done: bool,
}

/// The todo that `POST /todo` stored, as the store now holds it.
pub struct TodoCreateOk {
    pub id: i32,
    pub todo: String,
    pub is_done: bool,
}

/// The replies of `POST /todo`.
pub enum TodoCreateResponses {
    /// 200
    Success(TodoCreateOk),
    /// 500
    InternalServerError(InternalServerErrorResponse),
}

impl View for TodoCreateResponses {
    type V = Reply<TodoModel>;

    open spec fn view(&self) -> Reply<TodoModel> {
        match self {
            TodoCreateResponses::Success(b) => Reply::Success(
                TodoModel { id: b.id as int, todo: b.todo@, is_done: b.is_done },
            ),
            TodoCreateResponses::InternalServerError(e) => Reply::ServerError(e.error@),
        }
    }
}

/// The body of `PUT /todo/{id}`: the new description and flag.
pub struct TodoUpdateRequest {
    pub todo: String,
    pub is_done: bool,
}

/// The todo as `PUT /todo/{id}` left it.
pub struct TodoUpdateResponse {
    pub id: i32,
    pub todo: String,
    pub is_done: bool,
}

/// The replies of `PUT /todo/{id}`.
pub enum TodoUpdateResponses {
    /// 200
    Success(TodoUpdateResponse),
    /// 404
    NotFound(NotFoundResponse),
    /// 500
    InternalServerError(InternalServerErrorResponse),
}

impl View for TodoUpdateResponses {
    type V = Reply<TodoModel>;

    open spec fn view(&self) -> Reply<TodoModel> {
        match self {
            TodoUpdateResponses::Success(b) => Reply::Success(
                TodoModel { id: b.id as int, todo: b.todo@, is_done: b.is_done },
            ),
            TodoUpdateResponses::NotFound(n) => Reply::NotFound(n.message@),
            TodoUpdateResponses::InternalServerError(e) => Reply::ServerError(e.error@),
        }
    }
}

/// The replies of `DELETE /todo/{id}`.
pub enum TodoDeleteResponses {
    /// 200
    Success(OkResponse),
    /// 404
    NotFound(NotFoundResponse),
    /// 500
    InternalServerError(InternalServerErrorResponse),
}

impl View for TodoDeleteResponses {
    type V = Reply<Seq<char>>;

    open spec fn view(&self) -> Reply<Seq<char>> {
        match self {
            TodoDeleteResponses::Success(b) => Reply::Success(b.message@),
            TodoDeleteResponses::NotFound(n) => Reply::NotFound(n.message@),
            TodoDeleteResponses::InternalServerError(e) => Reply::ServerError(e.error@),
        }
    }
}

} // verus!
