use vstd::prelude::*;

use crate::schema::todo::{TodoModel, TodoRow};

verus! {

/// The `todo` table as the library reasons about it: rows in the order of their
/// ids, and the id that the next insert receives.
pub struct TableModel {
    pub rows: Seq<TodoModel>,
    pub next_id: int,
}

/// Ids run from one upward, strictly ascending, all below `next_id`, which
/// exceeds the number of rows.
pub open spec fn table_wf(m: TableModel) -> bool {
    &&& m.next_id >= 1
    &&& m.rows.len() < m.next_id
    &&& forall|i: int| 0 <= i < m.rows.len() ==> 1 <= #[trigger] m.rows[i].id < m.next_id
    &&& ids_ascending(m.rows)
}

/// The row with id `id`, if any.
pub open spec fn find_todo(rows: Seq<TodoModel>, id: int) -> Option<TodoModel>
    decreases rows.len(),
{
    if rows.len() == 0 {
        None
    } else if rows.last().id == id {
        Some(rows.last())
    } else {
        find_todo(rows.drop_last(), id)
    }
}

/// The rows without the one whose id is `id`.
pub open spec fn without(rows: Seq<TodoModel>, id: int) -> Seq<TodoModel>
    decreases rows.len(),
{
    if rows.len() == 0 {
        rows
    } else if rows.last().id == id {
        without(rows.drop_last(), id)
    } else {
        without(rows.drop_last(), id).push(rows.last())
    }
}

/// The rows, the one whose id is `id` given a new description and flag.
pub open spec fn with_updated(rows: Seq<TodoModel>, id: int, todo: Seq<char>, is_done: bool) -> Seq<
    TodoModel,
> {
    rows.map_values(
        |r: TodoModel|
            if r.id == id {
                TodoModel { id, todo, is_done }
            } else {
                r
            },
    )
}

/// The table after an insert: a new row under `next_id`.
pub open spec fn with_inserted(m: TableModel, todo: Seq<char>, is_done: bool) -> TableModel {
    TableModel {
        rows: m.rows.push(TodoModel { id: m.next_id, todo, is_done }),
        next_id: m.next_id + 1,
    }
}

/// The rows, most recently created first.
pub open spec fn newest_first(rows: Seq<TodoModel>) -> Seq<TodoModel> {
    Seq::new(rows.len(), |i: int| rows[rows.len() - 1 - i])
}

/// The smaller of two integers.
pub open spec fn min_int(a: int, b: int) -> int {
    if a <= b {
        a
    } else {
        b
    }
}

/// What `ORDER BY id DESC LIMIT limit OFFSET offset` selects.
pub open spec fn page_of_rows(rows: Seq<TodoModel>, limit: int, offset: int) -> Seq<TodoModel> {
    newest_first(rows).subrange(
        min_int(offset, rows.len() as int),
        min_int(offset + limit, rows.len() as int),
    )
}

/// Ids strictly ascending.
pub open spec fn ids_ascending(rows: Seq<TodoModel>) -> bool {
    forall|i: int, j: int| 0 <= i < j < rows.len() ==> rows[i].id < rows[j].id
}

/// Removing a row keeps the others in order and within their bounds, and no
/// row with that id is left.
pub proof fn lemma_without(rows: Seq<TodoModel>, id: int, lo: int, hi: int)
    requires
        ids_ascending(rows),
        forall|i: int| 0 <= i < rows.len() ==> lo <= #[trigger] rows[i].id < hi,
    ensures
        ids_ascending(without(rows, id)),
        without(rows, id).len() <= rows.len(),
        forall|i: int|
            0 <= i < without(rows, id).len() ==> lo <= #[trigger] without(rows, id)[i].id < hi,
        forall|i: int| 0 <= i < without(rows, id).len() ==> #[trigger] without(rows, id)[i].id != id,
    decreases rows.len(),
{
    if rows.len() > 0 {
        let last = rows.last();
        let rest = rows.drop_last();
        assert forall|i: int| 0 <= i < rest.len() implies lo <= #[trigger] rest[i].id < last.id by {
            assert(rows[i] == rest[i]);
        }
        lemma_without(rest, id, lo, last.id);
    }
}

/// Where no row has id `id`, the lookup finds nothing.
pub proof fn lemma_find_absent(rows: Seq<TodoModel>, id: int)
    requires
        forall|i: int| 0 <= i < rows.len() ==> #[trigger] rows[i].id != id,
    ensures
        find_todo(rows, id) is None,
    decreases rows.len(),
{
    if rows.len() > 0 {
        let rest = rows.drop_last();
        assert forall|i: int| 0 <= i < rest.len() implies #[trigger] rest[i].id != id by {
            assert(rows[i] == rest[i]);
        }
        lemma_find_absent(rest, id);
    }
}

/// The todo table held in memory, with the semantics of the statements that
/// the handlers issue.
pub struct TodoTable {
    rows: Vec<TodoRow>,
    next_id: i32,
}

impl View for TodoTable {
    type V = TableModel;

    closed spec fn view(&self) -> TableModel {
        TableModel { rows: self.rows@.map_values(|r: TodoRow| r@), next_id: self.next_id as int }
    }
}

impl TodoTable {
    /// The table is well formed, and each stored flag is 0 or 1.
    pub closed spec fn wf(&self) -> bool {
        &&& table_wf(self@)
        &&& forall|i: int|
            0 <= i < self.rows@.len() ==> 0 <= #[trigger] self.rows@[i].is_done <= 1
    }

    /// An empty table whose first insert receives id 1.
    pub fn new() -> (r: TodoTable)
        ensures
            r.wf(),
            r@.rows.len() == 0,
            r@.next_id == 1,
    {
        let r = TodoTable { rows: Vec::new(), next_id: 1 };
        assert(r@.rows =~= Seq::<TodoModel>::empty());
        r
    }

    /// `SELECT count(id) FROM todo`.
    pub fn count(&self) -> (r: i32)
        requires
            self.wf(),
        ensures
            r == self@.rows.len(),
    {
        self.rows.len() as i32
    }

    /// `SELECT id, todo, is_done FROM todo WHERE id = ?`.
    pub fn select_by_id(&self, id: i64) -> (r: Option<TodoRow>)
        requires
            self.wf(),
        ensures
            match r {
                Some(row) => find_todo(self@.rows, id as int) == Some(row@),
                None => find_todo(self@.rows, id as int) is None,
            },
    {
        let mut k: usize = self.rows.len();
        assert(self@.rows.subrange(0, k as int) =~= self@.rows);
        while k > 0
            invariant
                k <= self.rows@.len(),
                find_todo(self@.rows, id as int) == find_todo(self@.rows.subrange(0, k as int), id as int),
            decreases k,
        {
            let ghost pre = self@.rows.subrange(0, k as int);
            assert(pre.drop_last() =~= self@.rows.subrange(0, k - 1));
            if self.rows[k - 1].id as i64 == id {
                return Some(self.rows[k - 1].copy());
            }
            k = k - 1;
        }
        None
    }

    /// `SELECT id, todo, is_done FROM todo ORDER BY id DESC LIMIT ? OFFSET ?`.
    pub fn select_page(&self, limit: i32, offset: i64) -> (r: Vec<TodoRow>)
        requires
            self.wf(),
            limit >= 0,
            offset >= 0,
        ensures
            r@.map_values(|x: TodoRow| x@) == page_of_rows(self@.rows, limit as int, offset as int),
    {
        let n = self.rows.len();
        let ghost len = n as int;
        let start: usize = if offset >= n as i64 { n } else { offset as usize };
        let end: usize = if (n - start) as i64 <= limit as i64 { n } else { start + limit as usize };
        let mut out: Vec<TodoRow> = Vec::new();
        let mut i: usize = start;
        while i < end
            invariant
                n == self.rows@.len(),
                start <= i <= end <= n,
                out@.len() == i - start,
                forall|j: int|
                    0 <= j < out@.len() ==> #[trigger] out@[j] == self.rows@[n - 1 - (start + j)],
            decreases end - i,
        {
            out.push(self.rows[n - 1 - i].copy());
            i = i + 1;
        }
        assert(start == min_int(offset as int, len));
        assert(end == min_int(offset + limit, len));
        assert(out@.map_values(|x: TodoRow| x@) =~= page_of_rows(self@.rows, limit as int, offset as int));
        out
    }
    /// `INSERT INTO todo (todo, is_done) VALUES (?, ?)`: the new row's id.
    pub fn insert(&mut self, todo: String, is_done: bool) -> (id: i64)
        requires
            old(self).wf(),
            old(self)@.next_id < i32::MAX,
        ensures
            final(self).wf(),
            final(self)@ == with_inserted(old(self)@, todo@, is_done),
            id == old(self)@.next_id,
    {
        let id = self.next_id;
        let flag: i32 = if is_done { 1 } else { 0 };
        self.rows.push(TodoRow { id, todo, is_done: flag });
        self.next_id = id + 1;
        assert(self@.rows =~= with_inserted(old(self)@, todo@, is_done).rows);
        assert(forall|i: int| 0 <= i < self@.rows.len() - 1 ==> self@.rows[i] == old(self)@.rows[i]);
        id as i64
    }

    /// `UPDATE todo SET todo = ?, is_done = ? WHERE id = ?`.
    pub fn update(&mut self, id: i32, todo: String, is_done: bool)
        requires
            old(self).wf(),
        ensures
            final(self).wf(),
            final(self)@ == (TableModel {
                rows: with_updated(old(self)@.rows, id as int, todo@, is_done),
                next_id: old(self)@.next_id,
            }),
    {
        let flag: i32 = if is_done { 1 } else { 0 };
        let n = self.rows.len();
        let mut i: usize = 0;
        while i < n
            invariant
                n == self.rows@.len(),
                n == old(self).rows@.len(),
                flag == (if is_done { 1i32 } else { 0i32 }),
                i <= n,
                self.next_id == old(self).next_id,
                forall|j: int|
                    0 <= j < i ==> #[trigger] self.rows@[j]@ == with_updated(
                        old(self)@.rows,
                        id as int,
                        todo@,
                        is_done,
                    )[j],
                forall|j: int| 0 <= j < n ==> 0 <= #[trigger] self.rows@[j].is_done <= 1,
                forall|j: int| i <= j < n ==> #[trigger] self.rows@[j] == old(self).rows@[j],
            decreases n - i,
        {
            let ghost target = with_updated(old(self)@.rows, id as int, todo@, is_done);
            assert(target[i as int] == (if old(self).rows@[i as int].id == id {
                TodoModel { id: id as int, todo: todo@, is_done }
            } else {
                old(self).rows@[i as int]@
            }));
            if self.rows[i].id == id {
                self.rows.set(i, TodoRow { id, todo: todo.clone(), is_done: flag });
            }
            assert(self.rows@[i as int]@ == target[i as int]);
            i = i + 1;
        }
        assert(self@.rows =~= with_updated(old(self)@.rows, id as int, todo@, is_done));
    }

    /// `DELETE FROM todo WHERE id = ?`.
    pub fn delete(&mut self, id: i32)
        requires
            old(self).wf(),
        ensures
            final(self).wf(),
            final(self)@ == (TableModel {
                rows: without(old(self)@.rows, id as int),
                next_id: old(self)@.next_id,
            }),
    {
        let ghost rows = self@.rows;
        let mut kept: Vec<TodoRow> = Vec::new();
        let n = self.rows.len();
        let mut i: usize = 0;
        assert(kept@.map_values(|x: TodoRow| x@) =~= without(rows.subrange(0, 0), id as int));
        while i < n
            invariant
                n == self.rows@.len(),
                rows == self@.rows,
                i <= n,
                kept@.map_values(|x: TodoRow| x@) == without(rows.subrange(0, i as int), id as int),
                forall|j: int| 0 <= j < kept@.len() ==> 0 <= #[trigger] kept@[j].is_done <= 1,
                forall|j: int| 0 <= j < n ==> 0 <= #[trigger] self.rows@[j].is_done <= 1,
            decreases n - i,
        {
            let ghost pre = rows.subrange(0, i + 1);
            assert(pre.drop_last() =~= rows.subrange(0, i as int));
            if self.rows[i].id != id {
                kept.push(self.rows[i].copy());
                assert(kept@.map_values(|x: TodoRow| x@) =~= without(pre, id as int));
            }
            i = i + 1;
        }
        assert(rows.subrange(0, n as int) =~= rows);
        proof {
            lemma_without(rows, id as int, 1, self@.next_id);
        }
        self.rows = kept;
    }
}

} // verus!
