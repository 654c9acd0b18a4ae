//! What the store does with a statement, as a function of the table's rows.
//!
//! A table is the sequence of its rows, most recently created first; the
//! store assigns each new row an `id` above every `id` it holds.
use vstd::prelude::*;

use crate::model::field::{Column, ValueModel};
use crate::model::statement::StatementModel;
use crate::model::todo::TodoStatus;

verus! {

/// A row: the value held in each of its columns.
pub type Row = Map<Column, ValueModel>;

/// What the store hands back for a statement.
pub enum Reply {
    /// The one row that the statement read or wrote.
    One(Row),
    /// No row matched a single-row statement.
    NoRow,
    /// Every row that a listing read, in order.
    Many(Seq<Row>),
}

/// The row's `id`.
pub open spec fn row_id(r: Row) -> int {
    match r[Column::Id] {
        ValueModel::Int(i) => i,
        _ => 0,
    }
}

/// A row holds an integer `id`.
pub open spec fn row_wf(r: Row) -> bool {
    r.contains_key(Column::Id) && r[Column::Id] is Int
}

/// Every row is well formed and the ids strictly decrease along the table.
pub open spec fn table_wf(rows: Seq<Row>) -> bool {
    &&& forall|i: int| 0 <= i < rows.len() ==> row_wf(#[trigger] rows[i])
    &&& forall|i: int, j: int|
        0 <= i < j < rows.len() ==> row_id(#[trigger] rows[i]) > row_id(#[trigger] rows[j])
}

/// `id` lies above every id of the table, as a newly assigned one does.
pub open spec fn fresh_id(rows: Seq<Row>, id: int) -> bool {
    forall|i: int| 0 <= i < rows.len() ==> row_id(#[trigger] rows[i]) < id
}

/// The columns that a list of assignments sets, the later one winning.
pub open spec fn fields_map(fields: Seq<(Column, ValueModel)>) -> Row
    decreases fields.len(),
{
    if fields.len() == 0 {
        Map::empty()
    } else {
        fields_map(fields.drop_last()).insert(fields.last().0, fields.last().1)
    }
}

/// The values that the schema gives to columns an insert leaves out.
pub open spec fn column_defaults(table: Seq<char>) -> Row {
    if table == "quote"@ {
        map![Column::Author => ValueModel::Text("unknown"@)]
    } else if table == "todo"@ {
        map![Column::Status => ValueModel::Status(TodoStatus::Open)]
    } else {
        Map::empty()
    }
}

/// The row narrowed to the given columns.
pub open spec fn project(r: Row, columns: Seq<Column>) -> Row {
    r.restrict(columns.to_set())
}

/// The row that an insert of `fields` creates under `id`.
pub open spec fn inserted_row(table: Seq<char>, fields: Seq<(Column, ValueModel)>, id: int) -> Row {
    column_defaults(table).union_prefer_right(fields_map(fields)).insert(
        Column::Id,
        ValueModel::Int(id),
    )
}

/// The row `r` after an update of `fields`; its `id` never changes.
pub open spec fn updated_row(r: Row, fields: Seq<(Column, ValueModel)>) -> Row {
    r.union_prefer_right(fields_map(fields)).insert(Column::Id, r[Column::Id])
}

/// The first row with the given `id`.
pub open spec fn find(rows: Seq<Row>, id: int) -> Option<Row>
    decreases rows.len(),
{
    if rows.len() == 0 {
        None
    } else if row_id(rows[0]) == id {
        Some(rows[0])
    } else {
        find(rows.drop_first(), id)
    }
}

/// The table with the rows of the given `id` updated.
pub open spec fn update_rows(rows: Seq<Row>, id: int, fields: Seq<(Column, ValueModel)>) -> Seq<
    Row,
>
    decreases rows.len(),
{
    if rows.len() == 0 {
        rows
    } else {
        let head = if row_id(rows[0]) == id {
            updated_row(rows[0], fields)
        } else {
            rows[0]
        };
        seq![head] + update_rows(rows.drop_first(), id, fields)
    }
}

/// The table without the rows of the given `id`.
pub open spec fn remove_rows(rows: Seq<Row>, id: int) -> Seq<Row>
    decreases rows.len(),
{
    if rows.len() == 0 {
        rows
    } else if row_id(rows[0]) == id {
        remove_rows(rows.drop_first(), id)
    } else {
        seq![rows[0]] + remove_rows(rows.drop_first(), id)
    }
}

/// Runs `s` on a table, an insert assigning `new_id`: the table afterwards
/// and the store's reply.
pub open spec fn run(rows: Seq<Row>, s: StatementModel, new_id: int) -> (Seq<Row>, Reply) {
    match s {
        StatementModel::Insert { table, fields, returning } => {
            let row = inserted_row(table, fields, new_id);
            (seq![row] + rows, Reply::One(project(row, returning)))
        },
        StatementModel::SelectOne { table, columns, id } => match find(rows, id) {
            Some(r) => (rows, Reply::One(project(r, columns))),
            None => (rows, Reply::NoRow),
        },
        StatementModel::SelectAll { table, columns } => (
            rows,
            Reply::Many(rows.map_values(|r: Row| project(r, columns))),
        ),
        StatementModel::Update { table, fields, id, returning } => match find(rows, id) {
            Some(r) => (
                update_rows(rows, id, fields),
                Reply::One(project(updated_row(r, fields), returning)),
            ),
            None => (rows, Reply::NoRow),
        },
        StatementModel::Delete { table, id, returning } => match find(rows, id) {
            Some(r) => (remove_rows(rows, id), Reply::One(project(r, returning))),
            None => (rows, Reply::NoRow),
        },
    }
}

/// The rows of a listing reply, or none.
pub open spec fn listed(reply: Reply) -> Seq<Row> {
    match reply {
        Reply::Many(rows) => rows,
        _ => Seq::empty(),
    }
}

/// The row that `find` returns has the `id` that was asked for, and one is
/// found exactly when some row of the table has that `id`.
pub proof fn lemma_find(rows: Seq<Row>, id: int)
    ensures
        find(rows, id) matches Some(r) ==> row_id(r) == id && rows.contains(r),
        find(rows, id) is None <==> forall|i: int| 0 <= i < rows.len() ==> row_id(#[trigger] rows[i]) != id,
    decreases rows.len(),
{
    if rows.len() > 0 {
        lemma_find(rows.drop_first(), id);
        if row_id(rows[0]) != id {
            if find(rows, id) is Some {
                let r = find(rows, id).unwrap();
                let k = choose|k: int| 0 <= k < rows.drop_first().len() && rows.drop_first()[k] == r;
                assert(rows[k + 1] == r);
            }
            assert forall|i: int| 0 <= i < rows.len() && row_id(#[trigger] rows[i]) == id implies i > 0 && row_id(rows.drop_first()[i - 1]) == id by {}
        } else {
            assert(rows[0] == rows[0]);
            assert(rows.contains(rows[0]));
        }
    }
}

/// Updating keeps the length and every `id` of the table, and the updated
/// row is found under its `id`.
pub proof fn lemma_update_rows(rows: Seq<Row>, id: int, fields: Seq<(Column, ValueModel)>)
    ensures
        update_rows(rows, id, fields).len() == rows.len(),
        forall|i: int| 0 <= i < rows.len() ==> {
            let u = #[trigger] update_rows(rows, id, fields)[i];
            &&& row_id(u) == row_id(rows[i])
            &&& row_wf(rows[i]) ==> row_wf(u)
        },
        find(update_rows(rows, id, fields), id) == match find(rows, id) {
            Some(r) => Some(updated_row(r, fields)),
            None => None::<Row>,
        },
    decreases rows.len(),
{
    if rows.len() > 0 {
        lemma_update_rows(rows.drop_first(), id, fields);
        let u = update_rows(rows, id, fields);
        assert(u.drop_first() =~= update_rows(rows.drop_first(), id, fields));
        assert forall|i: int| 0 < i < rows.len() implies u[i] == update_rows(rows.drop_first(), id, fields)[i - 1] by {}
    }
}

/// Removing leaves only rows of the table, none of them with that `id`.
pub proof fn lemma_remove_rows(rows: Seq<Row>, id: int)
    ensures
        forall|i: int| 0 <= i < remove_rows(rows, id).len() ==> {
            let r = #[trigger] remove_rows(rows, id)[i];
            &&& rows.contains(r)
            &&& row_id(r) != id
        },
        table_wf(rows) ==> table_wf(remove_rows(rows, id)),
    decreases rows.len(),
{
    if rows.len() > 0 {
        let tail = rows.drop_first();
        lemma_remove_rows(tail, id);
        let rest = remove_rows(tail, id);
        assert forall|i: int| 0 <= i < rest.len() implies rows.contains(#[trigger] rest[i]) by {
            let k = choose|k: int| 0 <= k < tail.len() && tail[k] == rest[i];
            assert(rows[k + 1] == rest[i]);
        }
        if row_id(rows[0]) != id {
            let out = remove_rows(rows, id);
            assert(out =~= seq![rows[0]] + rest);
            assert(rows.contains(rows[0])) by {
                assert(rows[0] == rows[0]);
            }
            if table_wf(rows) {
                assert(table_wf(tail)) by {
                    assert forall|i: int, j: int| 0 <= i < j < tail.len() implies row_id(#[trigger] tail[i]) > row_id(#[trigger] tail[j]) by {
                        assert(tail[i] == rows[i + 1] && tail[j] == rows[j + 1]);
                    }
                }
                assert forall|j: int| 0 <= j < rest.len() implies row_id(#[trigger] rest[j]) < row_id(rows[0]) by {
                    let k = choose|k: int| 0 <= k < tail.len() && tail[k] == rest[j];
                    assert(rows[k + 1] == rest[j]);
                }
                assert forall|i: int, j: int| 0 <= i < j < out.len() implies row_id(#[trigger] out[i]) > row_id(#[trigger] out[j]) by {
                    assert(out[j] == rest[j - 1]);
                    if i > 0 {
                        assert(out[i] == rest[i - 1]);
                    }
                }
                assert forall|i: int| 0 <= i < out.len() implies row_wf(#[trigger] out[i]) by {
                    if i > 0 {
                        assert(out[i] == rest[i - 1]);
                    }
                }
            }
        } else {
            if table_wf(rows) {
                assert(table_wf(tail)) by {
                    assert forall|i: int, j: int| 0 <= i < j < tail.len() implies row_id(#[trigger] tail[i]) > row_id(#[trigger] tail[j]) by {
                        assert(tail[i] == rows[i + 1] && tail[j] == rows[j + 1]);
                    }
                }
            }
        }
    }
}

} // verus!
