use vstd::prelude::*;

use crate::model::field::{fields_view, push_optional_text, Column, Field, Value, ValueModel, optional_text};
use crate::model::quote::PLACEHOLDER_CREATOR_ID;
use crate::model::statement::{Statement, StatementModel};

verus! {

/// Whether a todo is still open.
#[derive(Clone, Copy, Debug, PartialEq, Eq, Structural)]
pub enum TodoStatus {
    Open,
    Close,
}

/// A todo as the store returns it.
#[derive(Debug, Clone)]
pub struct Todo {
    pub id: i64,
    /// The id of the user that created it.
    pub cid: i64,
    pub title: String,
    pub status: TodoStatus,
}

/// The fields of a todo that a caller wants to set; `None` leaves a field
/// as it is.
#[derive(Debug, Clone, Default)]
pub struct TodoPatch {
    pub title: Option<String>,
    pub status: Option<TodoStatus>,
}

/// The assignments that a todo patch asks for: the fields present in it,
/// in declaration order.
pub open spec fn todo_patch_fields(p: TodoPatch) -> Seq<(Column, ValueModel)> {
    optional_text(Column::Title, p.title) + match p.status {
        Some(s) => seq![(Column::Status, ValueModel::Status(s))],
        None => seq![],
    }
}

impl TodoPatch {
    /// The column assignments for the fields present in the patch.
    pub fn fields(&self) -> (r: Vec<Field>)
        ensures
            fields_view(r@) == todo_patch_fields(*self),
    {
        let mut fields: Vec<Field> = Vec::new();
        assert(fields_view(fields@) =~= Seq::empty());
        push_optional_text(&mut fields, Column::Title, &self.title);
        match self.status {
            Some(s) => {
                fields.push(Field { column: Column::Status, value: Value::Status(s) });
            },
            None => {},
        }
        assert(fields_view(fields@) =~= todo_patch_fields(*self));
        fields
    }
}

/// The name of the todo table.
pub open spec fn todo_table() -> Seq<char> {
    "todo"@
}

/// The columns handed back for a todo.
pub open spec fn todo_columns() -> Seq<Column> {
    seq![Column::Id, Column::Cid, Column::Title, Column::Status]
}

/// The insert that creates a todo from `p`.
pub open spec fn todo_create_model(p: TodoPatch) -> StatementModel {
    StatementModel::Insert {
        table: todo_table(),
        fields: todo_patch_fields(p).push((Column::Cid, ValueModel::Int(PLACEHOLDER_CREATOR_ID as int))),
        returning: todo_columns(),
    }
}

/// The listing of every todo, most recent first.
pub open spec fn todo_list_model() -> StatementModel {
    StatementModel::SelectAll { table: todo_table(), columns: todo_columns() }
}

/// Plans the statements that act on the todo table.
pub struct TodoMac;

impl TodoMac {
    /// The name of the todo table.
    pub fn table() -> (r: &'static str)
        ensures
            r@ == todo_table(),
    {
        "todo"
    }

    /// The columns handed back for a todo.
    pub fn columns() -> (r: Vec<Column>)
        ensures
            r@ == todo_columns(),
    {
        let r = vec![Column::Id, Column::Cid, Column::Title, Column::Status];
        assert(r@ =~= todo_columns());
        r
    }

    /// The insert that creates a todo from `data`.
    pub fn create(data: TodoPatch) -> (r: Statement)
        ensures
            r@ == todo_create_model(data),
    {
        let mut fields = data.fields();
        fields.push(Field { column: Column::Cid, value: Value::Int(PLACEHOLDER_CREATOR_ID) });
        assert(fields_view(fields@) =~= todo_patch_fields(data).push(
            (Column::Cid, ValueModel::Int(PLACEHOLDER_CREATOR_ID as int)),
        ));
        Statement::Insert { table: Self::table(), fields, returning: Self::columns() }
    }

    /// The listing of every todo, most recent first.
    pub fn list() -> (r: Statement)
        ensures
            r@ == todo_list_model(),
    {
        Statement::SelectAll { table: Self::table(), columns: Self::columns() }
    }
}

} // verus!
