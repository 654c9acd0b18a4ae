use vstd::prelude::*;

use crate::model::field::{fields_view, Column, Field, ValueModel};

verus! {

/// One parameterised statement against a single table. Every write hands
/// back the affected row, narrowed to its `returning` columns.
#[derive(Debug)]
pub enum Statement {
    /// Adds a row; the store assigns its `id`.
    Insert { table: &'static str, fields: Vec<Field>, returning: Vec<Column> },
    /// Reads the row with the given `id`.
    SelectOne { table: &'static str, columns: Vec<Column>, id: i64 },
    /// Reads every row, most recent `id` first.
    SelectAll { table: &'static str, columns: Vec<Column> },
    /// Changes the row with the given `id`.
    Update { table: &'static str, fields: Vec<Field>, id: i64, returning: Vec<Column> },
    /// Removes the row with the given `id`.
    Delete { table: &'static str, id: i64, returning: Vec<Column> },
}

/// The mathematical content of a [`Statement`].
pub enum StatementModel {
    Insert { table: Seq<char>, fields: Seq<(Column, ValueModel)>, returning: Seq<Column> },
    SelectOne { table: Seq<char>, columns: Seq<Column>, id: int },
    SelectAll { table: Seq<char>, columns: Seq<Column> },
    Update { table: Seq<char>, fields: Seq<(Column, ValueModel)>, id: int, returning: Seq<Column> },
    Delete { table: Seq<char>, id: int, returning: Seq<Column> },
}

impl View for Statement {
    type V = StatementModel;

    open spec fn view(&self) -> StatementModel {
        match self {
            Statement::Insert { table, fields, returning } => StatementModel::Insert {
                table: table@,
                fields: fields_view(fields@),
                returning: returning@,
            },
            Statement::SelectOne { table, columns, id } => StatementModel::SelectOne {
                table: table@,
                columns: columns@,
                id: *id as int,
            },
            Statement::SelectAll { table, columns } => StatementModel::SelectAll {
                table: table@,
                columns: columns@,
            },
            Statement::Update { table, fields, id, returning } => StatementModel::Update {
                table: table@,
                fields: fields_view(fields@),
                id: *id as int,
                returning: returning@,
            },
            Statement::Delete { table, id, returning } => StatementModel::Delete {
                table: table@,
                id: *id as int,
                returning: returning@,
            },
        }
    }
}

} // verus!
