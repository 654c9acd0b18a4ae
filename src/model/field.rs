use vstd::prelude::*;

use crate::model::todo::TodoStatus;

verus! {

/// The closed set of columns that statements may name.
#[derive(Clone, Copy, Debug, PartialEq, Eq, Structural)]
pub enum Column {
    Id,
    Cid,
    Mid,
    Ctime,
    Quote,
    Author,
    Title,
    Status,
}

/// The column's name in the store's schema.
pub open spec fn column_name(c: Column) -> Seq<char> {
    match c {
        Column::Id => "id"@,
        Column::Cid => "cid"@,
        Column::Mid => "mid"@,
        Column::Ctime => "ctime"@,
        Column::Quote => "quote"@,
        Column::Author => "author"@,
        Column::Title => "title"@,
        Column::Status => "status"@,
    }
}

impl Column {
    /// The column's name in the store's schema.
    pub fn name(&self) -> (r: &'static str)
        ensures
            r@ == column_name(*self),
    {
        match self {
            Column::Id => "id",
            Column::Cid => "cid",
            Column::Mid => "mid",
            Column::Ctime => "ctime",
            Column::Quote => "quote",
            Column::Author => "author",
            Column::Title => "title",
            Column::Status => "status",
        }
    }
}

/// A value to be written into a column.
#[derive(Debug)]
pub enum Value {
    Int(i64),
    Text(String),
    Status(TodoStatus),
    /// The store's clock at the moment the statement runs.
    Now,
}

/// The mathematical content of a [`Value`].
pub enum ValueModel {
    Int(int),
    Text(Seq<char>),
    Status(TodoStatus),
    Now,
}

impl View for Value {
    type V = ValueModel;

    open spec fn view(&self) -> ValueModel {
        match self {
            Value::Int(i) => ValueModel::Int(*i as int),
            Value::Text(s) => ValueModel::Text(s@),
            Value::Status(s) => ValueModel::Status(*s),
            Value::Now => ValueModel::Now,
        }
    }
}

/// One column assignment of an insert or an update.
#[derive(Debug)]
pub struct Field {
    pub column: Column,
    pub value: Value,
}

impl View for Field {
    type V = (Column, ValueModel);

    open spec fn view(&self) -> (Column, ValueModel) {
        (self.column, self.value@)
    }
}

/// The assignments of a field list, in order.
pub open spec fn fields_view(fields: Seq<Field>) -> Seq<(Column, ValueModel)> {
    fields.map_values(|f: Field| f@)
}

/// The assignment of `s` to `column`, when `s` is present.
pub open spec fn optional_text(column: Column, s: Option<String>) -> Seq<(Column, ValueModel)> {
    match s {
        Some(t) => seq![(column, ValueModel::Text(t@))],
        None => seq![],
    }
}

/// Appends the assignment of a copy of `s` to `column` when `s` is present.
pub fn push_optional_text(fields: &mut Vec<Field>, column: Column, s: &Option<String>)
    ensures
        fields_view(final(fields)@) == fields_view(old(fields)@) + optional_text(column, *s),
{
    match s {
        Some(t) => {
            fields.push(Field { column, value: Value::Text(t.clone()) });
            assert(fields_view(final(fields)@) =~= fields_view(old(fields)@) + optional_text(column, *s));
        },
        None => {
            assert(fields_view(final(fields)@) =~= fields_view(old(fields)@) + optional_text(column, *s));
        },
    }
}

} // verus!
