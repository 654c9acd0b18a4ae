use vstd::prelude::*;

use crate::model::field::{
    fields_view, optional_text, push_optional_text, Column, Field, Value, ValueModel,
};
use crate::model::statement::{Statement, StatementModel};
use crate::security::UserCtx;

verus! {

/// A quote as the store returns it.
#[derive(Debug, Clone)]
pub struct Quote {
    pub id: i64,
    /// The id of the user that created it.
    pub cid: i64,
    pub quote: String,
    pub author: String,
}

/// The fields of a quote that a caller wants to set; `None` leaves a field
/// as it is.
#[derive(Debug, Clone, Default)]
pub struct QuotePatch {
    pub quote: Option<String>,
    pub author: Option<String>,
}

/// Whether a quote is open.
#[derive(Clone, Copy, Debug, PartialEq, Eq, Structural)]
pub enum QuoteStatus {
    Open,
    Close,
}

/// The assignments that a quote patch asks for: the fields present in it,
/// in declaration order.
pub open spec fn quote_patch_fields(p: QuotePatch) -> Seq<(Column, ValueModel)> {
    optional_text(Column::Quote, p.quote) + optional_text(Column::Author, p.author)
}

impl QuotePatch {
    /// The column assignments for the fields present in the patch.
    pub fn fields(&self) -> (r: Vec<Field>)
        ensures
            fields_view(r@) == quote_patch_fields(*self),
    {
        let mut fields: Vec<Field> = Vec::new();
        assert(fields_view(fields@) =~= Seq::empty());
        push_optional_text(&mut fields, Column::Quote, &self.quote);
        push_optional_text(&mut fields, Column::Author, &self.author);
        fields
    }
}

/// The user recorded as creator of every new quote or todo.
pub const PLACEHOLDER_CREATOR_ID: i64 = 123;

/// The creator that the current policy records for a row created by `utx`.
pub open spec fn creator_of(utx: UserCtx) -> int {
    PLACEHOLDER_CREATOR_ID as int
}

/// The name of the quote table.
pub open spec fn quote_table() -> Seq<char> {
    "quote"@
}

/// The columns handed back for a quote.
pub open spec fn quote_columns() -> Seq<Column> {
    seq![Column::Id, Column::Cid, Column::Quote, Column::Author]
}

/// The insert that creates a quote from `p` on behalf of `utx`.
pub open spec fn quote_create_model(utx: UserCtx, p: QuotePatch) -> StatementModel {
    StatementModel::Insert {
        table: quote_table(),
        fields: quote_patch_fields(p).push((Column::Cid, ValueModel::Int(creator_of(utx)))),
        returning: quote_columns(),
    }
}

/// The read of the quote with the given `id`.
pub open spec fn quote_get_model(id: int) -> StatementModel {
    StatementModel::SelectOne { table: quote_table(), columns: quote_columns(), id }
}

/// The update of the quote `id` by `utx` with `p`: the patch's fields, then
/// the modifier and the modification time.
pub open spec fn quote_update_model(utx: UserCtx, id: int, p: QuotePatch) -> StatementModel {
    StatementModel::Update {
        table: quote_table(),
        fields: quote_patch_fields(p).push((Column::Mid, ValueModel::Int(utx.user_id as int))).push(
            (Column::Ctime, ValueModel::Now),
        ),
        id,
        returning: quote_columns(),
    }
}

/// The listing of every quote, most recent first.
pub open spec fn quote_list_model() -> StatementModel {
    StatementModel::SelectAll { table: quote_table(), columns: quote_columns() }
}

/// The removal of the quote `id`.
pub open spec fn quote_delete_model(id: int) -> StatementModel {
    StatementModel::Delete { table: quote_table(), id, returning: quote_columns() }
}

/// Plans the statements that act on the quote table.
pub struct QuoteMac;

impl QuoteMac {
    /// The name of the quote table.
    pub fn table() -> (r: &'static str)
        ensures
            r@ == quote_table(),
    {
        "quote"
    }

    /// The columns handed back for a quote.
    pub fn columns() -> (r: Vec<Column>)
        ensures
            r@ == quote_columns(),
    {
        let r = vec![Column::Id, Column::Cid, Column::Quote, Column::Author];
        assert(r@ =~= quote_columns());
        r
    }

    /// The insert that creates a quote from `data`.
    pub fn create(utx: &UserCtx, data: QuotePatch) -> (r: Statement)
        ensures
            r@ == quote_create_model(*utx, data),
    {
        let mut fields = data.fields();
        fields.push(Field { column: Column::Cid, value: Value::Int(PLACEHOLDER_CREATOR_ID) });
        assert(fields_view(fields@) =~= quote_patch_fields(data).push(
            (Column::Cid, ValueModel::Int(creator_of(*utx))),
        ));
        Statement::Insert { table: Self::table(), fields, returning: Self::columns() }
    }

    /// The read of the quote with the given `id`.
    pub fn get(_utx: &UserCtx, id: i64) -> (r: Statement)
        ensures
            r@ == quote_get_model(id as int),
    {
        Statement::SelectOne { table: Self::table(), columns: Self::columns(), id }
    }

    /// The update of the quote `id` with `data`; the modifier and the
    /// modification time are set even when `data` is empty.
    pub fn update(utx: &UserCtx, id: i64, data: QuotePatch) -> (r: Statement)
        ensures
            r@ == quote_update_model(*utx, id as int, data),
    {
        let mut fields = data.fields();
        fields.push(Field { column: Column::Mid, value: Value::Int(utx.user_id) });
        fields.push(Field { column: Column::Ctime, value: Value::Now });
        assert(fields_view(fields@) =~= quote_patch_fields(data).push(
            (Column::Mid, ValueModel::Int(utx.user_id as int)),
        ).push((Column::Ctime, ValueModel::Now)));
        Statement::Update { table: Self::table(), fields, id, returning: Self::columns() }
    }

    /// The listing of every quote, most recent first.
    pub fn list(_utx: &UserCtx) -> (r: Statement)
        ensures
            r@ == quote_list_model(),
    {
        Statement::SelectAll { table: Self::table(), columns: Self::columns() }
    }

    /// The removal of the quote `id`, handing back its last state.
    pub fn delete(_utx: &UserCtx, id: i64) -> (r: Statement)
        ensures
            r@ == quote_delete_model(id as int),
    {
        Statement::Delete { table: Self::table(), id, returning: Self::columns() }
    }
}

} // verus!
