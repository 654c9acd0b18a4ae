//! What a sequence of quote statements does to the quote table.
use vstd::prelude::*;

use crate::model::field::{Column, ValueModel};
use crate::model::quote::{
    creator_of, quote_columns, quote_create_model, quote_delete_model, quote_get_model,
    quote_list_model, quote_patch_fields, quote_update_model, QuotePatch,
};
use crate::model::store::{
    fields_map, find, fresh_id, lemma_find, lemma_remove_rows, lemma_update_rows, listed, project,
    row_id, row_wf, run, table_wf, Reply, Row,
};
use crate::security::UserCtx;

verus! {

/// The columns that a quote patch sets, and to what.
proof fn lemma_quote_patch_map(p: QuotePatch)
    ensures
        ({
            let m = fields_map(quote_patch_fields(p));
            &&& m.contains_key(Column::Quote) <==> p.quote is Some
            &&& p.quote matches Some(q) ==> m[Column::Quote] == ValueModel::Text(q@)
            &&& m.contains_key(Column::Author) <==> p.author is Some
            &&& p.author matches Some(a) ==> m[Column::Author] == ValueModel::Text(a@)
            &&& forall|c: Column| #[trigger]
                m.contains_key(c) ==> c == Column::Quote || c == Column::Author
        }),
{
    reveal_with_fuel(fields_map, 3);
    let f = quote_patch_fields(p);
    if p.quote is Some && p.author is Some {
        assert(f.drop_last() =~= seq![f[0]]);
        assert(f.drop_last().drop_last() =~= Seq::<(Column, ValueModel)>::empty());
    } else if p.quote is Some || p.author is Some {
        assert(f.drop_last() =~= Seq::<(Column, ValueModel)>::empty());
    } else {
        assert(f =~= Seq::<(Column, ValueModel)>::empty());
    }
}

/// The quote columns hold `id` and `cid`.
proof fn lemma_quote_columns()
    ensures
        quote_columns().to_set().contains(Column::Id),
        quote_columns().to_set().contains(Column::Cid),
        quote_columns().to_set().contains(Column::Quote),
        quote_columns().to_set().contains(Column::Author),
{
    assert(quote_columns()[0] == Column::Id);
    assert(quote_columns()[1] == Column::Cid);
    assert(quote_columns()[2] == Column::Quote);
    assert(quote_columns()[3] == Column::Author);
}

/// Creating a quote and then reading it by the `id` that the store
/// assigned hands back the same row: it carries that `id`, the creator
/// that the policy derives, every field that the patch supplies, and the
/// schema's default author where the patch gives none.
pub proof fn create_then_get(rows: Seq<Row>, utx: UserCtx, p: QuotePatch, new_id: int)
    requires
        table_wf(rows),
        fresh_id(rows, new_id),
    ensures
        ({
            let (after, created) = run(rows, quote_create_model(utx, p), new_id);
            let (_, got) = run(after, quote_get_model(new_id), new_id);
            &&& table_wf(after)
            &&& got == created
            &&& created matches Reply::One(r) && {
                &&& r.contains_key(Column::Id) && r[Column::Id] == ValueModel::Int(new_id)
                &&& r.contains_key(Column::Cid) && r[Column::Cid] == ValueModel::Int(creator_of(utx))
                &&& p.quote matches Some(q) ==> r.contains_key(Column::Quote) && r[Column::Quote]
                    == ValueModel::Text(q@)
                &&& r.contains_key(Column::Author)
                &&& p.author matches Some(a) ==> r[Column::Author] == ValueModel::Text(a@)
                &&& p.author is None ==> r[Column::Author] == ValueModel::Text("unknown"@)
            }
        }),
{
    lemma_quote_patch_map(p);
    lemma_quote_columns();
    let s = quote_create_model(utx, p);
    let fields = quote_patch_fields(p).push((Column::Cid, ValueModel::Int(creator_of(utx))));
    assert(fields.drop_last() =~= quote_patch_fields(p));
    let (after, created) = run(rows, s, new_id);
    let row = after[0];
    assert(row_id(row) == new_id);
    assert(find(after, new_id) == Some(row));
    assert forall|i: int, j: int| 0 <= i < j < after.len() implies row_id(#[trigger] after[i])
        > row_id(#[trigger] after[j]) by {
        assert(after[j] == rows[j - 1]);
        if i > 0 {
            assert(after[i] == rows[i - 1]);
        }
    }
    assert forall|i: int| 0 <= i < after.len() implies row_wf(#[trigger] after[i]) by {
        if i > 0 {
            assert(after[i] == rows[i - 1]);
        }
    }
}

/// Updating an existing quote and then reading it reflects every field of
/// the patch, leaves the other fields as they were, and always records the
/// modifier and the modification time, also for an empty patch.
pub proof fn update_then_get(rows: Seq<Row>, utx: UserCtx, id: int, p: QuotePatch)
    requires
        table_wf(rows),
        find(rows, id) is Some,
    ensures
        ({
            let old_row = find(rows, id).unwrap();
            let (after, updated) = run(rows, quote_update_model(utx, id, p), 0);
            let (_, got) = run(after, quote_get_model(id), 0);
            &&& table_wf(after)
            &&& got == updated
            &&& find(after, id) matches Some(n) && {
                &&& updated == Reply::One(project(n, quote_columns()))
                &&& n.contains_key(Column::Mid) && n[Column::Mid] == ValueModel::Int(
                    utx.user_id as int,
                )
                &&& n.contains_key(Column::Ctime) && n[Column::Ctime] == ValueModel::Now
                &&& n[Column::Id] == old_row[Column::Id]
                &&& n.contains_key(Column::Cid) == old_row.contains_key(Column::Cid)
                &&& old_row.contains_key(Column::Cid) ==> n[Column::Cid] == old_row[Column::Cid]
                &&& p.quote matches Some(q) ==> n.contains_key(Column::Quote) && n[Column::Quote]
                    == ValueModel::Text(q@)
                &&& p.quote is None ==> n.contains_key(Column::Quote) == old_row.contains_key(
                    Column::Quote,
                ) && (old_row.contains_key(Column::Quote) ==> n[Column::Quote]
                    == old_row[Column::Quote])
                &&& p.author matches Some(a) ==> n.contains_key(Column::Author)
                    && n[Column::Author] == ValueModel::Text(a@)
                &&& p.author is None ==> n.contains_key(Column::Author) == old_row.contains_key(
                    Column::Author,
                ) && (old_row.contains_key(Column::Author) ==> n[Column::Author]
                    == old_row[Column::Author])
            }
        }),
{
    lemma_quote_patch_map(p);
    let pf = quote_patch_fields(p);
    let with_mid = pf.push((Column::Mid, ValueModel::Int(utx.user_id as int)));
    let fields = with_mid.push((Column::Ctime, ValueModel::Now));
    assert(fields.drop_last() =~= with_mid);
    assert(with_mid.drop_last() =~= pf);
    assert(fields_map(with_mid) == fields_map(pf).insert(
        Column::Mid,
        ValueModel::Int(utx.user_id as int),
    ));
    assert(fields_map(fields) == fields_map(pf).insert(
        Column::Mid,
        ValueModel::Int(utx.user_id as int),
    ).insert(Column::Ctime, ValueModel::Now));
    lemma_update_rows(rows, id, fields);
    lemma_find(rows, id);
    let old_row = find(rows, id).unwrap();
    let k = choose|k: int| 0 <= k < rows.len() && rows[k] == old_row;
    assert(row_wf(rows[k]));
    let after = run(rows, quote_update_model(utx, id, p), 0).0;
    assert forall|i: int, j: int| 0 <= i < j < after.len() implies row_id(#[trigger] after[i])
        > row_id(#[trigger] after[j]) by {
        assert(row_id(after[i]) == row_id(rows[i]));
        assert(row_id(after[j]) == row_id(rows[j]));
    }
    assert forall|i: int| 0 <= i < after.len() implies row_wf(#[trigger] after[i]) by {
        assert(row_wf(rows[i]));
    }
}

/// Reading, updating or deleting an `id` that no quote has changes nothing
/// and finds no row.
pub proof fn missing_id_finds_nothing(rows: Seq<Row>, utx: UserCtx, id: int, p: QuotePatch)
    requires
        forall|i: int| 0 <= i < rows.len() ==> row_id(#[trigger] rows[i]) != id,
    ensures
        run(rows, quote_get_model(id), 0) == (rows, Reply::NoRow),
        run(rows, quote_update_model(utx, id, p), 0) == (rows, Reply::NoRow),
        run(rows, quote_delete_model(id), 0) == (rows, Reply::NoRow),
{
    lemma_find(rows, id);
}

/// Listing hands back every quote, in strictly descending `id` order.
pub proof fn list_is_newest_first(rows: Seq<Row>)
    requires
        table_wf(rows),
    ensures
        ({
            let listed_rows = listed(run(rows, quote_list_model(), 0).1);
            &&& listed_rows.len() == rows.len()
            &&& forall|i: int| 0 <= i < rows.len() ==> row_id(#[trigger] listed_rows[i]) == row_id(rows[i])
            &&& forall|i: int, j: int|
                0 <= i < j < listed_rows.len() ==> row_id(#[trigger] listed_rows[i]) > row_id(
                    #[trigger] listed_rows[j],
                )
        }),
{
    lemma_quote_columns();
    let listed_rows = listed(run(rows, quote_list_model(), 0).1);
    assert forall|i: int| 0 <= i < rows.len() implies row_id(#[trigger] listed_rows[i]) == row_id(rows[i]) by {
        assert(row_wf(rows[i]));
        assert(listed_rows[i] == project(rows[i], quote_columns()));
    }
    assert forall|i: int, j: int| 0 <= i < j < listed_rows.len() implies row_id(#[trigger] listed_rows[i])
        > row_id(#[trigger] listed_rows[j]) by {
        assert(row_id(listed_rows[i]) == row_id(rows[i]));
        assert(row_id(listed_rows[j]) == row_id(rows[j]));
    }
}

/// After a quote is deleted, reading it finds no row and no later listing
/// holds it; the table stays in descending `id` order.
pub proof fn delete_removes(rows: Seq<Row>, id: int)
    requires
        table_wf(rows),
    ensures
        ({
            let after = run(rows, quote_delete_model(id), 0).0;
            &&& table_wf(after)
            &&& run(after, quote_get_model(id), 0).1 == Reply::NoRow
            &&& forall|i: int|
                0 <= i < listed(run(after, quote_list_model(), 0).1).len() ==> row_id(
                    #[trigger] listed(run(after, quote_list_model(), 0).1)[i],
                ) != id
        }),
{
    lemma_remove_rows(rows, id);
    lemma_find(rows, id);
    let after = run(rows, quote_delete_model(id), 0).0;
    assert forall|i: int| 0 <= i < after.len() implies row_id(#[trigger] after[i]) != id by {
        if find(rows, id) is Some {
        } else {
            assert(after == rows);
        }
    }
    lemma_find(after, id);
    list_is_newest_first(after);
}

/// Deleting an existing quote hands back the row as it was just before,
/// the same row that a read would have returned.
pub proof fn delete_returns_prior(rows: Seq<Row>, id: int)
    requires
        find(rows, id) is Some,
    ensures
        run(rows, quote_delete_model(id), 0).1 == Reply::One(
            project(find(rows, id).unwrap(), quote_columns()),
        ),
        run(rows, quote_delete_model(id), 0).1 == run(rows, quote_get_model(id), 0).1,
{
}

} // verus!
