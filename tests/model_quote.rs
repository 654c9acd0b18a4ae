use quote_service::model::{
    handle_fetch_one_result, Column, Error2, Quote, QuoteMac, QuotePatch, Statement, StoreError,
    Todo, TodoMac, TodoPatch, TodoStatus, Value,
};
use quote_service::outcome::{category, ErrorCategory, Failure};
use quote_service::request::{finish, plan_quote_request, QuoteRequest};
use quote_service::security::utx_from_token;

// A table held in memory that answers statements the way the store does:
// ids from a sequence, schema defaults, rows kept newest first.

#[derive(Clone, Debug, PartialEq)]
enum Cell {
    Int(i64),
    Text(String),
    Status(TodoStatus),
    Time,
}

type Row = Vec<(Column, Cell)>;

struct Table {
    rows: Vec<Row>,
    next_id: i64,
    defaults: Row,
}

fn cell(v: &Value) -> Cell {
    match v {
        Value::Int(i) => Cell::Int(*i),
        Value::Text(s) => Cell::Text(s.clone()),
        Value::Status(s) => Cell::Status(*s),
        Value::Now => Cell::Time,
    }
}

fn set(row: &mut Row, c: Column, v: Cell) {
    match row.iter_mut().find(|(k, _)| *k == c) {
        Some(slot) => slot.1 = v,
        None => row.push((c, v)),
    }
}

fn get_cell(row: &Row, c: Column) -> Option<Cell> {
    row.iter().find(|(k, _)| *k == c).map(|(_, v)| v.clone())
}

fn row_id(row: &Row) -> i64 {
    match get_cell(row, Column::Id) {
        Some(Cell::Int(i)) => i,
        _ => panic!("row without id"),
    }
}

fn project(row: &Row, cols: &[Column]) -> Row {
    cols.iter().filter_map(|c| get_cell(row, *c).map(|v| (*c, v))).collect()
}

fn exec(t: &mut Table, s: &Statement) -> Result<Vec<Row>, StoreError> {
    match s {
        Statement::Insert { fields, returning, .. } => {
            let mut row = t.defaults.clone();
            for f in fields {
                set(&mut row, f.column, cell(&f.value));
            }
            set(&mut row, Column::Id, Cell::Int(t.next_id));
            t.next_id += 1;
            t.rows.insert(0, row.clone());
            Ok(vec![project(&row, returning)])
        }
        Statement::SelectOne { columns, id, .. } => match t.rows.iter().find(|r| row_id(r) == *id) {
            Some(r) => Ok(vec![project(r, columns)]),
            None => Err(StoreError::RowNotFound),
        },
        Statement::SelectAll { columns, .. } => Ok(t.rows.iter().map(|r| project(r, columns)).collect()),
        Statement::Update { fields, id, returning, .. } => {
            match t.rows.iter_mut().find(|r| row_id(r) == *id) {
                Some(r) => {
                    for f in fields {
                        set(r, f.column, cell(&f.value));
                    }
                    Ok(vec![project(r, returning)])
                }
                None => Err(StoreError::RowNotFound),
            }
        }
        Statement::Delete { id, returning, .. } => match t.rows.iter().position(|r| row_id(r) == *id) {
            Some(i) => {
                let r = t.rows.remove(i);
                Ok(vec![project(&r, returning)])
            }
            None => Err(StoreError::RowNotFound),
        },
    }
}

fn text(row: &Row, c: Column) -> String {
    match get_cell(row, c) {
        Some(Cell::Text(s)) => s,
        other => panic!("no text in {:?}: {:?}", c, other),
    }
}

fn int_cell(row: &Row, c: Column) -> i64 {
    match get_cell(row, c) {
        Some(Cell::Int(i)) => i,
        other => panic!("no integer in {:?}: {:?}", c, other),
    }
}

fn to_quote(row: &Row) -> Quote {
    Quote { id: int_cell(row, Column::Id), cid: int_cell(row, Column::Cid), quote: text(row, Column::Quote), author: text(row, Column::Author) }
}

fn to_todo(row: &Row) -> Todo {
    let status = match get_cell(row, Column::Status) {
        Some(Cell::Status(s)) => s,
        other => panic!("no status: {:?}", other),
    };
    Todo { id: int_cell(row, Column::Id), cid: int_cell(row, Column::Cid), title: text(row, Column::Title), status }
}

fn quote_row(id: i64, quote: &str, author: &str) -> Row {
    vec![
        (Column::Id, Cell::Int(id)),
        (Column::Cid, Cell::Int(123)),
        (Column::Quote, Cell::Text(quote.to_string())),
        (Column::Author, Cell::Text(author.to_string())),
    ]
}

fn seeded_quotes() -> Table {
    Table {
        rows: vec![quote_row(101, "test quote 101", "unknown"), quote_row(100, "test quote 100", "test author")],
        next_id: 1000,
        defaults: vec![(Column::Author, Cell::Text("unknown".to_string()))],
    }
}

fn seeded_todos() -> Table {
    let todo = |id: i64, title: &str| -> Row {
        vec![
            (Column::Id, Cell::Int(id)),
            (Column::Cid, Cell::Int(123)),
            (Column::Title, Cell::Text(title.to_string())),
            (Column::Status, Cell::Status(TodoStatus::Open)),
        ]
    };
    Table {
        rows: vec![todo(101, "todo 101"), todo(100, "todo 100")],
        next_id: 1000,
        defaults: vec![(Column::Status, Cell::Status(TodoStatus::Open))],
    }
}

fn one_quote(t: &mut Table, s: &Statement, id: i64) -> Result<Quote, Error2> {
    let r = exec(t, s).map(|rows| to_quote(&rows[0]));
    handle_fetch_one_result(r, QuoteMac::table(), id)
}

fn all_quotes(t: &mut Table, s: &Statement) -> Vec<Quote> {
    exec(t, s).unwrap().iter().map(to_quote).collect()
}

// Runs one request the way the service does, answering with a status and
// the quotes it returned.
fn serve(t: &mut Table, token: &str, req: QuoteRequest) -> (u16, Vec<Quote>) {
    let target = req.target();
    let (_, s) = match plan_quote_request(token, req) {
        Ok(planned) => planned,
        Err(e) => return (category(&Failure::Auth(e)).status_code(), vec![]),
    };
    let r = exec(t, &s).map(|rows| rows.iter().map(to_quote).collect::<Vec<_>>());
    match finish(r, QuoteMac::table(), target) {
        Ok(quotes) => (200, quotes),
        Err(e) => (category(&Failure::Model(e)).status_code(), vec![]),
    }
}

#[test]
fn model_quote_create() {
    let mut db = seeded_quotes();
    let utx = utx_from_token("123").unwrap();
    let data_fx = QuotePatch { quote: Some("test - model_quote_create 1".to_string()), ..Default::default() };

    let s = QuoteMac::create(&utx, data_fx.clone());
    let quote_created = to_quote(&exec(&mut db, &s).unwrap()[0]);

    assert!(quote_created.id >= 1000, "Id should be >= 1000");
    assert_eq!(data_fx.quote.unwrap(), quote_created.quote);
    assert_eq!("unknown", quote_created.author);
}

#[test]
fn model_quote_get_ok() {
    let mut db = seeded_quotes();
    let utx = utx_from_token("123").unwrap();

    let quote = one_quote(&mut db, &QuoteMac::get(&utx, 100), 100).unwrap();

    assert_eq!(100, quote.id);
    assert_eq!("test quote 100", quote.quote);
    assert_eq!("test author", quote.author);
}

#[test]
fn model_quote_get_wong_id() {
    let mut db = seeded_quotes();
    let utx = utx_from_token("123").unwrap();

    let result = one_quote(&mut db, &QuoteMac::get(&utx, 999), 999);

    match result {
        Ok(_) => assert!(false, "Should not succeed"),
        Err(Error2::EntityNotFound(typ, id)) => {
            assert_eq!("quote", typ);
            assert_eq!(999.to_string(), id);
        }
        other_error => assert!(false, "Wrong Error {:?} ", other_error),
    }
}

#[test]
fn model_quote_update_ok() {
    let mut db = seeded_quotes();
    let utx = utx_from_token("123").unwrap();
    let data_fx = QuotePatch { quote: Some("test - model_quote_update_ok 1".to_string()), ..Default::default() };
    let quote_fx = to_quote(&exec(&mut db, &QuoteMac::create(&utx, data_fx.clone())).unwrap()[0]);
    let update_data_fx = QuotePatch { quote: Some("test - model_quote_update_ok 2".to_string()), ..Default::default() };

    let s = QuoteMac::update(&utx, quote_fx.id, update_data_fx.clone());
    let quote_updated = one_quote(&mut db, &s, quote_fx.id).unwrap();

    let quotes = all_quotes(&mut db, &QuoteMac::list(&utx));
    assert_eq!(3, quotes.len());
    assert_eq!(quote_fx.id, quote_updated.id);
    assert_eq!(update_data_fx.quote.unwrap(), quote_updated.quote);
}

#[test]
fn model_quote_list() {
    let mut db = seeded_quotes();
    let utx = utx_from_token("123").unwrap();

    let quotes = all_quotes(&mut db, &QuoteMac::list(&utx));

    assert_eq!(2, quotes.len());
    assert_eq!(101, quotes[0].id);
    assert_eq!(123, quotes[0].cid);
    assert_eq!("test quote 101", quotes[0].quote);
    assert_eq!(100, quotes[1].id);
    assert_eq!(123, quotes[1].cid);
    assert_eq!("test quote 100", quotes[1].quote);
}

#[test]
fn model_quote_delete_simple() {
    let mut db = seeded_quotes();
    let utx = utx_from_token("123").unwrap();

    let quote = one_quote(&mut db, &QuoteMac::delete(&utx, 100), 100).unwrap();

    assert_eq!(100, quote.id);
    assert_eq!("test quote 100", quote.quote);

    let quotes = all_quotes(&mut db, &QuoteMac::list(&utx));
    assert_eq!(1, quotes.len());
}

#[test]
fn model_todo_create() {
    let mut db = seeded_todos();
    let data_fx = TodoPatch { title: Some("test - model_todo_create 1".to_string()), ..Default::default() };

    let todo_created = to_todo(&exec(&mut db, &TodoMac::create(data_fx.clone())).unwrap()[0]);

    assert!(todo_created.id >= 1000, "Id should be >= 1000");
    assert_eq!(data_fx.title.unwrap(), todo_created.title);
    assert_eq!(TodoStatus::Open, todo_created.status);
}

#[test]
fn web_quote_list() {
    let mut db = seeded_quotes();

    let (status, quotes) = serve(&mut db, "123", QuoteRequest::List);

    assert_eq!(200, status, "http status");
    assert_eq!(2, quotes.len(), "number of quotes");
    assert_eq!(101, quotes[0].id);
    assert_eq!("test quote 101", quotes[0].quote);
    assert_eq!("unknown", quotes[0].author);
}

#[test]
fn web_quote_get_ok() {
    let mut db = seeded_quotes();

    let (status, quotes) = serve(&mut db, "123", QuoteRequest::Get(100));

    assert_eq!(200, status, "http status");
    let quote = &quotes[0];
    assert_eq!(100, quote.id);
    assert_eq!("test quote 100", quote.quote);
    assert_eq!("test author", quote.author);
}

#[test]
fn web_quote_create_ok() {
    let mut db = seeded_quotes();
    const QUOTE: &str = "test - web_quote_create_ok";
    let body = QuotePatch { quote: Some(QUOTE.to_string()), author: None };

    let (status, quotes) = serve(&mut db, "123", QuoteRequest::Create(body));

    assert_eq!(200, status, "http status");
    let quote = &quotes[0];
    assert!(quote.id >= 1000, "quote.id should be >= to 1000");
    assert_eq!(QUOTE, quote.quote);
    assert_eq!("unknown", quote.author);
}

#[test]
fn web_quote_update_ok() {
    let mut db = seeded_quotes();
    const QUOTE: &str = "test - quote 100 updated";
    let body = QuotePatch { quote: Some(QUOTE.to_string()), author: Some("test - author updated".to_string()) };

    let (status, quotes) = serve(&mut db, "123", QuoteRequest::Update(100, body));

    assert_eq!(200, status, "http status");
    let quote = &quotes[0];
    assert_eq!(100, quote.id, "quote.id");
    assert_eq!(QUOTE, quote.quote);
    assert_eq!("test - author updated", quote.author);
}

#[test]
fn web_quote_delete_ok() {
    let mut db = seeded_quotes();

    let (status, quotes) = serve(&mut db, "123", QuoteRequest::Delete(100));

    assert_eq!(200, status, "http status");
    let quote = &quotes[0];
    assert_eq!(100, quote.id);
    assert_eq!("test quote 100", quote.quote);
    assert_eq!("test author", quote.author);

    let utx = utx_from_token("123").unwrap();
    let quotes = all_quotes(&mut db, &QuoteMac::list(&utx));
    assert_eq!(1, quotes.len(), "quotes length");
    assert_eq!(101, quotes[0].id, "quote remaining should be 101");
}

#[test]
fn end_to_end_fixture_scenario() {
    let mut db = seeded_quotes();

    let (status, quotes) = serve(&mut db, "123", QuoteRequest::List);
    assert_eq!(200, status);
    assert_eq!(vec![101, 100], quotes.iter().map(|q| q.id).collect::<Vec<_>>());

    let (status, quotes) = serve(&mut db, "123", QuoteRequest::Get(999));
    assert_eq!(404, status);
    assert!(quotes.is_empty());

    let x = QuotePatch { quote: Some("x".to_string()), author: None };
    let (status, quotes) = serve(&mut db, "123", QuoteRequest::Create(x));
    assert_eq!(200, status);
    assert!(quotes[0].id >= 1000);
    assert_eq!("x", quotes[0].quote);
    assert_eq!("unknown", quotes[0].author);
}

#[test]
fn bad_credential_never_reaches_the_store() {
    let mut db = seeded_quotes();
    let (status, quotes) = serve(&mut db, "abc", QuoteRequest::Delete(100));
    assert_eq!(401, status);
    assert!(quotes.is_empty());
    assert_eq!(2, db.rows.len());
}

#[test]
fn create_then_get_returns_patch_fields() {
    let mut db = seeded_quotes();
    let utx = utx_from_token("7").unwrap();
    let p = QuotePatch { quote: Some("q".to_string()), author: Some("a".to_string()) };
    let created = one_quote(&mut db, &QuoteMac::create(&utx, p), 0).unwrap();
    let got = one_quote(&mut db, &QuoteMac::get(&utx, created.id), created.id).unwrap();
    assert_eq!(created.id, got.id);
    assert_eq!("q", got.quote);
    assert_eq!("a", got.author);
    assert_eq!(123, got.cid);
}

#[test]
fn update_keeps_absent_fields_and_sets_modifier() {
    let mut db = seeded_quotes();
    let utx = utx_from_token("55").unwrap();
    let p = QuotePatch { quote: None, author: Some("new author".to_string()) };
    let updated = one_quote(&mut db, &QuoteMac::update(&utx, 100, p), 100).unwrap();
    assert_eq!("test quote 100", updated.quote);
    assert_eq!("new author", updated.author);
    let stored = db.rows.iter().find(|r| row_id(r) == 100).unwrap();
    assert_eq!(Some(Cell::Int(55)), get_cell(stored, Column::Mid));
    assert_eq!(Some(Cell::Time), get_cell(stored, Column::Ctime));

    let empty = QuotePatch::default();
    one_quote(&mut db, &QuoteMac::update(&utx, 101, empty), 101).unwrap();
    let stored = db.rows.iter().find(|r| row_id(r) == 101).unwrap();
    assert_eq!(Some(Cell::Int(55)), get_cell(stored, Column::Mid));
    assert_eq!("test quote 101", text(stored, Column::Quote));
}

#[test]
fn missing_id_is_not_found_for_every_single_row_operation() {
    let mut db = seeded_quotes();
    let utx = utx_from_token("123").unwrap();
    let statements = vec![
        QuoteMac::get(&utx, 4242),
        QuoteMac::update(&utx, 4242, QuotePatch::default()),
        QuoteMac::delete(&utx, 4242),
    ];
    for s in &statements {
        match one_quote(&mut db, s, 4242) {
            Err(Error2::EntityNotFound(typ, id)) => {
                assert_eq!("quote", typ);
                assert_eq!("4242", id);
            }
            other => panic!("unexpected {:?}", other),
        }
    }
    assert_eq!(2, db.rows.len());
}

#[test]
fn delete_removes_row_from_list_and_get() {
    let mut db = seeded_quotes();
    let utx = utx_from_token("123").unwrap();
    let before = one_quote(&mut db, &QuoteMac::get(&utx, 101), 101).unwrap();
    let deleted = one_quote(&mut db, &QuoteMac::delete(&utx, 101), 101).unwrap();
    assert_eq!(before.quote, deleted.quote);
    assert_eq!(before.author, deleted.author);
    let ids: Vec<i64> = all_quotes(&mut db, &QuoteMac::list(&utx)).iter().map(|q| q.id).collect();
    assert_eq!(vec![100], ids);
    assert!(matches!(one_quote(&mut db, &QuoteMac::get(&utx, 101), 101), Err(Error2::EntityNotFound(_, _))));
}

#[test]
fn list_is_strictly_descending_after_creates() {
    let mut db = seeded_quotes();
    let utx = utx_from_token("123").unwrap();
    for i in 0..3 {
        let p = QuotePatch { quote: Some(format!("q{}", i)), author: None };
        exec(&mut db, &QuoteMac::create(&utx, p)).unwrap();
    }
    let ids: Vec<i64> = all_quotes(&mut db, &QuoteMac::list(&utx)).iter().map(|q| q.id).collect();
    assert_eq!(vec![1002, 1001, 1000, 101, 100], ids);
    assert!(ids.windows(2).all(|w| w[0] > w[1]));
}
