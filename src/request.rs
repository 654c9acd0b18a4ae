//! One request against the quote table: the credential is resolved before
//! any statement is planned, and the store's answer is interpreted after.
use vstd::prelude::*;

use crate::model::error::{handle_fetch_one_result, Error2, StoreError};
use crate::model::quote::{
    quote_create_model, quote_delete_model, quote_get_model, quote_list_model, quote_update_model,
    QuoteMac, QuotePatch,
};
use crate::model::statement::{Statement, StatementModel};
use crate::security::{token_is_valid, token_user_id, utx_from_token, Error, UserCtx};
use crate::text::decimal_text;

verus! {

/// The operation that a request asks for.
#[derive(Debug)]
pub enum QuoteRequest {
    List,
    Get(i64),
    Create(QuotePatch),
    Update(i64, QuotePatch),
    Delete(i64),
}

/// The statement that carries out `req` for `utx`.
pub open spec fn quote_request_model(utx: UserCtx, req: QuoteRequest) -> StatementModel {
    match req {
        QuoteRequest::List => quote_list_model(),
        QuoteRequest::Get(id) => quote_get_model(id as int),
        QuoteRequest::Create(p) => quote_create_model(utx, p),
        QuoteRequest::Update(id, p) => quote_update_model(utx, id as int, p),
        QuoteRequest::Delete(id) => quote_delete_model(id as int),
    }
}

/// The row that a request addresses by id, if it addresses one.
pub open spec fn request_target(req: QuoteRequest) -> Option<i64> {
    match req {
        QuoteRequest::Get(id) => Some(id),
        QuoteRequest::Update(id, _) => Some(id),
        QuoteRequest::Delete(id) => Some(id),
        _ => None,
    }
}

impl QuoteRequest {
    /// The row that the request addresses by id, if it addresses one.
    pub fn target(&self) -> (r: Option<i64>)
        ensures
            r == request_target(*self),
    {
        match self {
            QuoteRequest::Get(id) => Some(*id),
            QuoteRequest::Update(id, _) => Some(*id),
            QuoteRequest::Delete(id) => Some(*id),
            _ => None,
        }
    }
}

/// Resolves the credential and, only when it is valid, plans the statement
/// for the request on behalf of the identity it resolves to.
pub fn plan_quote_request(token: &str, req: QuoteRequest) -> (r: Result<
    (UserCtx, Statement),
    Error,
>)
    ensures
        r.is_ok() <==> token_is_valid(token@),
        r matches Ok((utx, s)) ==> utx.user_id as int == token_user_id(token@) && s@
            == quote_request_model(utx, req),
        r matches Err(Error::InvalidToken(raw)) ==> raw@ == token@,
{
    let utx = match utx_from_token(token) {
        Ok(utx) => utx,
        Err(e) => return Err(e),
    };
    let s = match req {
        QuoteRequest::List => QuoteMac::list(&utx),
        QuoteRequest::Get(id) => QuoteMac::get(&utx, id),
        QuoteRequest::Create(p) => QuoteMac::create(&utx, p),
        QuoteRequest::Update(id, p) => QuoteMac::update(&utx, id, p),
        QuoteRequest::Delete(id) => QuoteMac::delete(&utx, id),
    };
    Ok((utx, s))
}

/// Interprets the store's answer to a request on `table`: for a request
/// addressed to the row `target`, a missing row is `EntityNotFound` naming
/// it; any other store error is a store failure.
pub fn finish<T>(result: Result<T, StoreError>, table: &'static str, target: Option<i64>) -> (r:
    Result<T, Error2>)
    ensures
        result matches Ok(v) ==> r == Ok::<T, Error2>(v),
        target matches Some(id) ==> (result matches Err(StoreError::RowNotFound) ==> (r matches Err(
            Error2::EntityNotFound(t, s),
        ) && t == table && s@ == decimal_text(id as int))),
        target is None ==> (result matches Err(StoreError::RowNotFound) ==> r matches Err(
            Error2::StoreFailure(_),
        )),
        result matches Err(StoreError::Other(m)) ==> r == Err::<T, Error2>(Error2::StoreFailure(m)),
{
    match target {
        Some(id) => handle_fetch_one_result(result, table, id),
        None => match result {
            Ok(v) => Ok(v),
            Err(e) => Err(Error2::from_store(e)),
        },
    }
}

} // verus!
