use vstd::prelude::*;

use crate::text::{integer_text_value, is_i64_text, parse_i64};

verus! {

/// The identity of the caller of one request.
pub struct UserCtx {
    pub user_id: i64,
}

/// Why a credential could not be resolved to an identity.
#[derive(Debug)]
pub enum Error {
    /// The credential text, as it was presented.
    InvalidToken(String),
}

/// Whether `token` is an acceptable credential: the decimal text of a
/// positive integer that fits in an `i64`.
pub open spec fn token_is_valid(token: Seq<char>) -> bool {
    is_i64_text(token) && integer_text_value(token).unwrap() > 0
}

/// The user id that a valid credential stands for.
pub open spec fn token_user_id(token: Seq<char>) -> int {
    integer_text_value(token).unwrap()
}

/// Resolves a bearer credential to the caller's identity.
pub fn utx_from_token(token: &str) -> (r: Result<UserCtx, Error>)
    ensures
        r.is_ok() <==> token_is_valid(token@),
        r matches Ok(utx) ==> utx.user_id as int == token_user_id(token@),
        r matches Err(Error::InvalidToken(raw)) ==> raw@ == token@,
{
    match parse_i64(token) {
        Some(user_id) => {
            if user_id > 0 {
                Ok(UserCtx { user_id })
            } else {
                Err(Error::InvalidToken(token.to_owned()))
            }
        },
        None => Err(Error::InvalidToken(token.to_owned())),
    }
}

} // verus!
