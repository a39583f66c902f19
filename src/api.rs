//! Builders for the three operations. Each gathers its parameters, then
//! checks its preconditions and yields the request body, before anything is
//! sent; what comes back is turned into the caller's result here as well.

use vstd::prelude::*;

use crate::error::{opt_text, ApiError, Error};

pub mod add;
pub mod modify;
pub mod retrieve;

verus! {

/// The access token a call uses: the one given to its builder, else the one
/// the client keeps.
pub open spec fn chosen_token(own: Option<Seq<char>>, stored: Option<Seq<char>>) -> Option<
    Seq<char>,
> {
    match own {
        Some(t) => Some(t),
        None => stored,
    }
}

/// The access token for a call, or the precondition error when there is none.
pub fn pick_token(own: Option<String>, stored: Option<String>) -> (r: Result<String, Error>)
    ensures
        chosen_token(opt_text(own), opt_text(stored)) matches Some(t) ==> (r matches Ok(s) && s@
            == t),
        chosen_token(opt_text(own), opt_text(stored)) is None ==> r matches Err(
            Error::Api(ApiError::MissingAccessToken),
        ),
{
    match own {
        Some(t) => Ok(t),
        None => match stored {
            Some(t) => Ok(t),
            None => Err(Error::Api(ApiError::MissingAccessToken)),
        },
    }
}

} // verus!
