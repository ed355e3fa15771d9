//! The checks of the authentication layer in front of the protected routes.
use vstd::prelude::*;
use crate::application::dto::apperror::{AppError, Fault};
use crate::application::services::access::outcome;

verus! {

/// Whether `p` begins `s`.
pub open spec fn starts_with(s: Seq<char>, p: Seq<char>) -> bool {
    p.len() <= s.len() && s.subrange(0, p.len() as int) == p
}

/// `str::strip_prefix`: the rest of the text after the prefix, when the
/// text begins with it.
#[verifier::external_body]
fn std_strip_prefix<'a>(s: &'a str, p: &str) -> (r: Option<&'a str>)
    ensures
        match r {
            Some(rest) => starts_with(s@, p@) && rest@ == s@.skip(p@.len() as int),
            None => !starts_with(s@, p@),
        },
{
    s.strip_prefix(p)
}

/// The token of an `Authorization` header: the header must be there (and
/// be text) and read "Bearer " followed by the token.
pub open spec fn bearer_verdict(header: Option<Seq<char>>) -> Result<Seq<char>, Fault> {
    match header {
        None => Err(Fault::Unauthorized("Missing Authorization header"@)),
        Some(h) => if starts_with(h, "Bearer "@) {
            Ok(h.skip(7))
        } else {
            Err(Fault::Unauthorized("Invalid Authorization header format"@))
        },
    }
}

/// The text of an optional header.
pub open spec fn header_text(h: Option<&str>) -> Option<Seq<char>> {
    match h {
        Some(s) => Some(s@),
        None => None,
    }
}

/// The token of an `Authorization` header, or the refusal.
pub fn bearer_token<'a>(header: Option<&'a str>) -> (r: Result<&'a str, AppError>)
    ensures
        match r {
            Ok(t) => bearer_verdict(header_text(header)) == Ok::<Seq<char>, Fault>(t@),
            Err(e) => bearer_verdict(header_text(header)) == Err::<Seq<char>, Fault>(e@),
        },
{
    match header {
        None => Err(AppError::Unauthorized("Missing Authorization header".to_owned())),
        Some(h) => {
            proof {
                reveal_strlit("Bearer ");
            }
            match std_strip_prefix(h, "Bearer ") {
                Some(t) => Ok(t),
                None => Err(AppError::Unauthorized("Invalid Authorization header format".to_owned())),
            }
        },
    }
}

/// A token that checks out must also be the token of a stored session
/// (a log-out deletes it).
pub fn check_session(exists: bool) -> (r: Result<(), AppError>)
    ensures
        outcome(r) == (if exists {
            Ok::<(), Fault>(())
        } else {
            Err(Fault::Unauthorized("Session expired or logged out"@))
        }),
{
    if exists {
        Ok(())
    } else {
        Err(AppError::Unauthorized("Session expired or logged out".to_owned()))
    }
}

} // verus!
