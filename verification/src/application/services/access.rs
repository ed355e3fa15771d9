//! Checks shared by the services: membership and rank.
use vstd::prelude::*;
use crate::application::dto::apperror::{AppError, Fault};
use crate::domain::models::server_member::{MemberRole, manages};

verus! {

/// The mathematical value of a result whose error is an [`AppError`].
pub open spec fn outcome<T>(r: Result<T, AppError>) -> Result<T, Fault> {
    match r {
        Ok(v) => Ok(v),
        Err(e) => Err(e@),
    }
}

/// The rank a request needs: owner alone, or owner or admin.
#[derive(Debug, Clone, Copy, PartialEq, Eq, Structural)]
pub enum Rank {
    OwnerOnly,
    Manager,
}

/// Whether a role has the rank.
pub open spec fn has_rank(r: MemberRole, rank: Rank) -> bool {
    match rank {
        Rank::OwnerOnly => r == MemberRole::Owner,
        Rank::Manager => manages(r),
    }
}

/// The answer to a request that needs a rank in a server: "forbidden" with
/// `outsider` when the requester is no member, "forbidden" with `denial` when
/// the requester's role lacks the rank, the role otherwise.
pub open spec fn authorization(
    role: Option<MemberRole>,
    rank: Rank,
    outsider: Seq<char>,
    denial: Seq<char>,
) -> Result<MemberRole, Fault> {
    match role {
        None => Err(Fault::Forbidden(outsider)),
        Some(r) => if has_rank(r, rank) {
            Ok(r)
        } else {
            Err(Fault::Forbidden(denial))
        },
    }
}

/// Checks that the requester (whose membership role is `role`, `None` for no
/// membership) has the rank that the request needs.
pub fn authorize(role: Option<MemberRole>, rank: Rank, outsider: &str, denial: &str) -> (r: Result<
    MemberRole,
    AppError,
>)
    ensures
        outcome(r) == authorization(role, rank, outsider@, denial@),
{
    match role {
        None => Err(AppError::Forbidden(outsider.to_owned())),
        Some(role) => {
            let ok = match rank {
                Rank::OwnerOnly => role == MemberRole::Owner,
                Rank::Manager => role == MemberRole::Owner || role == MemberRole::Admin,
            };
            if ok {
                Ok(role)
            } else {
                Err(AppError::Forbidden(denial.to_owned()))
            }
        },
    }
}

/// The value that a lookup found, or the given error when it found nothing.
pub fn found<T>(o: Option<T>, missing: AppError) -> (r: Result<T, AppError>)
    ensures
        match o {
            Some(v) => r == Ok::<T, AppError>(v),
            None => r == Err::<T, AppError>(missing),
        },
{
    match o {
        Some(v) => Ok(v),
        None => Err(missing),
    }
}

/// "Forbidden" with the message unless the requester is a member.
pub fn require_member(is_member: bool, outsider: &str) -> (r: Result<(), AppError>)
    ensures
        outcome(r) == (if is_member {
            Ok::<(), Fault>(())
        } else {
            Err(Fault::Forbidden(outsider@))
        }),
{
    if is_member {
        Ok(())
    } else {
        Err(AppError::Forbidden(outsider.to_owned()))
    }
}

} // verus!
