//! Display names: what a member is called in a guild.

use crate::failure::Failure;
use vstd::prelude::*;

verus! {

/// What a member lookup gives back about a guild member.
#[derive(Debug, PartialEq, Eq)]
pub struct MemberRecord {
    /// The nickname that the member carries in this guild, if any.
    pub nick: Option<String>,
    /// The name of the member's account, the same in every guild.
    pub account_name: String,
}

/// A nickname that may be missing, as a sequence of characters.
pub open spec fn nick_of(nick: Option<String>) -> Option<Seq<char>> {
    match nick {
        Some(nick) => Some(nick@),
        None => None,
    }
}

/// The display name: the guild's nickname where there is one, else the
/// account's name.
pub open spec fn display_name_of(nick: Option<Seq<char>>, account_name: Seq<char>) -> Seq<char> {
    match nick {
        Some(nick) => nick,
        None => account_name,
    }
}

/// The outcome of resolving a name from a lookup that answered or did not.
pub open spec fn resolution_of(lookup: Option<MemberRecord>) -> Result<Seq<char>, Failure> {
    match lookup {
        Some(member) => Ok(display_name_of(nick_of(member.nick), member.account_name@)),
        None => Err(Failure::LookupFailure),
    }
}

/// The name of a resolution that succeeded, as a sequence of characters.
pub open spec fn name_view(result: Result<String, Failure>) -> Result<Seq<char>, Failure> {
    match result {
        Ok(name) => Ok(name@),
        Err(failure) => Err(failure),
    }
}

/// Resolves the display name from the outcome of the member lookup. A member
/// who is no longer found is an ordinary failure: the announcement is given up.
pub fn resolve(lookup: Option<MemberRecord>) -> (result: Result<String, Failure>)
    ensures
        name_view(result) == resolution_of(lookup),
{
    match lookup {
        Some(member) => match member.nick {
            Some(nick) => Ok(nick),
            None => Ok(member.account_name),
        },
        None => Err(Failure::LookupFailure),
    }
}

} // verus!
