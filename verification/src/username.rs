//! Account names that are safe to use as a storage key.

use vstd::prelude::*;
use vstd::std_specs::iter::IteratorSpec;
use vstd::string::*;

use crate::error::ResolveError;

verus! {

/// A character that separates path segments on some platform.
pub open spec fn is_path_separator(c: char) -> bool {
    c == '/' || c == '\\'
}

/// Whether `name` stays inside one account's storage when used as a path
/// segment: it is not empty, holds no path separator, is not the segment `.`,
/// and nowhere holds two dots in a row.
pub open spec fn is_valid_username(name: Seq<char>) -> bool {
    &&& name.len() > 0
    &&& forall|i: int| 0 <= i < name.len() ==> !is_path_separator(#[trigger] name[i])
    &&& !(name.len() == 1 && name[0] == '.')
    &&& forall|i: int| 0 <= i && i + 1 < name.len() ==> !(#[trigger] name[i] == '.' && name[i + 1] == '.')
}

/// Decides [`is_valid_username`] in one pass.
pub fn check_username(raw: &str) -> (ok: bool)
    ensures
        ok == is_valid_username(raw@),
{
    let mut seen: u8 = 0;
    let mut last_was_dot = false;
    let mut first_is_dot = false;
    for c in it: raw.chars()
        invariant
            it.seq() == raw@,
            seen == if it.index() >= 2 { 2int } else { it.index() as int },
            seen > 0 ==> (last_was_dot <==> raw@[it.index() - 1] == '.'),
            seen > 0 ==> (first_is_dot <==> raw@[0] == '.'),
            forall|i: int| 0 <= i < it.index() ==> !is_path_separator(#[trigger] raw@[i]),
            forall|i: int| 0 <= i && i + 1 < it.index() ==> !(#[trigger] raw@[i] == '.' && raw@[i + 1] == '.'),
    {
        if c == '/' || c == '\\' {
            return false;
        }
        if c == '.' && seen > 0 && last_was_dot {
            proof {
                let i = it.index() - 1;
                assert(raw@[i] == '.' && raw@[i + 1] == '.');
            }
            return false;
        }
        if seen == 0 {
            first_is_dot = c == '.';
        }
        last_was_dot = c == '.';
        if seen < 2 {
            seen = seen + 1;
        }
    }
    seen > 0 && !(seen == 1 && first_is_dot)
}

/// An account name that passed [`is_valid_username`].
///
/// Stores address their data by values of this type only, so no request can
/// reach outside the storage of the account it names.
#[derive(Debug, PartialEq, Eq)]
pub struct Username {
    name: String,
}

impl View for Username {
    type V = Seq<char>;

    closed spec fn view(&self) -> Seq<char> {
        self.name@
    }
}

impl Clone for Username {
    fn clone(&self) -> (copy: Self)
        ensures
            copy@ == self@,
    {
        proof {
            use_type_invariant(self);
        }
        Username { name: self.name.clone() }
    }
}

impl Username {
    #[verifier::type_invariant]
    spec fn well_formed(&self) -> bool {
        is_valid_username(self.name@)
    }

    /// Accepts `raw` as an account name exactly when it is valid; every other
    /// name is reported as not found.
    pub fn parse(raw: &str) -> (parsed: Result<Username, ResolveError>)
        ensures
            match parsed {
                Ok(user) => is_valid_username(raw@) && user@ == raw@,
                Err(e) => !is_valid_username(raw@) && e == ResolveError::NotFound,
            },
    {
        if check_username(raw) {
            Ok(Username { name: String::from_str(raw) })
        } else {
            Err(ResolveError::NotFound)
        }
    }

    /// The name as text; it is always valid.
    pub fn as_str(&self) -> (name: &str)
        ensures
            name@ == self@,
            is_valid_username(name@),
    {
        proof {
            use_type_invariant(self);
        }
        self.name.as_str()
    }
}

} // verus!
