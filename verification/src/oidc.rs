//! The caller identity that authentication middleware resolves before the
//! saga runs, and the group checks that gate administrative actions.

use vstd::prelude::*;

use crate::text::str_eq;

verus! {

/// A resolved caller: who they are and which groups they belong to. The
/// balance is the one cached at authentication time; the saga re-fetches
/// the balance itself rather than trusting it.
#[derive(Debug, Clone, PartialEq, Eq)]
pub struct OIDCUser {
    pub name: Option<String>,
    pub preferred_username: String,
    pub groups: Vec<String>,
    pub drink_balance: Option<i64>,
}

/// A request's authenticated caller, as the extraction layer wraps it.
#[derive(Debug, Clone, PartialEq, Eq)]
pub struct OIDCAuth(pub OIDCUser);

/// Whether one of `groups` reads exactly `name`.
pub open spec fn has_group_spec(groups: Seq<String>, name: Seq<char>) -> bool {
    exists|i: int| 0 <= i < groups.len() && groups[i]@ == name
}

impl OIDCUser {
    /// Whether the caller belongs to the group called `group_name`.
    pub fn has_group(&self, group_name: &str) -> (r: bool)
        ensures
            r == has_group_spec(self.groups@, group_name@),
    {
        let mut i: usize = 0;
        while i < self.groups.len()
            invariant
                i <= self.groups@.len(),
                forall|m: int| 0 <= m < i ==> self.groups@[m]@ != group_name@,
            decreases self.groups@.len() - i,
        {
            if str_eq(self.groups[i].as_str(), group_name) {
                return true;
            }
            i = i + 1;
        }
        false
    }

    /// Whether the caller may administer the drink system: membership in
    /// the drink administrators' group.
    pub fn is_drink_admin(&self) -> (r: bool)
        ensures
            r == has_group_spec(self.groups@, "drink"@),
    {
        self.has_group("drink")
    }
}

} // verus!
