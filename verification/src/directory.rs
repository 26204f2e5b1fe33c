//! The identity directory's view of a user: the record the saga reads a
//! balance from, and the change-set it writes a debit with.

#![allow(non_snake_case)]

use vstd::prelude::*;

use crate::text::{parse_i64, parse_i64_spec, str_eq, views_of};

verus! {

/// A user record as the directory returns it. `dn` is the durable handle
/// that updates are addressed by, so a change-set cannot silently target a
/// record created between fetch and update.
#[derive(Debug, Clone, PartialEq, Eq)]
pub struct LdapUser {
    pub dn: String,
    pub cn: String,
    pub uid: String,
    pub krbPrincipalName: String,
    pub mail: Vec<String>,
    pub mobile: Vec<String>,
    pub drinkBalance: Option<i64>,
    pub ibutton: Vec<String>,
}

/// A partial update addressed to one directory record by its durable
/// handle; only the fields that are `Some` are applied.
#[derive(Debug, Clone, PartialEq, Eq)]
pub struct LdapUserChangeSet {
    pub dn: String,
    pub drinkBalance: Option<i64>,
    pub ibutton: Option<Vec<String>>,
}

/// The balance a record grants: a missing attribute counts as zero.
pub open spec fn balance_of(account: LdapUser) -> int {
    match account.drinkBalance {
        Some(b) => b as int,
        None => 0,
    }
}

/// Reads the balance of `account`, with a missing attribute counting as
/// zero.
pub fn read_balance(account: &LdapUser) -> (r: i64)
    ensures
        r == balance_of(*account),
{
    match account.drinkBalance {
        Some(b) => b,
        None => 0,
    }
}

/// Builds the change-set that debits `account` by exactly `price`: it is
/// addressed to the record's own handle, replaces only the balance, and
/// replaces it with the old balance minus the price.
pub fn debit_change_set(account: &LdapUser, price: i32) -> (r: LdapUserChangeSet)
    requires
        price >= 0,
        balance_of(*account) >= price,
    ensures
        r.dn == account.dn,
        r.drinkBalance == Some((balance_of(*account) - price) as i64),
        r.ibutton is None,
{
    let balance = read_balance(account);
    LdapUserChangeSet { dn: account.dn.clone(), drinkBalance: Some(balance - price as i64), ibutton: None }
}

/// Builds the change-set that replaces `account`'s balance outright, as
/// the administrative credits endpoint does.
pub fn set_balance_change_set(account: &LdapUser, new_balance: i64) -> (r: LdapUserChangeSet)
    ensures
        r.dn == account.dn,
        r.drinkBalance == Some(new_balance),
        r.ibutton is None,
{
    LdapUserChangeSet { dn: account.dn.clone(), drinkBalance: Some(new_balance), ibutton: None }
}

/// The attribute names a directory search asks the server for.
#[derive(Debug, Clone, PartialEq, Eq)]
pub struct SearchAttrs {
    attrs: Vec<String>,
}

impl Default for SearchAttrs {
    /// The full attribute set the service reads from a user record.
    fn default() -> (r: Self)
        ensures
            views_of(r.names()) =~= seq![
                "cn"@,
                "dn"@,
                "uid"@,
                "memberOf"@,
                "krbPrincipalName"@,
                "mail"@,
                "mobile"@,
                "ibutton"@,
                "drinkBalance"@,
            ],
    {
        let mut attrs: Vec<String> = Vec::new();
        attrs.push("cn".to_owned());
        attrs.push("dn".to_owned());
        attrs.push("uid".to_owned());
        attrs.push("memberOf".to_owned());
        attrs.push("krbPrincipalName".to_owned());
        attrs.push("mail".to_owned());
        attrs.push("mobile".to_owned());
        attrs.push("ibutton".to_owned());
        attrs.push("drinkBalance".to_owned());
        let r = SearchAttrs { attrs };
        proof {
            assert(views_of(r.names()) =~= seq![
                "cn"@,
                "dn"@,
                "uid"@,
                "memberOf"@,
                "krbPrincipalName"@,
                "mail"@,
                "mobile"@,
                "ibutton"@,
                "drinkBalance"@,
            ]);
        }
        r
    }
}

impl SearchAttrs {
    /// The names held, in order.
    pub closed spec fn names(self) -> Seq<String> {
        self.attrs@
    }

    /// A search for exactly the given attribute names.
    pub fn new(attrs: Vec<&str>) -> (r: Self)
        ensures
            views_of(r.names()) =~= attrs@.map_values(|a: &str| a@),
    {
        let mut owned: Vec<String> = Vec::new();
        let mut i: usize = 0;
        while i < attrs.len()
            invariant
                i <= attrs@.len(),
                owned@.len() == i,
                forall|m: int| 0 <= m < i ==> (#[trigger] owned@[m])@ == attrs@[m]@,
            decreases attrs@.len() - i,
        {
            owned.push(attrs[i].to_owned());
            i = i + 1;
        }
        SearchAttrs { attrs: owned }
    }

    /// Hands the names over to be sent with a search request.
    pub fn finalize(self) -> (r: Vec<String>)
        ensures
            r@ == self.names(),
    {
        self.attrs
    }
}

/// A directory entry reduced to plain values: its durable handle and its
/// attributes, each a name with the values it holds.
#[derive(Debug, Clone, PartialEq, Eq)]
pub struct DirEntry {
    pub dn: String,
    pub attrs: Vec<(String, Vec<String>)>,
}

/// The values of the first attribute called `name`, or `None` when the
/// entry has no such attribute.
pub open spec fn find_attr(
    attrs: Seq<(String, Vec<String>)>,
    name: Seq<char>,
) -> Option<Vec<String>>
    decreases attrs.len(),
{
    if attrs.len() == 0 {
        None
    } else if attrs[0].0@ == name {
        Some(attrs[0].1)
    } else {
        find_attr(attrs.drop_first(), name)
    }
}

/// The first value of the attribute called `name`, if the entry has that
/// attribute with at least one value.
pub open spec fn attr_first(attrs: Seq<(String, Vec<String>)>, name: Seq<char>) -> Option<String> {
    match find_attr(attrs, name) {
        Some(values) => if values@.len() > 0 {
            Some(values@[0])
        } else {
            None
        },
        None => None,
    }
}

/// All values of the attribute called `name`; an absent attribute reads
/// as no values.
pub open spec fn attr_values(attrs: Seq<(String, Vec<String>)>, name: Seq<char>) -> Seq<String> {
    match find_attr(attrs, name) {
        Some(values) => values@,
        None => Seq::empty(),
    }
}

fn clone_strings(values: &Vec<String>) -> (r: Vec<String>)
    ensures
        r@ == values@,
{
    let mut out: Vec<String> = Vec::new();
    let mut i: usize = 0;
    while i < values.len()
        invariant
            i <= values@.len(),
            out@.len() == i,
            forall|m: int| 0 <= m < i ==> out@[m] == values@[m],
        decreases values@.len() - i,
    {
        out.push(values[i].clone());
        i = i + 1;
    }
    proof {
        assert(out@ =~= values@);
    }
    out
}

/// Reads the first value of the attribute called `field`, exactly as
/// [`attr_first`] says.
pub fn get_one(entry: &DirEntry, field: &str) -> (r: Option<String>)
    ensures
        r == attr_first(entry.attrs@, field@),
{
    let mut i: usize = 0;
    proof {
        assert(entry.attrs@.skip(0) =~= entry.attrs@);
    }
    while i < entry.attrs.len()
        invariant
            i <= entry.attrs@.len(),
            find_attr(entry.attrs@, field@) == find_attr(entry.attrs@.skip(i as int), field@),
        decreases entry.attrs@.len() - i,
    {
        proof {
            assert(entry.attrs@.skip(i as int)[0] == entry.attrs@[i as int]);
            assert(entry.attrs@.skip(i as int).drop_first() =~= entry.attrs@.skip(i as int + 1));
        }
        if str_eq(entry.attrs[i].0.as_str(), field) {
            let values = &entry.attrs[i].1;
            if values.len() > 0 {
                return Some(values[0].clone());
            } else {
                return None;
            }
        }
        i = i + 1;
    }
    proof {
        assert(entry.attrs@.skip(i as int).len() == 0);
    }
    None
}

/// Reads all values of the attribute called `field`, exactly as
/// [`attr_values`] says.
pub fn get_vec(entry: &DirEntry, field: &str) -> (r: Vec<String>)
    ensures
        r@ == attr_values(entry.attrs@, field@),
{
    let mut i: usize = 0;
    proof {
        assert(entry.attrs@.skip(0) =~= entry.attrs@);
    }
    while i < entry.attrs.len()
        invariant
            i <= entry.attrs@.len(),
            find_attr(entry.attrs@, field@) == find_attr(entry.attrs@.skip(i as int), field@),
        decreases entry.attrs@.len() - i,
    {
        proof {
            assert(entry.attrs@.skip(i as int)[0] == entry.attrs@[i as int]);
            assert(entry.attrs@.skip(i as int).drop_first() =~= entry.attrs@.skip(i as int + 1));
        }
        if str_eq(entry.attrs[i].0.as_str(), field) {
            return clone_strings(&entry.attrs[i].1);
        }
        i = i + 1;
    }
    proof {
        assert(entry.attrs@.skip(i as int).len() == 0);
        assert(Seq::<String>::empty() =~= attr_values(entry.attrs@, field@));
    }
    Vec::new()
}

impl LdapUser {
    /// Reads a user out of a directory entry. The entry must carry `cn`,
    /// `uid` and `krbPrincipalName`; the balance attribute is optional and
    /// an unreadable balance counts as absent; the list attributes default
    /// to empty.
    pub fn from_entry(entry: &DirEntry) -> (r: Option<LdapUser>)
        ensures
            match r {
                Some(user) => {
                    &&& user.dn == entry.dn
                    &&& attr_first(entry.attrs@, "cn"@) == Some(user.cn)
                    &&& attr_first(entry.attrs@, "uid"@) == Some(user.uid)
                    &&& attr_first(entry.attrs@, "krbPrincipalName"@) == Some(
                        user.krbPrincipalName,
                    )
                    &&& user.drinkBalance == match attr_first(entry.attrs@, "drinkBalance"@) {
                        Some(text) => parse_i64_spec(text@),
                        None => None::<i64>,
                    }
                    &&& user.mail@ == attr_values(entry.attrs@, "mail"@)
                    &&& user.mobile@ == attr_values(entry.attrs@, "mobile"@)
                    &&& user.ibutton@ == attr_values(entry.attrs@, "ibutton"@)
                },
                None => {
                    ||| attr_first(entry.attrs@, "cn"@) is None
                    ||| attr_first(entry.attrs@, "uid"@) is None
                    ||| attr_first(entry.attrs@, "krbPrincipalName"@) is None
                },
            },
    {
        let cn = get_one(entry, "cn");
        let uid = get_one(entry, "uid");
        let krb = get_one(entry, "krbPrincipalName");
        match (cn, uid, krb) {
            (Some(cn), Some(uid), Some(krb)) => {
                let balance = match get_one(entry, "drinkBalance") {
                    Some(text) => parse_i64(text.as_str()),
                    None => None,
                };
                Some(
                    LdapUser {
                        dn: entry.dn.clone(),
                        cn,
                        uid,
                        krbPrincipalName: krb,
                        mail: get_vec(entry, "mail"),
                        mobile: get_vec(entry, "mobile"),
                        drinkBalance: balance,
                        ibutton: get_vec(entry, "ibutton"),
                    },
                )
            },
            _ => None,
        }
    }
}

} // verus!
