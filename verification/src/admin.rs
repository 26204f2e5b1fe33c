//! Boundary validation for the administrative endpoints: each request is
//! checked once, up front, and turned into a plan of plain values that the
//! driver applies, or into the exact rejection the caller gets.

use vstd::prelude::*;

use crate::oidc::{has_group_spec, OIDCUser};
use crate::text::{parse_i32, parse_i32_spec, parse_i64, parse_i64_spec, str_eq};

verus! {

/// A validated request to create an item.
#[derive(Debug, Clone, PartialEq, Eq)]
pub struct NewItem {
    pub name: String,
    pub price: i32,
}

/// Why an item creation is refused.
#[derive(Debug, Clone, PartialEq, Eq)]
pub enum NewItemError {
    MissingFields { name_missing: bool, price_missing: bool },
    InvalidPrice,
}

/// What a valid item creation request asks for, or why it is refused:
/// both fields must be given, and the price must be a non-negative
/// integer a ledger row can hold.
pub open spec fn spec_validate_new_item(name: Option<String>, price: Option<i64>) -> Result<
    NewItem,
    NewItemError,
> {
    if name is None || price is None {
        Err(
            NewItemError::MissingFields {
                name_missing: name is None,
                price_missing: price is None,
            },
        )
    } else if price->Some_0 < 0 || price->Some_0 > i32::MAX {
        Err(NewItemError::InvalidPrice)
    } else {
        Ok(NewItem { name: name->Some_0, price: price->Some_0 as i32 })
    }
}

/// Validates an item creation request exactly as
/// [`spec_validate_new_item`] says.
pub fn validate_new_item(name: Option<String>, price: Option<i64>) -> (r: Result<
    NewItem,
    NewItemError,
>)
    ensures
        r == spec_validate_new_item(name, price),
{
    match (name, price) {
        (Some(name), Some(price)) => {
            if price < 0 || price > i32::MAX as i64 {
                Err(NewItemError::InvalidPrice)
            } else {
                Ok(NewItem { name, price: price as i32 })
            }
        },
        (name, price) => Err(
            NewItemError::MissingFields {
                name_missing: name.is_none(),
                price_missing: price.is_none(),
            },
        ),
    }
}

/// A validated item update: the item to touch and the fields to set.
#[derive(Debug, Clone, PartialEq, Eq)]
pub struct ItemUpdate {
    pub id: i32,
    pub set_price: Option<i32>,
    pub set_name: Option<String>,
}

/// Why an item update is refused.
#[derive(Debug, Clone, PartialEq, Eq)]
pub enum ItemUpdateError {
    MissingId,
    InvalidId,
    NothingToUpdate,
    InvalidPrice,
    EmptyName,
}

/// What a valid item update asks for, or why it is refused: an id that a
/// ledger row can hold, at least one field to change, a price in range,
/// and a non-empty name.
pub open spec fn spec_validate_item_update(
    id: Option<i64>,
    price: Option<i64>,
    name: Option<String>,
) -> Result<ItemUpdate, ItemUpdateError> {
    if id is None {
        Err(ItemUpdateError::MissingId)
    } else if id->Some_0 < i32::MIN || id->Some_0 > i32::MAX {
        Err(ItemUpdateError::InvalidId)
    } else if price is None && name is None {
        Err(ItemUpdateError::NothingToUpdate)
    } else if price matches Some(p) && (p < 0 || p > i32::MAX) {
        Err(ItemUpdateError::InvalidPrice)
    } else if name matches Some(n) && n@.len() == 0 {
        Err(ItemUpdateError::EmptyName)
    } else {
        Ok(
            ItemUpdate {
                id: id->Some_0 as i32,
                set_price: match price {
                    Some(p) => Some(p as i32),
                    None => None,
                },
                set_name: name,
            },
        )
    }
}

/// Validates an item update exactly as [`spec_validate_item_update`]
/// says.
pub fn validate_item_update(id: Option<i64>, price: Option<i64>, name: Option<String>) -> (r:
    Result<ItemUpdate, ItemUpdateError>)
    ensures
        r == spec_validate_item_update(id, price, name),
{
    let id = match id {
        Some(v) => v,
        None => {
            return Err(ItemUpdateError::MissingId);
        },
    };
    if id < i32::MIN as i64 || id > i32::MAX as i64 {
        return Err(ItemUpdateError::InvalidId);
    }
    if price.is_none() && name.is_none() {
        return Err(ItemUpdateError::NothingToUpdate);
    }
    let set_price = match price {
        Some(p) => {
            if p < 0 || p > i32::MAX as i64 {
                return Err(ItemUpdateError::InvalidPrice);
            }
            Some(p as i32)
        },
        None => None,
    };
    if let Some(n) = &name {
        if n.as_str().is_empty() {
            return Err(ItemUpdateError::EmptyName);
        }
    }
    Ok(ItemUpdate { id: id as i32, set_price, set_name: name })
}

/// A validated slot update: the slot to touch and the fields to set.
#[derive(Debug, Clone, PartialEq, Eq)]
pub struct SlotUpdatePlan {
    pub slot_number: i32,
    pub set_active: Option<bool>,
    pub set_item: Option<i32>,
    pub set_count: Option<i32>,
}

/// Why a slot update is refused.
#[derive(Debug, Clone, PartialEq, Eq)]
pub enum SlotUpdateError {
    NotPermitted,
    MissingFields { machine_missing: bool, slot_missing: bool },
    NothingToUpdate,
    SlotOutOfRange,
    InvalidCount,
}

/// What a valid slot update asks for, or why it is refused. Only a drink
/// administrator may update slots; machine and slot must be named; an
/// item id that does not read as a number counts as not given; at least
/// one of the active flag and the item must be set; and a count, when
/// given, must read as a non-negative number a ledger row can hold.
pub open spec fn spec_plan_slot_update(
    is_admin: bool,
    machine_given: bool,
    slot: Option<i64>,
    active: Option<bool>,
    item_text: Option<String>,
    count_text: Option<String>,
) -> Result<SlotUpdatePlan, SlotUpdateError> {
    if !is_admin {
        Err(SlotUpdateError::NotPermitted)
    } else if !machine_given || slot is None {
        Err(
            SlotUpdateError::MissingFields {
                machine_missing: !machine_given,
                slot_missing: slot is None,
            },
        )
    } else {
        let set_item = match item_text {
            Some(text) => parse_i32_spec(text@),
            None => None::<i32>,
        };
        if active is None && set_item is None {
            Err(SlotUpdateError::NothingToUpdate)
        } else if slot->Some_0 < i32::MIN || slot->Some_0 > i32::MAX {
            Err(SlotUpdateError::SlotOutOfRange)
        } else {
            match count_text {
                Some(text) => match parse_i64_spec(text@) {
                    Some(c) => if 0 <= c <= i32::MAX {
                        Ok(
                            SlotUpdatePlan {
                                slot_number: slot->Some_0 as i32,
                                set_active: active,
                                set_item,
                                set_count: Some(c as i32),
                            },
                        )
                    } else {
                        Err(SlotUpdateError::InvalidCount)
                    },
                    None => Err(SlotUpdateError::InvalidCount),
                },
                None => Ok(
                    SlotUpdatePlan {
                        slot_number: slot->Some_0 as i32,
                        set_active: active,
                        set_item,
                        set_count: None,
                    },
                ),
            }
        }
    }
}

/// Validates a slot update exactly as [`spec_plan_slot_update`] says,
/// deciding permission from the caller's groups.
pub fn plan_slot_update(
    user: &OIDCUser,
    machine_given: bool,
    slot: Option<i64>,
    active: Option<bool>,
    item_text: Option<String>,
    count_text: Option<String>,
) -> (r: Result<SlotUpdatePlan, SlotUpdateError>)
    ensures
        r == spec_plan_slot_update(
            has_group_spec(user.groups@, "drink"@),
            machine_given,
            slot,
            active,
            item_text,
            count_text,
        ),
{
    if !user.has_group("drink") {
        return Err(SlotUpdateError::NotPermitted);
    }
    let slot_number = match slot {
        Some(v) => {
            if !machine_given {
                return Err(
                    SlotUpdateError::MissingFields { machine_missing: true, slot_missing: false },
                );
            }
            v
        },
        None => {
            return Err(
                SlotUpdateError::MissingFields {
                    machine_missing: !machine_given,
                    slot_missing: true,
                },
            );
        },
    };
    let set_item = match item_text {
        Some(text) => parse_i32(text.as_str()),
        None => None,
    };
    if active.is_none() && set_item.is_none() {
        return Err(SlotUpdateError::NothingToUpdate);
    }
    if slot_number < i32::MIN as i64 || slot_number > i32::MAX as i64 {
        return Err(SlotUpdateError::SlotOutOfRange);
    }
    let set_count = match count_text {
        Some(text) => match parse_i64(text.as_str()) {
            Some(c) => {
                if c < 0 || c > i32::MAX as i64 {
                    return Err(SlotUpdateError::InvalidCount);
                }
                Some(c as i32)
            },
            None => {
                return Err(SlotUpdateError::InvalidCount);
            },
        },
        None => None,
    };
    Ok(SlotUpdatePlan { slot_number: slot_number as i32, set_active: active, set_item, set_count })
}

/// How a credits query is keyed and whether the caller may make it.
#[derive(Debug, Clone, PartialEq, Eq)]
pub enum CreditsQuery {
    ByUid { allowed: bool },
    ByIbutton { allowed: bool },
    NoKey,
}

/// How a balance read is answered: by username if one is given — allowed
/// for administrators and for the user themselves — else by physical
/// token, allowed for administrators only; with neither key the request
/// is malformed.
pub open spec fn spec_credits_access(
    user: OIDCUser,
    uid: Option<String>,
    ibutton: Option<String>,
) -> CreditsQuery {
    let admin = has_group_spec(user.groups@, "drink"@);
    match uid {
        Some(u) => CreditsQuery::ByUid { allowed: admin || u@ == user.preferred_username@ },
        None => match ibutton {
            Some(_) => CreditsQuery::ByIbutton { allowed: admin },
            None => CreditsQuery::NoKey,
        },
    }
}

/// Decides a credits query exactly as [`spec_credits_access`] says.
pub fn credits_access(user: &OIDCUser, uid: Option<String>, ibutton: Option<String>) -> (r:
    CreditsQuery)
    ensures
        r == spec_credits_access(*user, uid, ibutton),
{
    let admin = user.is_drink_admin();
    match uid {
        Some(u) => {
            let allowed = admin || str_eq(u.as_str(), user.preferred_username.as_str());
            CreditsQuery::ByUid { allowed }
        },
        None => match ibutton {
            Some(_) => CreditsQuery::ByIbutton { allowed: admin },
            None => CreditsQuery::NoKey,
        },
    }
}

} // verus!
