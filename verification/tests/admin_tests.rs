//! Boundary validation of the administrative endpoints, and the group
//! checks behind them.

use bartender::admin::{
    credits_access, plan_slot_update, validate_item_update, validate_new_item, CreditsQuery,
    ItemUpdateError, NewItemError, SlotUpdateError,
};
use bartender::oidc::{OIDCAuth, OIDCUser};

fn user(groups: Vec<&str>) -> OIDCUser {
    OIDCUser {
        name: Some("Alice".to_string()),
        preferred_username: "alice".to_string(),
        groups: groups.into_iter().map(|g| g.to_string()).collect(),
        drink_balance: Some(100),
    }
}

#[test]
fn group_membership_is_exact() {
    let admin = user(vec!["member", "drink"]);
    assert!(admin.has_group("drink"));
    assert!(admin.is_drink_admin());
    let plain = user(vec!["member", "drinks"]);
    assert!(!plain.has_group("drink"));
    assert!(!plain.is_drink_admin());
    let OIDCAuth(inner) = OIDCAuth(admin);
    assert!(inner.is_drink_admin());
}

#[test]
fn new_item_needs_both_fields() {
    assert_eq!(
        validate_new_item(None, Some(10)),
        Err(NewItemError::MissingFields {
            name_missing: true,
            price_missing: false,
        })
    );
    assert_eq!(
        validate_new_item(Some("Chips".to_string()), None),
        Err(NewItemError::MissingFields {
            name_missing: false,
            price_missing: true,
        })
    );
}

#[test]
fn new_item_rejects_a_worthless_or_oversized_price() {
    assert_eq!(
        validate_new_item(Some("Chips".to_string()), Some(-1)),
        Err(NewItemError::InvalidPrice)
    );
    assert_eq!(
        validate_new_item(Some("Chips".to_string()), Some(i32::MAX as i64 + 1)),
        Err(NewItemError::InvalidPrice)
    );
    let item = validate_new_item(Some("Chips".to_string()), Some(100)).unwrap();
    assert_eq!(item.name, "Chips");
    assert_eq!(item.price, 100);
}

#[test]
fn item_update_validates_before_anything_is_applied() {
    assert_eq!(
        validate_item_update(None, Some(10), None),
        Err(ItemUpdateError::MissingId)
    );
    assert_eq!(
        validate_item_update(Some(1), None, None),
        Err(ItemUpdateError::NothingToUpdate)
    );
    assert_eq!(
        validate_item_update(Some(1), Some(-5), None),
        Err(ItemUpdateError::InvalidPrice)
    );
    assert_eq!(
        validate_item_update(Some(1), Some(10), Some("".to_string())),
        Err(ItemUpdateError::EmptyName)
    );
    assert_eq!(
        validate_item_update(Some(i32::MAX as i64 + 1), Some(10), None),
        Err(ItemUpdateError::InvalidId)
    );
    let update = validate_item_update(Some(4), Some(75), Some("Cola".to_string())).unwrap();
    assert_eq!(update.id, 4);
    assert_eq!(update.set_price, Some(75));
    assert_eq!(update.set_name, Some("Cola".to_string()));
}

#[test]
fn slot_update_needs_the_drink_group() {
    let plain = user(vec!["member"]);
    assert_eq!(
        plan_slot_update(&plain, true, Some(1), Some(true), None, None),
        Err(SlotUpdateError::NotPermitted)
    );
}

#[test]
fn slot_update_needs_machine_and_slot() {
    let admin = user(vec!["drink"]);
    assert_eq!(
        plan_slot_update(&admin, false, None, Some(true), None, None),
        Err(SlotUpdateError::MissingFields {
            machine_missing: true,
            slot_missing: true,
        })
    );
    assert_eq!(
        plan_slot_update(&admin, true, None, Some(true), None, None),
        Err(SlotUpdateError::MissingFields {
            machine_missing: false,
            slot_missing: true,
        })
    );
}

#[test]
fn slot_update_needs_something_to_set() {
    let admin = user(vec!["drink"]);
    assert_eq!(
        plan_slot_update(&admin, true, Some(1), None, None, None),
        Err(SlotUpdateError::NothingToUpdate)
    );
    // an item id that does not read as a number counts as not given
    assert_eq!(
        plan_slot_update(&admin, true, Some(1), None, Some("soon".to_string()), None),
        Err(SlotUpdateError::NothingToUpdate)
    );
}

#[test]
fn slot_update_rejects_a_slot_number_no_row_can_hold() {
    let admin = user(vec!["drink"]);
    assert_eq!(
        plan_slot_update(&admin, true, Some(i32::MAX as i64 + 1), Some(true), None, None),
        Err(SlotUpdateError::SlotOutOfRange)
    );
}

#[test]
fn slot_update_checks_the_count_text() {
    let admin = user(vec!["drink"]);
    assert_eq!(
        plan_slot_update(&admin, true, Some(1), Some(true), None, Some("-1".to_string())),
        Err(SlotUpdateError::InvalidCount)
    );
    assert_eq!(
        plan_slot_update(&admin, true, Some(1), Some(true), None, Some("many".to_string())),
        Err(SlotUpdateError::InvalidCount)
    );
    let plan = plan_slot_update(
        &admin,
        true,
        Some(2),
        Some(false),
        Some("11".to_string()),
        Some("6".to_string()),
    )
    .unwrap();
    assert_eq!(plan.slot_number, 2);
    assert_eq!(plan.set_active, Some(false));
    assert_eq!(plan.set_item, Some(11));
    assert_eq!(plan.set_count, Some(6));
}

#[test]
fn credits_reads_are_gated_by_identity_or_group() {
    let admin = user(vec!["drink"]);
    let plain = user(vec!["member"]);
    assert_eq!(
        credits_access(&plain, Some("alice".to_string()), None),
        CreditsQuery::ByUid { allowed: true }
    );
    assert_eq!(
        credits_access(&plain, Some("bob".to_string()), None),
        CreditsQuery::ByUid { allowed: false }
    );
    assert_eq!(
        credits_access(&admin, Some("bob".to_string()), None),
        CreditsQuery::ByUid { allowed: true }
    );
    assert_eq!(
        credits_access(&plain, None, Some("0badc0de".to_string())),
        CreditsQuery::ByIbutton { allowed: false }
    );
    assert_eq!(
        credits_access(&admin, None, Some("0badc0de".to_string())),
        CreditsQuery::ByIbutton { allowed: true }
    );
    assert_eq!(credits_access(&admin, None, None), CreditsQuery::NoKey);
}
