use soap_inventory::kinds::{same_text, ActionType, ItemKind, LedgerError};

#[test]
fn action_tags_are_read() {
    assert_eq!(ActionType::parse("in"), Ok(ActionType::In));
    assert_eq!(ActionType::parse("out"), Ok(ActionType::Out));
    assert_eq!(ActionType::parse("adj"), Ok(ActionType::Adj));
}

#[test]
fn unknown_action_tags_are_refused() {
    assert_eq!(ActionType::parse("transfer"), Err(LedgerError::InvalidActionType));
    assert_eq!(ActionType::parse(""), Err(LedgerError::InvalidActionType));
    assert_eq!(ActionType::parse("IN"), Err(LedgerError::InvalidActionType));
    assert_eq!(ActionType::parse("in "), Err(LedgerError::InvalidActionType));
}

#[test]
fn action_tags_round_trip() {
    for action in [ActionType::In, ActionType::Out, ActionType::Adj] {
        assert_eq!(ActionType::parse(action.as_str()), Ok(action));
    }
}

#[test]
fn kind_tags_are_read() {
    assert_eq!(ItemKind::parse("material"), Some(ItemKind::Material));
    assert_eq!(ItemKind::parse("product"), Some(ItemKind::Product));
    assert_eq!(ItemKind::parse("tool"), None);
    assert_eq!(ItemKind::parse(""), None);
}

#[test]
fn kind_tags_round_trip() {
    for kind in [ItemKind::Material, ItemKind::Product] {
        assert_eq!(ItemKind::parse(kind.as_str()), Some(kind));
    }
}

#[test]
fn every_error_has_its_own_message() {
    let all = [
        LedgerError::NotFound,
        LedgerError::InvalidActionType,
        LedgerError::InvalidAmount,
        LedgerError::UnitMismatch,
        LedgerError::StorageError,
    ];
    for (i, a) in all.iter().enumerate() {
        assert!(!a.message().is_empty());
        for b in all.iter().skip(i + 1) {
            assert_ne!(a.message(), b.message());
        }
    }
    assert_eq!(LedgerError::InvalidActionType.message(), "Invalid action type");
    assert_eq!(LedgerError::UnitMismatch.message(), "不能更改已有材料的单位");
}

#[test]
fn same_text_compares_characters() {
    assert!(same_text("ml", "ml"));
    assert!(!same_text("ml", "g"));
    assert!(!same_text("ml", "ML"));
    assert!(same_text("", ""));
    assert!(same_text("個", "個"));
}
