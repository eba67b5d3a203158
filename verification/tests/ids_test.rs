use debate_cards::ids::{point_ident_to_string, u64_to_decimal, validate_card_id, PointIdent};

#[test]
fn decimal_rendering_matches_standard_form() {
    assert_eq!(u64_to_decimal(0), "0");
    assert_eq!(u64_to_decimal(7), "7");
    assert_eq!(u64_to_decimal(10), "10");
    assert_eq!(u64_to_decimal(12345), "12345");
    assert_eq!(u64_to_decimal(u64::MAX), "18446744073709551615");
}

#[test]
fn point_ident_renders_both_forms() {
    assert_eq!(point_ident_to_string(PointIdent::Num(42)), "42");
    assert_eq!(
        point_ident_to_string(PointIdent::Uuid(
            "550e8400-e29b-41d4-a716-446655440000".to_string()
        )),
        "550e8400-e29b-41d4-a716-446655440000"
    );
}

#[test]
fn malformed_ids_are_rejected() {
    assert_eq!(validate_card_id("not-a-uuid"), None);
    assert_eq!(validate_card_id(""), None);
    assert_eq!(validate_card_id("550e8400-e29b-41d4-a716-44665544000g"), None);
}

#[test]
fn canonical_ids_validate_to_themselves() {
    let nil = "00000000-0000-0000-0000-000000000000";
    assert_eq!(validate_card_id(nil).as_deref(), Some(nil));
    let v4 = "550e8400-e29b-41d4-a716-446655440000";
    assert_eq!(validate_card_id(v4).as_deref(), Some(v4));
}

#[test]
fn validation_normalizes_other_renderings() {
    assert_eq!(
        validate_card_id("550E8400-E29B-41D4-A716-446655440000").as_deref(),
        Some("550e8400-e29b-41d4-a716-446655440000")
    );
    assert_eq!(
        validate_card_id("550e8400e29b41d4a716446655440000").as_deref(),
        Some("550e8400-e29b-41d4-a716-446655440000")
    );
}
