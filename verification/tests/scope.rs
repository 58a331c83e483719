use s3_signer::{Prefix, Scope, TabularId};

const ID: u128 = 0x123e4567_e89b_12d3_a456_426614174000;

#[test]
fn hyphenated_text_is_read() {
    assert_eq!(TabularId::parse("123e4567-e89b-12d3-a456-426614174000"), Some(TabularId(ID)));
}

#[test]
fn parsing_agrees_with_the_uuid_crate() {
    let text = "67e55044-10b1-426f-9247-bb680e5fe0c8";
    let expected = uuid::Uuid::parse_str(text).unwrap().as_u128();
    assert_eq!(expected, 0x67e55044_10b1_426f_9247_bb680e5fe0c8);
    assert_eq!(TabularId::parse(text), Some(TabularId(expected)));
}

#[test]
fn every_form_of_the_uuid_crate_is_read() {
    assert_eq!(TabularId::parse("123e4567e89b12d3a456426614174000"), Some(TabularId(ID)));
    assert_eq!(TabularId::parse("123E4567-E89B-12D3-A456-426614174000"), Some(TabularId(ID)));
    assert_eq!(TabularId::parse("{123e4567-e89b-12d3-a456-426614174000}"), Some(TabularId(ID)));
    assert_eq!(
        TabularId::parse("urn:uuid:123e4567-e89b-12d3-a456-426614174000"),
        Some(TabularId(ID)),
    );
}

#[test]
fn nil_and_max_are_read() {
    assert_eq!(TabularId::parse("00000000-0000-0000-0000-000000000000"), Some(TabularId(0)));
    assert_eq!(
        TabularId::parse("ffffffff-ffff-ffff-ffff-ffffffffffff"),
        Some(TabularId(u128::MAX)),
    );
}

#[test]
fn other_text_is_no_identifier() {
    assert_eq!(TabularId::parse("not-a-uuid"), None);
    assert_eq!(TabularId::parse(""), None);
    assert_eq!(TabularId::parse("123e4567-e89b-12d3-a456-42661417400"), None);
    assert_eq!(TabularId::parse("123e4567-e89b-12d3-a456-4266141740000"), None);
    assert_eq!(TabularId::parse("123e4567-e89b-12d3-a456-42661417400g"), None);
    assert_eq!(TabularId::parse("123e4567e89b-12d3-a456-426614174000-"), None);
    assert_eq!(TabularId::parse(" 123e4567-e89b-12d3-a456-426614174000"), None);
    assert_eq!(TabularId::parse("１２３e4567-e89b-12d3-a456-426614174000"), None);
}

#[test]
fn unscoped_has_no_parts() {
    assert_eq!(Scope::Unscoped.into_parts(), (None, None));
}

#[test]
fn warehouse_scope_has_a_prefix_only() {
    let scope = Scope::Warehouse { prefix: Prefix("warehouse-42".to_string()) };
    assert_eq!(scope.into_parts(), (Some(Prefix("warehouse-42".to_string())), None));
}

#[test]
fn tabular_scope_has_both_parts() {
    let scope = Scope::Tabular {
        prefix: Prefix("warehouse-42".to_string()),
        tabular_id: TabularId(ID),
    };
    assert_eq!(
        scope.into_parts(),
        (Some(Prefix("warehouse-42".to_string())), Some(TabularId(ID))),
    );
}

#[test]
fn a_tabular_id_never_comes_without_a_prefix() {
    let scopes = vec![
        Scope::Unscoped,
        Scope::Warehouse { prefix: Prefix("w".to_string()) },
        Scope::Tabular { prefix: Prefix("w".to_string()), tabular_id: TabularId(7) },
    ];
    for scope in scopes {
        let (prefix, tabular_id) = scope.into_parts();
        assert!(tabular_id.is_none() || prefix.is_some());
    }
}
