use router::analytics::{
    accessible_indexes, check_index_access, has_any_permission, IndexPermissions, OpenSearchError,
    Permission, SearchIndex,
};

fn index_table() -> Vec<IndexPermissions> {
    vec![
        IndexPermissions {
            index: SearchIndex::PaymentAttempts,
            permissions: vec![Permission::PaymentRead, Permission::PaymentWrite],
        },
        IndexPermissions {
            index: SearchIndex::PaymentIntents,
            permissions: vec![Permission::PaymentRead, Permission::PaymentWrite],
        },
        IndexPermissions {
            index: SearchIndex::Refunds,
            permissions: vec![Permission::RefundRead, Permission::RefundWrite],
        },
        IndexPermissions {
            index: SearchIndex::Disputes,
            permissions: vec![Permission::DisputeRead, Permission::DisputeWrite],
        },
    ]
}

#[test]
fn any_one_permission_opens() {
    let required = vec![Permission::RefundRead, Permission::RefundWrite];
    assert!(has_any_permission(&required, &vec![Permission::Analytics, Permission::RefundWrite]));
    assert!(!has_any_permission(&required, &vec![Permission::Analytics, Permission::PaymentRead]));
    assert!(!has_any_permission(&required, &Vec::new()));
    assert!(!has_any_permission(&Vec::new(), &vec![Permission::Analytics]));
}

#[test]
fn the_accessible_indexes_keep_the_order_of_the_table() {
    let granted = vec![Permission::DisputeRead, Permission::Analytics, Permission::PaymentWrite];
    assert_eq!(
        accessible_indexes(&index_table(), &granted),
        vec![SearchIndex::PaymentAttempts, SearchIndex::PaymentIntents, SearchIndex::Disputes]
    );
}

#[test]
fn a_role_without_a_fitting_permission_searches_nothing() {
    assert_eq!(accessible_indexes(&index_table(), &vec![Permission::Analytics]), Vec::new());
    assert_eq!(accessible_indexes(&index_table(), &Vec::new()), Vec::new());
    assert_eq!(accessible_indexes(&Vec::new(), &vec![Permission::PaymentRead]), Vec::new());
}

#[test]
fn a_single_index_is_admitted_or_refused_by_name() {
    let granted = vec![Permission::RefundRead];
    assert_eq!(check_index_access(&index_table(), &granted, SearchIndex::Refunds), Ok(()));
    assert_eq!(
        check_index_access(&index_table(), &granted, SearchIndex::Disputes),
        Err(OpenSearchError::IndexAccessNotPermittedError(SearchIndex::Disputes))
    );
    assert_eq!(
        check_index_access(&Vec::new(), &granted, SearchIndex::Refunds),
        Err(OpenSearchError::IndexAccessNotPermittedError(SearchIndex::Refunds))
    );
}

#[test]
fn a_single_index_is_admitted_exactly_when_the_search_of_all_covers_it() {
    let grants = vec![
        Vec::new(),
        vec![Permission::Analytics],
        vec![Permission::PaymentRead],
        vec![Permission::RefundWrite, Permission::DisputeWrite],
    ];
    let indexes = [
        SearchIndex::PaymentAttempts,
        SearchIndex::PaymentIntents,
        SearchIndex::Refunds,
        SearchIndex::Disputes,
    ];
    for granted in grants.iter() {
        let covered = accessible_indexes(&index_table(), granted);
        for index in indexes {
            assert_eq!(
                check_index_access(&index_table(), granted, index).is_ok(),
                covered.contains(&index)
            );
        }
    }
}
