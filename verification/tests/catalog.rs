use sdkwork_order::catalog::{
    is_valid_platform_catalog_tenant_id, materialize_platform_catalog_sql,
    resolve_platform_catalog_tenant_id, DEFAULT_PLATFORM_CATALOG_TENANT_ID,
    PLATFORM_TENANT_PLACEHOLDER,
};
use sdkwork_order::membership::{
    LOAD_MEMBERSHIP_PACKAGE_BY_EXTERNAL_ID, LOAD_MEMBERSHIP_PACKAGE_BY_EXTERNAL_ID_PUBLIC,
};

#[test]
fn default_platform_catalog_tenant_is_stable() {
    assert_eq!(resolve_platform_catalog_tenant_id(None), DEFAULT_PLATFORM_CATALOG_TENANT_ID);
}

#[test]
fn invalid_platform_catalog_tenant_falls_back_to_default() {
    assert_eq!(
        resolve_platform_catalog_tenant_id(Some("'; DROP TABLE--")),
        DEFAULT_PLATFORM_CATALOG_TENANT_ID
    );
}

#[test]
fn platform_catalog_tenant_must_be_a_decimal_id() {
    assert!(is_valid_platform_catalog_tenant_id("200002"));
    assert!(!is_valid_platform_catalog_tenant_id("acme-01"));
    assert!(!is_valid_platform_catalog_tenant_id("100001-1"));
    assert!(!is_valid_platform_catalog_tenant_id(""));
}

#[test]
fn configured_decimal_tenant_is_used_as_given() {
    assert_eq!(resolve_platform_catalog_tenant_id(Some("200002")), "200002");
    assert_eq!(resolve_platform_catalog_tenant_id(Some("")), DEFAULT_PLATFORM_CATALOG_TENANT_ID);
    assert_eq!(resolve_platform_catalog_tenant_id(Some(" 200002 ")), "200002");
}

#[test]
fn postgres_membership_catalog_queries_resolve_the_platform_tenant_placeholder() {
    let tenant = resolve_platform_catalog_tenant_id(None);
    let sql = materialize_platform_catalog_sql(LOAD_MEMBERSHIP_PACKAGE_BY_EXTERNAL_ID_PUBLIC, &tenant);
    assert!(!sql.contains("__PLATFORM_TENANT__"));
    assert!(sql.contains("p.tenant_id = '100001'"));
    assert!(sql.contains("g.tenant_id = '100001' OR g.tenant_id IS NULL"));
}

#[test]
fn materialized_sql_replaces_every_placeholder_and_nothing_else() {
    assert_eq!(
        materialize_platform_catalog_sql("a = '__PLATFORM_TENANT__' AND b = '__PLATFORM_TENANT__'", "7"),
        "a = '7' AND b = '7'"
    );
    assert_eq!(materialize_platform_catalog_sql("no placeholder", "7"), "no placeholder");
    assert_eq!(materialize_platform_catalog_sql(PLATFORM_TENANT_PLACEHOLDER, "42"), "42");
    assert_eq!(materialize_platform_catalog_sql("", "42"), "");
}

#[test]
fn membership_repository_does_not_reach_into_the_merchandise_catalog() {
    for sql in [LOAD_MEMBERSHIP_PACKAGE_BY_EXTERNAL_ID, LOAD_MEMBERSHIP_PACKAGE_BY_EXTERNAL_ID_PUBLIC] {
        for forbidden in [
            "LEFT JOIN commerce_product",
            "INNER JOIN commerce_product",
            "INSERT INTO commerce_product",
            "UPDATE commerce_product",
            "DELETE FROM commerce_product",
        ] {
            assert!(
                !sql.contains(forbidden),
                "membership repository must not reach into the merchandise catalog: {forbidden}"
            );
        }
        assert!(sql.contains("p.name AS product_name"));
    }
}

#[test]
fn membership_create_does_not_inline_payment_or_billing_helpers() {
    for sql in [LOAD_MEMBERSHIP_PACKAGE_BY_EXTERNAL_ID, LOAD_MEMBERSHIP_PACKAGE_BY_EXTERNAL_ID_PUBLIC] {
        assert!(
            !sql.contains("commerce_payment_intent"),
            "membership repository must not insert payment intents at create time"
        );
        assert!(!sql.contains("INSERT INTO"), "membership catalog reads write nothing");
    }
}

#[test]
fn membership_repository_has_no_server_side_sqlite() {
    for sql in [LOAD_MEMBERSHIP_PACKAGE_BY_EXTERNAL_ID, LOAD_MEMBERSHIP_PACKAGE_BY_EXTERNAL_ID_PUBLIC] {
        assert!(!sql.contains('?'), "membership queries use PostgreSQL placeholders only");
        assert!(sql.contains("$1"));
        assert!(!sql.to_lowercase().contains("sqlite_"));
    }
}
