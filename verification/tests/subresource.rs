use sdkwork_shop::error::ShopErrorKind;
use sdkwork_shop::json::{JsonObject, JsonValue, Payload};
use sdkwork_shop::subresource::{
    plan_shop_table_upsert, plan_shop_table_upsert_at, resolved_risk_signal,
    timestamp_from_epoch_reading, timestamp_string_from_seconds, upserted_row, write_organization_of, ShopTable, SqlValue,
};
use sdkwork_shop::{current_timestamp_string, resolve_row_id, stable_storage_id};

fn t(s: &str) -> SqlValue {
    SqlValue::Text(s.to_string())
}

fn object(members: Vec<(&str, JsonValue)>) -> Payload {
    let mut p = Payload::empty_object();
    for (k, v) in members {
        p.set_member(k, v);
    }
    p
}

fn s(v: &str) -> JsonValue {
    JsonValue::Str(v.to_string())
}

#[test]
fn stable_storage_id_sanitizes_and_joins() {
    assert_eq!(
        stable_storage_id(&["shop-category-binding", "tenant 1", "shop/2", "a.b_c"]),
        "shop-category-binding-tenant-1-shop-2-a.b_c"
    );
    assert_eq!(stable_storage_id(&["x"]), "x");
    assert_eq!(stable_storage_id(&[]), "");
    assert_eq!(stable_storage_id(&["", ""]), "-");
    assert_eq!(stable_storage_id(&["中文", "é"]), "----");
}

#[test]
fn stable_storage_id_is_idempotent_and_in_charset() {
    let id = stable_storage_id(&["shop", "a b", "c:d", "ü.x"]);
    assert!(id
        .chars()
        .all(|c| c.is_ascii_alphanumeric() || c == '-' || c == '_' || c == '.'));
    assert_eq!(stable_storage_id(&[id.as_str()]), id);
}

#[test]
fn resolve_row_id_prefers_explicit_then_body_then_stable() {
    let body = object(vec![("id", s("from-body"))]);
    let empty = Payload::empty_object();
    assert_eq!(resolve_row_id(Some("explicit".into()), &body, &["a", "b"]), "explicit");
    assert_eq!(resolve_row_id(None, &body, &["a", "b"]), "from-body");
    assert_eq!(resolve_row_id(None, &empty, &["a", "b c"]), "a-b-c");
    let numeric_id = object(vec![("id", JsonValue::Int(9))]);
    assert_eq!(resolve_row_id(None, &numeric_id, &["a"]), "a");
    let not_object = Payload::Other(JsonValue::Null);
    assert_eq!(resolve_row_id(None, &not_object, &["z"]), "z");
}

#[test]
fn timestamps_are_decimal_seconds() {
    assert_eq!(timestamp_string_from_seconds(0), "0");
    assert_eq!(timestamp_string_from_seconds(1718582400), "1718582400");
    assert_eq!(timestamp_string_from_seconds(u64::MAX), "18446744073709551615");
    let before = std::time::SystemTime::now()
        .duration_since(std::time::UNIX_EPOCH)
        .unwrap()
        .as_secs();
    let now = current_timestamp_string();
    let after = std::time::SystemTime::now()
        .duration_since(std::time::UNIX_EPOCH)
        .unwrap()
        .as_secs();
    assert!(now.chars().all(|c| c.is_ascii_digit()));
    let value: u64 = now.parse().unwrap();
    assert!(before <= value && value <= after);
}

#[test]
fn organization_scope_is_trimmed_or_sentinel() {
    assert_eq!(write_organization_of(Some(" org-9 ")), "org-9");
    assert_eq!(write_organization_of(Some("   ")), "0");
    assert_eq!(write_organization_of(Some("")), "0");
    assert_eq!(write_organization_of(None), "0");
}

#[test]
fn table_names_round_trip() {
    assert_eq!(ShopTable::from_name("commerce_shop_channel"), Some(ShopTable::Channel));
    assert_eq!(ShopTable::from_name("commerce_shop_application"), Some(ShopTable::Application));
    assert_eq!(ShopTable::from_name("commerce_shop_readiness"), None);
    assert_eq!(ShopTable::Policy.name(), "commerce_shop_policy");
}

#[test]
fn channel_upsert_plan() {
    let body = object(vec![
        ("channelCode", s("app")),
        ("domainName", s("x.com")),
        ("sortOrder", JsonValue::Int(5)),
        ("channelConfig", JsonValue::Raw("{\"a\":1}".into())),
    ]);
    let plan = plan_shop_table_upsert_at(
        "commerce_shop_channel",
        "t1",
        Some(" org-9 "),
        "s1",
        None,
        &body,
        "100",
    )
    .unwrap();
    assert_eq!(plan.table, ShopTable::Channel);
    assert_eq!(plan.id, "shop-channel-t1-s1-app");
    assert_eq!(
        plan.binds,
        vec![
            t("shop-channel-t1-s1-app"),
            t("t1"),
            t("org-9"),
            t("s1"),
            t("app"),
            t("active"),
            SqlValue::OptText(Some("x.com".into())),
            SqlValue::OptText(None),
            SqlValue::OptText(None),
            t("{\"a\":1}"),
            SqlValue::Int(5),
            t("100"),
        ]
    );
}

#[test]
fn category_code_does_not_fall_back_past_a_present_member() {
    let body = object(vec![("shopCategoryCode", JsonValue::Int(7)), ("categoryCode", s("c"))]);
    let plan = plan_shop_table_upsert_at(
        "commerce_shop_category_binding", "t", None, "s", None, &body, "1",
    )
    .unwrap();
    assert_eq!(plan.id, "shop-category-binding-t-s-default");
    let body = object(vec![("categoryId", s("cid"))]);
    let plan = plan_shop_table_upsert_at(
        "commerce_shop_category_binding", "t", None, "s", None, &body, "1",
    )
    .unwrap();
    assert_eq!(plan.id, "shop-category-binding-t-s-cid");
    assert_eq!(
        plan.binds,
        vec![
            t("shop-category-binding-t-s-cid"),
            t("t"),
            t("0"),
            t("s"),
            t("cid"),
            SqlValue::OptText(None),
            SqlValue::OptText(None),
            SqlValue::OptText(None),
            SqlValue::Int(0),
            t("active"),
            SqlValue::Bool(false),
            t("{}"),
            t("pending"),
            t("1"),
        ]
    );
}

#[test]
fn snapshot_members_are_written_as_json_text() {
    let body = object(vec![
        ("qualificationSnapshot", s("a\"b\n\u{1}")),
        ("qualificationRequired", JsonValue::Bool(true)),
        ("categoryLevel", JsonValue::Int(-4)),
    ]);
    let plan = plan_shop_table_upsert_at(
        "commerce_shop_category_binding", "t", None, "s", None, &body, "1",
    )
    .unwrap();
    assert_eq!(plan.binds[8], SqlValue::Int(-4));
    assert_eq!(plan.binds[10], SqlValue::Bool(true));
    assert_eq!(plan.binds[11], t("\"a\\\"b\\n\\u0001\""));
    let nulls = object(vec![("qualificationSnapshot", JsonValue::Null)]);
    let plan = plan_shop_table_upsert_at(
        "commerce_shop_category_binding", "t", None, "s", None, &nulls, "1",
    )
    .unwrap();
    assert_eq!(plan.binds[11], t("null"));
}

#[test]
fn policy_version_names_the_row_and_is_bound_as_a_number() {
    let body = object(vec![("policyVersion", JsonValue::Int(3))]);
    let plan = plan_shop_table_upsert_at("commerce_shop_policy", "t", None, "s", None, &body, "9")
        .unwrap();
    assert_eq!(plan.id, "shop-policy-t-s-terms-3");
    assert_eq!(plan.binds[5], t("draft"));
    assert_eq!(plan.binds[6], SqlValue::Int(3));
    let body = object(vec![("policyVersion", JsonValue::Int(-2))]);
    let plan = plan_shop_table_upsert_at("commerce_shop_policy", "t", None, "s", None, &body, "9")
        .unwrap();
    assert_eq!(plan.id, "shop-policy-t-s-terms--2");
    assert_eq!(plan.binds[6], SqlValue::Int(-2));
    let empty = Payload::empty_object();
    let plan = plan_shop_table_upsert_at("commerce_shop_policy", "t", None, "s", None, &empty, "9")
        .unwrap();
    assert_eq!(plan.id, "shop-policy-t-s-terms-1");
    assert_eq!(plan.binds[6], SqlValue::Int(1));
}

#[test]
fn application_idempotency_key_defaults_to_application_number() {
    let body = object(vec![("applicationNo", s("APP-9"))]);
    let plan =
        plan_shop_table_upsert_at("commerce_shop_application", "t", None, "s", None, &body, "77")
            .unwrap();
    assert_eq!(plan.id, "shop-application-t-s-APP-9");
    assert_eq!(plan.binds.len(), 17);
    assert_eq!(plan.binds[4], t("APP-9"));
    assert_eq!(plan.binds[10], t("system"));
    assert_eq!(plan.binds[11], t("77"));
    assert_eq!(plan.binds[15], t("APP-9"));
    assert_eq!(plan.binds[16], t("77"));
}

#[test]
fn risk_signal_detection_time_defaults_to_now() {
    let empty = Payload::empty_object();
    let plan =
        plan_shop_table_upsert_at("commerce_shop_risk_signal", "t", None, "s", None, &empty, "55")
            .unwrap();
    assert_eq!(plan.id, "shop-risk-signal-t-s-signal");
    assert_eq!(plan.binds[12], t("55"));
    assert_eq!(plan.binds[11], t("{}"));
}

#[test]
fn singleton_profiles_use_per_shop_ids() {
    let empty = Payload::empty_object();
    for (table, id) in [
        ("commerce_shop_fulfillment_profile", "shop-fulfillment-t-s"),
        ("commerce_shop_settlement_profile", "shop-settlement-t-s"),
        ("commerce_shop_deposit_account", "shop-deposit-t-s"),
        ("commerce_shop_business_hour", "shop-business-hour-t-s-default"),
        ("commerce_shop_verification", "shop-verification-t-s-business_license"),
        ("commerce_shop_qualification", "shop-qualification-t-s-business_license-merchant-"),
        ("commerce_shop_customer_service", "shop-customer-service-t-s-online_chat-default-contact"),
        ("commerce_shop_return_address", "shop-return-address-t-s-return-default"),
        ("commerce_shop_shipping_template", "shop-shipping-template-t-s-default"),
        ("commerce_shop_service_area", "shop-service-area-t-s-country-CN-default"),
        ("commerce_shop_brand_authorization", "shop-brand-auth-t-s-brand"),
    ] {
        let plan = plan_shop_table_upsert_at(table, "t", None, "s", None, &empty, "1").unwrap();
        assert_eq!(plan.id, id, "{table}");
    }
}

#[test]
fn shipping_template_defaults() {
    let empty = Payload::empty_object();
    let plan = plan_shop_table_upsert_at(
        "commerce_shop_shipping_template", "t", Some("o"), "s", Some("row-1".into()), &empty, "3",
    )
    .unwrap();
    assert_eq!(
        plan.binds,
        vec![
            t("row-1"),
            t("t"),
            t("o"),
            t("s"),
            t("default"),
            t("default template"),
            t("active"),
            t("fixed"),
            t("standard"),
            SqlValue::Int(1),
            t("0"),
            t("CNY"),
            SqlValue::Bool(false),
            t("[]"),
            t("{}"),
            t("3"),
        ]
    );
}

#[test]
fn unsupported_tables_are_refused() {
    let empty = Payload::empty_object();
    let err = plan_shop_table_upsert("commerce_shop_readiness", "t", None, "s", None, &empty)
        .unwrap_err();
    assert_eq!(err.kind, ShopErrorKind::Validation);
    assert_eq!(err.message, "unsupported shop subresource table: commerce_shop_readiness");
}

#[test]
fn current_time_plans_are_stamped() {
    let empty = Payload::empty_object();
    let plan =
        plan_shop_table_upsert("commerce_shop_channel", "t", None, "s", None, &empty).unwrap();
    match plan.binds.last().unwrap() {
        SqlValue::Text(now) => assert!(!now.is_empty() && now.chars().all(|c| c.is_ascii_digit())),
        other => panic!("unexpected {other:?}"),
    }
}

#[test]
fn read_back_outcomes() {
    let row = JsonObject::new();
    assert_eq!(upserted_row(ShopTable::Channel, Some(row.clone())).unwrap(), row);
    let err = upserted_row(ShopTable::BusinessHour, None).unwrap_err();
    assert_eq!(err.kind, ShopErrorKind::Storage);
    assert_eq!(err.message, "business hour missing after upsert");
    let err = resolved_risk_signal(None).unwrap_err();
    assert_eq!(err.kind, ShopErrorKind::NotFound);
    assert_eq!(err.message, "risk signal was not found");
}

#[test]
fn epoch_readings_become_timestamp_text() {
    assert_eq!(timestamp_from_epoch_reading(None), "0");
    assert_eq!(timestamp_from_epoch_reading(Some(0)), "0");
    assert_eq!(timestamp_from_epoch_reading(Some(1718582400)), "1718582400");
}
