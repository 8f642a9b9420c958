use sdkwork_shop::admin::{
    admin_list_window, created_shop, existing_shop, plan_shop_create, plan_shop_readiness,
    plan_shop_update, plan_status_event, shop_readiness, stored_operation_status, Readiness,
    ShopTransition,
};
use sdkwork_shop::app_api::{list_params, product_organization, visible_surfaces_or_all};
use sdkwork_shop::error::ShopErrorKind;
use sdkwork_shop::json::{JsonObject, JsonValue, Payload};
use sdkwork_shop::store::PageWindow;
use sdkwork_shop::subresource::SqlValue;

fn t(s: &str) -> SqlValue {
    SqlValue::Text(s.to_string())
}

#[test]
fn admin_list_window_defaults_and_clamps() {
    assert_eq!(
        admin_list_window(None, None),
        PageWindow { page: 1, page_size: 20, limit: 20, offset: 0 }
    );
    assert_eq!(
        admin_list_window(Some(0), Some(500)),
        PageWindow { page: 1, page_size: 200, limit: 200, offset: 0 }
    );
    assert_eq!(
        admin_list_window(Some(4), Some(0)),
        PageWindow { page: 4, page_size: 1, limit: 1, offset: 3 }
    );
}

#[test]
fn app_list_params_default() {
    assert_eq!(list_params(None, None), (1, 20));
    assert_eq!(list_params(Some(0), Some(7)), (0, 7));
}

#[test]
fn product_creation_needs_an_organization() {
    assert_eq!(product_organization(Some("o".into())).unwrap(), "o");
    let err = product_organization(None).unwrap_err();
    assert_eq!(err.kind, ShopErrorKind::Validation);
    assert_eq!(err.message, "organization_id is required");
    assert_eq!(visible_surfaces_or_all(None), "all");
    assert_eq!(visible_surfaces_or_all(Some("app".into())), "app");
}

#[test]
fn create_shop_plan_defaults() {
    let mut body = Payload::empty_object();
    body.set_member("shopNo", JsonValue::Str("N 1".into()));
    let plan = plan_shop_create("t", None, &body, "10");
    assert_eq!(plan.id, "shop-t-N-1");
    assert_eq!(plan.organization_id, "0");
    assert_eq!(plan.operation_status, "draft");
    assert_eq!(plan.review_status, "pending");
    assert_eq!(
        plan.binds,
        vec![
            t("shop-t-N-1"),
            t("t"),
            t("0"),
            t("N 1"),
            t("shop"),
            t("official"),
            t("self_operated"),
            t("draft"),
            t("draft"),
            t("pending"),
            t("CNY"),
            SqlValue::OptText(None),
            SqlValue::OptText(None),
            t("10"),
        ]
    );
}

#[test]
fn create_shop_organization_precedence() {
    let mut body = Payload::empty_object();
    body.set_member("organizationId", JsonValue::Str("body-org".into()));
    body.set_member("id", JsonValue::Str("shop-x".into()));
    let plan = plan_shop_create("t", Some("session-org"), &body, "10");
    assert_eq!(plan.organization_id, "body-org");
    assert_eq!(plan.id, "shop-x");
    let plan = plan_shop_create("t", Some("session-org"), &Payload::empty_object(), "10");
    assert_eq!(plan.organization_id, "session-org");
    assert_eq!(plan.id, "shop-t-shop-no");
}

#[test]
fn update_merges_body_over_stored_values() {
    let mut existing = JsonObject::new();
    existing.insert("shop_name", JsonValue::Str("Old".into()));
    existing.insert("storefront_status", JsonValue::Str("online".into()));
    existing.insert("operation_status", JsonValue::Null);
    let mut body = Payload::empty_object();
    body.set_member("operationStatus", JsonValue::Str("active".into()));
    let binds = plan_shop_update("t", "s", &existing, &body, "20");
    assert_eq!(
        binds,
        vec![t("Old"), t("online"), t("active"), t("pending"), t("20"), t("t"), t("s")]
    );
    assert_eq!(stored_operation_status(&existing), None);
}

#[test]
fn transitions_set_statuses_and_keep_the_name() {
    let mut existing = JsonObject::new();
    existing.insert("shop_name", JsonValue::Str("Keep".into()));
    existing.insert("operation_status", JsonValue::Str("pending_review".into()));
    assert_eq!(stored_operation_status(&existing), Some("pending_review".into()));
    let edit = ShopTransition::Approve.update_payload();
    let binds = plan_shop_update("t", "s", &existing, &edit, "30");
    assert_eq!(
        binds,
        vec![t("Keep"), t("active"), t("active"), t("approved"), t("30"), t("t"), t("s")]
    );
    let cases = [
        (ShopTransition::SubmitReview, "submit_review", "pending_review", "submitted"),
        (ShopTransition::Approve, "approve", "active", "approved"),
        (ShopTransition::Reject, "reject", "rejected", "rejected"),
        (ShopTransition::Suspend, "suspend", "suspended", "approved"),
        (ShopTransition::Resume, "resume", "active", "approved"),
        (ShopTransition::Close, "close", "closed", "approved"),
    ];
    for (kind, event, op, review) in cases {
        assert_eq!(kind.event_type(), event);
        assert_eq!(kind.operation_status(), op);
        assert_eq!(kind.review_status(), review);
    }
}

#[test]
fn readiness_table() {
    let r = |s: &'static str, b: i32, w: i32| Readiness { status: s, blocking_count: b, warning_count: w };
    assert_eq!(shop_readiness("active", "approved"), r("ready", 0, 0));
    assert_eq!(shop_readiness("active", "pending"), r("not_ready", 3, 1));
    assert_eq!(shop_readiness("pending_review", "submitted"), r("pending_review", 1, 0));
    assert_eq!(shop_readiness("rejected", "rejected"), r("blocked", 2, 0));
    assert_eq!(shop_readiness("suspended", "approved"), r("suspended", 1, 1));
    assert_eq!(shop_readiness("closed", "approved"), r("closed", 0, 0));
    assert_eq!(shop_readiness("draft", "pending"), r("not_ready", 3, 1));
}

#[test]
fn every_transition_lands_in_its_readiness() {
    for (kind, status) in [
        (ShopTransition::SubmitReview, "pending_review"),
        (ShopTransition::Approve, "ready"),
        (ShopTransition::Reject, "blocked"),
        (ShopTransition::Suspend, "suspended"),
        (ShopTransition::Resume, "ready"),
        (ShopTransition::Close, "closed"),
    ] {
        assert_eq!(shop_readiness(kind.operation_status(), kind.review_status()).status, status);
    }
}

#[test]
fn readiness_plan() {
    let binds = plan_shop_readiness("t", "o", "s", "active", "approved", "40");
    assert_eq!(
        binds,
        vec![
            t("shop-readiness-t-s-shop_launch"),
            t("t"),
            t("o"),
            t("s"),
            t("shop_launch"),
            t("ready"),
            SqlValue::Int32(0),
            SqlValue::Int32(0),
            t("[{\"code\":\"qualification\",\"status\":\"done\"},{\"code\":\"settlement_profile\",\"status\":\"done\"},{\"code\":\"review\",\"status\":\"approved\"}]"),
            t("40"),
        ]
    );
    let binds = plan_shop_readiness("t", "o", "s", "draft", "we \"said\"", "41");
    assert_eq!(binds[5], t("not_ready"));
    assert_eq!(binds[6], SqlValue::Int32(3));
    assert_eq!(binds[7], SqlValue::Int32(1));
    assert_eq!(
        binds[8],
        t("[{\"code\":\"qualification\",\"status\":\"pending\"},{\"code\":\"settlement_profile\",\"status\":\"pending\"},{\"code\":\"review\",\"status\":\"we \\\"said\\\"\"}]")
    );
}

#[test]
fn status_event_plan() {
    let binds = plan_status_event("t", "0", "s", "approve", Some("pending_review"), "active", "u-1", "100");
    assert_eq!(
        binds,
        vec![
            t("shop-status-event-t-s-approve-100"),
            t("t"),
            t("0"),
            t("s"),
            t("EVT-shop-status-event-t-s-approve-100"),
            t("approve"),
            SqlValue::OptText(Some("pending_review".into())),
            t("active"),
            t("admin"),
            t("u-1"),
            t("t-s-approve-100"),
            t("100"),
        ]
    );
}

#[test]
fn missing_shops() {
    let err = existing_shop(None).unwrap_err();
    assert_eq!(err.kind, ShopErrorKind::NotFound);
    assert_eq!(err.message, "shop was not found");
    let err = created_shop(None).unwrap_err();
    assert_eq!(err.kind, ShopErrorKind::Storage);
    assert_eq!(err.message, "created shop missing");
    assert_eq!(existing_shop(Some(JsonObject::new())).unwrap(), JsonObject::new());
}
