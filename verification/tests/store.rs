use sdkwork_shop::error::ShopErrorKind;
use sdkwork_shop::json::{JsonObject, JsonValue, Payload};
use sdkwork_shop::store::{
    chrono_like_now, created_fulfillment, current_shop_id, map_row_json, map_row_json_pg,
    order_list_window, plan_current_shop_upsert, plan_shop_fulfillment, settlement_total,
    settlement_window, shop_id_scope_organization, shop_list_window, shop_row_scope_organization,
    snake_to_camel, PageWindow, RowCell,
};
use sdkwork_shop::subresource::{ShopTable, SqlValue};
use sdkwork_shop::app_api::set_path_id;

fn t(s: &str) -> SqlValue {
    SqlValue::Text(s.to_string())
}

fn cell(name: &str, text: Option<&str>) -> RowCell {
    RowCell { name: name.to_string(), text: text.map(str::to_string) }
}

#[test]
fn snake_case_columns_become_camel_case_keys() {
    assert_eq!(snake_to_camel("order_item_id"), "orderItemId");
    assert_eq!(snake_to_camel("qualification_snapshot_json"), "qualificationSnapshotJson");
    assert_eq!(snake_to_camel("plain"), "plain");
    assert_eq!(snake_to_camel("a__b"), "aB");
    assert_eq!(snake_to_camel("_x"), "X");
    assert_eq!(snake_to_camel("x_"), "x");
    assert_eq!(snake_to_camel(""), "");
    assert_eq!(snake_to_camel("x_ß"), "xSS");
    assert_eq!(snake_to_camel("created_at_2"), "createdAt2");
}

#[test]
fn app_rows_render_ids_json_and_text() {
    let row = vec![
        cell("id", None),
        cell("shop_id", Some("s")),
        cell("config_json", Some("{\"k\":[1,2]}")),
        cell("bad_json", Some("{")),
        cell("empty_json", None),
        cell("created_at", Some("5")),
        cell("note", None),
    ];
    let o = map_row_json(&row);
    assert_eq!(o.get("id"), Some(&JsonValue::Str(String::new())));
    assert_eq!(o.get("shopId"), Some(&JsonValue::Str("s".into())));
    assert_eq!(o.get("configJson"), Some(&JsonValue::Raw("{\"k\":[1,2]}".into())));
    assert_eq!(o.get("badJson"), Some(&JsonValue::Raw("{}".into())));
    assert_eq!(o.get("emptyJson"), Some(&JsonValue::Raw("{}".into())));
    assert_eq!(o.get("createdAt"), Some(&JsonValue::Str("5".into())));
    assert_eq!(o.get("note"), Some(&JsonValue::Null));
    assert_eq!(o.get("shop_id"), None);
    assert_eq!(o.entries.len(), 7);
}

#[test]
fn later_columns_with_the_same_key_win() {
    let row = vec![cell("a_b", Some("first")), cell("aB", Some("second"))];
    let o = map_row_json(&row);
    assert_eq!(o.entries.len(), 1);
    assert_eq!(o.get("aB"), Some(&JsonValue::Str("second".into())));
}

#[test]
fn admin_rows_keep_column_names() {
    let row = vec![cell("shop_name", Some("Shop")), cell("timezone", None), cell("id", None)];
    let o = map_row_json_pg(&row);
    assert_eq!(o.get("shop_name"), Some(&JsonValue::Str("Shop".into())));
    assert_eq!(o.get("timezone"), Some(&JsonValue::Null));
    assert_eq!(o.get("id"), Some(&JsonValue::Null));
}

#[test]
fn current_shop_scope() {
    assert_eq!(shop_id_scope_organization(None), "0");
    assert_eq!(shop_id_scope_organization(Some("o")), "o");
    assert_eq!(shop_row_scope_organization(None), "");
    assert_eq!(current_shop_id(Some("s1".into())).unwrap(), "s1");
    let err = current_shop_id(None).unwrap_err();
    assert_eq!(err.kind, ShopErrorKind::NotFound);
    assert_eq!(err.message, "current shop was not found");
}

#[test]
fn list_windows() {
    assert_eq!(
        shop_list_window(3, 20),
        PageWindow { page: 3, page_size: 20, limit: 20, offset: 40 }
    );
    assert_eq!(
        order_list_window(0, 500),
        PageWindow { page: 1, page_size: 200, limit: 200, offset: 0 }
    );
    assert_eq!(
        order_list_window(3, 0),
        PageWindow { page: 3, page_size: 1, limit: 1, offset: 2 }
    );
    assert_eq!(
        order_list_window(2, 50),
        PageWindow { page: 2, page_size: 50, limit: 50, offset: 50 }
    );
    assert_eq!(
        settlement_window(),
        PageWindow { page: 1, page_size: 20, limit: 20, offset: 0 }
    );
    assert_eq!(settlement_total(-3), 0);
    assert_eq!(settlement_total(12), 12);
}

#[test]
fn fulfillment_plan() {
    assert_eq!(chrono_like_now(), "2026-06-17 00:00:00");
    let mut body = Payload::empty_object();
    body.set_member("fulfillment_id", JsonValue::Str("f-1".into()));
    body.set_member("fulfillmentNo", JsonValue::Str("FF-9".into()));
    let plan = plan_shop_fulfillment("t", None, "s", "o-1", &body);
    assert_eq!(plan.id, "f-1");
    assert_eq!(
        plan.binds,
        vec![
            t("f-1"),
            t("t"),
            t(""),
            t("FF-9"),
            t("o-1"),
            t("s"),
            t("physical"),
            t("FF-9"),
            t("idem-f-1"),
            t("2026-06-17 00:00:00"),
            t("2026-06-17 00:00:00"),
        ]
    );
    let plan = plan_shop_fulfillment("t", Some("org"), "s", "o", &Payload::empty_object());
    assert_eq!(plan.id, "fulfillment-generated");
    assert_eq!(plan.binds[2], t("org"));
    assert_eq!(plan.binds[3], t("FF-GEN"));
    let err = created_fulfillment(None).unwrap_err();
    assert_eq!(err.kind, ShopErrorKind::Storage);
    assert_eq!(err.message, "fulfillment row missing after insert");
    assert_eq!(created_fulfillment(Some(JsonObject::new())).unwrap(), JsonObject::new());
}

#[test]
fn a_path_id_selects_the_row_written() {
    let mut body = Payload::empty_object();
    body.set_member("id", JsonValue::Str("ignored".into()));
    body.set_member("channelCode", JsonValue::Str("web".into()));
    set_path_id(&mut body, "ch-7");
    let plan = plan_current_shop_upsert(ShopTable::Channel, "t", Some("o"), "s", &body).unwrap();
    assert_eq!(plan.id, "ch-7");
    assert_eq!(plan.binds[0], t("ch-7"));
    let mut other = Payload::Other(JsonValue::Int(1));
    set_path_id(&mut other, "ch-7");
    assert_eq!(other, Payload::Other(JsonValue::Int(1)));
}

#[test]
fn current_shop_upsert_uses_the_body_id() {
    let mut body = Payload::empty_object();
    body.set_member("id", JsonValue::Str("p-1".into()));
    let plan = plan_current_shop_upsert(ShopTable::Policy, "t", None, "s", &body).unwrap();
    assert_eq!(plan.table, ShopTable::Policy);
    assert_eq!(plan.id, "p-1");
    assert_eq!(plan.binds[2], t("0"));
}
