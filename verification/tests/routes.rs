use std::collections::HashSet;

use sdkwork_shop::admin::ShopTransition;
use sdkwork_shop::routes::{
    admin_shop_routes, app_shop_routes, AdminAction, AdminEndpoint, AppEndpoint, AppReply,
    HttpMethod, ListedTable,
};
use sdkwork_shop::subresource::ShopTable;

#[test]
fn admin_routes_register_every_endpoint_once() {
    let routes = admin_shop_routes();
    assert_eq!(routes.len(), 49);
    let mut keys = HashSet::new();
    for e in &routes {
        assert!(keys.insert((e.method(), e.path())), "duplicate route {}", e.path());
        assert!(e.path().starts_with("/backend/v3/api/shops"));
    }
    assert_eq!(routes[0], AdminEndpoint::ListShops);
    assert_eq!(routes[48], AdminEndpoint::CloseShop);
}

#[test]
fn admin_shop_collection_answers_get_and_post() {
    assert_eq!(AdminEndpoint::ListShops.method(), HttpMethod::Get);
    assert_eq!(AdminEndpoint::CreateShop.method(), HttpMethod::Post);
    assert_eq!(AdminEndpoint::ListShops.path(), "/backend/v3/api/shops");
    assert_eq!(AdminEndpoint::CreateShop.path(), "/backend/v3/api/shops");
    assert_eq!(AdminEndpoint::CreateShop.action(), AdminAction::CreateShop);
    assert!(AdminEndpoint::CreateShop.action().replies_created());
    assert!(!AdminEndpoint::ListShops.action().replies_created());
}

#[test]
fn admin_transition_endpoints_apply_their_transition() {
    let cases = [
        (AdminEndpoint::SubmitReview, "/backend/v3/api/shops/{shopId}/submit_review", ShopTransition::SubmitReview),
        (AdminEndpoint::ApproveShop, "/backend/v3/api/shops/{shopId}/approve", ShopTransition::Approve),
        (AdminEndpoint::RejectShop, "/backend/v3/api/shops/{shopId}/reject", ShopTransition::Reject),
        (AdminEndpoint::SuspendShop, "/backend/v3/api/shops/{shopId}/suspend", ShopTransition::Suspend),
        (AdminEndpoint::ResumeShop, "/backend/v3/api/shops/{shopId}/resume", ShopTransition::Resume),
        (AdminEndpoint::CloseShop, "/backend/v3/api/shops/{shopId}/close", ShopTransition::Close),
    ];
    for (endpoint, path, transition) in cases {
        assert_eq!(endpoint.method(), HttpMethod::Post);
        assert_eq!(endpoint.path(), path);
        assert_eq!(endpoint.action(), AdminAction::Transition(transition));
        assert_eq!(endpoint.action().failure_message(), "shop transition is unavailable");
    }
}

#[test]
fn admin_row_endpoints_name_their_tables() {
    assert_eq!(
        AdminEndpoint::RetrieveReadiness.action(),
        AdminAction::ListRows(ListedTable::Readiness)
    );
    assert_eq!(ListedTable::Readiness.name(), "commerce_shop_readiness");
    assert_eq!(ListedTable::StatusEvent.name(), "commerce_shop_status_event");
    assert_eq!(
        ListedTable::Row(ShopTable::Policy).name(),
        "commerce_shop_policy"
    );
    assert_eq!(
        AdminEndpoint::UpdateChannel.action(),
        AdminAction::WriteRow { table: ShopTable::Channel, created: false, row_in_path: true }
    );
    assert_eq!(AdminEndpoint::UpdateChannel.path(), "/backend/v3/api/shops/{shopId}/channels/{channelId}");
    assert_eq!(
        AdminEndpoint::CreateRiskSignal.action(),
        AdminAction::WriteRow { table: ShopTable::RiskSignal, created: true, row_in_path: false }
    );
    assert!(AdminEndpoint::CreateRiskSignal.action().replies_created());
    assert_eq!(
        AdminEndpoint::ReviewDepositAccount.action(),
        AdminEndpoint::UpdateDepositAccount.action()
    );
    assert_eq!(AdminEndpoint::ApproveSettlementProfile.action(), AdminAction::DecideSettlement(true));
    assert_eq!(AdminEndpoint::RejectSettlementProfile.action(), AdminAction::DecideSettlement(false));
    assert_eq!(
        AdminEndpoint::ListQualifications.action().failure_message(),
        "shop resource list is unavailable"
    );
    assert_eq!(
        AdminEndpoint::UpsertQualifications.action().failure_message(),
        "shop resource upsert is unavailable"
    );
}

#[test]
fn admin_only_the_shop_detail_reports_a_missing_shop() {
    assert_eq!(AdminEndpoint::RetrieveShop.action().missing_message(), Some("shop was not found"));
    assert_eq!(AdminEndpoint::RetrieveShop.action().failure_message(), "shop detail is unavailable");
    assert_eq!(AdminEndpoint::UpdateShop.action().missing_message(), None);
    assert_eq!(AdminEndpoint::ListShops.action().failure_message(), "shop list is unavailable");
    assert_eq!(
        AdminEndpoint::ResolveRiskSignal.action().failure_message(),
        "risk signal resolve is unavailable"
    );
}

#[test]
fn app_routes_register_every_endpoint_once() {
    let routes = app_shop_routes();
    assert_eq!(routes.len(), 45);
    let mut keys = HashSet::new();
    for e in &routes {
        assert!(keys.insert((e.method(), e.path())), "duplicate route {}", e.path());
        assert!(e.path().starts_with("/app/v3/api/shops"));
    }
    assert_eq!(routes[0], AppEndpoint::ListShops);
    assert_eq!(routes[44], AppEndpoint::ListCurrentSettlements);
}

#[test]
fn app_current_shop_endpoints_answer_as_the_handlers_do() {
    assert_eq!(AppEndpoint::RetrieveCurrentShop.path(), "/app/v3/api/shops/current");
    assert_eq!(AppEndpoint::RetrieveCurrentShop.missing_message(), Some("current shop was not found"));
    assert_eq!(AppEndpoint::RetrieveShop.missing_message(), Some("shop was not found"));
    assert_eq!(AppEndpoint::GetCurrentReadiness.missing_message(), Some("shop resource was not found"));
    assert_eq!(AppEndpoint::RetrieveCurrentOrder.missing_message(), Some("shop order was not found"));
    assert_eq!(AppEndpoint::ListCurrentChannels.missing_message(), None);
    assert_eq!(AppEndpoint::ListCurrentChannels.reply(), AppReply::List);
    assert_eq!(AppEndpoint::ListCurrentChannels.failure_message(), "shop read model is unavailable");
}

#[test]
fn app_writes_and_creates_answer_as_the_handlers_do() {
    assert_eq!(AppEndpoint::UpsertCurrentCategoryBindings.method(), HttpMethod::Put);
    assert_eq!(AppEndpoint::UpsertCurrentCategoryBindings.reply(), AppReply::Resource);
    assert_eq!(
        AppEndpoint::UpsertCurrentCategoryBindings.failure_message(),
        "shop write model is unavailable"
    );
    assert_eq!(AppEndpoint::CreateCurrentServiceArea.method(), HttpMethod::Post);
    assert_eq!(AppEndpoint::CreateCurrentServiceArea.path(), "/app/v3/api/shops/current/service_areas");
    assert_eq!(AppEndpoint::ListCurrentServiceAreas.path(), "/app/v3/api/shops/current/service_areas");
    assert_eq!(AppEndpoint::CreateCurrentServiceArea.reply(), AppReply::Created);
    assert_eq!(
        AppEndpoint::CreateCurrentServiceArea.failure_message(),
        "shop create model is unavailable"
    );
    assert!(AppEndpoint::PatchCurrentChannel.row_in_path());
    assert!(AppEndpoint::PatchCurrentServiceArea.row_in_path());
    assert!(AppEndpoint::PatchCurrentPolicy.row_in_path());
    assert!(!AppEndpoint::PatchCurrentBusinessHours.row_in_path());
    assert_eq!(AppEndpoint::PatchCurrentPolicy.path(), "/app/v3/api/shops/current/policies/{policyId}");
    assert_eq!(AppEndpoint::ListCurrentProducts.reply(), AppReply::PagedList);
    assert_eq!(AppEndpoint::ListCurrentProducts.failure_message(), "shop products are unavailable");
    assert_eq!(
        AppEndpoint::UnpublishCurrentProduct.path(),
        "/app/v3/api/shops/current/products/{productId}/unpublish"
    );
    assert_eq!(
        AppEndpoint::CreateCurrentOrderFulfillment.path(),
        "/app/v3/api/shops/current/orders/{orderId}/fulfillments"
    );
    assert_eq!(AppEndpoint::CreateCurrentOrderFulfillment.reply(), AppReply::Created);
    assert_eq!(AppEndpoint::ListCurrentSettlements.failure_message(), "shop settlements are unavailable");
    assert_eq!(AppEndpoint::RetrieveCurrentDashboard.failure_message(), "shop dashboard is unavailable");
}

#[test]
fn admin_every_written_table_has_a_listing() {
    let routes = admin_shop_routes();
    for e in &routes {
        if let AdminAction::WriteRow { table, .. } = e.action() {
            assert!(
                routes.iter().any(|l| l.method() == HttpMethod::Get
                    && l.action() == AdminAction::ListRows(ListedTable::Row(table))),
                "no listing of {}",
                table.name()
            );
        }
    }
}

#[test]
fn only_writing_endpoints_require_a_body() {
    assert!(AdminEndpoint::CreateShop.action().reads_body());
    assert!(AdminEndpoint::UpdateChannel.action().reads_body());
    assert!(!AdminEndpoint::ApproveShop.action().reads_body());
    assert!(!AdminEndpoint::ApproveSettlementProfile.action().reads_body());
    assert!(!AdminEndpoint::ResolveRiskSignal.action().reads_body());
    assert!(AppEndpoint::CreateCurrentOrderFulfillment.reads_body());
    assert!(AppEndpoint::PatchCurrentPolicy.reads_body());
    assert!(!AppEndpoint::PublishCurrentProduct.reads_body());
    assert!(!AppEndpoint::ListCurrentChannels.reads_body());
    let app_bodies = app_shop_routes().iter().filter(|e| e.reads_body()).count();
    assert_eq!(app_bodies, 17);
}
