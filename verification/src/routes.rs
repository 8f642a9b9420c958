//! The endpoints of the shop administration and app HTTP surfaces: for each,
//! its method, its path template and what it does. The routers are built from
//! these lists, so a route exists exactly when an endpoint here names it.

use vstd::prelude::*;
use crate::admin::{transition_event, ShopTransition};
use crate::subresource::{opt_str_view, table_name, ShopTable};

verus! {

/// The HTTP methods the shop surfaces route on.
#[derive(Debug, Clone, Copy, PartialEq, Eq, Hash, Structural)]
pub enum HttpMethod {
    Get,
    Post,
    Put,
    Patch,
}

/// A table whose rows an admin endpoint lists.
#[derive(Debug, Clone, Copy, PartialEq, Eq, Structural)]
pub enum ListedTable {
    Readiness,
    StatusEvent,
    Row(ShopTable),
}

/// The database name of a listed table.
pub open spec fn listed_table_name(t: ListedTable) -> Seq<char> {
    match t {
        ListedTable::Readiness => "commerce_shop_readiness"@,
        ListedTable::StatusEvent => "commerce_shop_status_event"@,
        ListedTable::Row(u) => table_name(u),
    }
}

impl ListedTable {
    /// The table's name in the database.
    pub fn name(self) -> (n: &'static str)
        ensures
            n@ == listed_table_name(self),
    {
        match self {
            ListedTable::Readiness => "commerce_shop_readiness",
            ListedTable::StatusEvent => "commerce_shop_status_event",
            ListedTable::Row(u) => u.name(),
        }
    }
}

/// What an admin endpoint does with the shop named in its path.
#[derive(Debug, Clone, Copy, PartialEq, Eq, Structural)]
pub enum AdminAction {
    /// Lists the tenant's shops, a page at a time.
    ListShops,
    /// Creates a shop from the body.
    CreateShop,
    /// Reads one shop.
    RetrieveShop,
    /// Edits one shop from the body.
    UpdateShop,
    /// Lists the shop's rows of a table.
    ListRows(ListedTable),
    /// Writes the body as a row of a table; the row is new (answered as
    /// created) or named in the path.
    WriteRow { table: ShopTable, created: bool, row_in_path: bool },
    /// Sets the settlement profile's status to approved (`true`) or rejected.
    DecideSettlement(bool),
    /// Marks a risk signal resolved.
    ResolveRiskSignal,
    /// Applies a review or operation transition.
    Transition(ShopTransition),
}

/// The message an admin endpoint answers with when storage fails.
pub open spec fn admin_failure_message(a: AdminAction) -> Seq<char> {
    match a {
        AdminAction::ListShops => "shop list is unavailable"@,
        AdminAction::CreateShop => "shop create is unavailable"@,
        AdminAction::RetrieveShop => "shop detail is unavailable"@,
        AdminAction::UpdateShop => "shop update is unavailable"@,
        AdminAction::ListRows(_) => "shop resource list is unavailable"@,
        AdminAction::WriteRow { .. } => "shop resource upsert is unavailable"@,
        AdminAction::DecideSettlement(_) => "shop resource upsert is unavailable"@,
        AdminAction::ResolveRiskSignal => "risk signal resolve is unavailable"@,
        AdminAction::Transition(_) => "shop transition is unavailable"@,
    }
}

/// Whether an admin endpoint answers a success as a newly created resource.
pub open spec fn admin_replies_created(a: AdminAction) -> bool {
    match a {
        AdminAction::CreateShop => true,
        AdminAction::WriteRow { created, .. } => created,
        _ => false,
    }
}

/// Whether an admin endpoint requires a JSON body: the actions that create,
/// edit or write from what the request sends.
pub open spec fn admin_reads_body(a: AdminAction) -> bool {
    match a {
        AdminAction::CreateShop | AdminAction::UpdateShop | AdminAction::WriteRow { .. } => true,
        _ => false,
    }
}

impl AdminAction {
    /// The message answered when storage fails.
    pub fn failure_message(self) -> (m: &'static str)
        ensures
            m@ == admin_failure_message(self),
    {
        match self {
            AdminAction::ListShops => "shop list is unavailable",
            AdminAction::CreateShop => "shop create is unavailable",
            AdminAction::RetrieveShop => "shop detail is unavailable",
            AdminAction::UpdateShop => "shop update is unavailable",
            AdminAction::ListRows(_) => "shop resource list is unavailable",
            AdminAction::WriteRow { .. } => "shop resource upsert is unavailable",
            AdminAction::DecideSettlement(_) => "shop resource upsert is unavailable",
            AdminAction::ResolveRiskSignal => "risk signal resolve is unavailable",
            AdminAction::Transition(_) => "shop transition is unavailable",
        }
    }

    /// The message answered when the shop read does not exist, for the one
    /// action that reads a single shop.
    pub fn missing_message(self) -> (m: Option<&'static str>)
        ensures
            match m {
                Some(s) => self == AdminAction::RetrieveShop && s@ == "shop was not found"@,
                None => self != AdminAction::RetrieveShop,
            },
    {
        match self {
            AdminAction::RetrieveShop => Some("shop was not found"),
            _ => None,
        }
    }

    /// Whether a success is answered as a newly created resource.
    pub fn replies_created(self) -> (b: bool)
        ensures
            b == admin_replies_created(self),
    {
        match self {
            AdminAction::CreateShop => true,
            AdminAction::WriteRow { created, .. } => created,
            _ => false,
        }
    }

    /// Whether the action requires a JSON body.
    pub fn reads_body(self) -> (b: bool)
        ensures
            b == admin_reads_body(self),
    {
        match self {
            AdminAction::CreateShop | AdminAction::UpdateShop | AdminAction::WriteRow { .. } => true,
            _ => false,
        }
    }
}

/// The endpoints of the shop administration surface.
#[derive(Debug, Clone, Copy, PartialEq, Eq, Structural)]
pub enum AdminEndpoint {
    ListShops,
    CreateShop,
    RetrieveShop,
    UpdateShop,
    RetrieveReadiness,
    ListCategoryBindings,
    UpsertCategoryBindings,
    ListBrandAuthorizations,
    UpsertBrandAuthorizations,
    ListQualifications,
    UpsertQualifications,
    ListCustomerServices,
    UpsertCustomerServices,
    ListReturnAddresses,
    UpsertReturnAddresses,
    ListShippingTemplates,
    UpsertShippingTemplates,
    ListVerifications,
    UpdateVerification,
    ListStatusEvents,
    ListChannels,
    CreateChannel,
    UpdateChannel,
    RetrieveFulfillmentProfile,
    UpdateFulfillmentProfile,
    RetrieveSettlementProfile,
    UpdateSettlementProfile,
    ApproveSettlementProfile,
    RejectSettlementProfile,
    RetrieveBusinessHours,
    UpdateBusinessHours,
    ListServiceAreas,
    CreateServiceArea,
    UpdateServiceArea,
    ListPolicies,
    CreatePolicy,
    UpdatePolicy,
    RetrieveDepositAccount,
    UpdateDepositAccount,
    ReviewDepositAccount,
    ListRiskSignals,
    CreateRiskSignal,
    ResolveRiskSignal,
    SubmitReview,
    ApproveShop,
    RejectShop,
    SuspendShop,
    ResumeShop,
    CloseShop,
}

/// The method an admin endpoint answers.
pub open spec fn admin_method(e: AdminEndpoint) -> HttpMethod {
    match e {
        AdminEndpoint::ListShops => HttpMethod::Get,
        AdminEndpoint::CreateShop => HttpMethod::Post,
        AdminEndpoint::RetrieveShop => HttpMethod::Get,
        AdminEndpoint::UpdateShop => HttpMethod::Patch,
        AdminEndpoint::RetrieveReadiness => HttpMethod::Get,
        AdminEndpoint::ListCategoryBindings => HttpMethod::Get,
        AdminEndpoint::UpsertCategoryBindings => HttpMethod::Put,
        AdminEndpoint::ListBrandAuthorizations => HttpMethod::Get,
        AdminEndpoint::UpsertBrandAuthorizations => HttpMethod::Put,
        AdminEndpoint::ListQualifications => HttpMethod::Get,
        AdminEndpoint::UpsertQualifications => HttpMethod::Put,
        AdminEndpoint::ListCustomerServices => HttpMethod::Get,
        AdminEndpoint::UpsertCustomerServices => HttpMethod::Put,
        AdminEndpoint::ListReturnAddresses => HttpMethod::Get,
        AdminEndpoint::UpsertReturnAddresses => HttpMethod::Put,
        AdminEndpoint::ListShippingTemplates => HttpMethod::Get,
        AdminEndpoint::UpsertShippingTemplates => HttpMethod::Put,
        AdminEndpoint::ListVerifications => HttpMethod::Get,
        AdminEndpoint::UpdateVerification => HttpMethod::Patch,
        AdminEndpoint::ListStatusEvents => HttpMethod::Get,
        AdminEndpoint::ListChannels => HttpMethod::Get,
        AdminEndpoint::CreateChannel => HttpMethod::Post,
        AdminEndpoint::UpdateChannel => HttpMethod::Patch,
        AdminEndpoint::RetrieveFulfillmentProfile => HttpMethod::Get,
        AdminEndpoint::UpdateFulfillmentProfile => HttpMethod::Patch,
        AdminEndpoint::RetrieveSettlementProfile => HttpMethod::Get,
        AdminEndpoint::UpdateSettlementProfile => HttpMethod::Patch,
        AdminEndpoint::ApproveSettlementProfile => HttpMethod::Post,
        AdminEndpoint::RejectSettlementProfile => HttpMethod::Post,
        AdminEndpoint::RetrieveBusinessHours => HttpMethod::Get,
        AdminEndpoint::UpdateBusinessHours => HttpMethod::Patch,
        AdminEndpoint::ListServiceAreas => HttpMethod::Get,
        AdminEndpoint::CreateServiceArea => HttpMethod::Post,
        AdminEndpoint::UpdateServiceArea => HttpMethod::Patch,
        AdminEndpoint::ListPolicies => HttpMethod::Get,
        AdminEndpoint::CreatePolicy => HttpMethod::Post,
        AdminEndpoint::UpdatePolicy => HttpMethod::Patch,
        AdminEndpoint::RetrieveDepositAccount => HttpMethod::Get,
        AdminEndpoint::UpdateDepositAccount => HttpMethod::Patch,
        AdminEndpoint::ReviewDepositAccount => HttpMethod::Post,
        AdminEndpoint::ListRiskSignals => HttpMethod::Get,
        AdminEndpoint::CreateRiskSignal => HttpMethod::Post,
        AdminEndpoint::ResolveRiskSignal => HttpMethod::Post,
        AdminEndpoint::SubmitReview => HttpMethod::Post,
        AdminEndpoint::ApproveShop => HttpMethod::Post,
        AdminEndpoint::RejectShop => HttpMethod::Post,
        AdminEndpoint::SuspendShop => HttpMethod::Post,
        AdminEndpoint::ResumeShop => HttpMethod::Post,
        AdminEndpoint::CloseShop => HttpMethod::Post,
    }
}

/// The path template an admin endpoint answers.
pub open spec fn admin_path(e: AdminEndpoint) -> Seq<char> {
    match e {
        AdminEndpoint::ListShops => "/backend/v3/api/shops"@,
        AdminEndpoint::CreateShop => "/backend/v3/api/shops"@,
        AdminEndpoint::RetrieveShop => "/backend/v3/api/shops/{shopId}"@,
        AdminEndpoint::UpdateShop => "/backend/v3/api/shops/{shopId}"@,
        AdminEndpoint::RetrieveReadiness => "/backend/v3/api/shops/{shopId}/readiness"@,
        AdminEndpoint::ListCategoryBindings => "/backend/v3/api/shops/{shopId}/category_bindings"@,
        AdminEndpoint::UpsertCategoryBindings => "/backend/v3/api/shops/{shopId}/category_bindings"@,
        AdminEndpoint::ListBrandAuthorizations => "/backend/v3/api/shops/{shopId}/brand_authorizations"@,
        AdminEndpoint::UpsertBrandAuthorizations => "/backend/v3/api/shops/{shopId}/brand_authorizations"@,
        AdminEndpoint::ListQualifications => "/backend/v3/api/shops/{shopId}/qualifications"@,
        AdminEndpoint::UpsertQualifications => "/backend/v3/api/shops/{shopId}/qualifications"@,
        AdminEndpoint::ListCustomerServices => "/backend/v3/api/shops/{shopId}/customer_services"@,
        AdminEndpoint::UpsertCustomerServices => "/backend/v3/api/shops/{shopId}/customer_services"@,
        AdminEndpoint::ListReturnAddresses => "/backend/v3/api/shops/{shopId}/return_addresses"@,
        AdminEndpoint::UpsertReturnAddresses => "/backend/v3/api/shops/{shopId}/return_addresses"@,
        AdminEndpoint::ListShippingTemplates => "/backend/v3/api/shops/{shopId}/shipping_templates"@,
        AdminEndpoint::UpsertShippingTemplates => "/backend/v3/api/shops/{shopId}/shipping_templates"@,
        AdminEndpoint::ListVerifications => "/backend/v3/api/shops/{shopId}/verifications"@,
        AdminEndpoint::UpdateVerification => "/backend/v3/api/shops/{shopId}/verifications/{verificationId}"@,
        AdminEndpoint::ListStatusEvents => "/backend/v3/api/shops/{shopId}/status_events"@,
        AdminEndpoint::ListChannels => "/backend/v3/api/shops/{shopId}/channels"@,
        AdminEndpoint::CreateChannel => "/backend/v3/api/shops/{shopId}/channels"@,
        AdminEndpoint::UpdateChannel => "/backend/v3/api/shops/{shopId}/channels/{channelId}"@,
        AdminEndpoint::RetrieveFulfillmentProfile => "/backend/v3/api/shops/{shopId}/fulfillment_profile"@,
        AdminEndpoint::UpdateFulfillmentProfile => "/backend/v3/api/shops/{shopId}/fulfillment_profile"@,
        AdminEndpoint::RetrieveSettlementProfile => "/backend/v3/api/shops/{shopId}/settlement_profile"@,
        AdminEndpoint::UpdateSettlementProfile => "/backend/v3/api/shops/{shopId}/settlement_profile"@,
        AdminEndpoint::ApproveSettlementProfile => "/backend/v3/api/shops/{shopId}/settlement_profile/approve"@,
        AdminEndpoint::RejectSettlementProfile => "/backend/v3/api/shops/{shopId}/settlement_profile/reject"@,
        AdminEndpoint::RetrieveBusinessHours => "/backend/v3/api/shops/{shopId}/business_hours"@,
        AdminEndpoint::UpdateBusinessHours => "/backend/v3/api/shops/{shopId}/business_hours"@,
        AdminEndpoint::ListServiceAreas => "/backend/v3/api/shops/{shopId}/service_areas"@,
        AdminEndpoint::CreateServiceArea => "/backend/v3/api/shops/{shopId}/service_areas"@,
        AdminEndpoint::UpdateServiceArea => "/backend/v3/api/shops/{shopId}/service_areas/{serviceAreaId}"@,
        AdminEndpoint::ListPolicies => "/backend/v3/api/shops/{shopId}/policies"@,
        AdminEndpoint::CreatePolicy => "/backend/v3/api/shops/{shopId}/policies"@,
        AdminEndpoint::UpdatePolicy => "/backend/v3/api/shops/{shopId}/policies/{policyId}"@,
        AdminEndpoint::RetrieveDepositAccount => "/backend/v3/api/shops/{shopId}/deposit_account"@,
        AdminEndpoint::UpdateDepositAccount => "/backend/v3/api/shops/{shopId}/deposit_account"@,
        AdminEndpoint::ReviewDepositAccount => "/backend/v3/api/shops/{shopId}/deposit_account/review"@,
        AdminEndpoint::ListRiskSignals => "/backend/v3/api/shops/{shopId}/risk_signals"@,
        AdminEndpoint::CreateRiskSignal => "/backend/v3/api/shops/{shopId}/risk_signals"@,
        AdminEndpoint::ResolveRiskSignal => "/backend/v3/api/shops/{shopId}/risk_signals/{riskSignalId}/resolve"@,
        AdminEndpoint::SubmitReview => "/backend/v3/api/shops/{shopId}/submit_review"@,
        AdminEndpoint::ApproveShop => "/backend/v3/api/shops/{shopId}/approve"@,
        AdminEndpoint::RejectShop => "/backend/v3/api/shops/{shopId}/reject"@,
        AdminEndpoint::SuspendShop => "/backend/v3/api/shops/{shopId}/suspend"@,
        AdminEndpoint::ResumeShop => "/backend/v3/api/shops/{shopId}/resume"@,
        AdminEndpoint::CloseShop => "/backend/v3/api/shops/{shopId}/close"@,
    }
}

/// What an admin endpoint does.
pub open spec fn admin_action(e: AdminEndpoint) -> AdminAction {
    match e {
        AdminEndpoint::ListShops => AdminAction::ListShops,
        AdminEndpoint::CreateShop => AdminAction::CreateShop,
        AdminEndpoint::RetrieveShop => AdminAction::RetrieveShop,
        AdminEndpoint::UpdateShop => AdminAction::UpdateShop,
        AdminEndpoint::RetrieveReadiness => AdminAction::ListRows(ListedTable::Readiness),
        AdminEndpoint::ListCategoryBindings => AdminAction::ListRows(ListedTable::Row(ShopTable::CategoryBinding)),
        AdminEndpoint::UpsertCategoryBindings => AdminAction::WriteRow { table: ShopTable::CategoryBinding, created: false, row_in_path: false },
        AdminEndpoint::ListBrandAuthorizations => AdminAction::ListRows(ListedTable::Row(ShopTable::BrandAuthorization)),
        AdminEndpoint::UpsertBrandAuthorizations => AdminAction::WriteRow { table: ShopTable::BrandAuthorization, created: false, row_in_path: false },
        AdminEndpoint::ListQualifications => AdminAction::ListRows(ListedTable::Row(ShopTable::Qualification)),
        AdminEndpoint::UpsertQualifications => AdminAction::WriteRow { table: ShopTable::Qualification, created: false, row_in_path: false },
        AdminEndpoint::ListCustomerServices => AdminAction::ListRows(ListedTable::Row(ShopTable::CustomerService)),
        AdminEndpoint::UpsertCustomerServices => AdminAction::WriteRow { table: ShopTable::CustomerService, created: false, row_in_path: false },
        AdminEndpoint::ListReturnAddresses => AdminAction::ListRows(ListedTable::Row(ShopTable::ReturnAddress)),
        AdminEndpoint::UpsertReturnAddresses => AdminAction::WriteRow { table: ShopTable::ReturnAddress, created: false, row_in_path: false },
        AdminEndpoint::ListShippingTemplates => AdminAction::ListRows(ListedTable::Row(ShopTable::ShippingTemplate)),
        AdminEndpoint::UpsertShippingTemplates => AdminAction::WriteRow { table: ShopTable::ShippingTemplate, created: false, row_in_path: false },
        AdminEndpoint::ListVerifications => AdminAction::ListRows(ListedTable::Row(ShopTable::Verification)),
        AdminEndpoint::UpdateVerification => AdminAction::WriteRow { table: ShopTable::Verification, created: false, row_in_path: true },
        AdminEndpoint::ListStatusEvents => AdminAction::ListRows(ListedTable::StatusEvent),
        AdminEndpoint::ListChannels => AdminAction::ListRows(ListedTable::Row(ShopTable::Channel)),
        AdminEndpoint::CreateChannel => AdminAction::WriteRow { table: ShopTable::Channel, created: true, row_in_path: false },
        AdminEndpoint::UpdateChannel => AdminAction::WriteRow { table: ShopTable::Channel, created: false, row_in_path: true },
        AdminEndpoint::RetrieveFulfillmentProfile => AdminAction::ListRows(ListedTable::Row(ShopTable::FulfillmentProfile)),
        AdminEndpoint::UpdateFulfillmentProfile => AdminAction::WriteRow { table: ShopTable::FulfillmentProfile, created: false, row_in_path: false },
        AdminEndpoint::RetrieveSettlementProfile => AdminAction::ListRows(ListedTable::Row(ShopTable::SettlementProfile)),
        AdminEndpoint::UpdateSettlementProfile => AdminAction::WriteRow { table: ShopTable::SettlementProfile, created: false, row_in_path: false },
        AdminEndpoint::ApproveSettlementProfile => AdminAction::DecideSettlement(true),
        AdminEndpoint::RejectSettlementProfile => AdminAction::DecideSettlement(false),
        AdminEndpoint::RetrieveBusinessHours => AdminAction::ListRows(ListedTable::Row(ShopTable::BusinessHour)),
        AdminEndpoint::UpdateBusinessHours => AdminAction::WriteRow { table: ShopTable::BusinessHour, created: false, row_in_path: false },
        AdminEndpoint::ListServiceAreas => AdminAction::ListRows(ListedTable::Row(ShopTable::ServiceArea)),
        AdminEndpoint::CreateServiceArea => AdminAction::WriteRow { table: ShopTable::ServiceArea, created: true, row_in_path: false },
        AdminEndpoint::UpdateServiceArea => AdminAction::WriteRow { table: ShopTable::ServiceArea, created: false, row_in_path: true },
        AdminEndpoint::ListPolicies => AdminAction::ListRows(ListedTable::Row(ShopTable::Policy)),
        AdminEndpoint::CreatePolicy => AdminAction::WriteRow { table: ShopTable::Policy, created: true, row_in_path: false },
        AdminEndpoint::UpdatePolicy => AdminAction::WriteRow { table: ShopTable::Policy, created: false, row_in_path: true },
        AdminEndpoint::RetrieveDepositAccount => AdminAction::ListRows(ListedTable::Row(ShopTable::DepositAccount)),
        AdminEndpoint::UpdateDepositAccount => AdminAction::WriteRow { table: ShopTable::DepositAccount, created: false, row_in_path: false },
        AdminEndpoint::ReviewDepositAccount => AdminAction::WriteRow { table: ShopTable::DepositAccount, created: false, row_in_path: false },
        AdminEndpoint::ListRiskSignals => AdminAction::ListRows(ListedTable::Row(ShopTable::RiskSignal)),
        AdminEndpoint::CreateRiskSignal => AdminAction::WriteRow { table: ShopTable::RiskSignal, created: true, row_in_path: false },
        AdminEndpoint::ResolveRiskSignal => AdminAction::ResolveRiskSignal,
        AdminEndpoint::SubmitReview => AdminAction::Transition(ShopTransition::SubmitReview),
        AdminEndpoint::ApproveShop => AdminAction::Transition(ShopTransition::Approve),
        AdminEndpoint::RejectShop => AdminAction::Transition(ShopTransition::Reject),
        AdminEndpoint::SuspendShop => AdminAction::Transition(ShopTransition::Suspend),
        AdminEndpoint::ResumeShop => AdminAction::Transition(ShopTransition::Resume),
        AdminEndpoint::CloseShop => AdminAction::Transition(ShopTransition::Close),
    }
}

/// Every admin endpoint, in the order the router registers them.
pub open spec fn admin_endpoint_list() -> Seq<AdminEndpoint> {
    seq![
        AdminEndpoint::ListShops,
        AdminEndpoint::CreateShop,
        AdminEndpoint::RetrieveShop,
        AdminEndpoint::UpdateShop,
        AdminEndpoint::RetrieveReadiness,
        AdminEndpoint::ListCategoryBindings,
        AdminEndpoint::UpsertCategoryBindings,
        AdminEndpoint::ListBrandAuthorizations,
        AdminEndpoint::UpsertBrandAuthorizations,
        AdminEndpoint::ListQualifications,
        AdminEndpoint::UpsertQualifications,
        AdminEndpoint::ListCustomerServices,
        AdminEndpoint::UpsertCustomerServices,
        AdminEndpoint::ListReturnAddresses,
        AdminEndpoint::UpsertReturnAddresses,
        AdminEndpoint::ListShippingTemplates,
        AdminEndpoint::UpsertShippingTemplates,
        AdminEndpoint::ListVerifications,
        AdminEndpoint::UpdateVerification,
        AdminEndpoint::ListStatusEvents,
        AdminEndpoint::ListChannels,
        AdminEndpoint::CreateChannel,
        AdminEndpoint::UpdateChannel,
        AdminEndpoint::RetrieveFulfillmentProfile,
        AdminEndpoint::UpdateFulfillmentProfile,
        AdminEndpoint::RetrieveSettlementProfile,
        AdminEndpoint::UpdateSettlementProfile,
        AdminEndpoint::ApproveSettlementProfile,
        AdminEndpoint::RejectSettlementProfile,
        AdminEndpoint::RetrieveBusinessHours,
        AdminEndpoint::UpdateBusinessHours,
        AdminEndpoint::ListServiceAreas,
        AdminEndpoint::CreateServiceArea,
        AdminEndpoint::UpdateServiceArea,
        AdminEndpoint::ListPolicies,
        AdminEndpoint::CreatePolicy,
        AdminEndpoint::UpdatePolicy,
        AdminEndpoint::RetrieveDepositAccount,
        AdminEndpoint::UpdateDepositAccount,
        AdminEndpoint::ReviewDepositAccount,
        AdminEndpoint::ListRiskSignals,
        AdminEndpoint::CreateRiskSignal,
        AdminEndpoint::ResolveRiskSignal,
        AdminEndpoint::SubmitReview,
        AdminEndpoint::ApproveShop,
        AdminEndpoint::RejectShop,
        AdminEndpoint::SuspendShop,
        AdminEndpoint::ResumeShop,
        AdminEndpoint::CloseShop,
    ]
}

impl AdminEndpoint {
    /// The method the endpoint answers.
    pub fn method(self) -> (r: HttpMethod)
        ensures
            r == admin_method(self),
    {
        match self {
            AdminEndpoint::ListShops => HttpMethod::Get,
            AdminEndpoint::CreateShop => HttpMethod::Post,
            AdminEndpoint::RetrieveShop => HttpMethod::Get,
            AdminEndpoint::UpdateShop => HttpMethod::Patch,
            AdminEndpoint::RetrieveReadiness => HttpMethod::Get,
            AdminEndpoint::ListCategoryBindings => HttpMethod::Get,
            AdminEndpoint::UpsertCategoryBindings => HttpMethod::Put,
            AdminEndpoint::ListBrandAuthorizations => HttpMethod::Get,
            AdminEndpoint::UpsertBrandAuthorizations => HttpMethod::Put,
            AdminEndpoint::ListQualifications => HttpMethod::Get,
            AdminEndpoint::UpsertQualifications => HttpMethod::Put,
            AdminEndpoint::ListCustomerServices => HttpMethod::Get,
            AdminEndpoint::UpsertCustomerServices => HttpMethod::Put,
            AdminEndpoint::ListReturnAddresses => HttpMethod::Get,
            AdminEndpoint::UpsertReturnAddresses => HttpMethod::Put,
            AdminEndpoint::ListShippingTemplates => HttpMethod::Get,
            AdminEndpoint::UpsertShippingTemplates => HttpMethod::Put,
            AdminEndpoint::ListVerifications => HttpMethod::Get,
            AdminEndpoint::UpdateVerification => HttpMethod::Patch,
            AdminEndpoint::ListStatusEvents => HttpMethod::Get,
            AdminEndpoint::ListChannels => HttpMethod::Get,
            AdminEndpoint::CreateChannel => HttpMethod::Post,
            AdminEndpoint::UpdateChannel => HttpMethod::Patch,
            AdminEndpoint::RetrieveFulfillmentProfile => HttpMethod::Get,
            AdminEndpoint::UpdateFulfillmentProfile => HttpMethod::Patch,
            AdminEndpoint::RetrieveSettlementProfile => HttpMethod::Get,
            AdminEndpoint::UpdateSettlementProfile => HttpMethod::Patch,
            AdminEndpoint::ApproveSettlementProfile => HttpMethod::Post,
            AdminEndpoint::RejectSettlementProfile => HttpMethod::Post,
            AdminEndpoint::RetrieveBusinessHours => HttpMethod::Get,
            AdminEndpoint::UpdateBusinessHours => HttpMethod::Patch,
            AdminEndpoint::ListServiceAreas => HttpMethod::Get,
            AdminEndpoint::CreateServiceArea => HttpMethod::Post,
            AdminEndpoint::UpdateServiceArea => HttpMethod::Patch,
            AdminEndpoint::ListPolicies => HttpMethod::Get,
            AdminEndpoint::CreatePolicy => HttpMethod::Post,
            AdminEndpoint::UpdatePolicy => HttpMethod::Patch,
            AdminEndpoint::RetrieveDepositAccount => HttpMethod::Get,
            AdminEndpoint::UpdateDepositAccount => HttpMethod::Patch,
            AdminEndpoint::ReviewDepositAccount => HttpMethod::Post,
            AdminEndpoint::ListRiskSignals => HttpMethod::Get,
            AdminEndpoint::CreateRiskSignal => HttpMethod::Post,
            AdminEndpoint::ResolveRiskSignal => HttpMethod::Post,
            AdminEndpoint::SubmitReview => HttpMethod::Post,
            AdminEndpoint::ApproveShop => HttpMethod::Post,
            AdminEndpoint::RejectShop => HttpMethod::Post,
            AdminEndpoint::SuspendShop => HttpMethod::Post,
            AdminEndpoint::ResumeShop => HttpMethod::Post,
            AdminEndpoint::CloseShop => HttpMethod::Post,
        }
    }

    /// The path template the endpoint answers.
    pub fn path(self) -> (r: &'static str)
        ensures
            r@ == admin_path(self),
    {
        match self {
            AdminEndpoint::ListShops => "/backend/v3/api/shops",
            AdminEndpoint::CreateShop => "/backend/v3/api/shops",
            AdminEndpoint::RetrieveShop => "/backend/v3/api/shops/{shopId}",
            AdminEndpoint::UpdateShop => "/backend/v3/api/shops/{shopId}",
            AdminEndpoint::RetrieveReadiness => "/backend/v3/api/shops/{shopId}/readiness",
            AdminEndpoint::ListCategoryBindings => "/backend/v3/api/shops/{shopId}/category_bindings",
            AdminEndpoint::UpsertCategoryBindings => "/backend/v3/api/shops/{shopId}/category_bindings",
            AdminEndpoint::ListBrandAuthorizations => "/backend/v3/api/shops/{shopId}/brand_authorizations",
            AdminEndpoint::UpsertBrandAuthorizations => "/backend/v3/api/shops/{shopId}/brand_authorizations",
            AdminEndpoint::ListQualifications => "/backend/v3/api/shops/{shopId}/qualifications",
            AdminEndpoint::UpsertQualifications => "/backend/v3/api/shops/{shopId}/qualifications",
            AdminEndpoint::ListCustomerServices => "/backend/v3/api/shops/{shopId}/customer_services",
            AdminEndpoint::UpsertCustomerServices => "/backend/v3/api/shops/{shopId}/customer_services",
            AdminEndpoint::ListReturnAddresses => "/backend/v3/api/shops/{shopId}/return_addresses",
            AdminEndpoint::UpsertReturnAddresses => "/backend/v3/api/shops/{shopId}/return_addresses",
            AdminEndpoint::ListShippingTemplates => "/backend/v3/api/shops/{shopId}/shipping_templates",
            AdminEndpoint::UpsertShippingTemplates => "/backend/v3/api/shops/{shopId}/shipping_templates",
            AdminEndpoint::ListVerifications => "/backend/v3/api/shops/{shopId}/verifications",
            AdminEndpoint::UpdateVerification => "/backend/v3/api/shops/{shopId}/verifications/{verificationId}",
            AdminEndpoint::ListStatusEvents => "/backend/v3/api/shops/{shopId}/status_events",
            AdminEndpoint::ListChannels => "/backend/v3/api/shops/{shopId}/channels",
            AdminEndpoint::CreateChannel => "/backend/v3/api/shops/{shopId}/channels",
            AdminEndpoint::UpdateChannel => "/backend/v3/api/shops/{shopId}/channels/{channelId}",
            AdminEndpoint::RetrieveFulfillmentProfile => "/backend/v3/api/shops/{shopId}/fulfillment_profile",
            AdminEndpoint::UpdateFulfillmentProfile => "/backend/v3/api/shops/{shopId}/fulfillment_profile",
            AdminEndpoint::RetrieveSettlementProfile => "/backend/v3/api/shops/{shopId}/settlement_profile",
            AdminEndpoint::UpdateSettlementProfile => "/backend/v3/api/shops/{shopId}/settlement_profile",
            AdminEndpoint::ApproveSettlementProfile => "/backend/v3/api/shops/{shopId}/settlement_profile/approve",
            AdminEndpoint::RejectSettlementProfile => "/backend/v3/api/shops/{shopId}/settlement_profile/reject",
            AdminEndpoint::RetrieveBusinessHours => "/backend/v3/api/shops/{shopId}/business_hours",
            AdminEndpoint::UpdateBusinessHours => "/backend/v3/api/shops/{shopId}/business_hours",
            AdminEndpoint::ListServiceAreas => "/backend/v3/api/shops/{shopId}/service_areas",
            AdminEndpoint::CreateServiceArea => "/backend/v3/api/shops/{shopId}/service_areas",
            AdminEndpoint::UpdateServiceArea => "/backend/v3/api/shops/{shopId}/service_areas/{serviceAreaId}",
            AdminEndpoint::ListPolicies => "/backend/v3/api/shops/{shopId}/policies",
            AdminEndpoint::CreatePolicy => "/backend/v3/api/shops/{shopId}/policies",
            AdminEndpoint::UpdatePolicy => "/backend/v3/api/shops/{shopId}/policies/{policyId}",
            AdminEndpoint::RetrieveDepositAccount => "/backend/v3/api/shops/{shopId}/deposit_account",
            AdminEndpoint::UpdateDepositAccount => "/backend/v3/api/shops/{shopId}/deposit_account",
            AdminEndpoint::ReviewDepositAccount => "/backend/v3/api/shops/{shopId}/deposit_account/review",
            AdminEndpoint::ListRiskSignals => "/backend/v3/api/shops/{shopId}/risk_signals",
            AdminEndpoint::CreateRiskSignal => "/backend/v3/api/shops/{shopId}/risk_signals",
            AdminEndpoint::ResolveRiskSignal => "/backend/v3/api/shops/{shopId}/risk_signals/{riskSignalId}/resolve",
            AdminEndpoint::SubmitReview => "/backend/v3/api/shops/{shopId}/submit_review",
            AdminEndpoint::ApproveShop => "/backend/v3/api/shops/{shopId}/approve",
            AdminEndpoint::RejectShop => "/backend/v3/api/shops/{shopId}/reject",
            AdminEndpoint::SuspendShop => "/backend/v3/api/shops/{shopId}/suspend",
            AdminEndpoint::ResumeShop => "/backend/v3/api/shops/{shopId}/resume",
            AdminEndpoint::CloseShop => "/backend/v3/api/shops/{shopId}/close",
        }
    }

    /// What the endpoint does.
    pub fn action(self) -> (r: AdminAction)
        ensures
            r == admin_action(self),
    {
        match self {
            AdminEndpoint::ListShops => AdminAction::ListShops,
            AdminEndpoint::CreateShop => AdminAction::CreateShop,
            AdminEndpoint::RetrieveShop => AdminAction::RetrieveShop,
            AdminEndpoint::UpdateShop => AdminAction::UpdateShop,
            AdminEndpoint::RetrieveReadiness => AdminAction::ListRows(ListedTable::Readiness),
            AdminEndpoint::ListCategoryBindings => AdminAction::ListRows(ListedTable::Row(ShopTable::CategoryBinding)),
            AdminEndpoint::UpsertCategoryBindings => AdminAction::WriteRow { table: ShopTable::CategoryBinding, created: false, row_in_path: false },
            AdminEndpoint::ListBrandAuthorizations => AdminAction::ListRows(ListedTable::Row(ShopTable::BrandAuthorization)),
            AdminEndpoint::UpsertBrandAuthorizations => AdminAction::WriteRow { table: ShopTable::BrandAuthorization, created: false, row_in_path: false },
            AdminEndpoint::ListQualifications => AdminAction::ListRows(ListedTable::Row(ShopTable::Qualification)),
            AdminEndpoint::UpsertQualifications => AdminAction::WriteRow { table: ShopTable::Qualification, created: false, row_in_path: false },
            AdminEndpoint::ListCustomerServices => AdminAction::ListRows(ListedTable::Row(ShopTable::CustomerService)),
            AdminEndpoint::UpsertCustomerServices => AdminAction::WriteRow { table: ShopTable::CustomerService, created: false, row_in_path: false },
            AdminEndpoint::ListReturnAddresses => AdminAction::ListRows(ListedTable::Row(ShopTable::ReturnAddress)),
            AdminEndpoint::UpsertReturnAddresses => AdminAction::WriteRow { table: ShopTable::ReturnAddress, created: false, row_in_path: false },
            AdminEndpoint::ListShippingTemplates => AdminAction::ListRows(ListedTable::Row(ShopTable::ShippingTemplate)),
            AdminEndpoint::UpsertShippingTemplates => AdminAction::WriteRow { table: ShopTable::ShippingTemplate, created: false, row_in_path: false },
            AdminEndpoint::ListVerifications => AdminAction::ListRows(ListedTable::Row(ShopTable::Verification)),
            AdminEndpoint::UpdateVerification => AdminAction::WriteRow { table: ShopTable::Verification, created: false, row_in_path: true },
            AdminEndpoint::ListStatusEvents => AdminAction::ListRows(ListedTable::StatusEvent),
            AdminEndpoint::ListChannels => AdminAction::ListRows(ListedTable::Row(ShopTable::Channel)),
            AdminEndpoint::CreateChannel => AdminAction::WriteRow { table: ShopTable::Channel, created: true, row_in_path: false },
            AdminEndpoint::UpdateChannel => AdminAction::WriteRow { table: ShopTable::Channel, created: false, row_in_path: true },
            AdminEndpoint::RetrieveFulfillmentProfile => AdminAction::ListRows(ListedTable::Row(ShopTable::FulfillmentProfile)),
            AdminEndpoint::UpdateFulfillmentProfile => AdminAction::WriteRow { table: ShopTable::FulfillmentProfile, created: false, row_in_path: false },
            AdminEndpoint::RetrieveSettlementProfile => AdminAction::ListRows(ListedTable::Row(ShopTable::SettlementProfile)),
            AdminEndpoint::UpdateSettlementProfile => AdminAction::WriteRow { table: ShopTable::SettlementProfile, created: false, row_in_path: false },
            AdminEndpoint::ApproveSettlementProfile => AdminAction::DecideSettlement(true),
            AdminEndpoint::RejectSettlementProfile => AdminAction::DecideSettlement(false),
            AdminEndpoint::RetrieveBusinessHours => AdminAction::ListRows(ListedTable::Row(ShopTable::BusinessHour)),
            AdminEndpoint::UpdateBusinessHours => AdminAction::WriteRow { table: ShopTable::BusinessHour, created: false, row_in_path: false },
            AdminEndpoint::ListServiceAreas => AdminAction::ListRows(ListedTable::Row(ShopTable::ServiceArea)),
            AdminEndpoint::CreateServiceArea => AdminAction::WriteRow { table: ShopTable::ServiceArea, created: true, row_in_path: false },
            AdminEndpoint::UpdateServiceArea => AdminAction::WriteRow { table: ShopTable::ServiceArea, created: false, row_in_path: true },
            AdminEndpoint::ListPolicies => AdminAction::ListRows(ListedTable::Row(ShopTable::Policy)),
            AdminEndpoint::CreatePolicy => AdminAction::WriteRow { table: ShopTable::Policy, created: true, row_in_path: false },
            AdminEndpoint::UpdatePolicy => AdminAction::WriteRow { table: ShopTable::Policy, created: false, row_in_path: true },
            AdminEndpoint::RetrieveDepositAccount => AdminAction::ListRows(ListedTable::Row(ShopTable::DepositAccount)),
            AdminEndpoint::UpdateDepositAccount => AdminAction::WriteRow { table: ShopTable::DepositAccount, created: false, row_in_path: false },
            AdminEndpoint::ReviewDepositAccount => AdminAction::WriteRow { table: ShopTable::DepositAccount, created: false, row_in_path: false },
            AdminEndpoint::ListRiskSignals => AdminAction::ListRows(ListedTable::Row(ShopTable::RiskSignal)),
            AdminEndpoint::CreateRiskSignal => AdminAction::WriteRow { table: ShopTable::RiskSignal, created: true, row_in_path: false },
            AdminEndpoint::ResolveRiskSignal => AdminAction::ResolveRiskSignal,
            AdminEndpoint::SubmitReview => AdminAction::Transition(ShopTransition::SubmitReview),
            AdminEndpoint::ApproveShop => AdminAction::Transition(ShopTransition::Approve),
            AdminEndpoint::RejectShop => AdminAction::Transition(ShopTransition::Reject),
            AdminEndpoint::SuspendShop => AdminAction::Transition(ShopTransition::Suspend),
            AdminEndpoint::ResumeShop => AdminAction::Transition(ShopTransition::Resume),
            AdminEndpoint::CloseShop => AdminAction::Transition(ShopTransition::Close),
        }
    }
}

/// The admin endpoints, in the order the router registers them.
pub fn admin_shop_routes() -> (r: Vec<AdminEndpoint>)
    ensures
        r@ == admin_endpoint_list(),
{
    vec![
        AdminEndpoint::ListShops,
        AdminEndpoint::CreateShop,
        AdminEndpoint::RetrieveShop,
        AdminEndpoint::UpdateShop,
        AdminEndpoint::RetrieveReadiness,
        AdminEndpoint::ListCategoryBindings,
        AdminEndpoint::UpsertCategoryBindings,
        AdminEndpoint::ListBrandAuthorizations,
        AdminEndpoint::UpsertBrandAuthorizations,
        AdminEndpoint::ListQualifications,
        AdminEndpoint::UpsertQualifications,
        AdminEndpoint::ListCustomerServices,
        AdminEndpoint::UpsertCustomerServices,
        AdminEndpoint::ListReturnAddresses,
        AdminEndpoint::UpsertReturnAddresses,
        AdminEndpoint::ListShippingTemplates,
        AdminEndpoint::UpsertShippingTemplates,
        AdminEndpoint::ListVerifications,
        AdminEndpoint::UpdateVerification,
        AdminEndpoint::ListStatusEvents,
        AdminEndpoint::ListChannels,
        AdminEndpoint::CreateChannel,
        AdminEndpoint::UpdateChannel,
        AdminEndpoint::RetrieveFulfillmentProfile,
        AdminEndpoint::UpdateFulfillmentProfile,
        AdminEndpoint::RetrieveSettlementProfile,
        AdminEndpoint::UpdateSettlementProfile,
        AdminEndpoint::ApproveSettlementProfile,
        AdminEndpoint::RejectSettlementProfile,
        AdminEndpoint::RetrieveBusinessHours,
        AdminEndpoint::UpdateBusinessHours,
        AdminEndpoint::ListServiceAreas,
        AdminEndpoint::CreateServiceArea,
        AdminEndpoint::UpdateServiceArea,
        AdminEndpoint::ListPolicies,
        AdminEndpoint::CreatePolicy,
        AdminEndpoint::UpdatePolicy,
        AdminEndpoint::RetrieveDepositAccount,
        AdminEndpoint::UpdateDepositAccount,
        AdminEndpoint::ReviewDepositAccount,
        AdminEndpoint::ListRiskSignals,
        AdminEndpoint::CreateRiskSignal,
        AdminEndpoint::ResolveRiskSignal,
        AdminEndpoint::SubmitReview,
        AdminEndpoint::ApproveShop,
        AdminEndpoint::RejectShop,
        AdminEndpoint::SuspendShop,
        AdminEndpoint::ResumeShop,
        AdminEndpoint::CloseShop,
    ]
}

/// No two admin endpoints share a method and a path, so the router can register
/// every one of them.
pub proof fn lemma_admin_routes_distinct(a: AdminEndpoint, b: AdminEndpoint)
    ensures
        admin_method(a) == admin_method(b) && admin_path(a) == admin_path(b) ==> a == b,
{
    if admin_method(a) == admin_method(b) && admin_path(a) == admin_path(b) && a != b {
        reveal_strlit("/backend/v3/api/shops");
        reveal_strlit("/backend/v3/api/shops/{shopId}");
        reveal_strlit("/backend/v3/api/shops/{shopId}/readiness");
        reveal_strlit("/backend/v3/api/shops/{shopId}/category_bindings");
        reveal_strlit("/backend/v3/api/shops/{shopId}/brand_authorizations");
        reveal_strlit("/backend/v3/api/shops/{shopId}/qualifications");
        reveal_strlit("/backend/v3/api/shops/{shopId}/customer_services");
        reveal_strlit("/backend/v3/api/shops/{shopId}/return_addresses");
        reveal_strlit("/backend/v3/api/shops/{shopId}/shipping_templates");
        reveal_strlit("/backend/v3/api/shops/{shopId}/verifications");
        reveal_strlit("/backend/v3/api/shops/{shopId}/verifications/{verificationId}");
        reveal_strlit("/backend/v3/api/shops/{shopId}/status_events");
        reveal_strlit("/backend/v3/api/shops/{shopId}/channels");
        reveal_strlit("/backend/v3/api/shops/{shopId}/channels/{channelId}");
        reveal_strlit("/backend/v3/api/shops/{shopId}/fulfillment_profile");
        reveal_strlit("/backend/v3/api/shops/{shopId}/settlement_profile");
        reveal_strlit("/backend/v3/api/shops/{shopId}/settlement_profile/approve");
        reveal_strlit("/backend/v3/api/shops/{shopId}/settlement_profile/reject");
        reveal_strlit("/backend/v3/api/shops/{shopId}/business_hours");
        reveal_strlit("/backend/v3/api/shops/{shopId}/service_areas");
        reveal_strlit("/backend/v3/api/shops/{shopId}/service_areas/{serviceAreaId}");
        reveal_strlit("/backend/v3/api/shops/{shopId}/policies");
        reveal_strlit("/backend/v3/api/shops/{shopId}/policies/{policyId}");
        reveal_strlit("/backend/v3/api/shops/{shopId}/deposit_account");
        reveal_strlit("/backend/v3/api/shops/{shopId}/deposit_account/review");
        reveal_strlit("/backend/v3/api/shops/{shopId}/risk_signals");
        reveal_strlit("/backend/v3/api/shops/{shopId}/risk_signals/{riskSignalId}/resolve");
        reveal_strlit("/backend/v3/api/shops/{shopId}/submit_review");
        reveal_strlit("/backend/v3/api/shops/{shopId}/approve");
        reveal_strlit("/backend/v3/api/shops/{shopId}/reject");
        reveal_strlit("/backend/v3/api/shops/{shopId}/suspend");
        reveal_strlit("/backend/v3/api/shops/{shopId}/resume");
        reveal_strlit("/backend/v3/api/shops/{shopId}/close");
        assert(admin_path(a).len() != admin_path(b).len() || admin_path(a)[31] != admin_path(b)[31] || admin_path(a)[32] != admin_path(b)[32] || admin_path(a)[33] != admin_path(b)[33]);
    }
}

/// Every admin path template begins with `/`.
pub proof fn lemma_admin_paths_absolute(e: AdminEndpoint)
    ensures
        admin_path(e).len() > 0 && admin_path(e)[0] == '/',
{
    reveal_strlit("/backend/v3/api/shops");
    reveal_strlit("/backend/v3/api/shops/{shopId}");
    reveal_strlit("/backend/v3/api/shops/{shopId}/readiness");
    reveal_strlit("/backend/v3/api/shops/{shopId}/category_bindings");
    reveal_strlit("/backend/v3/api/shops/{shopId}/brand_authorizations");
    reveal_strlit("/backend/v3/api/shops/{shopId}/qualifications");
    reveal_strlit("/backend/v3/api/shops/{shopId}/customer_services");
    reveal_strlit("/backend/v3/api/shops/{shopId}/return_addresses");
    reveal_strlit("/backend/v3/api/shops/{shopId}/shipping_templates");
    reveal_strlit("/backend/v3/api/shops/{shopId}/verifications");
    reveal_strlit("/backend/v3/api/shops/{shopId}/verifications/{verificationId}");
    reveal_strlit("/backend/v3/api/shops/{shopId}/status_events");
    reveal_strlit("/backend/v3/api/shops/{shopId}/channels");
    reveal_strlit("/backend/v3/api/shops/{shopId}/channels/{channelId}");
    reveal_strlit("/backend/v3/api/shops/{shopId}/fulfillment_profile");
    reveal_strlit("/backend/v3/api/shops/{shopId}/settlement_profile");
    reveal_strlit("/backend/v3/api/shops/{shopId}/settlement_profile/approve");
    reveal_strlit("/backend/v3/api/shops/{shopId}/settlement_profile/reject");
    reveal_strlit("/backend/v3/api/shops/{shopId}/business_hours");
    reveal_strlit("/backend/v3/api/shops/{shopId}/service_areas");
    reveal_strlit("/backend/v3/api/shops/{shopId}/service_areas/{serviceAreaId}");
    reveal_strlit("/backend/v3/api/shops/{shopId}/policies");
    reveal_strlit("/backend/v3/api/shops/{shopId}/policies/{policyId}");
    reveal_strlit("/backend/v3/api/shops/{shopId}/deposit_account");
    reveal_strlit("/backend/v3/api/shops/{shopId}/deposit_account/review");
    reveal_strlit("/backend/v3/api/shops/{shopId}/risk_signals");
    reveal_strlit("/backend/v3/api/shops/{shopId}/risk_signals/{riskSignalId}/resolve");
    reveal_strlit("/backend/v3/api/shops/{shopId}/submit_review");
    reveal_strlit("/backend/v3/api/shops/{shopId}/approve");
    reveal_strlit("/backend/v3/api/shops/{shopId}/reject");
    reveal_strlit("/backend/v3/api/shops/{shopId}/suspend");
    reveal_strlit("/backend/v3/api/shops/{shopId}/resume");
    reveal_strlit("/backend/v3/api/shops/{shopId}/close");
}

/// The admin router registers every admin endpoint.
pub proof fn lemma_admin_routes_complete(e: AdminEndpoint)
    ensures
        admin_endpoint_list().contains(e),
{
    match e {
        AdminEndpoint::ListShops => assert(admin_endpoint_list()[0] == e),
        AdminEndpoint::CreateShop => assert(admin_endpoint_list()[1] == e),
        AdminEndpoint::RetrieveShop => assert(admin_endpoint_list()[2] == e),
        AdminEndpoint::UpdateShop => assert(admin_endpoint_list()[3] == e),
        AdminEndpoint::RetrieveReadiness => assert(admin_endpoint_list()[4] == e),
        AdminEndpoint::ListCategoryBindings => assert(admin_endpoint_list()[5] == e),
        AdminEndpoint::UpsertCategoryBindings => assert(admin_endpoint_list()[6] == e),
        AdminEndpoint::ListBrandAuthorizations => assert(admin_endpoint_list()[7] == e),
        AdminEndpoint::UpsertBrandAuthorizations => assert(admin_endpoint_list()[8] == e),
        AdminEndpoint::ListQualifications => assert(admin_endpoint_list()[9] == e),
        AdminEndpoint::UpsertQualifications => assert(admin_endpoint_list()[10] == e),
        AdminEndpoint::ListCustomerServices => assert(admin_endpoint_list()[11] == e),
        AdminEndpoint::UpsertCustomerServices => assert(admin_endpoint_list()[12] == e),
        AdminEndpoint::ListReturnAddresses => assert(admin_endpoint_list()[13] == e),
        AdminEndpoint::UpsertReturnAddresses => assert(admin_endpoint_list()[14] == e),
        AdminEndpoint::ListShippingTemplates => assert(admin_endpoint_list()[15] == e),
        AdminEndpoint::UpsertShippingTemplates => assert(admin_endpoint_list()[16] == e),
        AdminEndpoint::ListVerifications => assert(admin_endpoint_list()[17] == e),
        AdminEndpoint::UpdateVerification => assert(admin_endpoint_list()[18] == e),
        AdminEndpoint::ListStatusEvents => assert(admin_endpoint_list()[19] == e),
        AdminEndpoint::ListChannels => assert(admin_endpoint_list()[20] == e),
        AdminEndpoint::CreateChannel => assert(admin_endpoint_list()[21] == e),
        AdminEndpoint::UpdateChannel => assert(admin_endpoint_list()[22] == e),
        AdminEndpoint::RetrieveFulfillmentProfile => assert(admin_endpoint_list()[23] == e),
        AdminEndpoint::UpdateFulfillmentProfile => assert(admin_endpoint_list()[24] == e),
        AdminEndpoint::RetrieveSettlementProfile => assert(admin_endpoint_list()[25] == e),
        AdminEndpoint::UpdateSettlementProfile => assert(admin_endpoint_list()[26] == e),
        AdminEndpoint::ApproveSettlementProfile => assert(admin_endpoint_list()[27] == e),
        AdminEndpoint::RejectSettlementProfile => assert(admin_endpoint_list()[28] == e),
        AdminEndpoint::RetrieveBusinessHours => assert(admin_endpoint_list()[29] == e),
        AdminEndpoint::UpdateBusinessHours => assert(admin_endpoint_list()[30] == e),
        AdminEndpoint::ListServiceAreas => assert(admin_endpoint_list()[31] == e),
        AdminEndpoint::CreateServiceArea => assert(admin_endpoint_list()[32] == e),
        AdminEndpoint::UpdateServiceArea => assert(admin_endpoint_list()[33] == e),
        AdminEndpoint::ListPolicies => assert(admin_endpoint_list()[34] == e),
        AdminEndpoint::CreatePolicy => assert(admin_endpoint_list()[35] == e),
        AdminEndpoint::UpdatePolicy => assert(admin_endpoint_list()[36] == e),
        AdminEndpoint::RetrieveDepositAccount => assert(admin_endpoint_list()[37] == e),
        AdminEndpoint::UpdateDepositAccount => assert(admin_endpoint_list()[38] == e),
        AdminEndpoint::ReviewDepositAccount => assert(admin_endpoint_list()[39] == e),
        AdminEndpoint::ListRiskSignals => assert(admin_endpoint_list()[40] == e),
        AdminEndpoint::CreateRiskSignal => assert(admin_endpoint_list()[41] == e),
        AdminEndpoint::ResolveRiskSignal => assert(admin_endpoint_list()[42] == e),
        AdminEndpoint::SubmitReview => assert(admin_endpoint_list()[43] == e),
        AdminEndpoint::ApproveShop => assert(admin_endpoint_list()[44] == e),
        AdminEndpoint::RejectShop => assert(admin_endpoint_list()[45] == e),
        AdminEndpoint::SuspendShop => assert(admin_endpoint_list()[46] == e),
        AdminEndpoint::ResumeShop => assert(admin_endpoint_list()[47] == e),
        AdminEndpoint::CloseShop => assert(admin_endpoint_list()[48] == e),
    }
}

/// The method of an admin endpoint follows from what it does: listing and
/// reading answer `GET`; creating a row, deciding, resolving and every
/// transition answer `POST`; editing a row named in the path answers `PATCH`.
pub proof fn lemma_admin_methods(e: AdminEndpoint)
    ensures
        admin_action(e) matches AdminAction::ListRows(_) ==> admin_method(e) == HttpMethod::Get,
        admin_action(e) == AdminAction::ListShops || admin_action(e) == AdminAction::RetrieveShop
            ==> admin_method(e) == HttpMethod::Get,
        admin_action(e) matches AdminAction::WriteRow { created, .. } && created ==> admin_method(e) == HttpMethod::Post,
        admin_action(e) matches AdminAction::WriteRow { row_in_path, .. } && row_in_path ==> admin_method(e)
            == HttpMethod::Patch,
        admin_action(e) matches AdminAction::Transition(_) ==> admin_method(e) == HttpMethod::Post,
        admin_action(e) matches AdminAction::DecideSettlement(_) ==> admin_method(e) == HttpMethod::Post,
        admin_action(e) == AdminAction::ResolveRiskSignal ==> admin_method(e) == HttpMethod::Post,
        admin_action(e) == AdminAction::CreateShop ==> admin_method(e) == HttpMethod::Post,
        admin_action(e) == AdminAction::UpdateShop ==> admin_method(e) == HttpMethod::Patch,
{
}

/// A transition endpoint's path is the shop's path followed by the event
/// type the transition records (`/approve` records `approve`, and so on).
pub proof fn lemma_admin_transition_paths(e: AdminEndpoint)
    ensures
        admin_action(e) matches AdminAction::Transition(t) ==> admin_path(e) == "/backend/v3/api/shops/{shopId}/"@
            + transition_event(t),
{
    reveal_strlit("/backend/v3/api/shops/{shopId}/");
    reveal_strlit("/backend/v3/api/shops/{shopId}/submit_review");
    reveal_strlit("submit_review");
    reveal_strlit("/backend/v3/api/shops/{shopId}/approve");
    reveal_strlit("approve");
    reveal_strlit("/backend/v3/api/shops/{shopId}/reject");
    reveal_strlit("reject");
    reveal_strlit("/backend/v3/api/shops/{shopId}/suspend");
    reveal_strlit("suspend");
    reveal_strlit("/backend/v3/api/shops/{shopId}/resume");
    reveal_strlit("resume");
    reveal_strlit("/backend/v3/api/shops/{shopId}/close");
    reveal_strlit("close");
    match e {
        AdminEndpoint::SubmitReview => assert("/backend/v3/api/shops/{shopId}/submit_review"@ =~= "/backend/v3/api/shops/{shopId}/"@ + "submit_review"@),
        AdminEndpoint::ApproveShop => assert("/backend/v3/api/shops/{shopId}/approve"@ =~= "/backend/v3/api/shops/{shopId}/"@ + "approve"@),
        AdminEndpoint::RejectShop => assert("/backend/v3/api/shops/{shopId}/reject"@ =~= "/backend/v3/api/shops/{shopId}/"@ + "reject"@),
        AdminEndpoint::SuspendShop => assert("/backend/v3/api/shops/{shopId}/suspend"@ =~= "/backend/v3/api/shops/{shopId}/"@ + "suspend"@),
        AdminEndpoint::ResumeShop => assert("/backend/v3/api/shops/{shopId}/resume"@ =~= "/backend/v3/api/shops/{shopId}/"@ + "resume"@),
        AdminEndpoint::CloseShop => assert("/backend/v3/api/shops/{shopId}/close"@ =~= "/backend/v3/api/shops/{shopId}/"@ + "close"@),
        _ => {},
    }
}

/// An admin endpoint that writes a row takes the row's id from its path
/// exactly when its path template ends in a row parameter (such as
/// `{serviceAreaId}`): that id is then the written row's explicit id.
pub proof fn lemma_admin_row_ids_from_path(e: AdminEndpoint)
    ensures
        admin_action(e) matches AdminAction::WriteRow { row_in_path, .. } ==> (row_in_path <==> admin_path(e).last() == '}'),
{
    reveal_strlit("/backend/v3/api/shops");
    reveal_strlit("/backend/v3/api/shops/{shopId}");
    reveal_strlit("/backend/v3/api/shops/{shopId}/readiness");
    reveal_strlit("/backend/v3/api/shops/{shopId}/category_bindings");
    reveal_strlit("/backend/v3/api/shops/{shopId}/brand_authorizations");
    reveal_strlit("/backend/v3/api/shops/{shopId}/qualifications");
    reveal_strlit("/backend/v3/api/shops/{shopId}/customer_services");
    reveal_strlit("/backend/v3/api/shops/{shopId}/return_addresses");
    reveal_strlit("/backend/v3/api/shops/{shopId}/shipping_templates");
    reveal_strlit("/backend/v3/api/shops/{shopId}/verifications");
    reveal_strlit("/backend/v3/api/shops/{shopId}/verifications/{verificationId}");
    reveal_strlit("/backend/v3/api/shops/{shopId}/status_events");
    reveal_strlit("/backend/v3/api/shops/{shopId}/channels");
    reveal_strlit("/backend/v3/api/shops/{shopId}/channels/{channelId}");
    reveal_strlit("/backend/v3/api/shops/{shopId}/fulfillment_profile");
    reveal_strlit("/backend/v3/api/shops/{shopId}/settlement_profile");
    reveal_strlit("/backend/v3/api/shops/{shopId}/settlement_profile/approve");
    reveal_strlit("/backend/v3/api/shops/{shopId}/settlement_profile/reject");
    reveal_strlit("/backend/v3/api/shops/{shopId}/business_hours");
    reveal_strlit("/backend/v3/api/shops/{shopId}/service_areas");
    reveal_strlit("/backend/v3/api/shops/{shopId}/service_areas/{serviceAreaId}");
    reveal_strlit("/backend/v3/api/shops/{shopId}/policies");
    reveal_strlit("/backend/v3/api/shops/{shopId}/policies/{policyId}");
    reveal_strlit("/backend/v3/api/shops/{shopId}/deposit_account");
    reveal_strlit("/backend/v3/api/shops/{shopId}/deposit_account/review");
    reveal_strlit("/backend/v3/api/shops/{shopId}/risk_signals");
    reveal_strlit("/backend/v3/api/shops/{shopId}/risk_signals/{riskSignalId}/resolve");
    reveal_strlit("/backend/v3/api/shops/{shopId}/submit_review");
    reveal_strlit("/backend/v3/api/shops/{shopId}/approve");
    reveal_strlit("/backend/v3/api/shops/{shopId}/reject");
    reveal_strlit("/backend/v3/api/shops/{shopId}/suspend");
    reveal_strlit("/backend/v3/api/shops/{shopId}/resume");
    reveal_strlit("/backend/v3/api/shops/{shopId}/close");
}

/// Every row an admin endpoint writes can be read back: for each table an
/// endpoint writes, another endpoint lists that table's rows with `GET`.
pub proof fn lemma_admin_writes_listed(e: AdminEndpoint)
    ensures
        admin_action(e) matches AdminAction::WriteRow { table, .. } ==> exists|l: AdminEndpoint|
            #[trigger] admin_action(l) == AdminAction::ListRows(ListedTable::Row(table)) && admin_method(l) == HttpMethod::Get,
{
    match e {
        AdminEndpoint::UpsertCategoryBindings => assert(admin_action(AdminEndpoint::ListCategoryBindings)
            == AdminAction::ListRows(ListedTable::Row(ShopTable::CategoryBinding))),
        AdminEndpoint::UpsertBrandAuthorizations => assert(admin_action(AdminEndpoint::ListBrandAuthorizations)
            == AdminAction::ListRows(ListedTable::Row(ShopTable::BrandAuthorization))),
        AdminEndpoint::UpsertQualifications => assert(admin_action(AdminEndpoint::ListQualifications)
            == AdminAction::ListRows(ListedTable::Row(ShopTable::Qualification))),
        AdminEndpoint::UpsertCustomerServices => assert(admin_action(AdminEndpoint::ListCustomerServices)
            == AdminAction::ListRows(ListedTable::Row(ShopTable::CustomerService))),
        AdminEndpoint::UpsertReturnAddresses => assert(admin_action(AdminEndpoint::ListReturnAddresses)
            == AdminAction::ListRows(ListedTable::Row(ShopTable::ReturnAddress))),
        AdminEndpoint::UpsertShippingTemplates => assert(admin_action(AdminEndpoint::ListShippingTemplates)
            == AdminAction::ListRows(ListedTable::Row(ShopTable::ShippingTemplate))),
        AdminEndpoint::UpdateVerification => assert(admin_action(AdminEndpoint::ListVerifications)
            == AdminAction::ListRows(ListedTable::Row(ShopTable::Verification))),
        AdminEndpoint::CreateChannel => assert(admin_action(AdminEndpoint::ListChannels)
            == AdminAction::ListRows(ListedTable::Row(ShopTable::Channel))),
        AdminEndpoint::UpdateChannel => assert(admin_action(AdminEndpoint::ListChannels)
            == AdminAction::ListRows(ListedTable::Row(ShopTable::Channel))),
        AdminEndpoint::UpdateFulfillmentProfile => assert(admin_action(AdminEndpoint::RetrieveFulfillmentProfile)
            == AdminAction::ListRows(ListedTable::Row(ShopTable::FulfillmentProfile))),
        AdminEndpoint::UpdateSettlementProfile => assert(admin_action(AdminEndpoint::RetrieveSettlementProfile)
            == AdminAction::ListRows(ListedTable::Row(ShopTable::SettlementProfile))),
        AdminEndpoint::UpdateBusinessHours => assert(admin_action(AdminEndpoint::RetrieveBusinessHours)
            == AdminAction::ListRows(ListedTable::Row(ShopTable::BusinessHour))),
        AdminEndpoint::CreateServiceArea => assert(admin_action(AdminEndpoint::ListServiceAreas)
            == AdminAction::ListRows(ListedTable::Row(ShopTable::ServiceArea))),
        AdminEndpoint::UpdateServiceArea => assert(admin_action(AdminEndpoint::ListServiceAreas)
            == AdminAction::ListRows(ListedTable::Row(ShopTable::ServiceArea))),
        AdminEndpoint::CreatePolicy => assert(admin_action(AdminEndpoint::ListPolicies)
            == AdminAction::ListRows(ListedTable::Row(ShopTable::Policy))),
        AdminEndpoint::UpdatePolicy => assert(admin_action(AdminEndpoint::ListPolicies)
            == AdminAction::ListRows(ListedTable::Row(ShopTable::Policy))),
        AdminEndpoint::UpdateDepositAccount => assert(admin_action(AdminEndpoint::RetrieveDepositAccount)
            == AdminAction::ListRows(ListedTable::Row(ShopTable::DepositAccount))),
        AdminEndpoint::ReviewDepositAccount => assert(admin_action(AdminEndpoint::RetrieveDepositAccount)
            == AdminAction::ListRows(ListedTable::Row(ShopTable::DepositAccount))),
        AdminEndpoint::CreateRiskSignal => assert(admin_action(AdminEndpoint::ListRiskSignals)
            == AdminAction::ListRows(ListedTable::Row(ShopTable::RiskSignal))),
        _ => {},
    }
}

/// How an app endpoint answers a success.
#[derive(Debug, Clone, Copy, PartialEq, Eq, Structural)]
pub enum AppReply {
    /// One resource.
    Resource,
    /// One resource, newly created.
    Created,
    /// A list of resources.
    List,
    /// A page of a longer list, with its position and total.
    PagedList,
}

/// The endpoints of the shop app surface, used by a shop's own staff.
#[derive(Debug, Clone, Copy, PartialEq, Eq, Structural)]
pub enum AppEndpoint {
    ListShops,
    RetrieveShop,
    RetrieveCurrentShop,
    RetrieveCurrentDashboard,
    GetCurrentReadiness,
    ListCurrentCategoryBindings,
    UpsertCurrentCategoryBindings,
    ListCurrentBrandAuthorizations,
    UpsertCurrentBrandAuthorizations,
    ListCurrentQualifications,
    UpsertCurrentQualifications,
    ListCurrentCustomerServices,
    UpsertCurrentCustomerServices,
    ListCurrentReturnAddresses,
    UpsertCurrentReturnAddresses,
    ListCurrentShippingTemplates,
    UpsertCurrentShippingTemplates,
    GetCurrentFulfillmentProfile,
    PatchCurrentFulfillmentProfile,
    GetCurrentSettlementProfile,
    PatchCurrentSettlementProfile,
    GetCurrentBusinessHours,
    PatchCurrentBusinessHours,
    ListCurrentApplications,
    ListCurrentVerifications,
    ListCurrentStatusEvents,
    ListCurrentChannels,
    ListCurrentServiceAreas,
    ListCurrentPolicies,
    ListCurrentRiskSignals,
    PatchCurrentChannel,
    CreateCurrentServiceArea,
    PatchCurrentServiceArea,
    PatchCurrentPolicy,
    CreateCurrentApplication,
    GetCurrentDepositAccount,
    ListCurrentProducts,
    CreateCurrentProduct,
    UpdateCurrentProduct,
    PublishCurrentProduct,
    UnpublishCurrentProduct,
    ListCurrentOrders,
    RetrieveCurrentOrder,
    CreateCurrentOrderFulfillment,
    ListCurrentSettlements,
}

/// The method an app endpoint answers.
pub open spec fn app_method(e: AppEndpoint) -> HttpMethod {
    match e {
        AppEndpoint::ListShops => HttpMethod::Get,
        AppEndpoint::RetrieveShop => HttpMethod::Get,
        AppEndpoint::RetrieveCurrentShop => HttpMethod::Get,
        AppEndpoint::RetrieveCurrentDashboard => HttpMethod::Get,
        AppEndpoint::GetCurrentReadiness => HttpMethod::Get,
        AppEndpoint::ListCurrentCategoryBindings => HttpMethod::Get,
        AppEndpoint::UpsertCurrentCategoryBindings => HttpMethod::Put,
        AppEndpoint::ListCurrentBrandAuthorizations => HttpMethod::Get,
        AppEndpoint::UpsertCurrentBrandAuthorizations => HttpMethod::Put,
        AppEndpoint::ListCurrentQualifications => HttpMethod::Get,
        AppEndpoint::UpsertCurrentQualifications => HttpMethod::Put,
        AppEndpoint::ListCurrentCustomerServices => HttpMethod::Get,
        AppEndpoint::UpsertCurrentCustomerServices => HttpMethod::Put,
        AppEndpoint::ListCurrentReturnAddresses => HttpMethod::Get,
        AppEndpoint::UpsertCurrentReturnAddresses => HttpMethod::Put,
        AppEndpoint::ListCurrentShippingTemplates => HttpMethod::Get,
        AppEndpoint::UpsertCurrentShippingTemplates => HttpMethod::Put,
        AppEndpoint::GetCurrentFulfillmentProfile => HttpMethod::Get,
        AppEndpoint::PatchCurrentFulfillmentProfile => HttpMethod::Patch,
        AppEndpoint::GetCurrentSettlementProfile => HttpMethod::Get,
        AppEndpoint::PatchCurrentSettlementProfile => HttpMethod::Patch,
        AppEndpoint::GetCurrentBusinessHours => HttpMethod::Get,
        AppEndpoint::PatchCurrentBusinessHours => HttpMethod::Patch,
        AppEndpoint::ListCurrentApplications => HttpMethod::Get,
        AppEndpoint::ListCurrentVerifications => HttpMethod::Get,
        AppEndpoint::ListCurrentStatusEvents => HttpMethod::Get,
        AppEndpoint::ListCurrentChannels => HttpMethod::Get,
        AppEndpoint::ListCurrentServiceAreas => HttpMethod::Get,
        AppEndpoint::ListCurrentPolicies => HttpMethod::Get,
        AppEndpoint::ListCurrentRiskSignals => HttpMethod::Get,
        AppEndpoint::PatchCurrentChannel => HttpMethod::Patch,
        AppEndpoint::CreateCurrentServiceArea => HttpMethod::Post,
        AppEndpoint::PatchCurrentServiceArea => HttpMethod::Patch,
        AppEndpoint::PatchCurrentPolicy => HttpMethod::Patch,
        AppEndpoint::CreateCurrentApplication => HttpMethod::Post,
        AppEndpoint::GetCurrentDepositAccount => HttpMethod::Get,
        AppEndpoint::ListCurrentProducts => HttpMethod::Get,
        AppEndpoint::CreateCurrentProduct => HttpMethod::Post,
        AppEndpoint::UpdateCurrentProduct => HttpMethod::Patch,
        AppEndpoint::PublishCurrentProduct => HttpMethod::Post,
        AppEndpoint::UnpublishCurrentProduct => HttpMethod::Post,
        AppEndpoint::ListCurrentOrders => HttpMethod::Get,
        AppEndpoint::RetrieveCurrentOrder => HttpMethod::Get,
        AppEndpoint::CreateCurrentOrderFulfillment => HttpMethod::Post,
        AppEndpoint::ListCurrentSettlements => HttpMethod::Get,
    }
}

/// The path template an app endpoint answers.
pub open spec fn app_path(e: AppEndpoint) -> Seq<char> {
    match e {
        AppEndpoint::ListShops => "/app/v3/api/shops"@,
        AppEndpoint::RetrieveShop => "/app/v3/api/shops/{shopId}"@,
        AppEndpoint::RetrieveCurrentShop => "/app/v3/api/shops/current"@,
        AppEndpoint::RetrieveCurrentDashboard => "/app/v3/api/shops/current/dashboard"@,
        AppEndpoint::GetCurrentReadiness => "/app/v3/api/shops/current/readiness"@,
        AppEndpoint::ListCurrentCategoryBindings => "/app/v3/api/shops/current/category_bindings"@,
        AppEndpoint::UpsertCurrentCategoryBindings => "/app/v3/api/shops/current/category_bindings"@,
        AppEndpoint::ListCurrentBrandAuthorizations => "/app/v3/api/shops/current/brand_authorizations"@,
        AppEndpoint::UpsertCurrentBrandAuthorizations => "/app/v3/api/shops/current/brand_authorizations"@,
        AppEndpoint::ListCurrentQualifications => "/app/v3/api/shops/current/qualifications"@,
        AppEndpoint::UpsertCurrentQualifications => "/app/v3/api/shops/current/qualifications"@,
        AppEndpoint::ListCurrentCustomerServices => "/app/v3/api/shops/current/customer_services"@,
        AppEndpoint::UpsertCurrentCustomerServices => "/app/v3/api/shops/current/customer_services"@,
        AppEndpoint::ListCurrentReturnAddresses => "/app/v3/api/shops/current/return_addresses"@,
        AppEndpoint::UpsertCurrentReturnAddresses => "/app/v3/api/shops/current/return_addresses"@,
        AppEndpoint::ListCurrentShippingTemplates => "/app/v3/api/shops/current/shipping_templates"@,
        AppEndpoint::UpsertCurrentShippingTemplates => "/app/v3/api/shops/current/shipping_templates"@,
        AppEndpoint::GetCurrentFulfillmentProfile => "/app/v3/api/shops/current/fulfillment_profile"@,
        AppEndpoint::PatchCurrentFulfillmentProfile => "/app/v3/api/shops/current/fulfillment_profile"@,
        AppEndpoint::GetCurrentSettlementProfile => "/app/v3/api/shops/current/settlement_profile"@,
        AppEndpoint::PatchCurrentSettlementProfile => "/app/v3/api/shops/current/settlement_profile"@,
        AppEndpoint::GetCurrentBusinessHours => "/app/v3/api/shops/current/business_hours"@,
        AppEndpoint::PatchCurrentBusinessHours => "/app/v3/api/shops/current/business_hours"@,
        AppEndpoint::ListCurrentApplications => "/app/v3/api/shops/current/applications"@,
        AppEndpoint::ListCurrentVerifications => "/app/v3/api/shops/current/verifications"@,
        AppEndpoint::ListCurrentStatusEvents => "/app/v3/api/shops/current/status_events"@,
        AppEndpoint::ListCurrentChannels => "/app/v3/api/shops/current/channels"@,
        AppEndpoint::ListCurrentServiceAreas => "/app/v3/api/shops/current/service_areas"@,
        AppEndpoint::ListCurrentPolicies => "/app/v3/api/shops/current/policies"@,
        AppEndpoint::ListCurrentRiskSignals => "/app/v3/api/shops/current/risk_signals"@,
        AppEndpoint::PatchCurrentChannel => "/app/v3/api/shops/current/channels/{channelId}"@,
        AppEndpoint::CreateCurrentServiceArea => "/app/v3/api/shops/current/service_areas"@,
        AppEndpoint::PatchCurrentServiceArea => "/app/v3/api/shops/current/service_areas/{serviceAreaId}"@,
        AppEndpoint::PatchCurrentPolicy => "/app/v3/api/shops/current/policies/{policyId}"@,
        AppEndpoint::CreateCurrentApplication => "/app/v3/api/shops/current/applications"@,
        AppEndpoint::GetCurrentDepositAccount => "/app/v3/api/shops/current/deposit_account"@,
        AppEndpoint::ListCurrentProducts => "/app/v3/api/shops/current/products"@,
        AppEndpoint::CreateCurrentProduct => "/app/v3/api/shops/current/products"@,
        AppEndpoint::UpdateCurrentProduct => "/app/v3/api/shops/current/products/{productId}"@,
        AppEndpoint::PublishCurrentProduct => "/app/v3/api/shops/current/products/{productId}/publish"@,
        AppEndpoint::UnpublishCurrentProduct => "/app/v3/api/shops/current/products/{productId}/unpublish"@,
        AppEndpoint::ListCurrentOrders => "/app/v3/api/shops/current/orders"@,
        AppEndpoint::RetrieveCurrentOrder => "/app/v3/api/shops/current/orders/{orderId}"@,
        AppEndpoint::CreateCurrentOrderFulfillment => "/app/v3/api/shops/current/orders/{orderId}/fulfillments"@,
        AppEndpoint::ListCurrentSettlements => "/app/v3/api/shops/current/settlements"@,
    }
}

/// How an app endpoint answers a success.
pub open spec fn app_reply(e: AppEndpoint) -> AppReply {
    match e {
        AppEndpoint::ListShops => AppReply::PagedList,
        AppEndpoint::RetrieveShop => AppReply::Resource,
        AppEndpoint::RetrieveCurrentShop => AppReply::Resource,
        AppEndpoint::RetrieveCurrentDashboard => AppReply::Resource,
        AppEndpoint::GetCurrentReadiness => AppReply::Resource,
        AppEndpoint::ListCurrentCategoryBindings => AppReply::List,
        AppEndpoint::UpsertCurrentCategoryBindings => AppReply::Resource,
        AppEndpoint::ListCurrentBrandAuthorizations => AppReply::List,
        AppEndpoint::UpsertCurrentBrandAuthorizations => AppReply::Resource,
        AppEndpoint::ListCurrentQualifications => AppReply::List,
        AppEndpoint::UpsertCurrentQualifications => AppReply::Resource,
        AppEndpoint::ListCurrentCustomerServices => AppReply::List,
        AppEndpoint::UpsertCurrentCustomerServices => AppReply::Resource,
        AppEndpoint::ListCurrentReturnAddresses => AppReply::List,
        AppEndpoint::UpsertCurrentReturnAddresses => AppReply::Resource,
        AppEndpoint::ListCurrentShippingTemplates => AppReply::List,
        AppEndpoint::UpsertCurrentShippingTemplates => AppReply::Resource,
        AppEndpoint::GetCurrentFulfillmentProfile => AppReply::Resource,
        AppEndpoint::PatchCurrentFulfillmentProfile => AppReply::Resource,
        AppEndpoint::GetCurrentSettlementProfile => AppReply::Resource,
        AppEndpoint::PatchCurrentSettlementProfile => AppReply::Resource,
        AppEndpoint::GetCurrentBusinessHours => AppReply::Resource,
        AppEndpoint::PatchCurrentBusinessHours => AppReply::Resource,
        AppEndpoint::ListCurrentApplications => AppReply::List,
        AppEndpoint::ListCurrentVerifications => AppReply::List,
        AppEndpoint::ListCurrentStatusEvents => AppReply::List,
        AppEndpoint::ListCurrentChannels => AppReply::List,
        AppEndpoint::ListCurrentServiceAreas => AppReply::List,
        AppEndpoint::ListCurrentPolicies => AppReply::List,
        AppEndpoint::ListCurrentRiskSignals => AppReply::List,
        AppEndpoint::PatchCurrentChannel => AppReply::Resource,
        AppEndpoint::CreateCurrentServiceArea => AppReply::Created,
        AppEndpoint::PatchCurrentServiceArea => AppReply::Resource,
        AppEndpoint::PatchCurrentPolicy => AppReply::Resource,
        AppEndpoint::CreateCurrentApplication => AppReply::Created,
        AppEndpoint::GetCurrentDepositAccount => AppReply::Resource,
        AppEndpoint::ListCurrentProducts => AppReply::PagedList,
        AppEndpoint::CreateCurrentProduct => AppReply::Created,
        AppEndpoint::UpdateCurrentProduct => AppReply::Resource,
        AppEndpoint::PublishCurrentProduct => AppReply::Resource,
        AppEndpoint::UnpublishCurrentProduct => AppReply::Resource,
        AppEndpoint::ListCurrentOrders => AppReply::PagedList,
        AppEndpoint::RetrieveCurrentOrder => AppReply::Resource,
        AppEndpoint::CreateCurrentOrderFulfillment => AppReply::Created,
        AppEndpoint::ListCurrentSettlements => AppReply::PagedList,
    }
}

/// The message an app endpoint answers with when storage fails.
pub open spec fn app_failure_message(e: AppEndpoint) -> Seq<char> {
    match e {
        AppEndpoint::ListShops => "shop list is unavailable"@,
        AppEndpoint::RetrieveShop => "shop read model is unavailable"@,
        AppEndpoint::RetrieveCurrentShop => "shop read model is unavailable"@,
        AppEndpoint::RetrieveCurrentDashboard => "shop dashboard is unavailable"@,
        AppEndpoint::GetCurrentReadiness => "shop read model is unavailable"@,
        AppEndpoint::ListCurrentCategoryBindings => "shop read model is unavailable"@,
        AppEndpoint::UpsertCurrentCategoryBindings => "shop write model is unavailable"@,
        AppEndpoint::ListCurrentBrandAuthorizations => "shop read model is unavailable"@,
        AppEndpoint::UpsertCurrentBrandAuthorizations => "shop write model is unavailable"@,
        AppEndpoint::ListCurrentQualifications => "shop read model is unavailable"@,
        AppEndpoint::UpsertCurrentQualifications => "shop write model is unavailable"@,
        AppEndpoint::ListCurrentCustomerServices => "shop read model is unavailable"@,
        AppEndpoint::UpsertCurrentCustomerServices => "shop write model is unavailable"@,
        AppEndpoint::ListCurrentReturnAddresses => "shop read model is unavailable"@,
        AppEndpoint::UpsertCurrentReturnAddresses => "shop write model is unavailable"@,
        AppEndpoint::ListCurrentShippingTemplates => "shop read model is unavailable"@,
        AppEndpoint::UpsertCurrentShippingTemplates => "shop write model is unavailable"@,
        AppEndpoint::GetCurrentFulfillmentProfile => "shop read model is unavailable"@,
        AppEndpoint::PatchCurrentFulfillmentProfile => "shop write model is unavailable"@,
        AppEndpoint::GetCurrentSettlementProfile => "shop read model is unavailable"@,
        AppEndpoint::PatchCurrentSettlementProfile => "shop write model is unavailable"@,
        AppEndpoint::GetCurrentBusinessHours => "shop read model is unavailable"@,
        AppEndpoint::PatchCurrentBusinessHours => "shop write model is unavailable"@,
        AppEndpoint::ListCurrentApplications => "shop read model is unavailable"@,
        AppEndpoint::ListCurrentVerifications => "shop read model is unavailable"@,
        AppEndpoint::ListCurrentStatusEvents => "shop read model is unavailable"@,
        AppEndpoint::ListCurrentChannels => "shop read model is unavailable"@,
        AppEndpoint::ListCurrentServiceAreas => "shop read model is unavailable"@,
        AppEndpoint::ListCurrentPolicies => "shop read model is unavailable"@,
        AppEndpoint::ListCurrentRiskSignals => "shop read model is unavailable"@,
        AppEndpoint::PatchCurrentChannel => "shop write model is unavailable"@,
        AppEndpoint::CreateCurrentServiceArea => "shop create model is unavailable"@,
        AppEndpoint::PatchCurrentServiceArea => "shop write model is unavailable"@,
        AppEndpoint::PatchCurrentPolicy => "shop write model is unavailable"@,
        AppEndpoint::CreateCurrentApplication => "shop create model is unavailable"@,
        AppEndpoint::GetCurrentDepositAccount => "shop read model is unavailable"@,
        AppEndpoint::ListCurrentProducts => "shop products are unavailable"@,
        AppEndpoint::CreateCurrentProduct => "shop product create is unavailable"@,
        AppEndpoint::UpdateCurrentProduct => "shop product update is unavailable"@,
        AppEndpoint::PublishCurrentProduct => "shop product publish is unavailable"@,
        AppEndpoint::UnpublishCurrentProduct => "shop product unpublish is unavailable"@,
        AppEndpoint::ListCurrentOrders => "shop orders are unavailable"@,
        AppEndpoint::RetrieveCurrentOrder => "shop orders are unavailable"@,
        AppEndpoint::CreateCurrentOrderFulfillment => "shop create model is unavailable"@,
        AppEndpoint::ListCurrentSettlements => "shop settlements are unavailable"@,
    }
}

/// The message an app endpoint answers with when what it reads does not exist,
/// for the endpoints that read one resource that may be missing.
pub open spec fn app_missing_message(e: AppEndpoint) -> Option<Seq<char>> {
    match e {
        AppEndpoint::ListShops => None,
        AppEndpoint::RetrieveShop => Some("shop was not found"@),
        AppEndpoint::RetrieveCurrentShop => Some("current shop was not found"@),
        AppEndpoint::RetrieveCurrentDashboard => None,
        AppEndpoint::GetCurrentReadiness => Some("shop resource was not found"@),
        AppEndpoint::ListCurrentCategoryBindings => None,
        AppEndpoint::UpsertCurrentCategoryBindings => None,
        AppEndpoint::ListCurrentBrandAuthorizations => None,
        AppEndpoint::UpsertCurrentBrandAuthorizations => None,
        AppEndpoint::ListCurrentQualifications => None,
        AppEndpoint::UpsertCurrentQualifications => None,
        AppEndpoint::ListCurrentCustomerServices => None,
        AppEndpoint::UpsertCurrentCustomerServices => None,
        AppEndpoint::ListCurrentReturnAddresses => None,
        AppEndpoint::UpsertCurrentReturnAddresses => None,
        AppEndpoint::ListCurrentShippingTemplates => None,
        AppEndpoint::UpsertCurrentShippingTemplates => None,
        AppEndpoint::GetCurrentFulfillmentProfile => Some("shop resource was not found"@),
        AppEndpoint::PatchCurrentFulfillmentProfile => None,
        AppEndpoint::GetCurrentSettlementProfile => Some("shop resource was not found"@),
        AppEndpoint::PatchCurrentSettlementProfile => None,
        AppEndpoint::GetCurrentBusinessHours => Some("shop resource was not found"@),
        AppEndpoint::PatchCurrentBusinessHours => None,
        AppEndpoint::ListCurrentApplications => None,
        AppEndpoint::ListCurrentVerifications => None,
        AppEndpoint::ListCurrentStatusEvents => None,
        AppEndpoint::ListCurrentChannels => None,
        AppEndpoint::ListCurrentServiceAreas => None,
        AppEndpoint::ListCurrentPolicies => None,
        AppEndpoint::ListCurrentRiskSignals => None,
        AppEndpoint::PatchCurrentChannel => None,
        AppEndpoint::CreateCurrentServiceArea => None,
        AppEndpoint::PatchCurrentServiceArea => None,
        AppEndpoint::PatchCurrentPolicy => None,
        AppEndpoint::CreateCurrentApplication => None,
        AppEndpoint::GetCurrentDepositAccount => Some("shop resource was not found"@),
        AppEndpoint::ListCurrentProducts => None,
        AppEndpoint::CreateCurrentProduct => None,
        AppEndpoint::UpdateCurrentProduct => None,
        AppEndpoint::PublishCurrentProduct => None,
        AppEndpoint::UnpublishCurrentProduct => None,
        AppEndpoint::ListCurrentOrders => None,
        AppEndpoint::RetrieveCurrentOrder => Some("shop order was not found"@),
        AppEndpoint::CreateCurrentOrderFulfillment => None,
        AppEndpoint::ListCurrentSettlements => None,
    }
}

/// Whether an app endpoint requires a JSON body.
pub open spec fn app_reads_body(e: AppEndpoint) -> bool {
    match e {
        AppEndpoint::ListShops => false,
        AppEndpoint::RetrieveShop => false,
        AppEndpoint::RetrieveCurrentShop => false,
        AppEndpoint::RetrieveCurrentDashboard => false,
        AppEndpoint::GetCurrentReadiness => false,
        AppEndpoint::ListCurrentCategoryBindings => false,
        AppEndpoint::UpsertCurrentCategoryBindings => true,
        AppEndpoint::ListCurrentBrandAuthorizations => false,
        AppEndpoint::UpsertCurrentBrandAuthorizations => true,
        AppEndpoint::ListCurrentQualifications => false,
        AppEndpoint::UpsertCurrentQualifications => true,
        AppEndpoint::ListCurrentCustomerServices => false,
        AppEndpoint::UpsertCurrentCustomerServices => true,
        AppEndpoint::ListCurrentReturnAddresses => false,
        AppEndpoint::UpsertCurrentReturnAddresses => true,
        AppEndpoint::ListCurrentShippingTemplates => false,
        AppEndpoint::UpsertCurrentShippingTemplates => true,
        AppEndpoint::GetCurrentFulfillmentProfile => false,
        AppEndpoint::PatchCurrentFulfillmentProfile => true,
        AppEndpoint::GetCurrentSettlementProfile => false,
        AppEndpoint::PatchCurrentSettlementProfile => true,
        AppEndpoint::GetCurrentBusinessHours => false,
        AppEndpoint::PatchCurrentBusinessHours => true,
        AppEndpoint::ListCurrentApplications => false,
        AppEndpoint::ListCurrentVerifications => false,
        AppEndpoint::ListCurrentStatusEvents => false,
        AppEndpoint::ListCurrentChannels => false,
        AppEndpoint::ListCurrentServiceAreas => false,
        AppEndpoint::ListCurrentPolicies => false,
        AppEndpoint::ListCurrentRiskSignals => false,
        AppEndpoint::PatchCurrentChannel => true,
        AppEndpoint::CreateCurrentServiceArea => true,
        AppEndpoint::PatchCurrentServiceArea => true,
        AppEndpoint::PatchCurrentPolicy => true,
        AppEndpoint::CreateCurrentApplication => true,
        AppEndpoint::GetCurrentDepositAccount => false,
        AppEndpoint::ListCurrentProducts => false,
        AppEndpoint::CreateCurrentProduct => true,
        AppEndpoint::UpdateCurrentProduct => true,
        AppEndpoint::PublishCurrentProduct => false,
        AppEndpoint::UnpublishCurrentProduct => false,
        AppEndpoint::ListCurrentOrders => false,
        AppEndpoint::RetrieveCurrentOrder => false,
        AppEndpoint::CreateCurrentOrderFulfillment => true,
        AppEndpoint::ListCurrentSettlements => false,
    }
}

/// Whether an app endpoint writes the row named in its path, whose id then
/// replaces the body's `id` member.
pub open spec fn app_row_in_path(e: AppEndpoint) -> bool {
    match e {
        AppEndpoint::ListShops => false,
        AppEndpoint::RetrieveShop => false,
        AppEndpoint::RetrieveCurrentShop => false,
        AppEndpoint::RetrieveCurrentDashboard => false,
        AppEndpoint::GetCurrentReadiness => false,
        AppEndpoint::ListCurrentCategoryBindings => false,
        AppEndpoint::UpsertCurrentCategoryBindings => false,
        AppEndpoint::ListCurrentBrandAuthorizations => false,
        AppEndpoint::UpsertCurrentBrandAuthorizations => false,
        AppEndpoint::ListCurrentQualifications => false,
        AppEndpoint::UpsertCurrentQualifications => false,
        AppEndpoint::ListCurrentCustomerServices => false,
        AppEndpoint::UpsertCurrentCustomerServices => false,
        AppEndpoint::ListCurrentReturnAddresses => false,
        AppEndpoint::UpsertCurrentReturnAddresses => false,
        AppEndpoint::ListCurrentShippingTemplates => false,
        AppEndpoint::UpsertCurrentShippingTemplates => false,
        AppEndpoint::GetCurrentFulfillmentProfile => false,
        AppEndpoint::PatchCurrentFulfillmentProfile => false,
        AppEndpoint::GetCurrentSettlementProfile => false,
        AppEndpoint::PatchCurrentSettlementProfile => false,
        AppEndpoint::GetCurrentBusinessHours => false,
        AppEndpoint::PatchCurrentBusinessHours => false,
        AppEndpoint::ListCurrentApplications => false,
        AppEndpoint::ListCurrentVerifications => false,
        AppEndpoint::ListCurrentStatusEvents => false,
        AppEndpoint::ListCurrentChannels => false,
        AppEndpoint::ListCurrentServiceAreas => false,
        AppEndpoint::ListCurrentPolicies => false,
        AppEndpoint::ListCurrentRiskSignals => false,
        AppEndpoint::PatchCurrentChannel => true,
        AppEndpoint::CreateCurrentServiceArea => false,
        AppEndpoint::PatchCurrentServiceArea => true,
        AppEndpoint::PatchCurrentPolicy => true,
        AppEndpoint::CreateCurrentApplication => false,
        AppEndpoint::GetCurrentDepositAccount => false,
        AppEndpoint::ListCurrentProducts => false,
        AppEndpoint::CreateCurrentProduct => false,
        AppEndpoint::UpdateCurrentProduct => false,
        AppEndpoint::PublishCurrentProduct => false,
        AppEndpoint::UnpublishCurrentProduct => false,
        AppEndpoint::ListCurrentOrders => false,
        AppEndpoint::RetrieveCurrentOrder => false,
        AppEndpoint::CreateCurrentOrderFulfillment => false,
        AppEndpoint::ListCurrentSettlements => false,
    }
}

/// Every app endpoint, in the order the router registers them.
pub open spec fn app_endpoint_list() -> Seq<AppEndpoint> {
    seq![
        AppEndpoint::ListShops,
        AppEndpoint::RetrieveShop,
        AppEndpoint::RetrieveCurrentShop,
        AppEndpoint::RetrieveCurrentDashboard,
        AppEndpoint::GetCurrentReadiness,
        AppEndpoint::ListCurrentCategoryBindings,
        AppEndpoint::UpsertCurrentCategoryBindings,
        AppEndpoint::ListCurrentBrandAuthorizations,
        AppEndpoint::UpsertCurrentBrandAuthorizations,
        AppEndpoint::ListCurrentQualifications,
        AppEndpoint::UpsertCurrentQualifications,
        AppEndpoint::ListCurrentCustomerServices,
        AppEndpoint::UpsertCurrentCustomerServices,
        AppEndpoint::ListCurrentReturnAddresses,
        AppEndpoint::UpsertCurrentReturnAddresses,
        AppEndpoint::ListCurrentShippingTemplates,
        AppEndpoint::UpsertCurrentShippingTemplates,
        AppEndpoint::GetCurrentFulfillmentProfile,
        AppEndpoint::PatchCurrentFulfillmentProfile,
        AppEndpoint::GetCurrentSettlementProfile,
        AppEndpoint::PatchCurrentSettlementProfile,
        AppEndpoint::GetCurrentBusinessHours,
        AppEndpoint::PatchCurrentBusinessHours,
        AppEndpoint::ListCurrentApplications,
        AppEndpoint::ListCurrentVerifications,
        AppEndpoint::ListCurrentStatusEvents,
        AppEndpoint::ListCurrentChannels,
        AppEndpoint::ListCurrentServiceAreas,
        AppEndpoint::ListCurrentPolicies,
        AppEndpoint::ListCurrentRiskSignals,
        AppEndpoint::PatchCurrentChannel,
        AppEndpoint::CreateCurrentServiceArea,
        AppEndpoint::PatchCurrentServiceArea,
        AppEndpoint::PatchCurrentPolicy,
        AppEndpoint::CreateCurrentApplication,
        AppEndpoint::GetCurrentDepositAccount,
        AppEndpoint::ListCurrentProducts,
        AppEndpoint::CreateCurrentProduct,
        AppEndpoint::UpdateCurrentProduct,
        AppEndpoint::PublishCurrentProduct,
        AppEndpoint::UnpublishCurrentProduct,
        AppEndpoint::ListCurrentOrders,
        AppEndpoint::RetrieveCurrentOrder,
        AppEndpoint::CreateCurrentOrderFulfillment,
        AppEndpoint::ListCurrentSettlements,
    ]
}

impl AppEndpoint {
    /// The method the endpoint answers.
    pub fn method(self) -> (r: HttpMethod)
        ensures
            r == app_method(self),
    {
        match self {
            AppEndpoint::ListShops => HttpMethod::Get,
            AppEndpoint::RetrieveShop => HttpMethod::Get,
            AppEndpoint::RetrieveCurrentShop => HttpMethod::Get,
            AppEndpoint::RetrieveCurrentDashboard => HttpMethod::Get,
            AppEndpoint::GetCurrentReadiness => HttpMethod::Get,
            AppEndpoint::ListCurrentCategoryBindings => HttpMethod::Get,
            AppEndpoint::UpsertCurrentCategoryBindings => HttpMethod::Put,
            AppEndpoint::ListCurrentBrandAuthorizations => HttpMethod::Get,
            AppEndpoint::UpsertCurrentBrandAuthorizations => HttpMethod::Put,
            AppEndpoint::ListCurrentQualifications => HttpMethod::Get,
            AppEndpoint::UpsertCurrentQualifications => HttpMethod::Put,
            AppEndpoint::ListCurrentCustomerServices => HttpMethod::Get,
            AppEndpoint::UpsertCurrentCustomerServices => HttpMethod::Put,
            AppEndpoint::ListCurrentReturnAddresses => HttpMethod::Get,
            AppEndpoint::UpsertCurrentReturnAddresses => HttpMethod::Put,
            AppEndpoint::ListCurrentShippingTemplates => HttpMethod::Get,
            AppEndpoint::UpsertCurrentShippingTemplates => HttpMethod::Put,
            AppEndpoint::GetCurrentFulfillmentProfile => HttpMethod::Get,
            AppEndpoint::PatchCurrentFulfillmentProfile => HttpMethod::Patch,
            AppEndpoint::GetCurrentSettlementProfile => HttpMethod::Get,
            AppEndpoint::PatchCurrentSettlementProfile => HttpMethod::Patch,
            AppEndpoint::GetCurrentBusinessHours => HttpMethod::Get,
            AppEndpoint::PatchCurrentBusinessHours => HttpMethod::Patch,
            AppEndpoint::ListCurrentApplications => HttpMethod::Get,
            AppEndpoint::ListCurrentVerifications => HttpMethod::Get,
            AppEndpoint::ListCurrentStatusEvents => HttpMethod::Get,
            AppEndpoint::ListCurrentChannels => HttpMethod::Get,
            AppEndpoint::ListCurrentServiceAreas => HttpMethod::Get,
            AppEndpoint::ListCurrentPolicies => HttpMethod::Get,
            AppEndpoint::ListCurrentRiskSignals => HttpMethod::Get,
            AppEndpoint::PatchCurrentChannel => HttpMethod::Patch,
            AppEndpoint::CreateCurrentServiceArea => HttpMethod::Post,
            AppEndpoint::PatchCurrentServiceArea => HttpMethod::Patch,
            AppEndpoint::PatchCurrentPolicy => HttpMethod::Patch,
            AppEndpoint::CreateCurrentApplication => HttpMethod::Post,
            AppEndpoint::GetCurrentDepositAccount => HttpMethod::Get,
            AppEndpoint::ListCurrentProducts => HttpMethod::Get,
            AppEndpoint::CreateCurrentProduct => HttpMethod::Post,
            AppEndpoint::UpdateCurrentProduct => HttpMethod::Patch,
            AppEndpoint::PublishCurrentProduct => HttpMethod::Post,
            AppEndpoint::UnpublishCurrentProduct => HttpMethod::Post,
            AppEndpoint::ListCurrentOrders => HttpMethod::Get,
            AppEndpoint::RetrieveCurrentOrder => HttpMethod::Get,
            AppEndpoint::CreateCurrentOrderFulfillment => HttpMethod::Post,
            AppEndpoint::ListCurrentSettlements => HttpMethod::Get,
        }
    }

    /// The path template the endpoint answers.
    pub fn path(self) -> (r: &'static str)
        ensures
            r@ == app_path(self),
    {
        match self {
            AppEndpoint::ListShops => "/app/v3/api/shops",
            AppEndpoint::RetrieveShop => "/app/v3/api/shops/{shopId}",
            AppEndpoint::RetrieveCurrentShop => "/app/v3/api/shops/current",
            AppEndpoint::RetrieveCurrentDashboard => "/app/v3/api/shops/current/dashboard",
            AppEndpoint::GetCurrentReadiness => "/app/v3/api/shops/current/readiness",
            AppEndpoint::ListCurrentCategoryBindings => "/app/v3/api/shops/current/category_bindings",
            AppEndpoint::UpsertCurrentCategoryBindings => "/app/v3/api/shops/current/category_bindings",
            AppEndpoint::ListCurrentBrandAuthorizations => "/app/v3/api/shops/current/brand_authorizations",
            AppEndpoint::UpsertCurrentBrandAuthorizations => "/app/v3/api/shops/current/brand_authorizations",
            AppEndpoint::ListCurrentQualifications => "/app/v3/api/shops/current/qualifications",
            AppEndpoint::UpsertCurrentQualifications => "/app/v3/api/shops/current/qualifications",
            AppEndpoint::ListCurrentCustomerServices => "/app/v3/api/shops/current/customer_services",
            AppEndpoint::UpsertCurrentCustomerServices => "/app/v3/api/shops/current/customer_services",
            AppEndpoint::ListCurrentReturnAddresses => "/app/v3/api/shops/current/return_addresses",
            AppEndpoint::UpsertCurrentReturnAddresses => "/app/v3/api/shops/current/return_addresses",
            AppEndpoint::ListCurrentShippingTemplates => "/app/v3/api/shops/current/shipping_templates",
            AppEndpoint::UpsertCurrentShippingTemplates => "/app/v3/api/shops/current/shipping_templates",
            AppEndpoint::GetCurrentFulfillmentProfile => "/app/v3/api/shops/current/fulfillment_profile",
            AppEndpoint::PatchCurrentFulfillmentProfile => "/app/v3/api/shops/current/fulfillment_profile",
            AppEndpoint::GetCurrentSettlementProfile => "/app/v3/api/shops/current/settlement_profile",
            AppEndpoint::PatchCurrentSettlementProfile => "/app/v3/api/shops/current/settlement_profile",
            AppEndpoint::GetCurrentBusinessHours => "/app/v3/api/shops/current/business_hours",
            AppEndpoint::PatchCurrentBusinessHours => "/app/v3/api/shops/current/business_hours",
            AppEndpoint::ListCurrentApplications => "/app/v3/api/shops/current/applications",
            AppEndpoint::ListCurrentVerifications => "/app/v3/api/shops/current/verifications",
            AppEndpoint::ListCurrentStatusEvents => "/app/v3/api/shops/current/status_events",
            AppEndpoint::ListCurrentChannels => "/app/v3/api/shops/current/channels",
            AppEndpoint::ListCurrentServiceAreas => "/app/v3/api/shops/current/service_areas",
            AppEndpoint::ListCurrentPolicies => "/app/v3/api/shops/current/policies",
            AppEndpoint::ListCurrentRiskSignals => "/app/v3/api/shops/current/risk_signals",
            AppEndpoint::PatchCurrentChannel => "/app/v3/api/shops/current/channels/{channelId}",
            AppEndpoint::CreateCurrentServiceArea => "/app/v3/api/shops/current/service_areas",
            AppEndpoint::PatchCurrentServiceArea => "/app/v3/api/shops/current/service_areas/{serviceAreaId}",
            AppEndpoint::PatchCurrentPolicy => "/app/v3/api/shops/current/policies/{policyId}",
            AppEndpoint::CreateCurrentApplication => "/app/v3/api/shops/current/applications",
            AppEndpoint::GetCurrentDepositAccount => "/app/v3/api/shops/current/deposit_account",
            AppEndpoint::ListCurrentProducts => "/app/v3/api/shops/current/products",
            AppEndpoint::CreateCurrentProduct => "/app/v3/api/shops/current/products",
            AppEndpoint::UpdateCurrentProduct => "/app/v3/api/shops/current/products/{productId}",
            AppEndpoint::PublishCurrentProduct => "/app/v3/api/shops/current/products/{productId}/publish",
            AppEndpoint::UnpublishCurrentProduct => "/app/v3/api/shops/current/products/{productId}/unpublish",
            AppEndpoint::ListCurrentOrders => "/app/v3/api/shops/current/orders",
            AppEndpoint::RetrieveCurrentOrder => "/app/v3/api/shops/current/orders/{orderId}",
            AppEndpoint::CreateCurrentOrderFulfillment => "/app/v3/api/shops/current/orders/{orderId}/fulfillments",
            AppEndpoint::ListCurrentSettlements => "/app/v3/api/shops/current/settlements",
        }
    }

    /// How the endpoint answers a success.
    pub fn reply(self) -> (r: AppReply)
        ensures
            r == app_reply(self),
    {
        match self {
            AppEndpoint::ListShops => AppReply::PagedList,
            AppEndpoint::RetrieveShop => AppReply::Resource,
            AppEndpoint::RetrieveCurrentShop => AppReply::Resource,
            AppEndpoint::RetrieveCurrentDashboard => AppReply::Resource,
            AppEndpoint::GetCurrentReadiness => AppReply::Resource,
            AppEndpoint::ListCurrentCategoryBindings => AppReply::List,
            AppEndpoint::UpsertCurrentCategoryBindings => AppReply::Resource,
            AppEndpoint::ListCurrentBrandAuthorizations => AppReply::List,
            AppEndpoint::UpsertCurrentBrandAuthorizations => AppReply::Resource,
            AppEndpoint::ListCurrentQualifications => AppReply::List,
            AppEndpoint::UpsertCurrentQualifications => AppReply::Resource,
            AppEndpoint::ListCurrentCustomerServices => AppReply::List,
            AppEndpoint::UpsertCurrentCustomerServices => AppReply::Resource,
            AppEndpoint::ListCurrentReturnAddresses => AppReply::List,
            AppEndpoint::UpsertCurrentReturnAddresses => AppReply::Resource,
            AppEndpoint::ListCurrentShippingTemplates => AppReply::List,
            AppEndpoint::UpsertCurrentShippingTemplates => AppReply::Resource,
            AppEndpoint::GetCurrentFulfillmentProfile => AppReply::Resource,
            AppEndpoint::PatchCurrentFulfillmentProfile => AppReply::Resource,
            AppEndpoint::GetCurrentSettlementProfile => AppReply::Resource,
            AppEndpoint::PatchCurrentSettlementProfile => AppReply::Resource,
            AppEndpoint::GetCurrentBusinessHours => AppReply::Resource,
            AppEndpoint::PatchCurrentBusinessHours => AppReply::Resource,
            AppEndpoint::ListCurrentApplications => AppReply::List,
            AppEndpoint::ListCurrentVerifications => AppReply::List,
            AppEndpoint::ListCurrentStatusEvents => AppReply::List,
            AppEndpoint::ListCurrentChannels => AppReply::List,
            AppEndpoint::ListCurrentServiceAreas => AppReply::List,
            AppEndpoint::ListCurrentPolicies => AppReply::List,
            AppEndpoint::ListCurrentRiskSignals => AppReply::List,
            AppEndpoint::PatchCurrentChannel => AppReply::Resource,
            AppEndpoint::CreateCurrentServiceArea => AppReply::Created,
            AppEndpoint::PatchCurrentServiceArea => AppReply::Resource,
            AppEndpoint::PatchCurrentPolicy => AppReply::Resource,
            AppEndpoint::CreateCurrentApplication => AppReply::Created,
            AppEndpoint::GetCurrentDepositAccount => AppReply::Resource,
            AppEndpoint::ListCurrentProducts => AppReply::PagedList,
            AppEndpoint::CreateCurrentProduct => AppReply::Created,
            AppEndpoint::UpdateCurrentProduct => AppReply::Resource,
            AppEndpoint::PublishCurrentProduct => AppReply::Resource,
            AppEndpoint::UnpublishCurrentProduct => AppReply::Resource,
            AppEndpoint::ListCurrentOrders => AppReply::PagedList,
            AppEndpoint::RetrieveCurrentOrder => AppReply::Resource,
            AppEndpoint::CreateCurrentOrderFulfillment => AppReply::Created,
            AppEndpoint::ListCurrentSettlements => AppReply::PagedList,
        }
    }

    /// The message answered when storage fails.
    pub fn failure_message(self) -> (r: &'static str)
        ensures
            r@ == app_failure_message(self),
    {
        match self {
            AppEndpoint::ListShops => "shop list is unavailable",
            AppEndpoint::RetrieveShop => "shop read model is unavailable",
            AppEndpoint::RetrieveCurrentShop => "shop read model is unavailable",
            AppEndpoint::RetrieveCurrentDashboard => "shop dashboard is unavailable",
            AppEndpoint::GetCurrentReadiness => "shop read model is unavailable",
            AppEndpoint::ListCurrentCategoryBindings => "shop read model is unavailable",
            AppEndpoint::UpsertCurrentCategoryBindings => "shop write model is unavailable",
            AppEndpoint::ListCurrentBrandAuthorizations => "shop read model is unavailable",
            AppEndpoint::UpsertCurrentBrandAuthorizations => "shop write model is unavailable",
            AppEndpoint::ListCurrentQualifications => "shop read model is unavailable",
            AppEndpoint::UpsertCurrentQualifications => "shop write model is unavailable",
            AppEndpoint::ListCurrentCustomerServices => "shop read model is unavailable",
            AppEndpoint::UpsertCurrentCustomerServices => "shop write model is unavailable",
            AppEndpoint::ListCurrentReturnAddresses => "shop read model is unavailable",
            AppEndpoint::UpsertCurrentReturnAddresses => "shop write model is unavailable",
            AppEndpoint::ListCurrentShippingTemplates => "shop read model is unavailable",
            AppEndpoint::UpsertCurrentShippingTemplates => "shop write model is unavailable",
            AppEndpoint::GetCurrentFulfillmentProfile => "shop read model is unavailable",
            AppEndpoint::PatchCurrentFulfillmentProfile => "shop write model is unavailable",
            AppEndpoint::GetCurrentSettlementProfile => "shop read model is unavailable",
            AppEndpoint::PatchCurrentSettlementProfile => "shop write model is unavailable",
            AppEndpoint::GetCurrentBusinessHours => "shop read model is unavailable",
            AppEndpoint::PatchCurrentBusinessHours => "shop write model is unavailable",
            AppEndpoint::ListCurrentApplications => "shop read model is unavailable",
            AppEndpoint::ListCurrentVerifications => "shop read model is unavailable",
            AppEndpoint::ListCurrentStatusEvents => "shop read model is unavailable",
            AppEndpoint::ListCurrentChannels => "shop read model is unavailable",
            AppEndpoint::ListCurrentServiceAreas => "shop read model is unavailable",
            AppEndpoint::ListCurrentPolicies => "shop read model is unavailable",
            AppEndpoint::ListCurrentRiskSignals => "shop read model is unavailable",
            AppEndpoint::PatchCurrentChannel => "shop write model is unavailable",
            AppEndpoint::CreateCurrentServiceArea => "shop create model is unavailable",
            AppEndpoint::PatchCurrentServiceArea => "shop write model is unavailable",
            AppEndpoint::PatchCurrentPolicy => "shop write model is unavailable",
            AppEndpoint::CreateCurrentApplication => "shop create model is unavailable",
            AppEndpoint::GetCurrentDepositAccount => "shop read model is unavailable",
            AppEndpoint::ListCurrentProducts => "shop products are unavailable",
            AppEndpoint::CreateCurrentProduct => "shop product create is unavailable",
            AppEndpoint::UpdateCurrentProduct => "shop product update is unavailable",
            AppEndpoint::PublishCurrentProduct => "shop product publish is unavailable",
            AppEndpoint::UnpublishCurrentProduct => "shop product unpublish is unavailable",
            AppEndpoint::ListCurrentOrders => "shop orders are unavailable",
            AppEndpoint::RetrieveCurrentOrder => "shop orders are unavailable",
            AppEndpoint::CreateCurrentOrderFulfillment => "shop create model is unavailable",
            AppEndpoint::ListCurrentSettlements => "shop settlements are unavailable",
        }
    }

    /// The message answered when what the endpoint reads does not exist.
    pub fn missing_message(self) -> (r: Option<&'static str>)
        ensures
            opt_str_view(r) == app_missing_message(self),
    {
        match self {
            AppEndpoint::ListShops => None,
            AppEndpoint::RetrieveShop => Some("shop was not found"),
            AppEndpoint::RetrieveCurrentShop => Some("current shop was not found"),
            AppEndpoint::RetrieveCurrentDashboard => None,
            AppEndpoint::GetCurrentReadiness => Some("shop resource was not found"),
            AppEndpoint::ListCurrentCategoryBindings => None,
            AppEndpoint::UpsertCurrentCategoryBindings => None,
            AppEndpoint::ListCurrentBrandAuthorizations => None,
            AppEndpoint::UpsertCurrentBrandAuthorizations => None,
            AppEndpoint::ListCurrentQualifications => None,
            AppEndpoint::UpsertCurrentQualifications => None,
            AppEndpoint::ListCurrentCustomerServices => None,
            AppEndpoint::UpsertCurrentCustomerServices => None,
            AppEndpoint::ListCurrentReturnAddresses => None,
            AppEndpoint::UpsertCurrentReturnAddresses => None,
            AppEndpoint::ListCurrentShippingTemplates => None,
            AppEndpoint::UpsertCurrentShippingTemplates => None,
            AppEndpoint::GetCurrentFulfillmentProfile => Some("shop resource was not found"),
            AppEndpoint::PatchCurrentFulfillmentProfile => None,
            AppEndpoint::GetCurrentSettlementProfile => Some("shop resource was not found"),
            AppEndpoint::PatchCurrentSettlementProfile => None,
            AppEndpoint::GetCurrentBusinessHours => Some("shop resource was not found"),
            AppEndpoint::PatchCurrentBusinessHours => None,
            AppEndpoint::ListCurrentApplications => None,
            AppEndpoint::ListCurrentVerifications => None,
            AppEndpoint::ListCurrentStatusEvents => None,
            AppEndpoint::ListCurrentChannels => None,
            AppEndpoint::ListCurrentServiceAreas => None,
            AppEndpoint::ListCurrentPolicies => None,
            AppEndpoint::ListCurrentRiskSignals => None,
            AppEndpoint::PatchCurrentChannel => None,
            AppEndpoint::CreateCurrentServiceArea => None,
            AppEndpoint::PatchCurrentServiceArea => None,
            AppEndpoint::PatchCurrentPolicy => None,
            AppEndpoint::CreateCurrentApplication => None,
            AppEndpoint::GetCurrentDepositAccount => Some("shop resource was not found"),
            AppEndpoint::ListCurrentProducts => None,
            AppEndpoint::CreateCurrentProduct => None,
            AppEndpoint::UpdateCurrentProduct => None,
            AppEndpoint::PublishCurrentProduct => None,
            AppEndpoint::UnpublishCurrentProduct => None,
            AppEndpoint::ListCurrentOrders => None,
            AppEndpoint::RetrieveCurrentOrder => Some("shop order was not found"),
            AppEndpoint::CreateCurrentOrderFulfillment => None,
            AppEndpoint::ListCurrentSettlements => None,
        }
    }

    /// Whether the endpoint requires a JSON body.
    pub fn reads_body(self) -> (r: bool)
        ensures
            r == app_reads_body(self),
    {
        match self {
            AppEndpoint::ListShops => false,
            AppEndpoint::RetrieveShop => false,
            AppEndpoint::RetrieveCurrentShop => false,
            AppEndpoint::RetrieveCurrentDashboard => false,
            AppEndpoint::GetCurrentReadiness => false,
            AppEndpoint::ListCurrentCategoryBindings => false,
            AppEndpoint::UpsertCurrentCategoryBindings => true,
            AppEndpoint::ListCurrentBrandAuthorizations => false,
            AppEndpoint::UpsertCurrentBrandAuthorizations => true,
            AppEndpoint::ListCurrentQualifications => false,
            AppEndpoint::UpsertCurrentQualifications => true,
            AppEndpoint::ListCurrentCustomerServices => false,
            AppEndpoint::UpsertCurrentCustomerServices => true,
            AppEndpoint::ListCurrentReturnAddresses => false,
            AppEndpoint::UpsertCurrentReturnAddresses => true,
            AppEndpoint::ListCurrentShippingTemplates => false,
            AppEndpoint::UpsertCurrentShippingTemplates => true,
            AppEndpoint::GetCurrentFulfillmentProfile => false,
            AppEndpoint::PatchCurrentFulfillmentProfile => true,
            AppEndpoint::GetCurrentSettlementProfile => false,
            AppEndpoint::PatchCurrentSettlementProfile => true,
            AppEndpoint::GetCurrentBusinessHours => false,
            AppEndpoint::PatchCurrentBusinessHours => true,
            AppEndpoint::ListCurrentApplications => false,
            AppEndpoint::ListCurrentVerifications => false,
            AppEndpoint::ListCurrentStatusEvents => false,
            AppEndpoint::ListCurrentChannels => false,
            AppEndpoint::ListCurrentServiceAreas => false,
            AppEndpoint::ListCurrentPolicies => false,
            AppEndpoint::ListCurrentRiskSignals => false,
            AppEndpoint::PatchCurrentChannel => true,
            AppEndpoint::CreateCurrentServiceArea => true,
            AppEndpoint::PatchCurrentServiceArea => true,
            AppEndpoint::PatchCurrentPolicy => true,
            AppEndpoint::CreateCurrentApplication => true,
            AppEndpoint::GetCurrentDepositAccount => false,
            AppEndpoint::ListCurrentProducts => false,
            AppEndpoint::CreateCurrentProduct => true,
            AppEndpoint::UpdateCurrentProduct => true,
            AppEndpoint::PublishCurrentProduct => false,
            AppEndpoint::UnpublishCurrentProduct => false,
            AppEndpoint::ListCurrentOrders => false,
            AppEndpoint::RetrieveCurrentOrder => false,
            AppEndpoint::CreateCurrentOrderFulfillment => true,
            AppEndpoint::ListCurrentSettlements => false,
        }
    }

    /// Whether the endpoint writes the row named in its path.
    pub fn row_in_path(self) -> (r: bool)
        ensures
            r == app_row_in_path(self),
    {
        match self {
            AppEndpoint::ListShops => false,
            AppEndpoint::RetrieveShop => false,
            AppEndpoint::RetrieveCurrentShop => false,
            AppEndpoint::RetrieveCurrentDashboard => false,
            AppEndpoint::GetCurrentReadiness => false,
            AppEndpoint::ListCurrentCategoryBindings => false,
            AppEndpoint::UpsertCurrentCategoryBindings => false,
            AppEndpoint::ListCurrentBrandAuthorizations => false,
            AppEndpoint::UpsertCurrentBrandAuthorizations => false,
            AppEndpoint::ListCurrentQualifications => false,
            AppEndpoint::UpsertCurrentQualifications => false,
            AppEndpoint::ListCurrentCustomerServices => false,
            AppEndpoint::UpsertCurrentCustomerServices => false,
            AppEndpoint::ListCurrentReturnAddresses => false,
            AppEndpoint::UpsertCurrentReturnAddresses => false,
            AppEndpoint::ListCurrentShippingTemplates => false,
            AppEndpoint::UpsertCurrentShippingTemplates => false,
            AppEndpoint::GetCurrentFulfillmentProfile => false,
            AppEndpoint::PatchCurrentFulfillmentProfile => false,
            AppEndpoint::GetCurrentSettlementProfile => false,
            AppEndpoint::PatchCurrentSettlementProfile => false,
            AppEndpoint::GetCurrentBusinessHours => false,
            AppEndpoint::PatchCurrentBusinessHours => false,
            AppEndpoint::ListCurrentApplications => false,
            AppEndpoint::ListCurrentVerifications => false,
            AppEndpoint::ListCurrentStatusEvents => false,
            AppEndpoint::ListCurrentChannels => false,
            AppEndpoint::ListCurrentServiceAreas => false,
            AppEndpoint::ListCurrentPolicies => false,
            AppEndpoint::ListCurrentRiskSignals => false,
            AppEndpoint::PatchCurrentChannel => true,
            AppEndpoint::CreateCurrentServiceArea => false,
            AppEndpoint::PatchCurrentServiceArea => true,
            AppEndpoint::PatchCurrentPolicy => true,
            AppEndpoint::CreateCurrentApplication => false,
            AppEndpoint::GetCurrentDepositAccount => false,
            AppEndpoint::ListCurrentProducts => false,
            AppEndpoint::CreateCurrentProduct => false,
            AppEndpoint::UpdateCurrentProduct => false,
            AppEndpoint::PublishCurrentProduct => false,
            AppEndpoint::UnpublishCurrentProduct => false,
            AppEndpoint::ListCurrentOrders => false,
            AppEndpoint::RetrieveCurrentOrder => false,
            AppEndpoint::CreateCurrentOrderFulfillment => false,
            AppEndpoint::ListCurrentSettlements => false,
        }
    }
}

/// The app endpoints, in the order the router registers them.
pub fn app_shop_routes() -> (r: Vec<AppEndpoint>)
    ensures
        r@ == app_endpoint_list(),
{
    vec![
        AppEndpoint::ListShops,
        AppEndpoint::RetrieveShop,
        AppEndpoint::RetrieveCurrentShop,
        AppEndpoint::RetrieveCurrentDashboard,
        AppEndpoint::GetCurrentReadiness,
        AppEndpoint::ListCurrentCategoryBindings,
        AppEndpoint::UpsertCurrentCategoryBindings,
        AppEndpoint::ListCurrentBrandAuthorizations,
        AppEndpoint::UpsertCurrentBrandAuthorizations,
        AppEndpoint::ListCurrentQualifications,
        AppEndpoint::UpsertCurrentQualifications,
        AppEndpoint::ListCurrentCustomerServices,
        AppEndpoint::UpsertCurrentCustomerServices,
        AppEndpoint::ListCurrentReturnAddresses,
        AppEndpoint::UpsertCurrentReturnAddresses,
        AppEndpoint::ListCurrentShippingTemplates,
        AppEndpoint::UpsertCurrentShippingTemplates,
        AppEndpoint::GetCurrentFulfillmentProfile,
        AppEndpoint::PatchCurrentFulfillmentProfile,
        AppEndpoint::GetCurrentSettlementProfile,
        AppEndpoint::PatchCurrentSettlementProfile,
        AppEndpoint::GetCurrentBusinessHours,
        AppEndpoint::PatchCurrentBusinessHours,
        AppEndpoint::ListCurrentApplications,
        AppEndpoint::ListCurrentVerifications,
        AppEndpoint::ListCurrentStatusEvents,
        AppEndpoint::ListCurrentChannels,
        AppEndpoint::ListCurrentServiceAreas,
        AppEndpoint::ListCurrentPolicies,
        AppEndpoint::ListCurrentRiskSignals,
        AppEndpoint::PatchCurrentChannel,
        AppEndpoint::CreateCurrentServiceArea,
        AppEndpoint::PatchCurrentServiceArea,
        AppEndpoint::PatchCurrentPolicy,
        AppEndpoint::CreateCurrentApplication,
        AppEndpoint::GetCurrentDepositAccount,
        AppEndpoint::ListCurrentProducts,
        AppEndpoint::CreateCurrentProduct,
        AppEndpoint::UpdateCurrentProduct,
        AppEndpoint::PublishCurrentProduct,
        AppEndpoint::UnpublishCurrentProduct,
        AppEndpoint::ListCurrentOrders,
        AppEndpoint::RetrieveCurrentOrder,
        AppEndpoint::CreateCurrentOrderFulfillment,
        AppEndpoint::ListCurrentSettlements,
    ]
}

/// No two app endpoints share a method and a path, so the router can register
/// every one of them.
pub proof fn lemma_app_routes_distinct(a: AppEndpoint, b: AppEndpoint)
    ensures
        app_method(a) == app_method(b) && app_path(a) == app_path(b) ==> a == b,
{
    if app_method(a) == app_method(b) && app_path(a) == app_path(b) && a != b {
        reveal_strlit("/app/v3/api/shops");
        reveal_strlit("/app/v3/api/shops/{shopId}");
        reveal_strlit("/app/v3/api/shops/current");
        reveal_strlit("/app/v3/api/shops/current/dashboard");
        reveal_strlit("/app/v3/api/shops/current/readiness");
        reveal_strlit("/app/v3/api/shops/current/category_bindings");
        reveal_strlit("/app/v3/api/shops/current/brand_authorizations");
        reveal_strlit("/app/v3/api/shops/current/qualifications");
        reveal_strlit("/app/v3/api/shops/current/customer_services");
        reveal_strlit("/app/v3/api/shops/current/return_addresses");
        reveal_strlit("/app/v3/api/shops/current/shipping_templates");
        reveal_strlit("/app/v3/api/shops/current/fulfillment_profile");
        reveal_strlit("/app/v3/api/shops/current/settlement_profile");
        reveal_strlit("/app/v3/api/shops/current/business_hours");
        reveal_strlit("/app/v3/api/shops/current/applications");
        reveal_strlit("/app/v3/api/shops/current/verifications");
        reveal_strlit("/app/v3/api/shops/current/status_events");
        reveal_strlit("/app/v3/api/shops/current/channels");
        reveal_strlit("/app/v3/api/shops/current/service_areas");
        reveal_strlit("/app/v3/api/shops/current/policies");
        reveal_strlit("/app/v3/api/shops/current/risk_signals");
        reveal_strlit("/app/v3/api/shops/current/channels/{channelId}");
        reveal_strlit("/app/v3/api/shops/current/service_areas/{serviceAreaId}");
        reveal_strlit("/app/v3/api/shops/current/policies/{policyId}");
        reveal_strlit("/app/v3/api/shops/current/deposit_account");
        reveal_strlit("/app/v3/api/shops/current/products");
        reveal_strlit("/app/v3/api/shops/current/products/{productId}");
        reveal_strlit("/app/v3/api/shops/current/products/{productId}/publish");
        reveal_strlit("/app/v3/api/shops/current/products/{productId}/unpublish");
        reveal_strlit("/app/v3/api/shops/current/orders");
        reveal_strlit("/app/v3/api/shops/current/orders/{orderId}");
        reveal_strlit("/app/v3/api/shops/current/orders/{orderId}/fulfillments");
        reveal_strlit("/app/v3/api/shops/current/settlements");
        assert(app_path(a).len() != app_path(b).len() || app_path(a)[26] != app_path(b)[26] || app_path(a)[27] != app_path(b)[27]);
    }
}

/// Every app path template begins with `/`.
pub proof fn lemma_app_paths_absolute(e: AppEndpoint)
    ensures
        app_path(e).len() > 0 && app_path(e)[0] == '/',
{
    reveal_strlit("/app/v3/api/shops");
    reveal_strlit("/app/v3/api/shops/{shopId}");
    reveal_strlit("/app/v3/api/shops/current");
    reveal_strlit("/app/v3/api/shops/current/dashboard");
    reveal_strlit("/app/v3/api/shops/current/readiness");
    reveal_strlit("/app/v3/api/shops/current/category_bindings");
    reveal_strlit("/app/v3/api/shops/current/brand_authorizations");
    reveal_strlit("/app/v3/api/shops/current/qualifications");
    reveal_strlit("/app/v3/api/shops/current/customer_services");
    reveal_strlit("/app/v3/api/shops/current/return_addresses");
    reveal_strlit("/app/v3/api/shops/current/shipping_templates");
    reveal_strlit("/app/v3/api/shops/current/fulfillment_profile");
    reveal_strlit("/app/v3/api/shops/current/settlement_profile");
    reveal_strlit("/app/v3/api/shops/current/business_hours");
    reveal_strlit("/app/v3/api/shops/current/applications");
    reveal_strlit("/app/v3/api/shops/current/verifications");
    reveal_strlit("/app/v3/api/shops/current/status_events");
    reveal_strlit("/app/v3/api/shops/current/channels");
    reveal_strlit("/app/v3/api/shops/current/service_areas");
    reveal_strlit("/app/v3/api/shops/current/policies");
    reveal_strlit("/app/v3/api/shops/current/risk_signals");
    reveal_strlit("/app/v3/api/shops/current/channels/{channelId}");
    reveal_strlit("/app/v3/api/shops/current/service_areas/{serviceAreaId}");
    reveal_strlit("/app/v3/api/shops/current/policies/{policyId}");
    reveal_strlit("/app/v3/api/shops/current/deposit_account");
    reveal_strlit("/app/v3/api/shops/current/products");
    reveal_strlit("/app/v3/api/shops/current/products/{productId}");
    reveal_strlit("/app/v3/api/shops/current/products/{productId}/publish");
    reveal_strlit("/app/v3/api/shops/current/products/{productId}/unpublish");
    reveal_strlit("/app/v3/api/shops/current/orders");
    reveal_strlit("/app/v3/api/shops/current/orders/{orderId}");
    reveal_strlit("/app/v3/api/shops/current/orders/{orderId}/fulfillments");
    reveal_strlit("/app/v3/api/shops/current/settlements");
}

/// The app router registers every app endpoint.
pub proof fn lemma_app_routes_complete(e: AppEndpoint)
    ensures
        app_endpoint_list().contains(e),
{
    match e {
        AppEndpoint::ListShops => assert(app_endpoint_list()[0] == e),
        AppEndpoint::RetrieveShop => assert(app_endpoint_list()[1] == e),
        AppEndpoint::RetrieveCurrentShop => assert(app_endpoint_list()[2] == e),
        AppEndpoint::RetrieveCurrentDashboard => assert(app_endpoint_list()[3] == e),
        AppEndpoint::GetCurrentReadiness => assert(app_endpoint_list()[4] == e),
        AppEndpoint::ListCurrentCategoryBindings => assert(app_endpoint_list()[5] == e),
        AppEndpoint::UpsertCurrentCategoryBindings => assert(app_endpoint_list()[6] == e),
        AppEndpoint::ListCurrentBrandAuthorizations => assert(app_endpoint_list()[7] == e),
        AppEndpoint::UpsertCurrentBrandAuthorizations => assert(app_endpoint_list()[8] == e),
        AppEndpoint::ListCurrentQualifications => assert(app_endpoint_list()[9] == e),
        AppEndpoint::UpsertCurrentQualifications => assert(app_endpoint_list()[10] == e),
        AppEndpoint::ListCurrentCustomerServices => assert(app_endpoint_list()[11] == e),
        AppEndpoint::UpsertCurrentCustomerServices => assert(app_endpoint_list()[12] == e),
        AppEndpoint::ListCurrentReturnAddresses => assert(app_endpoint_list()[13] == e),
        AppEndpoint::UpsertCurrentReturnAddresses => assert(app_endpoint_list()[14] == e),
        AppEndpoint::ListCurrentShippingTemplates => assert(app_endpoint_list()[15] == e),
        AppEndpoint::UpsertCurrentShippingTemplates => assert(app_endpoint_list()[16] == e),
        AppEndpoint::GetCurrentFulfillmentProfile => assert(app_endpoint_list()[17] == e),
        AppEndpoint::PatchCurrentFulfillmentProfile => assert(app_endpoint_list()[18] == e),
        AppEndpoint::GetCurrentSettlementProfile => assert(app_endpoint_list()[19] == e),
        AppEndpoint::PatchCurrentSettlementProfile => assert(app_endpoint_list()[20] == e),
        AppEndpoint::GetCurrentBusinessHours => assert(app_endpoint_list()[21] == e),
        AppEndpoint::PatchCurrentBusinessHours => assert(app_endpoint_list()[22] == e),
        AppEndpoint::ListCurrentApplications => assert(app_endpoint_list()[23] == e),
        AppEndpoint::ListCurrentVerifications => assert(app_endpoint_list()[24] == e),
        AppEndpoint::ListCurrentStatusEvents => assert(app_endpoint_list()[25] == e),
        AppEndpoint::ListCurrentChannels => assert(app_endpoint_list()[26] == e),
        AppEndpoint::ListCurrentServiceAreas => assert(app_endpoint_list()[27] == e),
        AppEndpoint::ListCurrentPolicies => assert(app_endpoint_list()[28] == e),
        AppEndpoint::ListCurrentRiskSignals => assert(app_endpoint_list()[29] == e),
        AppEndpoint::PatchCurrentChannel => assert(app_endpoint_list()[30] == e),
        AppEndpoint::CreateCurrentServiceArea => assert(app_endpoint_list()[31] == e),
        AppEndpoint::PatchCurrentServiceArea => assert(app_endpoint_list()[32] == e),
        AppEndpoint::PatchCurrentPolicy => assert(app_endpoint_list()[33] == e),
        AppEndpoint::CreateCurrentApplication => assert(app_endpoint_list()[34] == e),
        AppEndpoint::GetCurrentDepositAccount => assert(app_endpoint_list()[35] == e),
        AppEndpoint::ListCurrentProducts => assert(app_endpoint_list()[36] == e),
        AppEndpoint::CreateCurrentProduct => assert(app_endpoint_list()[37] == e),
        AppEndpoint::UpdateCurrentProduct => assert(app_endpoint_list()[38] == e),
        AppEndpoint::PublishCurrentProduct => assert(app_endpoint_list()[39] == e),
        AppEndpoint::UnpublishCurrentProduct => assert(app_endpoint_list()[40] == e),
        AppEndpoint::ListCurrentOrders => assert(app_endpoint_list()[41] == e),
        AppEndpoint::RetrieveCurrentOrder => assert(app_endpoint_list()[42] == e),
        AppEndpoint::CreateCurrentOrderFulfillment => assert(app_endpoint_list()[43] == e),
        AppEndpoint::ListCurrentSettlements => assert(app_endpoint_list()[44] == e),
    }
}

/// How an app endpoint answers follows its method: a created resource
/// answers a `POST`, a list or page answers a `GET`, a missing resource is
/// reported only by a `GET` of one resource, and only non-`GET` endpoints
/// read a body.
pub proof fn lemma_app_replies_follow_methods(e: AppEndpoint)
    ensures
        app_reply(e) == AppReply::Created ==> app_method(e) == HttpMethod::Post,
        app_reply(e) == AppReply::List || app_reply(e) == AppReply::PagedList ==> app_method(e) == HttpMethod::Get,
        app_missing_message(e) is Some ==> app_method(e) == HttpMethod::Get && app_reply(e) == AppReply::Resource,
        app_reads_body(e) ==> app_method(e) != HttpMethod::Get,
        app_method(e) == HttpMethod::Put || app_method(e) == HttpMethod::Patch ==> app_reads_body(e),
{
}

/// An app endpoint takes the written row's id from its path exactly when it
/// is a `PATCH` of one of the current shop's rows named by a path parameter;
/// a product edit names its product in the path but is no row write.
pub proof fn lemma_app_row_ids_from_path(e: AppEndpoint)
    ensures
        app_row_in_path(e) <==> (app_method(e) == HttpMethod::Patch && app_path(e).last() == '}' && e
            != AppEndpoint::UpdateCurrentProduct),
{
    reveal_strlit("/app/v3/api/shops");
    reveal_strlit("/app/v3/api/shops/{shopId}");
    reveal_strlit("/app/v3/api/shops/current");
    reveal_strlit("/app/v3/api/shops/current/dashboard");
    reveal_strlit("/app/v3/api/shops/current/readiness");
    reveal_strlit("/app/v3/api/shops/current/category_bindings");
    reveal_strlit("/app/v3/api/shops/current/brand_authorizations");
    reveal_strlit("/app/v3/api/shops/current/qualifications");
    reveal_strlit("/app/v3/api/shops/current/customer_services");
    reveal_strlit("/app/v3/api/shops/current/return_addresses");
    reveal_strlit("/app/v3/api/shops/current/shipping_templates");
    reveal_strlit("/app/v3/api/shops/current/fulfillment_profile");
    reveal_strlit("/app/v3/api/shops/current/settlement_profile");
    reveal_strlit("/app/v3/api/shops/current/business_hours");
    reveal_strlit("/app/v3/api/shops/current/applications");
    reveal_strlit("/app/v3/api/shops/current/verifications");
    reveal_strlit("/app/v3/api/shops/current/status_events");
    reveal_strlit("/app/v3/api/shops/current/channels");
    reveal_strlit("/app/v3/api/shops/current/service_areas");
    reveal_strlit("/app/v3/api/shops/current/policies");
    reveal_strlit("/app/v3/api/shops/current/risk_signals");
    reveal_strlit("/app/v3/api/shops/current/channels/{channelId}");
    reveal_strlit("/app/v3/api/shops/current/service_areas/{serviceAreaId}");
    reveal_strlit("/app/v3/api/shops/current/policies/{policyId}");
    reveal_strlit("/app/v3/api/shops/current/deposit_account");
    reveal_strlit("/app/v3/api/shops/current/products");
    reveal_strlit("/app/v3/api/shops/current/products/{productId}");
    reveal_strlit("/app/v3/api/shops/current/products/{productId}/publish");
    reveal_strlit("/app/v3/api/shops/current/products/{productId}/unpublish");
    reveal_strlit("/app/v3/api/shops/current/orders");
    reveal_strlit("/app/v3/api/shops/current/orders/{orderId}");
    reveal_strlit("/app/v3/api/shops/current/orders/{orderId}/fulfillments");
    reveal_strlit("/app/v3/api/shops/current/settlements");
}

} // verus!
