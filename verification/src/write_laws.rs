//! What each sub-resource write binds, column by column, in terms of the
//! request body: for every writable table, each parameter of its upsert
//! statement is the named body member (or a fixed default), and the row id is
//! the explicit id, else the body's `id`, else the stable id of the row's
//! natural key.

use vstd::prelude::*;
use crate::json::{json_get, json_text, JsonVal};
use crate::subresource::{args_of, plan_is, write_organization, ShopTable, SqlArg, UpsertPlan};
use crate::text::{signed_decimal, storage_id_of};

verus! {

/// The body's string member `key`, else `default`.
pub open spec fn text_member(p: Option<Seq<(Seq<char>, JsonVal)>>, key: Seq<char>, default: Seq<char>) -> Seq<char> {
    match json_get(p, key) {
        Some(JsonVal::Str(s)) => s,
        _ => default,
    }
}

/// The body's string member `key`, if it has one.
pub open spec fn opt_member(p: Option<Seq<(Seq<char>, JsonVal)>>, key: Seq<char>) -> Option<Seq<char>> {
    match json_get(p, key) {
        Some(JsonVal::Str(s)) => Some(s),
        _ => None,
    }
}

/// The body's integer member `key`, else `default`.
pub open spec fn int_member(p: Option<Seq<(Seq<char>, JsonVal)>>, key: Seq<char>, default: i64) -> i64 {
    match json_get(p, key) {
        Some(JsonVal::Int(i)) => i,
        _ => default,
    }
}

/// The body's integer member `key`, if it has one.
pub open spec fn opt_int_member(p: Option<Seq<(Seq<char>, JsonVal)>>, key: Seq<char>) -> Option<i64> {
    match json_get(p, key) {
        Some(JsonVal::Int(i)) => Some(i),
        _ => None,
    }
}

/// The body's boolean member `key`, else `default`.
pub open spec fn bool_member(p: Option<Seq<(Seq<char>, JsonVal)>>, key: Seq<char>, default: bool) -> bool {
    match json_get(p, key) {
        Some(JsonVal::Bool(b)) => b,
        _ => default,
    }
}

/// The compact JSON text of the body's member `key`, whatever its kind, else
/// the JSON text `default`.
pub open spec fn json_member(p: Option<Seq<(Seq<char>, JsonVal)>>, key: Seq<char>, default: Seq<char>) -> Seq<char> {
    match json_get(p, key) {
        Some(v) => json_text(v),
        None => default,
    }
}

/// The category code of a category binding: the member `shopCategoryCode`
/// when present, else `categoryCode`, else `categoryId`; the code is that
/// member when it is a string, else `default`.
pub open spec fn code_member(p: Option<Seq<(Seq<char>, JsonVal)>>) -> Seq<char> {
    let v = match json_get(p, "shopCategoryCode"@) {
        Some(v) => Some(v),
        None => match json_get(p, "categoryCode"@) {
            Some(v) => Some(v),
            None => json_get(p, "categoryId"@),
        },
    };
    match v {
        Some(JsonVal::Str(s)) => s,
        _ => "default"@,
    }
}

/// The id of a written row: the explicit id, else the body's string `id`,
/// else `stable`.
pub open spec fn chosen_id(explicit: Option<Seq<char>>, p: Option<Seq<(Seq<char>, JsonVal)>>, stable: Seq<char>) -> Seq<char> {
    match explicit {
        Some(id) => id,
        None => match json_get(p, "id"@) {
            Some(JsonVal::Str(s)) => s,
            _ => stable,
        },
    }
}

/// A write to `commerce_shop_category_binding` binds, in order: the row id, the tenant, the write
/// organization, the shop, then
/// - `shop_category_code`: the string member `shopCategoryCode` (else `categoryCode`, else `categoryId`), else `default`;
/// - `platform_category_code`: the string member `platformCategoryCode`, else null;
/// - `platform_category_name`: the string member `platformCategoryName`, else null;
/// - `category_path`: the string member `categoryPath`, else null;
/// - `category_level`: the integer member `categoryLevel`, else 0;
/// - `category_status`: the string member `categoryStatus`, else `active`;
/// - `qualification_required`: the boolean member `qualificationRequired`, else false;
/// - `qualification_snapshot_json`: the JSON text of the member `qualificationSnapshot`, else `{}`;
/// - `review_status`: the string member `reviewStatus`, else `pending`;
/// and last the write time. The row id is the explicit id, else the body's
/// string `id`, else the stable id of `shop-category-binding, tenant, shop, code`.
pub proof fn lemma_category_binding_binds(
    plan: UpsertPlan,
    tenant: Seq<char>,
    org: Option<Seq<char>>,
    shop: Seq<char>,
    explicit: Option<Seq<char>>,
    p: Option<Seq<(Seq<char>, JsonVal)>>,
    now: Seq<char>,
)
    requires
        plan_is(plan, ShopTable::CategoryBinding, tenant, org, shop, explicit, p, now),
    ensures
        ({
        let code = code_member(p);
        &&& args_of(plan.binds@).len() == 14
        &&& plan.id@ == chosen_id(explicit, p, storage_id_of(seq!["shop-category-binding"@, tenant, shop, code]))
        &&& args_of(plan.binds@)[0] == SqlArg::Text(plan.id@)
        &&& args_of(plan.binds@)[1] == SqlArg::Text(tenant)
        &&& args_of(plan.binds@)[2] == SqlArg::Text(write_organization(org))
        &&& args_of(plan.binds@)[3] == SqlArg::Text(shop)
        &&& args_of(plan.binds@)[4] == SqlArg::Text(code)
        &&& args_of(plan.binds@)[5] == SqlArg::OptText(opt_member(p, "platformCategoryCode"@))
        &&& args_of(plan.binds@)[6] == SqlArg::OptText(opt_member(p, "platformCategoryName"@))
        &&& args_of(plan.binds@)[7] == SqlArg::OptText(opt_member(p, "categoryPath"@))
        &&& args_of(plan.binds@)[8] == SqlArg::Int(int_member(p, "categoryLevel"@, 0))
        &&& args_of(plan.binds@)[9] == SqlArg::Text(text_member(p, "categoryStatus"@, "active"@))
        &&& args_of(plan.binds@)[10] == SqlArg::Bool(bool_member(p, "qualificationRequired"@, false))
        &&& args_of(plan.binds@)[11] == SqlArg::Text(json_member(p, "qualificationSnapshot"@, "{}"@))
        &&& args_of(plan.binds@)[12] == SqlArg::Text(text_member(p, "reviewStatus"@, "pending"@))
        &&& args_of(plan.binds@)[13] == SqlArg::Text(now)
        }),
{
}

/// A write to `commerce_shop_brand_authorization` binds, in order: the row id, the tenant, the write
/// organization, the shop, then
/// - `brand_code`: the string member `brandCode`, else `brand`;
/// - `brand_name`: the string member `brandName`, else `brand`;
/// - `authorization_type`: the string member `authorizationType`, else `trademark`;
/// - `authorization_status`: the string member `authorizationStatus`, else `active`;
/// - `authorization_snapshot_json`: the JSON text of the member `authorizationSnapshot`, else `{}`;
/// and last the write time. The row id is the explicit id, else the body's
/// string `id`, else the stable id of `shop-brand-auth, tenant, shop, brand_code`.
pub proof fn lemma_brand_authorization_binds(
    plan: UpsertPlan,
    tenant: Seq<char>,
    org: Option<Seq<char>>,
    shop: Seq<char>,
    explicit: Option<Seq<char>>,
    p: Option<Seq<(Seq<char>, JsonVal)>>,
    now: Seq<char>,
)
    requires
        plan_is(plan, ShopTable::BrandAuthorization, tenant, org, shop, explicit, p, now),
    ensures
        ({
        let brand_code = text_member(p, "brandCode"@, "brand"@);
        &&& args_of(plan.binds@).len() == 10
        &&& plan.id@ == chosen_id(explicit, p, storage_id_of(seq!["shop-brand-auth"@, tenant, shop, brand_code]))
        &&& args_of(plan.binds@)[0] == SqlArg::Text(plan.id@)
        &&& args_of(plan.binds@)[1] == SqlArg::Text(tenant)
        &&& args_of(plan.binds@)[2] == SqlArg::Text(write_organization(org))
        &&& args_of(plan.binds@)[3] == SqlArg::Text(shop)
        &&& args_of(plan.binds@)[4] == SqlArg::Text(brand_code)
        &&& args_of(plan.binds@)[5] == SqlArg::Text(text_member(p, "brandName"@, "brand"@))
        &&& args_of(plan.binds@)[6] == SqlArg::Text(text_member(p, "authorizationType"@, "trademark"@))
        &&& args_of(plan.binds@)[7] == SqlArg::Text(text_member(p, "authorizationStatus"@, "active"@))
        &&& args_of(plan.binds@)[8] == SqlArg::Text(json_member(p, "authorizationSnapshot"@, "{}"@))
        &&& args_of(plan.binds@)[9] == SqlArg::Text(now)
        }),
{
}

/// A write to `commerce_shop_qualification` binds, in order: the row id, the tenant, the write
/// organization, the shop, then
/// - `qualification_type`: the string member `qualificationType`, else `business_license`;
/// - `qualification_status`: the string member `qualificationStatus`, else `active`;
/// - `subject_type`: the string member `subjectType`, else `merchant`;
/// - `subject_id`: the string member `subjectId`, else empty;
/// - `qualification_snapshot_json`: the JSON text of the member `qualificationSnapshot`, else `{}`;
/// and last the write time. The row id is the explicit id, else the body's
/// string `id`, else the stable id of `shop-qualification, tenant, shop, qualification_type, subject_type, subject_id`.
pub proof fn lemma_qualification_binds(
    plan: UpsertPlan,
    tenant: Seq<char>,
    org: Option<Seq<char>>,
    shop: Seq<char>,
    explicit: Option<Seq<char>>,
    p: Option<Seq<(Seq<char>, JsonVal)>>,
    now: Seq<char>,
)
    requires
        plan_is(plan, ShopTable::Qualification, tenant, org, shop, explicit, p, now),
    ensures
        ({
        let qualification_type = text_member(p, "qualificationType"@, "business_license"@);
        let subject_type = text_member(p, "subjectType"@, "merchant"@);
        let subject_id = text_member(p, "subjectId"@, ""@);
        &&& args_of(plan.binds@).len() == 10
        &&& plan.id@ == chosen_id(explicit, p, storage_id_of(seq!["shop-qualification"@, tenant, shop, qualification_type, subject_type, subject_id]))
        &&& args_of(plan.binds@)[0] == SqlArg::Text(plan.id@)
        &&& args_of(plan.binds@)[1] == SqlArg::Text(tenant)
        &&& args_of(plan.binds@)[2] == SqlArg::Text(write_organization(org))
        &&& args_of(plan.binds@)[3] == SqlArg::Text(shop)
        &&& args_of(plan.binds@)[4] == SqlArg::Text(qualification_type)
        &&& args_of(plan.binds@)[5] == SqlArg::Text(text_member(p, "qualificationStatus"@, "active"@))
        &&& args_of(plan.binds@)[6] == SqlArg::Text(subject_type)
        &&& args_of(plan.binds@)[7] == SqlArg::Text(subject_id)
        &&& args_of(plan.binds@)[8] == SqlArg::Text(json_member(p, "qualificationSnapshot"@, "{}"@))
        &&& args_of(plan.binds@)[9] == SqlArg::Text(now)
        }),
{
}

/// A write to `commerce_shop_customer_service` binds, in order: the row id, the tenant, the write
/// organization, the shop, then
/// - `service_channel`: the string member `serviceChannel`, else `online_chat`;
/// - `service_status`: the string member `serviceStatus`, else `active`;
/// - `contact_ref`: the string member `contactRef`, else `default-contact`;
/// - `contact_label`: the string member `contactLabel`, else null;
/// - `service_window_json`: the JSON text of the member `serviceWindow`, else `{}`;
/// - `service_config_json`: the JSON text of the member `serviceConfig`, else `{}`;
/// - `is_default`: the boolean member `isDefault`, else false;
/// - `sort_order`: the integer member `sortOrder`, else 0;
/// and last the write time. The row id is the explicit id, else the body's
/// string `id`, else the stable id of `shop-customer-service, tenant, shop, service_channel, contact_ref`.
pub proof fn lemma_customer_service_binds(
    plan: UpsertPlan,
    tenant: Seq<char>,
    org: Option<Seq<char>>,
    shop: Seq<char>,
    explicit: Option<Seq<char>>,
    p: Option<Seq<(Seq<char>, JsonVal)>>,
    now: Seq<char>,
)
    requires
        plan_is(plan, ShopTable::CustomerService, tenant, org, shop, explicit, p, now),
    ensures
        ({
        let service_channel = text_member(p, "serviceChannel"@, "online_chat"@);
        let contact_ref = text_member(p, "contactRef"@, "default-contact"@);
        &&& args_of(plan.binds@).len() == 13
        &&& plan.id@ == chosen_id(explicit, p, storage_id_of(seq!["shop-customer-service"@, tenant, shop, service_channel, contact_ref]))
        &&& args_of(plan.binds@)[0] == SqlArg::Text(plan.id@)
        &&& args_of(plan.binds@)[1] == SqlArg::Text(tenant)
        &&& args_of(plan.binds@)[2] == SqlArg::Text(write_organization(org))
        &&& args_of(plan.binds@)[3] == SqlArg::Text(shop)
        &&& args_of(plan.binds@)[4] == SqlArg::Text(service_channel)
        &&& args_of(plan.binds@)[5] == SqlArg::Text(text_member(p, "serviceStatus"@, "active"@))
        &&& args_of(plan.binds@)[6] == SqlArg::Text(contact_ref)
        &&& args_of(plan.binds@)[7] == SqlArg::OptText(opt_member(p, "contactLabel"@))
        &&& args_of(plan.binds@)[8] == SqlArg::Text(json_member(p, "serviceWindow"@, "{}"@))
        &&& args_of(plan.binds@)[9] == SqlArg::Text(json_member(p, "serviceConfig"@, "{}"@))
        &&& args_of(plan.binds@)[10] == SqlArg::Bool(bool_member(p, "isDefault"@, false))
        &&& args_of(plan.binds@)[11] == SqlArg::Int(int_member(p, "sortOrder"@, 0))
        &&& args_of(plan.binds@)[12] == SqlArg::Text(now)
        }),
{
}

/// A write to `commerce_shop_return_address` binds, in order: the row id, the tenant, the write
/// organization, the shop, then
/// - `address_usage`: the string member `addressUsage`, else `return`;
/// - `address_key`: the string member `addressKey`, else `default`;
/// - `receiver_name`: the string member `receiverName`, else `receiver`;
/// - `phone_hash`: the string member `phoneHash`, else null;
/// - `country_code`: the string member `countryCode`, else `CN`;
/// - `region_code`: the string member `regionCode`, else null;
/// - `city_code`: the string member `cityCode`, else null;
/// - `district_code`: the string member `districtCode`, else null;
/// - `address_line1`: the string member `addressLine1`, else `default address`;
/// - `postal_code`: the string member `postalCode`, else null;
/// - `is_default`: the boolean member `isDefault`, else false;
/// - `address_status`: the string member `addressStatus`, else `active`;
/// - `address_snapshot_json`: the JSON text of the member `addressSnapshot`, else `{}`;
/// and last the write time. The row id is the explicit id, else the body's
/// string `id`, else the stable id of `shop-return-address, tenant, shop, address_usage, address_key`.
pub proof fn lemma_return_address_binds(
    plan: UpsertPlan,
    tenant: Seq<char>,
    org: Option<Seq<char>>,
    shop: Seq<char>,
    explicit: Option<Seq<char>>,
    p: Option<Seq<(Seq<char>, JsonVal)>>,
    now: Seq<char>,
)
    requires
        plan_is(plan, ShopTable::ReturnAddress, tenant, org, shop, explicit, p, now),
    ensures
        ({
        let address_usage = text_member(p, "addressUsage"@, "return"@);
        let address_key = text_member(p, "addressKey"@, "default"@);
        &&& args_of(plan.binds@).len() == 18
        &&& plan.id@ == chosen_id(explicit, p, storage_id_of(seq!["shop-return-address"@, tenant, shop, address_usage, address_key]))
        &&& args_of(plan.binds@)[0] == SqlArg::Text(plan.id@)
        &&& args_of(plan.binds@)[1] == SqlArg::Text(tenant)
        &&& args_of(plan.binds@)[2] == SqlArg::Text(write_organization(org))
        &&& args_of(plan.binds@)[3] == SqlArg::Text(shop)
        &&& args_of(plan.binds@)[4] == SqlArg::Text(address_usage)
        &&& args_of(plan.binds@)[5] == SqlArg::Text(address_key)
        &&& args_of(plan.binds@)[6] == SqlArg::Text(text_member(p, "receiverName"@, "receiver"@))
        &&& args_of(plan.binds@)[7] == SqlArg::OptText(opt_member(p, "phoneHash"@))
        &&& args_of(plan.binds@)[8] == SqlArg::Text(text_member(p, "countryCode"@, "CN"@))
        &&& args_of(plan.binds@)[9] == SqlArg::OptText(opt_member(p, "regionCode"@))
        &&& args_of(plan.binds@)[10] == SqlArg::OptText(opt_member(p, "cityCode"@))
        &&& args_of(plan.binds@)[11] == SqlArg::OptText(opt_member(p, "districtCode"@))
        &&& args_of(plan.binds@)[12] == SqlArg::Text(text_member(p, "addressLine1"@, "default address"@))
        &&& args_of(plan.binds@)[13] == SqlArg::OptText(opt_member(p, "postalCode"@))
        &&& args_of(plan.binds@)[14] == SqlArg::Bool(bool_member(p, "isDefault"@, false))
        &&& args_of(plan.binds@)[15] == SqlArg::Text(text_member(p, "addressStatus"@, "active"@))
        &&& args_of(plan.binds@)[16] == SqlArg::Text(json_member(p, "addressSnapshot"@, "{}"@))
        &&& args_of(plan.binds@)[17] == SqlArg::Text(now)
        }),
{
}

/// A write to `commerce_shop_shipping_template` binds, in order: the row id, the tenant, the write
/// organization, the shop, then
/// - `template_code`: the string member `templateCode`, else `default`;
/// - `template_name`: the string member `templateName`, else `default template`;
/// - `template_status`: the string member `templateStatus`, else `active`;
/// - `pricing_mode`: the string member `pricingMode`, else `fixed`;
/// - `delivery_method`: the string member `deliveryMethod`, else `standard`;
/// - `base_quantity`: the integer member `baseQuantity`, else 1;
/// - `base_fee_amount`: the string member `baseFeeAmount`, else `0`;
/// - `currency_code`: the string member `currencyCode`, else `CNY`;
/// - `is_default`: the boolean member `isDefault`, else false;
/// - `region_rule_json`: the JSON text of the member `regionRule`, else `[]`;
/// - `free_shipping_rule_json`: the JSON text of the member `freeShippingRule`, else `{}`;
/// and last the write time. The row id is the explicit id, else the body's
/// string `id`, else the stable id of `shop-shipping-template, tenant, shop, template_code`.
pub proof fn lemma_shipping_template_binds(
    plan: UpsertPlan,
    tenant: Seq<char>,
    org: Option<Seq<char>>,
    shop: Seq<char>,
    explicit: Option<Seq<char>>,
    p: Option<Seq<(Seq<char>, JsonVal)>>,
    now: Seq<char>,
)
    requires
        plan_is(plan, ShopTable::ShippingTemplate, tenant, org, shop, explicit, p, now),
    ensures
        ({
        let template_code = text_member(p, "templateCode"@, "default"@);
        &&& args_of(plan.binds@).len() == 16
        &&& plan.id@ == chosen_id(explicit, p, storage_id_of(seq!["shop-shipping-template"@, tenant, shop, template_code]))
        &&& args_of(plan.binds@)[0] == SqlArg::Text(plan.id@)
        &&& args_of(plan.binds@)[1] == SqlArg::Text(tenant)
        &&& args_of(plan.binds@)[2] == SqlArg::Text(write_organization(org))
        &&& args_of(plan.binds@)[3] == SqlArg::Text(shop)
        &&& args_of(plan.binds@)[4] == SqlArg::Text(template_code)
        &&& args_of(plan.binds@)[5] == SqlArg::Text(text_member(p, "templateName"@, "default template"@))
        &&& args_of(plan.binds@)[6] == SqlArg::Text(text_member(p, "templateStatus"@, "active"@))
        &&& args_of(plan.binds@)[7] == SqlArg::Text(text_member(p, "pricingMode"@, "fixed"@))
        &&& args_of(plan.binds@)[8] == SqlArg::Text(text_member(p, "deliveryMethod"@, "standard"@))
        &&& args_of(plan.binds@)[9] == SqlArg::Int(int_member(p, "baseQuantity"@, 1))
        &&& args_of(plan.binds@)[10] == SqlArg::Text(text_member(p, "baseFeeAmount"@, "0"@))
        &&& args_of(plan.binds@)[11] == SqlArg::Text(text_member(p, "currencyCode"@, "CNY"@))
        &&& args_of(plan.binds@)[12] == SqlArg::Bool(bool_member(p, "isDefault"@, false))
        &&& args_of(plan.binds@)[13] == SqlArg::Text(json_member(p, "regionRule"@, "[]"@))
        &&& args_of(plan.binds@)[14] == SqlArg::Text(json_member(p, "freeShippingRule"@, "{}"@))
        &&& args_of(plan.binds@)[15] == SqlArg::Text(now)
        }),
{
}

/// A write to `commerce_shop_channel` binds, in order: the row id, the tenant, the write
/// organization, the shop, then
/// - `channel_code`: the string member `channelCode`, else `web`;
/// - `storefront_status`: the string member `storefrontStatus`, else `active`;
/// - `domain_name`: the string member `domainName`, else null;
/// - `path_prefix`: the string member `pathPrefix`, else null;
/// - `theme_code`: the string member `themeCode`, else null;
/// - `channel_config_json`: the JSON text of the member `channelConfig`, else `{}`;
/// - `sort_order`: the integer member `sortOrder`, else 0;
/// and last the write time. The row id is the explicit id, else the body's
/// string `id`, else the stable id of `shop-channel, tenant, shop, channel_code`.
pub proof fn lemma_channel_binds(
    plan: UpsertPlan,
    tenant: Seq<char>,
    org: Option<Seq<char>>,
    shop: Seq<char>,
    explicit: Option<Seq<char>>,
    p: Option<Seq<(Seq<char>, JsonVal)>>,
    now: Seq<char>,
)
    requires
        plan_is(plan, ShopTable::Channel, tenant, org, shop, explicit, p, now),
    ensures
        ({
        let channel_code = text_member(p, "channelCode"@, "web"@);
        &&& args_of(plan.binds@).len() == 12
        &&& plan.id@ == chosen_id(explicit, p, storage_id_of(seq!["shop-channel"@, tenant, shop, channel_code]))
        &&& args_of(plan.binds@)[0] == SqlArg::Text(plan.id@)
        &&& args_of(plan.binds@)[1] == SqlArg::Text(tenant)
        &&& args_of(plan.binds@)[2] == SqlArg::Text(write_organization(org))
        &&& args_of(plan.binds@)[3] == SqlArg::Text(shop)
        &&& args_of(plan.binds@)[4] == SqlArg::Text(channel_code)
        &&& args_of(plan.binds@)[5] == SqlArg::Text(text_member(p, "storefrontStatus"@, "active"@))
        &&& args_of(plan.binds@)[6] == SqlArg::OptText(opt_member(p, "domainName"@))
        &&& args_of(plan.binds@)[7] == SqlArg::OptText(opt_member(p, "pathPrefix"@))
        &&& args_of(plan.binds@)[8] == SqlArg::OptText(opt_member(p, "themeCode"@))
        &&& args_of(plan.binds@)[9] == SqlArg::Text(json_member(p, "channelConfig"@, "{}"@))
        &&& args_of(plan.binds@)[10] == SqlArg::Int(int_member(p, "sortOrder"@, 0))
        &&& args_of(plan.binds@)[11] == SqlArg::Text(now)
        }),
{
}

/// A write to `commerce_shop_service_area` binds, in order: the row id, the tenant, the write
/// organization, the shop, then
/// - `area_type`: the string member `areaType`, else `country`;
/// - `country_code`: the string member `countryCode`, else `CN`;
/// - `region_code`: the string member `regionCode`, else null;
/// - `city_code`: the string member `cityCode`, else null;
/// - `area_key`: the string member `areaKey`, else `default`;
/// - `postal_code_pattern`: the string member `postalCodePattern`, else null;
/// - `delivery_radius_meters`: the integer member `deliveryRadiusMeters`, else null;
/// - `service_status`: the string member `serviceStatus`, else `active`;
/// - `service_config_json`: the JSON text of the member `serviceConfig`, else `{}`;
/// - `sort_order`: the integer member `sortOrder`, else 0;
/// and last the write time. The row id is the explicit id, else the body's
/// string `id`, else the stable id of `shop-service-area, tenant, shop, area_type, country_code, area_key`.
pub proof fn lemma_service_area_binds(
    plan: UpsertPlan,
    tenant: Seq<char>,
    org: Option<Seq<char>>,
    shop: Seq<char>,
    explicit: Option<Seq<char>>,
    p: Option<Seq<(Seq<char>, JsonVal)>>,
    now: Seq<char>,
)
    requires
        plan_is(plan, ShopTable::ServiceArea, tenant, org, shop, explicit, p, now),
    ensures
        ({
        let area_type = text_member(p, "areaType"@, "country"@);
        let country_code = text_member(p, "countryCode"@, "CN"@);
        let area_key = text_member(p, "areaKey"@, "default"@);
        &&& args_of(plan.binds@).len() == 15
        &&& plan.id@ == chosen_id(explicit, p, storage_id_of(seq!["shop-service-area"@, tenant, shop, area_type, country_code, area_key]))
        &&& args_of(plan.binds@)[0] == SqlArg::Text(plan.id@)
        &&& args_of(plan.binds@)[1] == SqlArg::Text(tenant)
        &&& args_of(plan.binds@)[2] == SqlArg::Text(write_organization(org))
        &&& args_of(plan.binds@)[3] == SqlArg::Text(shop)
        &&& args_of(plan.binds@)[4] == SqlArg::Text(area_type)
        &&& args_of(plan.binds@)[5] == SqlArg::Text(country_code)
        &&& args_of(plan.binds@)[6] == SqlArg::OptText(opt_member(p, "regionCode"@))
        &&& args_of(plan.binds@)[7] == SqlArg::OptText(opt_member(p, "cityCode"@))
        &&& args_of(plan.binds@)[8] == SqlArg::Text(area_key)
        &&& args_of(plan.binds@)[9] == SqlArg::OptText(opt_member(p, "postalCodePattern"@))
        &&& args_of(plan.binds@)[10] == SqlArg::OptInt(opt_int_member(p, "deliveryRadiusMeters"@))
        &&& args_of(plan.binds@)[11] == SqlArg::Text(text_member(p, "serviceStatus"@, "active"@))
        &&& args_of(plan.binds@)[12] == SqlArg::Text(json_member(p, "serviceConfig"@, "{}"@))
        &&& args_of(plan.binds@)[13] == SqlArg::Int(int_member(p, "sortOrder"@, 0))
        &&& args_of(plan.binds@)[14] == SqlArg::Text(now)
        }),
{
}

/// A write to `commerce_shop_policy` binds, in order: the row id, the tenant, the write
/// organization, the shop, then
/// - `policy_type`: the string member `policyType`, else `terms`;
/// - `policy_status`: the string member `policyStatus`, else `draft`;
/// - `policy_version`: the integer member `policyVersion`, else 1;
/// - `policy_json`: the JSON text of the member `policy`, else `{}`;
/// - `published_at`: the string member `publishedAt`, else null;
/// - `reviewed_by`: the string member `reviewedBy`, else null;
/// - `reviewed_at`: the string member `reviewedAt`, else null;
/// and last the write time. The row id is the explicit id, else the body's
/// string `id`, else the stable id of `shop-policy, tenant, shop, policy_type, policy_version_text`.
pub proof fn lemma_policy_binds(
    plan: UpsertPlan,
    tenant: Seq<char>,
    org: Option<Seq<char>>,
    shop: Seq<char>,
    explicit: Option<Seq<char>>,
    p: Option<Seq<(Seq<char>, JsonVal)>>,
    now: Seq<char>,
)
    requires
        plan_is(plan, ShopTable::Policy, tenant, org, shop, explicit, p, now),
    ensures
        ({
        let policy_type = text_member(p, "policyType"@, "terms"@);
        let policy_version = int_member(p, "policyVersion"@, 1);
        &&& args_of(plan.binds@).len() == 12
        &&& plan.id@ == chosen_id(explicit, p, storage_id_of(seq!["shop-policy"@, tenant, shop, policy_type, signed_decimal(policy_version as int)]))
        &&& args_of(plan.binds@)[0] == SqlArg::Text(plan.id@)
        &&& args_of(plan.binds@)[1] == SqlArg::Text(tenant)
        &&& args_of(plan.binds@)[2] == SqlArg::Text(write_organization(org))
        &&& args_of(plan.binds@)[3] == SqlArg::Text(shop)
        &&& args_of(plan.binds@)[4] == SqlArg::Text(policy_type)
        &&& args_of(plan.binds@)[5] == SqlArg::Text(text_member(p, "policyStatus"@, "draft"@))
        &&& args_of(plan.binds@)[6] == SqlArg::Int(policy_version)
        &&& args_of(plan.binds@)[7] == SqlArg::Text(json_member(p, "policy"@, "{}"@))
        &&& args_of(plan.binds@)[8] == SqlArg::OptText(opt_member(p, "publishedAt"@))
        &&& args_of(plan.binds@)[9] == SqlArg::OptText(opt_member(p, "reviewedBy"@))
        &&& args_of(plan.binds@)[10] == SqlArg::OptText(opt_member(p, "reviewedAt"@))
        &&& args_of(plan.binds@)[11] == SqlArg::Text(now)
        }),
{
}

/// A write to `commerce_shop_fulfillment_profile` binds, in order: the row id, the tenant, the write
/// organization, the shop, then
/// - `fulfillment_mode`: the string member `fulfillmentMode`, else `merchant`;
/// - `shipping_origin_region_code`: the string member `shippingOriginRegionCode`, else null;
/// - `service_level_code`: the string member `serviceLevelCode`, else null;
/// - `after_sales_policy_json`: the JSON text of the member `afterSalesPolicy`, else `{}`;
/// - `service_config_json`: the JSON text of the member `serviceConfig`, else `{}`;
/// and last the write time. The row id is the explicit id, else the body's
/// string `id`, else the stable id of `shop-fulfillment, tenant, shop`.
pub proof fn lemma_fulfillment_profile_binds(
    plan: UpsertPlan,
    tenant: Seq<char>,
    org: Option<Seq<char>>,
    shop: Seq<char>,
    explicit: Option<Seq<char>>,
    p: Option<Seq<(Seq<char>, JsonVal)>>,
    now: Seq<char>,
)
    requires
        plan_is(plan, ShopTable::FulfillmentProfile, tenant, org, shop, explicit, p, now),
    ensures
        args_of(plan.binds@).len() == 10,
        plan.id@ == chosen_id(explicit, p, storage_id_of(seq!["shop-fulfillment"@, tenant, shop])),
        args_of(plan.binds@)[0] == SqlArg::Text(plan.id@),
        args_of(plan.binds@)[1] == SqlArg::Text(tenant),
        args_of(plan.binds@)[2] == SqlArg::Text(write_organization(org)),
        args_of(plan.binds@)[3] == SqlArg::Text(shop),
        args_of(plan.binds@)[4] == SqlArg::Text(text_member(p, "fulfillmentMode"@, "merchant"@)),
        args_of(plan.binds@)[5] == SqlArg::OptText(opt_member(p, "shippingOriginRegionCode"@)),
        args_of(plan.binds@)[6] == SqlArg::OptText(opt_member(p, "serviceLevelCode"@)),
        args_of(plan.binds@)[7] == SqlArg::Text(json_member(p, "afterSalesPolicy"@, "{}"@)),
        args_of(plan.binds@)[8] == SqlArg::Text(json_member(p, "serviceConfig"@, "{}"@)),
        args_of(plan.binds@)[9] == SqlArg::Text(now),
{
}

/// A write to `commerce_shop_settlement_profile` binds, in order: the row id, the tenant, the write
/// organization, the shop, then
/// - `settlement_status`: the string member `settlementStatus`, else `pending`;
/// - `settlement_cycle`: the string member `settlementCycle`, else `monthly`;
/// - `settlement_currency_code`: the string member `settlementCurrencyCode`, else `CNY`;
/// - `account_ref`: the string member `accountRef`, else null;
/// - `risk_hold_days`: the integer member `riskHoldDays`, else 0;
/// - `settlement_config_json`: the JSON text of the member `settlementConfig`, else `{}`;
/// - `reviewed_by`: the string member `reviewedBy`, else null;
/// - `reviewed_at`: the string member `reviewedAt`, else null;
/// and last the write time. The row id is the explicit id, else the body's
/// string `id`, else the stable id of `shop-settlement, tenant, shop`.
pub proof fn lemma_settlement_profile_binds(
    plan: UpsertPlan,
    tenant: Seq<char>,
    org: Option<Seq<char>>,
    shop: Seq<char>,
    explicit: Option<Seq<char>>,
    p: Option<Seq<(Seq<char>, JsonVal)>>,
    now: Seq<char>,
)
    requires
        plan_is(plan, ShopTable::SettlementProfile, tenant, org, shop, explicit, p, now),
    ensures
        args_of(plan.binds@).len() == 13,
        plan.id@ == chosen_id(explicit, p, storage_id_of(seq!["shop-settlement"@, tenant, shop])),
        args_of(plan.binds@)[0] == SqlArg::Text(plan.id@),
        args_of(plan.binds@)[1] == SqlArg::Text(tenant),
        args_of(plan.binds@)[2] == SqlArg::Text(write_organization(org)),
        args_of(plan.binds@)[3] == SqlArg::Text(shop),
        args_of(plan.binds@)[4] == SqlArg::Text(text_member(p, "settlementStatus"@, "pending"@)),
        args_of(plan.binds@)[5] == SqlArg::Text(text_member(p, "settlementCycle"@, "monthly"@)),
        args_of(plan.binds@)[6] == SqlArg::Text(text_member(p, "settlementCurrencyCode"@, "CNY"@)),
        args_of(plan.binds@)[7] == SqlArg::OptText(opt_member(p, "accountRef"@)),
        args_of(plan.binds@)[8] == SqlArg::Int(int_member(p, "riskHoldDays"@, 0)),
        args_of(plan.binds@)[9] == SqlArg::Text(json_member(p, "settlementConfig"@, "{}"@)),
        args_of(plan.binds@)[10] == SqlArg::OptText(opt_member(p, "reviewedBy"@)),
        args_of(plan.binds@)[11] == SqlArg::OptText(opt_member(p, "reviewedAt"@)),
        args_of(plan.binds@)[12] == SqlArg::Text(now),
{
}

/// A write to `commerce_shop_business_hour` binds, in order: the row id, the tenant, the write
/// organization, the shop, then
/// - `schedule_type`: the string member `scheduleType`, else `default`;
/// - `timezone`: the string member `timezone`, else `Asia/Shanghai`;
/// - `weekly_schedule_json`: the JSON text of the member `weeklySchedule`, else `{}`;
/// - `holiday_schedule_json`: the JSON text of the member `holidaySchedule`, else `{}`;
/// - `effective_from`: the string member `effectiveFrom`, else null;
/// - `effective_to`: the string member `effectiveTo`, else null;
/// - `status`: the string member `status`, else `active`;
/// - `version`: the integer member `version`, else 0;
/// and last the write time. The row id is the explicit id, else the body's
/// string `id`, else the stable id of `shop-business-hour, tenant, shop, schedule_type`.
pub proof fn lemma_business_hour_binds(
    plan: UpsertPlan,
    tenant: Seq<char>,
    org: Option<Seq<char>>,
    shop: Seq<char>,
    explicit: Option<Seq<char>>,
    p: Option<Seq<(Seq<char>, JsonVal)>>,
    now: Seq<char>,
)
    requires
        plan_is(plan, ShopTable::BusinessHour, tenant, org, shop, explicit, p, now),
    ensures
        ({
        let schedule_type = text_member(p, "scheduleType"@, "default"@);
        &&& args_of(plan.binds@).len() == 13
        &&& plan.id@ == chosen_id(explicit, p, storage_id_of(seq!["shop-business-hour"@, tenant, shop, schedule_type]))
        &&& args_of(plan.binds@)[0] == SqlArg::Text(plan.id@)
        &&& args_of(plan.binds@)[1] == SqlArg::Text(tenant)
        &&& args_of(plan.binds@)[2] == SqlArg::Text(write_organization(org))
        &&& args_of(plan.binds@)[3] == SqlArg::Text(shop)
        &&& args_of(plan.binds@)[4] == SqlArg::Text(schedule_type)
        &&& args_of(plan.binds@)[5] == SqlArg::Text(text_member(p, "timezone"@, "Asia/Shanghai"@))
        &&& args_of(plan.binds@)[6] == SqlArg::Text(json_member(p, "weeklySchedule"@, "{}"@))
        &&& args_of(plan.binds@)[7] == SqlArg::Text(json_member(p, "holidaySchedule"@, "{}"@))
        &&& args_of(plan.binds@)[8] == SqlArg::OptText(opt_member(p, "effectiveFrom"@))
        &&& args_of(plan.binds@)[9] == SqlArg::OptText(opt_member(p, "effectiveTo"@))
        &&& args_of(plan.binds@)[10] == SqlArg::Text(text_member(p, "status"@, "active"@))
        &&& args_of(plan.binds@)[11] == SqlArg::Int(int_member(p, "version"@, 0))
        &&& args_of(plan.binds@)[12] == SqlArg::Text(now)
        }),
{
}

/// A write to `commerce_shop_deposit_account` binds, in order: the row id, the tenant, the write
/// organization, the shop, then
/// - `deposit_status`: the string member `depositStatus`, else `pending`;
/// - `currency_code`: the string member `currencyCode`, else `CNY`;
/// - `required_amount`: the string member `requiredAmount`, else `0`;
/// - `paid_amount`: the string member `paidAmount`, else `0`;
/// - `frozen_amount`: the string member `frozenAmount`, else `0`;
/// - `account_ref`: the string member `accountRef`, else null;
/// - `due_at`: the string member `dueAt`, else null;
/// - `reviewed_by`: the string member `reviewedBy`, else null;
/// - `reviewed_at`: the string member `reviewedAt`, else null;
/// and last the write time. The row id is the explicit id, else the body's
/// string `id`, else the stable id of `shop-deposit, tenant, shop`.
pub proof fn lemma_deposit_account_binds(
    plan: UpsertPlan,
    tenant: Seq<char>,
    org: Option<Seq<char>>,
    shop: Seq<char>,
    explicit: Option<Seq<char>>,
    p: Option<Seq<(Seq<char>, JsonVal)>>,
    now: Seq<char>,
)
    requires
        plan_is(plan, ShopTable::DepositAccount, tenant, org, shop, explicit, p, now),
    ensures
        args_of(plan.binds@).len() == 14,
        plan.id@ == chosen_id(explicit, p, storage_id_of(seq!["shop-deposit"@, tenant, shop])),
        args_of(plan.binds@)[0] == SqlArg::Text(plan.id@),
        args_of(plan.binds@)[1] == SqlArg::Text(tenant),
        args_of(plan.binds@)[2] == SqlArg::Text(write_organization(org)),
        args_of(plan.binds@)[3] == SqlArg::Text(shop),
        args_of(plan.binds@)[4] == SqlArg::Text(text_member(p, "depositStatus"@, "pending"@)),
        args_of(plan.binds@)[5] == SqlArg::Text(text_member(p, "currencyCode"@, "CNY"@)),
        args_of(plan.binds@)[6] == SqlArg::Text(text_member(p, "requiredAmount"@, "0"@)),
        args_of(plan.binds@)[7] == SqlArg::Text(text_member(p, "paidAmount"@, "0"@)),
        args_of(plan.binds@)[8] == SqlArg::Text(text_member(p, "frozenAmount"@, "0"@)),
        args_of(plan.binds@)[9] == SqlArg::OptText(opt_member(p, "accountRef"@)),
        args_of(plan.binds@)[10] == SqlArg::OptText(opt_member(p, "dueAt"@)),
        args_of(plan.binds@)[11] == SqlArg::OptText(opt_member(p, "reviewedBy"@)),
        args_of(plan.binds@)[12] == SqlArg::OptText(opt_member(p, "reviewedAt"@)),
        args_of(plan.binds@)[13] == SqlArg::Text(now),
{
}

/// A write to `commerce_shop_verification` binds, in order: the row id, the tenant, the write
/// organization, the shop, then
/// - `verification_type`: the string member `verificationType`, else `business_license`;
/// - `verification_status`: the string member `verificationStatus`, else `pending`;
/// - `legal_entity_name`: the string member `legalEntityName`, else null;
/// - `credential_no_hash`: the string member `credentialNoHash`, else null;
/// - `credential_media_resource_id`: the string member `credentialMediaResourceId`, else null;
/// - `verification_snapshot_json`: the JSON text of the member `verificationSnapshot`, else `{}`;
/// - `expires_at`: the string member `expiresAt`, else null;
/// - `reviewed_by`: the string member `reviewedBy`, else null;
/// - `reviewed_at`: the string member `reviewedAt`, else null;
/// and last the write time. The row id is the explicit id, else the body's
/// string `id`, else the stable id of `shop-verification, tenant, shop, verification_type`.
pub proof fn lemma_verification_binds(
    plan: UpsertPlan,
    tenant: Seq<char>,
    org: Option<Seq<char>>,
    shop: Seq<char>,
    explicit: Option<Seq<char>>,
    p: Option<Seq<(Seq<char>, JsonVal)>>,
    now: Seq<char>,
)
    requires
        plan_is(plan, ShopTable::Verification, tenant, org, shop, explicit, p, now),
    ensures
        ({
        let verification_type = text_member(p, "verificationType"@, "business_license"@);
        &&& args_of(plan.binds@).len() == 14
        &&& plan.id@ == chosen_id(explicit, p, storage_id_of(seq!["shop-verification"@, tenant, shop, verification_type]))
        &&& args_of(plan.binds@)[0] == SqlArg::Text(plan.id@)
        &&& args_of(plan.binds@)[1] == SqlArg::Text(tenant)
        &&& args_of(plan.binds@)[2] == SqlArg::Text(write_organization(org))
        &&& args_of(plan.binds@)[3] == SqlArg::Text(shop)
        &&& args_of(plan.binds@)[4] == SqlArg::Text(verification_type)
        &&& args_of(plan.binds@)[5] == SqlArg::Text(text_member(p, "verificationStatus"@, "pending"@))
        &&& args_of(plan.binds@)[6] == SqlArg::OptText(opt_member(p, "legalEntityName"@))
        &&& args_of(plan.binds@)[7] == SqlArg::OptText(opt_member(p, "credentialNoHash"@))
        &&& args_of(plan.binds@)[8] == SqlArg::OptText(opt_member(p, "credentialMediaResourceId"@))
        &&& args_of(plan.binds@)[9] == SqlArg::Text(json_member(p, "verificationSnapshot"@, "{}"@))
        &&& args_of(plan.binds@)[10] == SqlArg::OptText(opt_member(p, "expiresAt"@))
        &&& args_of(plan.binds@)[11] == SqlArg::OptText(opt_member(p, "reviewedBy"@))
        &&& args_of(plan.binds@)[12] == SqlArg::OptText(opt_member(p, "reviewedAt"@))
        &&& args_of(plan.binds@)[13] == SqlArg::Text(now)
        }),
{
}

/// A write to `commerce_shop_risk_signal` binds, in order: the row id, the tenant, the write
/// organization, the shop, then
/// - `signal_no`: the string member `signalNo`, else `signal`;
/// - `signal_type`: the string member `signalType`, else `manual`;
/// - `risk_level`: the string member `riskLevel`, else `low`;
/// - `signal_status`: the string member `signalStatus`, else `open`;
/// - `source_type`: the string member `sourceType`, else null;
/// - `source_id`: the string member `sourceId`, else null;
/// - `risk_score`: the integer member `riskScore`, else 0;
/// - `payload_json`: the JSON text of the member `payload`, else `{}`;
/// - `detected_at`: the string member `detectedAt`, else the write time;
/// and last the write time. The row id is the explicit id, else the body's
/// string `id`, else the stable id of `shop-risk-signal, tenant, shop, signal_no`.
pub proof fn lemma_risk_signal_binds(
    plan: UpsertPlan,
    tenant: Seq<char>,
    org: Option<Seq<char>>,
    shop: Seq<char>,
    explicit: Option<Seq<char>>,
    p: Option<Seq<(Seq<char>, JsonVal)>>,
    now: Seq<char>,
)
    requires
        plan_is(plan, ShopTable::RiskSignal, tenant, org, shop, explicit, p, now),
    ensures
        ({
        let signal_no = text_member(p, "signalNo"@, "signal"@);
        &&& args_of(plan.binds@).len() == 14
        &&& plan.id@ == chosen_id(explicit, p, storage_id_of(seq!["shop-risk-signal"@, tenant, shop, signal_no]))
        &&& args_of(plan.binds@)[0] == SqlArg::Text(plan.id@)
        &&& args_of(plan.binds@)[1] == SqlArg::Text(tenant)
        &&& args_of(plan.binds@)[2] == SqlArg::Text(write_organization(org))
        &&& args_of(plan.binds@)[3] == SqlArg::Text(shop)
        &&& args_of(plan.binds@)[4] == SqlArg::Text(signal_no)
        &&& args_of(plan.binds@)[5] == SqlArg::Text(text_member(p, "signalType"@, "manual"@))
        &&& args_of(plan.binds@)[6] == SqlArg::Text(text_member(p, "riskLevel"@, "low"@))
        &&& args_of(plan.binds@)[7] == SqlArg::Text(text_member(p, "signalStatus"@, "open"@))
        &&& args_of(plan.binds@)[8] == SqlArg::OptText(opt_member(p, "sourceType"@))
        &&& args_of(plan.binds@)[9] == SqlArg::OptText(opt_member(p, "sourceId"@))
        &&& args_of(plan.binds@)[10] == SqlArg::Int(int_member(p, "riskScore"@, 0))
        &&& args_of(plan.binds@)[11] == SqlArg::Text(json_member(p, "payload"@, "{}"@))
        &&& args_of(plan.binds@)[12] == SqlArg::Text(text_member(p, "detectedAt"@, now))
        &&& args_of(plan.binds@)[13] == SqlArg::Text(now)
        }),
{
}

/// A write to `commerce_shop_application` binds, in order: the row id, the tenant, the write
/// organization, the shop, then
/// - `application_no`: the string member `applicationNo`, else `APP-001`;
/// - `application_type`: the string member `applicationType`, else `onboarding`;
/// - `review_status`: the string member `reviewStatus`, else `pending`;
/// - `legal_entity_snapshot_json`: the JSON text of the member `legalEntitySnapshot`, else `{}`;
/// - `contact_snapshot_json`: the JSON text of the member `contactSnapshot`, else `{}`;
/// - `qualification_snapshot_json`: the JSON text of the member `qualificationSnapshot`, else `{}`;
/// - `submitted_by`: the string member `submittedBy`, else `system`;
/// - `submitted_at`: the string member `submittedAt`, else the write time;
/// - `reviewed_by`: the string member `reviewedBy`, else null;
/// - `reviewed_at`: the string member `reviewedAt`, else null;
/// - `review_comment`: the string member `reviewComment`, else null;
/// - `idempotency_key`: the string member `idempotencyKey`, else the application number;
/// and last the write time. The row id is the explicit id, else the body's
/// string `id`, else the stable id of `shop-application, tenant, shop, idempotency_key`.
pub proof fn lemma_application_binds(
    plan: UpsertPlan,
    tenant: Seq<char>,
    org: Option<Seq<char>>,
    shop: Seq<char>,
    explicit: Option<Seq<char>>,
    p: Option<Seq<(Seq<char>, JsonVal)>>,
    now: Seq<char>,
)
    requires
        plan_is(plan, ShopTable::Application, tenant, org, shop, explicit, p, now),
    ensures
        ({
        let application_no = text_member(p, "applicationNo"@, "APP-001"@);
        let idempotency_key = text_member(p, "idempotencyKey"@, application_no);
        &&& args_of(plan.binds@).len() == 17
        &&& plan.id@ == chosen_id(explicit, p, storage_id_of(seq!["shop-application"@, tenant, shop, idempotency_key]))
        &&& args_of(plan.binds@)[0] == SqlArg::Text(plan.id@)
        &&& args_of(plan.binds@)[1] == SqlArg::Text(tenant)
        &&& args_of(plan.binds@)[2] == SqlArg::Text(write_organization(org))
        &&& args_of(plan.binds@)[3] == SqlArg::Text(shop)
        &&& args_of(plan.binds@)[4] == SqlArg::Text(application_no)
        &&& args_of(plan.binds@)[5] == SqlArg::Text(text_member(p, "applicationType"@, "onboarding"@))
        &&& args_of(plan.binds@)[6] == SqlArg::Text(text_member(p, "reviewStatus"@, "pending"@))
        &&& args_of(plan.binds@)[7] == SqlArg::Text(json_member(p, "legalEntitySnapshot"@, "{}"@))
        &&& args_of(plan.binds@)[8] == SqlArg::Text(json_member(p, "contactSnapshot"@, "{}"@))
        &&& args_of(plan.binds@)[9] == SqlArg::Text(json_member(p, "qualificationSnapshot"@, "{}"@))
        &&& args_of(plan.binds@)[10] == SqlArg::Text(text_member(p, "submittedBy"@, "system"@))
        &&& args_of(plan.binds@)[11] == SqlArg::Text(text_member(p, "submittedAt"@, now))
        &&& args_of(plan.binds@)[12] == SqlArg::OptText(opt_member(p, "reviewedBy"@))
        &&& args_of(plan.binds@)[13] == SqlArg::OptText(opt_member(p, "reviewedAt"@))
        &&& args_of(plan.binds@)[14] == SqlArg::OptText(opt_member(p, "reviewComment"@))
        &&& args_of(plan.binds@)[15] == SqlArg::Text(idempotency_key)
        &&& args_of(plan.binds@)[16] == SqlArg::Text(now)
        }),
{
}

} // verus!
