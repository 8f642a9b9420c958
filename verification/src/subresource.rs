//! Writes to the per-shop sub-resource tables: which table a request
//! addresses, the id of the row it writes, and the values bound to the
//! table's upsert statement, in statement order.

use vstd::prelude::*;
use crate::error::{ShopError, ShopErrorKind};
use crate::json::{
    get_str, json_get, json_get_either, json_text_or, opt_or, val_str, str_or, bool_or, int_or,
    get_int, JsonObject, JsonVal, JsonValue, Payload,
};
use crate::text::{
    decimal, join_with, sanitize_into, sanitize_part, signed_decimal, storage_id_of, str_views,
    trim, trim_text, u64_to_decimal, i64_to_decimal,
};

verus! {

/// The system clock's `SystemTime`.
#[verifier::external_type_specification]
#[verifier::external_body]
pub struct ExSystemTime(std::time::SystemTime);

/// The error of `SystemTime::duration_since`.
#[verifier::external_type_specification]
#[verifier::external_body]
pub struct ExSystemTimeError(std::time::SystemTimeError);

/// Calls `SystemTime::now`. Nothing is claimed of the result: it is the time
/// of the call.
#[verifier::external_body]
fn system_time_now() -> std::time::SystemTime {
    std::time::SystemTime::now()
}

/// Calls `SystemTime::duration_since(UNIX_EPOCH)`. Nothing is claimed of the
/// result: it depends on the clock reading passed in.
#[verifier::external_body]
fn duration_since_unix_epoch(t: &std::time::SystemTime) -> std::result::Result<
    std::time::Duration,
    std::time::SystemTimeError,
> {
    t.duration_since(std::time::UNIX_EPOCH)
}

/// Calls `Duration::as_secs`. Nothing is claimed of the result: the duration
/// is opaque here.
#[verifier::external_body]
fn duration_whole_seconds(d: &std::time::Duration) -> u64 {
    d.as_secs()
}

/// The timestamp text stored in `created_at` / `updated_at`: the decimal
/// number of whole seconds since the Unix epoch.
pub fn timestamp_string_from_seconds(seconds: u64) -> (s: String)
    ensures
        s@ == decimal(seconds as nat),
{
    u64_to_decimal(seconds)
}

/// The timestamp text of a clock reading: the decimal number of whole
/// seconds since the Unix epoch, or `0` when the clock read before the epoch
/// (`None`).
pub open spec fn epoch_text(reading: Option<u64>) -> Seq<char> {
    match reading {
        Some(seconds) => decimal(seconds as nat),
        None => "0"@,
    }
}

/// The timestamp text of a clock reading: its whole seconds since the Unix
/// epoch in decimal, or `0` for a reading before the epoch.
pub fn timestamp_from_epoch_reading(reading: Option<u64>) -> (s: String)
    ensures
        s@ == epoch_text(reading),
{
    match reading {
        Some(seconds) => timestamp_string_from_seconds(seconds),
        None => "0".to_owned(),
    }
}

/// The current time as the decimal number of whole seconds since the Unix
/// epoch; `0` when the clock reads before the epoch.
pub fn current_timestamp_string() -> (s: String)
    ensures
        exists|reading: Option<u64>| s@ == epoch_text(reading),
{
    let now = system_time_now();
    let reading = match duration_since_unix_epoch(&now) {
        Ok(d) => Some(duration_whole_seconds(&d)),
        Err(_) => None,
    };
    timestamp_from_epoch_reading(reading)
}

/// Builds a deterministic id from `parts`, so that the same logical row always
/// maps to the same primary key.
pub fn stable_storage_id(parts: &[&str]) -> (id: String)
    ensures
        id@ == storage_id_of(str_views(parts@)),
{
    let mut out = String::new();
    let n = parts.len();
    let ghost views = str_views(parts@).map_values(|p: Seq<char>| sanitize_part(p));
    for i in 0..n
        invariant
            n == parts@.len(),
            views == str_views(parts@).map_values(|p: Seq<char>| sanitize_part(p)),
            out@ == join_with(views.take(i as int), seq!['-']),
    {
        if i > 0 {
            out.push('-');
        }
        sanitize_into(&mut out, parts[i]);
        assert(views.take(i + 1).drop_last() =~= views.take(i as int));
    }
    assert(views.take(n as int) =~= views);
    out
}

pub open spec fn opt_view(o: Option<String>) -> Option<Seq<char>> {
    match o {
        Some(s) => Some(s@),
        None => None,
    }
}

/// The id of a written row: the explicit id when one is given, else the
/// body's string member `id`, else the stable id of `parts`.
pub open spec fn row_id(explicit: Option<Seq<char>>, p: Option<Seq<(Seq<char>, JsonVal)>>, parts: Seq<Seq<char>>) -> Seq<char> {
    match explicit {
        Some(id) => id,
        None => match get_str(p, "id"@) {
            Some(id) => id,
            None => storage_id_of(parts),
        },
    }
}

/// Chooses the id of a written row: the explicit id, else the body's `id`,
/// else the stable id built from `stable_parts`.
pub fn resolve_row_id(explicit_id: Option<String>, payload: &Payload, stable_parts: &[&str]) -> (id: String)
    ensures
        id@ == row_id(opt_view(explicit_id), payload@, str_views(stable_parts@)),
{
    match explicit_id {
        Some(id) => id,
        None => match payload.get_str("id") {
            Some(id) => id.to_owned(),
            None => stable_storage_id(stable_parts),
        },
    }
}

/// One value bound to a statement parameter (`Int` binds a `BIGINT`,
/// `Int32` an `INTEGER`).
#[derive(Debug, Clone, PartialEq)]
pub enum SqlValue {
    Text(String),
    OptText(Option<String>),
    Int(i64),
    Int32(i32),
    OptInt(Option<i64>),
    Bool(bool),
}

/// The mathematical counterpart of [`SqlValue`].
pub enum SqlArg {
    Text(Seq<char>),
    OptText(Option<Seq<char>>),
    Int(i64),
    Int32(i32),
    OptInt(Option<i64>),
    Bool(bool),
}

impl View for SqlValue {
    type V = SqlArg;

    open spec fn view(&self) -> SqlArg {
        match self {
            SqlValue::Text(s) => SqlArg::Text(s@),
            SqlValue::OptText(o) => SqlArg::OptText(opt_view(*o)),
            SqlValue::Int(i) => SqlArg::Int(*i),
            SqlValue::Int32(i) => SqlArg::Int32(*i),
            SqlValue::OptInt(o) => SqlArg::OptInt(*o),
            SqlValue::Bool(b) => SqlArg::Bool(*b),
        }
    }
}

pub open spec fn args_of(v: Seq<SqlValue>) -> Seq<SqlArg> {
    v.map_values(|b: SqlValue| b@)
}

/// The per-shop tables that accept writes.
#[derive(Debug, Clone, Copy, PartialEq, Eq, Structural)]
pub enum ShopTable {
    CategoryBinding,
    BrandAuthorization,
    Qualification,
    CustomerService,
    ReturnAddress,
    ShippingTemplate,
    Channel,
    ServiceArea,
    Policy,
    FulfillmentProfile,
    SettlementProfile,
    BusinessHour,
    DepositAccount,
    Verification,
    RiskSignal,
    Application,
}

/// The table's name in the database.
pub open spec fn table_name(t: ShopTable) -> Seq<char> {
    match t {
        ShopTable::CategoryBinding => "commerce_shop_category_binding"@,
        ShopTable::BrandAuthorization => "commerce_shop_brand_authorization"@,
        ShopTable::Qualification => "commerce_shop_qualification"@,
        ShopTable::CustomerService => "commerce_shop_customer_service"@,
        ShopTable::ReturnAddress => "commerce_shop_return_address"@,
        ShopTable::ShippingTemplate => "commerce_shop_shipping_template"@,
        ShopTable::Channel => "commerce_shop_channel"@,
        ShopTable::ServiceArea => "commerce_shop_service_area"@,
        ShopTable::Policy => "commerce_shop_policy"@,
        ShopTable::FulfillmentProfile => "commerce_shop_fulfillment_profile"@,
        ShopTable::SettlementProfile => "commerce_shop_settlement_profile"@,
        ShopTable::BusinessHour => "commerce_shop_business_hour"@,
        ShopTable::DepositAccount => "commerce_shop_deposit_account"@,
        ShopTable::Verification => "commerce_shop_verification"@,
        ShopTable::RiskSignal => "commerce_shop_risk_signal"@,
        ShopTable::Application => "commerce_shop_application"@,
    }
}

/// The message reported when the row just written cannot be read back.
pub open spec fn missing_after_upsert(t: ShopTable) -> Seq<char> {
    match t {
        ShopTable::CategoryBinding => "category binding missing after upsert"@,
        ShopTable::BrandAuthorization => "brand authorization missing after upsert"@,
        ShopTable::Qualification => "qualification missing after upsert"@,
        ShopTable::CustomerService => "customer service missing after upsert"@,
        ShopTable::ReturnAddress => "return address missing after upsert"@,
        ShopTable::ShippingTemplate => "shipping template missing after upsert"@,
        ShopTable::Channel => "channel missing after upsert"@,
        ShopTable::ServiceArea => "service area missing after upsert"@,
        ShopTable::Policy => "policy missing after upsert"@,
        ShopTable::FulfillmentProfile => "fulfillment profile missing after upsert"@,
        ShopTable::SettlementProfile => "settlement profile missing after upsert"@,
        ShopTable::BusinessHour => "business hour missing after upsert"@,
        ShopTable::DepositAccount => "deposit account missing after upsert"@,
        ShopTable::Verification => "verification missing after upsert"@,
        ShopTable::RiskSignal => "risk signal missing after upsert"@,
        ShopTable::Application => "application missing after upsert"@,
    }
}


/// Distinct tables have distinct names.
pub proof fn lemma_table_name_injective(u: ShopTable, v: ShopTable)
    ensures
        table_name(u) == table_name(v) ==> u == v,
{
    if table_name(u) == table_name(v) && u != v {
        reveal_strlit("commerce_shop_category_binding");
        reveal_strlit("commerce_shop_brand_authorization");
        reveal_strlit("commerce_shop_qualification");
        reveal_strlit("commerce_shop_customer_service");
        reveal_strlit("commerce_shop_return_address");
        reveal_strlit("commerce_shop_shipping_template");
        reveal_strlit("commerce_shop_channel");
        reveal_strlit("commerce_shop_service_area");
        reveal_strlit("commerce_shop_policy");
        reveal_strlit("commerce_shop_fulfillment_profile");
        reveal_strlit("commerce_shop_settlement_profile");
        reveal_strlit("commerce_shop_business_hour");
        reveal_strlit("commerce_shop_deposit_account");
        reveal_strlit("commerce_shop_verification");
        reveal_strlit("commerce_shop_risk_signal");
        reveal_strlit("commerce_shop_application");
        assert(table_name(u)[14] != table_name(v)[14] || table_name(u).len() != table_name(v).len()
            || table_name(u)[15] != table_name(v)[15] || table_name(u)[16] != table_name(v)[16]
            || table_name(u)[17] != table_name(v)[17] || table_name(u)[18] != table_name(v)[18]);
    }
}

fn same_text(a: &str, b: &str) -> (r: bool)
    ensures
        r == (a@ == b@),
{
    a.to_owned() == b.to_owned()
}

impl ShopTable {
    /// The table's name in the database.
    pub fn name(self) -> (n: &'static str)
        ensures
            n@ == table_name(self),
    {
        match self {
            ShopTable::CategoryBinding => "commerce_shop_category_binding",
            ShopTable::BrandAuthorization => "commerce_shop_brand_authorization",
            ShopTable::Qualification => "commerce_shop_qualification",
            ShopTable::CustomerService => "commerce_shop_customer_service",
            ShopTable::ReturnAddress => "commerce_shop_return_address",
            ShopTable::ShippingTemplate => "commerce_shop_shipping_template",
            ShopTable::Channel => "commerce_shop_channel",
            ShopTable::ServiceArea => "commerce_shop_service_area",
            ShopTable::Policy => "commerce_shop_policy",
            ShopTable::FulfillmentProfile => "commerce_shop_fulfillment_profile",
            ShopTable::SettlementProfile => "commerce_shop_settlement_profile",
            ShopTable::BusinessHour => "commerce_shop_business_hour",
            ShopTable::DepositAccount => "commerce_shop_deposit_account",
            ShopTable::Verification => "commerce_shop_verification",
            ShopTable::RiskSignal => "commerce_shop_risk_signal",
            ShopTable::Application => "commerce_shop_application",
        }
    }

    /// The table with database name `name`, if it is one that accepts writes.
    pub fn from_name(name: &str) -> (t: Option<ShopTable>)
        ensures
            match t {
                Some(t) => table_name(t) == name@,
                None => forall|u: ShopTable| table_name(u) != name@,
            },
    {
        let all = [
            ShopTable::CategoryBinding,
            ShopTable::BrandAuthorization,
            ShopTable::Qualification,
            ShopTable::CustomerService,
            ShopTable::ReturnAddress,
            ShopTable::ShippingTemplate,
            ShopTable::Channel,
            ShopTable::ServiceArea,
            ShopTable::Policy,
            ShopTable::FulfillmentProfile,
            ShopTable::SettlementProfile,
            ShopTable::BusinessHour,
            ShopTable::DepositAccount,
            ShopTable::Verification,
            ShopTable::RiskSignal,
            ShopTable::Application,
        ];
        for i in 0..16
            invariant
                all@ == seq![
                    ShopTable::CategoryBinding,
                    ShopTable::BrandAuthorization,
                    ShopTable::Qualification,
                    ShopTable::CustomerService,
                    ShopTable::ReturnAddress,
                    ShopTable::ShippingTemplate,
                    ShopTable::Channel,
                    ShopTable::ServiceArea,
                    ShopTable::Policy,
                    ShopTable::FulfillmentProfile,
                    ShopTable::SettlementProfile,
                    ShopTable::BusinessHour,
                    ShopTable::DepositAccount,
                    ShopTable::Verification,
                    ShopTable::RiskSignal,
                    ShopTable::Application,
                ],
                forall|j: int| 0 <= j < i ==> table_name(#[trigger] all@[j]) != name@,
        {
            if same_text(all[i].name(), name) {
                return Some(all[i]);
            }
        }
        proof {
            assert forall|u: ShopTable| table_name(u) != name@ by {
                match u {
                    ShopTable::CategoryBinding => assert(table_name(all@[0]) != name@),
                    ShopTable::BrandAuthorization => assert(table_name(all@[1]) != name@),
                    ShopTable::Qualification => assert(table_name(all@[2]) != name@),
                    ShopTable::CustomerService => assert(table_name(all@[3]) != name@),
                    ShopTable::ReturnAddress => assert(table_name(all@[4]) != name@),
                    ShopTable::ShippingTemplate => assert(table_name(all@[5]) != name@),
                    ShopTable::Channel => assert(table_name(all@[6]) != name@),
                    ShopTable::ServiceArea => assert(table_name(all@[7]) != name@),
                    ShopTable::Policy => assert(table_name(all@[8]) != name@),
                    ShopTable::FulfillmentProfile => assert(table_name(all@[9]) != name@),
                    ShopTable::SettlementProfile => assert(table_name(all@[10]) != name@),
                    ShopTable::BusinessHour => assert(table_name(all@[11]) != name@),
                    ShopTable::DepositAccount => assert(table_name(all@[12]) != name@),
                    ShopTable::Verification => assert(table_name(all@[13]) != name@),
                    ShopTable::RiskSignal => assert(table_name(all@[14]) != name@),
                    ShopTable::Application => assert(table_name(all@[15]) != name@),
                }
            }
        }
        None
    }

    /// The message reported when the row just written cannot be read back.
    pub fn missing_message(self) -> (m: &'static str)
        ensures
            m@ == missing_after_upsert(self),
    {
        match self {
            ShopTable::CategoryBinding => "category binding missing after upsert",
            ShopTable::BrandAuthorization => "brand authorization missing after upsert",
            ShopTable::Qualification => "qualification missing after upsert",
            ShopTable::CustomerService => "customer service missing after upsert",
            ShopTable::ReturnAddress => "return address missing after upsert",
            ShopTable::ShippingTemplate => "shipping template missing after upsert",
            ShopTable::Channel => "channel missing after upsert",
            ShopTable::ServiceArea => "service area missing after upsert",
            ShopTable::Policy => "policy missing after upsert",
            ShopTable::FulfillmentProfile => "fulfillment profile missing after upsert",
            ShopTable::SettlementProfile => "settlement profile missing after upsert",
            ShopTable::BusinessHour => "business hour missing after upsert",
            ShopTable::DepositAccount => "deposit account missing after upsert",
            ShopTable::Verification => "verification missing after upsert",
            ShopTable::RiskSignal => "risk signal missing after upsert",
            ShopTable::Application => "application missing after upsert",
        }
    }
}

/// The stable-id parts of a `CategoryBinding` row.
pub open spec fn category_binding_parts(tenant: Seq<char>, shop: Seq<char>, p: Option<Seq<(Seq<char>, JsonVal)>>) -> Seq<Seq<char>> {
    let code = opt_or(val_str(category_code_member(p)), "default"@);
    seq!["shop-category-binding"@, tenant, shop, code]
}

/// The values bound to the `CategoryBinding` upsert statement, after the row id,
/// tenant, organization and shop.
pub open spec fn category_binding_fields(p: Option<Seq<(Seq<char>, JsonVal)>>, now: Seq<char>) -> Seq<SqlArg> {
    let code = opt_or(val_str(category_code_member(p)), "default"@);
    seq![
        SqlArg::Text(code),
        SqlArg::OptText(get_str(p, "platformCategoryCode"@)),
        SqlArg::OptText(get_str(p, "platformCategoryName"@)),
        SqlArg::OptText(get_str(p, "categoryPath"@)),
        SqlArg::Int(int_or(p, "categoryLevel"@, 0)),
        SqlArg::Text(str_or(p, "categoryStatus"@, "active"@)),
        SqlArg::Bool(bool_or(p, "qualificationRequired"@, false)),
        SqlArg::Text(json_text_or(p, "qualificationSnapshot"@, "{}"@)),
        SqlArg::Text(str_or(p, "reviewStatus"@, "pending"@)),
    ]
}

fn category_binding_plan(
    tenant_id: &str,
    organization_id: &str,
    shop_id: &str,
    explicit_id: Option<String>,
    payload: &Payload,
    now: &str,
) -> (r: (String, Vec<SqlValue>))
    ensures
        r.0@ == row_id(opt_view(explicit_id), payload@, category_binding_parts(tenant_id@, shop_id@, payload@)),
        args_of(r.1@) == head_args(r.0@, tenant_id@, organization_id@, shop_id@) + category_binding_fields(payload@, now@) + seq![SqlArg::Text(now@)],
{
    let code: &str = match payload.get("shopCategoryCode") {
        Some(v) => match v {
            JsonValue::Str(s) => s.as_str(),
            _ => "default",
        },
        None => match payload.get_either("categoryCode", "categoryId") {
            Some(JsonValue::Str(s)) => s.as_str(),
            _ => "default",
        },
    };
    let parts = ["shop-category-binding", tenant_id, shop_id, code];
    proof {
        assert(str_views(parts@) =~= category_binding_parts(tenant_id@, shop_id@, payload@));
    }
    let id = resolve_row_id(explicit_id, payload, &parts);
    let mut binds: Vec<SqlValue> = Vec::new();
    binds.push(SqlValue::Text(id.clone()));
    binds.push(SqlValue::Text(tenant_id.to_owned()));
    binds.push(SqlValue::Text(organization_id.to_owned()));
    binds.push(SqlValue::Text(shop_id.to_owned()));
    binds.push(SqlValue::Text(code.to_owned()));
    binds.push(SqlValue::OptText(payload.opt_text("platformCategoryCode")));
    binds.push(SqlValue::OptText(payload.opt_text("platformCategoryName")));
    binds.push(SqlValue::OptText(payload.opt_text("categoryPath")));
    binds.push(SqlValue::Int(payload.int_or("categoryLevel", 0)));
    binds.push(SqlValue::Text(payload.text_or("categoryStatus", "active")));
    binds.push(SqlValue::Bool(payload.bool_or("qualificationRequired", false)));
    binds.push(SqlValue::Text(payload.json_text_or("qualificationSnapshot", "{}")));
    binds.push(SqlValue::Text(payload.text_or("reviewStatus", "pending")));
    binds.push(SqlValue::Text(now.to_owned()));
    proof {
        assert(args_of(binds@) =~= head_args(id@, tenant_id@, organization_id@, shop_id@) + category_binding_fields(payload@, now@) + seq![SqlArg::Text(now@)]);
    }
    (id, binds)
}

/// The stable-id parts of a `BrandAuthorization` row.
pub open spec fn brand_authorization_parts(tenant: Seq<char>, shop: Seq<char>, p: Option<Seq<(Seq<char>, JsonVal)>>) -> Seq<Seq<char>> {
    let brand_code = str_or(p, "brandCode"@, "brand"@);
    seq!["shop-brand-auth"@, tenant, shop, brand_code]
}

/// The values bound to the `BrandAuthorization` upsert statement, after the row id,
/// tenant, organization and shop.
pub open spec fn brand_authorization_fields(p: Option<Seq<(Seq<char>, JsonVal)>>, now: Seq<char>) -> Seq<SqlArg> {
    let brand_code = str_or(p, "brandCode"@, "brand"@);
    seq![
        SqlArg::Text(brand_code),
        SqlArg::Text(str_or(p, "brandName"@, "brand"@)),
        SqlArg::Text(str_or(p, "authorizationType"@, "trademark"@)),
        SqlArg::Text(str_or(p, "authorizationStatus"@, "active"@)),
        SqlArg::Text(json_text_or(p, "authorizationSnapshot"@, "{}"@)),
    ]
}

fn brand_authorization_plan(
    tenant_id: &str,
    organization_id: &str,
    shop_id: &str,
    explicit_id: Option<String>,
    payload: &Payload,
    now: &str,
) -> (r: (String, Vec<SqlValue>))
    ensures
        r.0@ == row_id(opt_view(explicit_id), payload@, brand_authorization_parts(tenant_id@, shop_id@, payload@)),
        args_of(r.1@) == head_args(r.0@, tenant_id@, organization_id@, shop_id@) + brand_authorization_fields(payload@, now@) + seq![SqlArg::Text(now@)],
{
    let brand_code: &str = payload.str_or("brandCode", "brand");
    let parts = ["shop-brand-auth", tenant_id, shop_id, brand_code];
    proof {
        assert(str_views(parts@) =~= brand_authorization_parts(tenant_id@, shop_id@, payload@));
    }
    let id = resolve_row_id(explicit_id, payload, &parts);
    let mut binds: Vec<SqlValue> = Vec::new();
    binds.push(SqlValue::Text(id.clone()));
    binds.push(SqlValue::Text(tenant_id.to_owned()));
    binds.push(SqlValue::Text(organization_id.to_owned()));
    binds.push(SqlValue::Text(shop_id.to_owned()));
    binds.push(SqlValue::Text(brand_code.to_owned()));
    binds.push(SqlValue::Text(payload.text_or("brandName", "brand")));
    binds.push(SqlValue::Text(payload.text_or("authorizationType", "trademark")));
    binds.push(SqlValue::Text(payload.text_or("authorizationStatus", "active")));
    binds.push(SqlValue::Text(payload.json_text_or("authorizationSnapshot", "{}")));
    binds.push(SqlValue::Text(now.to_owned()));
    proof {
        assert(args_of(binds@) =~= head_args(id@, tenant_id@, organization_id@, shop_id@) + brand_authorization_fields(payload@, now@) + seq![SqlArg::Text(now@)]);
    }
    (id, binds)
}

/// The stable-id parts of a `Qualification` row.
pub open spec fn qualification_parts(tenant: Seq<char>, shop: Seq<char>, p: Option<Seq<(Seq<char>, JsonVal)>>) -> Seq<Seq<char>> {
    let qualification_type = str_or(p, "qualificationType"@, "business_license"@);
    let subject_type = str_or(p, "subjectType"@, "merchant"@);
    let subject_id = str_or(p, "subjectId"@, ""@);
    seq!["shop-qualification"@, tenant, shop, qualification_type, subject_type, subject_id]
}

/// The values bound to the `Qualification` upsert statement, after the row id,
/// tenant, organization and shop.
pub open spec fn qualification_fields(p: Option<Seq<(Seq<char>, JsonVal)>>, now: Seq<char>) -> Seq<SqlArg> {
    let qualification_type = str_or(p, "qualificationType"@, "business_license"@);
    let subject_type = str_or(p, "subjectType"@, "merchant"@);
    let subject_id = str_or(p, "subjectId"@, ""@);
    seq![
        SqlArg::Text(qualification_type),
        SqlArg::Text(str_or(p, "qualificationStatus"@, "active"@)),
        SqlArg::Text(subject_type),
        SqlArg::Text(subject_id),
        SqlArg::Text(json_text_or(p, "qualificationSnapshot"@, "{}"@)),
    ]
}

fn qualification_plan(
    tenant_id: &str,
    organization_id: &str,
    shop_id: &str,
    explicit_id: Option<String>,
    payload: &Payload,
    now: &str,
) -> (r: (String, Vec<SqlValue>))
    ensures
        r.0@ == row_id(opt_view(explicit_id), payload@, qualification_parts(tenant_id@, shop_id@, payload@)),
        args_of(r.1@) == head_args(r.0@, tenant_id@, organization_id@, shop_id@) + qualification_fields(payload@, now@) + seq![SqlArg::Text(now@)],
{
    let qualification_type: &str = payload.str_or("qualificationType", "business_license");
    let subject_type: &str = payload.str_or("subjectType", "merchant");
    let subject_id: &str = payload.str_or("subjectId", "");
    let parts = ["shop-qualification", tenant_id, shop_id, qualification_type, subject_type, subject_id];
    proof {
        assert(str_views(parts@) =~= qualification_parts(tenant_id@, shop_id@, payload@));
    }
    let id = resolve_row_id(explicit_id, payload, &parts);
    let mut binds: Vec<SqlValue> = Vec::new();
    binds.push(SqlValue::Text(id.clone()));
    binds.push(SqlValue::Text(tenant_id.to_owned()));
    binds.push(SqlValue::Text(organization_id.to_owned()));
    binds.push(SqlValue::Text(shop_id.to_owned()));
    binds.push(SqlValue::Text(qualification_type.to_owned()));
    binds.push(SqlValue::Text(payload.text_or("qualificationStatus", "active")));
    binds.push(SqlValue::Text(subject_type.to_owned()));
    binds.push(SqlValue::Text(subject_id.to_owned()));
    binds.push(SqlValue::Text(payload.json_text_or("qualificationSnapshot", "{}")));
    binds.push(SqlValue::Text(now.to_owned()));
    proof {
        assert(args_of(binds@) =~= head_args(id@, tenant_id@, organization_id@, shop_id@) + qualification_fields(payload@, now@) + seq![SqlArg::Text(now@)]);
    }
    (id, binds)
}

/// The stable-id parts of a `CustomerService` row.
pub open spec fn customer_service_parts(tenant: Seq<char>, shop: Seq<char>, p: Option<Seq<(Seq<char>, JsonVal)>>) -> Seq<Seq<char>> {
    let service_channel = str_or(p, "serviceChannel"@, "online_chat"@);
    let contact_ref = str_or(p, "contactRef"@, "default-contact"@);
    seq!["shop-customer-service"@, tenant, shop, service_channel, contact_ref]
}

/// The values bound to the `CustomerService` upsert statement, after the row id,
/// tenant, organization and shop.
pub open spec fn customer_service_fields(p: Option<Seq<(Seq<char>, JsonVal)>>, now: Seq<char>) -> Seq<SqlArg> {
    let service_channel = str_or(p, "serviceChannel"@, "online_chat"@);
    let contact_ref = str_or(p, "contactRef"@, "default-contact"@);
    seq![
        SqlArg::Text(service_channel),
        SqlArg::Text(str_or(p, "serviceStatus"@, "active"@)),
        SqlArg::Text(contact_ref),
        SqlArg::OptText(get_str(p, "contactLabel"@)),
        SqlArg::Text(json_text_or(p, "serviceWindow"@, "{}"@)),
        SqlArg::Text(json_text_or(p, "serviceConfig"@, "{}"@)),
        SqlArg::Bool(bool_or(p, "isDefault"@, false)),
        SqlArg::Int(int_or(p, "sortOrder"@, 0)),
    ]
}

fn customer_service_plan(
    tenant_id: &str,
    organization_id: &str,
    shop_id: &str,
    explicit_id: Option<String>,
    payload: &Payload,
    now: &str,
) -> (r: (String, Vec<SqlValue>))
    ensures
        r.0@ == row_id(opt_view(explicit_id), payload@, customer_service_parts(tenant_id@, shop_id@, payload@)),
        args_of(r.1@) == head_args(r.0@, tenant_id@, organization_id@, shop_id@) + customer_service_fields(payload@, now@) + seq![SqlArg::Text(now@)],
{
    let service_channel: &str = payload.str_or("serviceChannel", "online_chat");
    let contact_ref: &str = payload.str_or("contactRef", "default-contact");
    let parts = ["shop-customer-service", tenant_id, shop_id, service_channel, contact_ref];
    proof {
        assert(str_views(parts@) =~= customer_service_parts(tenant_id@, shop_id@, payload@));
    }
    let id = resolve_row_id(explicit_id, payload, &parts);
    let mut binds: Vec<SqlValue> = Vec::new();
    binds.push(SqlValue::Text(id.clone()));
    binds.push(SqlValue::Text(tenant_id.to_owned()));
    binds.push(SqlValue::Text(organization_id.to_owned()));
    binds.push(SqlValue::Text(shop_id.to_owned()));
    binds.push(SqlValue::Text(service_channel.to_owned()));
    binds.push(SqlValue::Text(payload.text_or("serviceStatus", "active")));
    binds.push(SqlValue::Text(contact_ref.to_owned()));
    binds.push(SqlValue::OptText(payload.opt_text("contactLabel")));
    binds.push(SqlValue::Text(payload.json_text_or("serviceWindow", "{}")));
    binds.push(SqlValue::Text(payload.json_text_or("serviceConfig", "{}")));
    binds.push(SqlValue::Bool(payload.bool_or("isDefault", false)));
    binds.push(SqlValue::Int(payload.int_or("sortOrder", 0)));
    binds.push(SqlValue::Text(now.to_owned()));
    proof {
        assert(args_of(binds@) =~= head_args(id@, tenant_id@, organization_id@, shop_id@) + customer_service_fields(payload@, now@) + seq![SqlArg::Text(now@)]);
    }
    (id, binds)
}

/// The stable-id parts of a `ReturnAddress` row.
pub open spec fn return_address_parts(tenant: Seq<char>, shop: Seq<char>, p: Option<Seq<(Seq<char>, JsonVal)>>) -> Seq<Seq<char>> {
    let address_usage = str_or(p, "addressUsage"@, "return"@);
    let address_key = str_or(p, "addressKey"@, "default"@);
    seq!["shop-return-address"@, tenant, shop, address_usage, address_key]
}

/// The values bound to the `ReturnAddress` upsert statement, after the row id,
/// tenant, organization and shop.
pub open spec fn return_address_fields(p: Option<Seq<(Seq<char>, JsonVal)>>, now: Seq<char>) -> Seq<SqlArg> {
    let address_usage = str_or(p, "addressUsage"@, "return"@);
    let address_key = str_or(p, "addressKey"@, "default"@);
    seq![
        SqlArg::Text(address_usage),
        SqlArg::Text(address_key),
        SqlArg::Text(str_or(p, "receiverName"@, "receiver"@)),
        SqlArg::OptText(get_str(p, "phoneHash"@)),
        SqlArg::Text(str_or(p, "countryCode"@, "CN"@)),
        SqlArg::OptText(get_str(p, "regionCode"@)),
        SqlArg::OptText(get_str(p, "cityCode"@)),
        SqlArg::OptText(get_str(p, "districtCode"@)),
        SqlArg::Text(str_or(p, "addressLine1"@, "default address"@)),
        SqlArg::OptText(get_str(p, "postalCode"@)),
        SqlArg::Bool(bool_or(p, "isDefault"@, false)),
        SqlArg::Text(str_or(p, "addressStatus"@, "active"@)),
        SqlArg::Text(json_text_or(p, "addressSnapshot"@, "{}"@)),
    ]
}

fn return_address_plan(
    tenant_id: &str,
    organization_id: &str,
    shop_id: &str,
    explicit_id: Option<String>,
    payload: &Payload,
    now: &str,
) -> (r: (String, Vec<SqlValue>))
    ensures
        r.0@ == row_id(opt_view(explicit_id), payload@, return_address_parts(tenant_id@, shop_id@, payload@)),
        args_of(r.1@) == head_args(r.0@, tenant_id@, organization_id@, shop_id@) + return_address_fields(payload@, now@) + seq![SqlArg::Text(now@)],
{
    let address_usage: &str = payload.str_or("addressUsage", "return");
    let address_key: &str = payload.str_or("addressKey", "default");
    let parts = ["shop-return-address", tenant_id, shop_id, address_usage, address_key];
    proof {
        assert(str_views(parts@) =~= return_address_parts(tenant_id@, shop_id@, payload@));
    }
    let id = resolve_row_id(explicit_id, payload, &parts);
    let mut binds: Vec<SqlValue> = Vec::new();
    binds.push(SqlValue::Text(id.clone()));
    binds.push(SqlValue::Text(tenant_id.to_owned()));
    binds.push(SqlValue::Text(organization_id.to_owned()));
    binds.push(SqlValue::Text(shop_id.to_owned()));
    binds.push(SqlValue::Text(address_usage.to_owned()));
    binds.push(SqlValue::Text(address_key.to_owned()));
    binds.push(SqlValue::Text(payload.text_or("receiverName", "receiver")));
    binds.push(SqlValue::OptText(payload.opt_text("phoneHash")));
    binds.push(SqlValue::Text(payload.text_or("countryCode", "CN")));
    binds.push(SqlValue::OptText(payload.opt_text("regionCode")));
    binds.push(SqlValue::OptText(payload.opt_text("cityCode")));
    binds.push(SqlValue::OptText(payload.opt_text("districtCode")));
    binds.push(SqlValue::Text(payload.text_or("addressLine1", "default address")));
    binds.push(SqlValue::OptText(payload.opt_text("postalCode")));
    binds.push(SqlValue::Bool(payload.bool_or("isDefault", false)));
    binds.push(SqlValue::Text(payload.text_or("addressStatus", "active")));
    binds.push(SqlValue::Text(payload.json_text_or("addressSnapshot", "{}")));
    binds.push(SqlValue::Text(now.to_owned()));
    proof {
        assert(args_of(binds@) =~= head_args(id@, tenant_id@, organization_id@, shop_id@) + return_address_fields(payload@, now@) + seq![SqlArg::Text(now@)]);
    }
    (id, binds)
}

/// The stable-id parts of a `ShippingTemplate` row.
pub open spec fn shipping_template_parts(tenant: Seq<char>, shop: Seq<char>, p: Option<Seq<(Seq<char>, JsonVal)>>) -> Seq<Seq<char>> {
    let template_code = str_or(p, "templateCode"@, "default"@);
    seq!["shop-shipping-template"@, tenant, shop, template_code]
}

/// The values bound to the `ShippingTemplate` upsert statement, after the row id,
/// tenant, organization and shop.
pub open spec fn shipping_template_fields(p: Option<Seq<(Seq<char>, JsonVal)>>, now: Seq<char>) -> Seq<SqlArg> {
    let template_code = str_or(p, "templateCode"@, "default"@);
    seq![
        SqlArg::Text(template_code),
        SqlArg::Text(str_or(p, "templateName"@, "default template"@)),
        SqlArg::Text(str_or(p, "templateStatus"@, "active"@)),
        SqlArg::Text(str_or(p, "pricingMode"@, "fixed"@)),
        SqlArg::Text(str_or(p, "deliveryMethod"@, "standard"@)),
        SqlArg::Int(int_or(p, "baseQuantity"@, 1)),
        SqlArg::Text(str_or(p, "baseFeeAmount"@, "0"@)),
        SqlArg::Text(str_or(p, "currencyCode"@, "CNY"@)),
        SqlArg::Bool(bool_or(p, "isDefault"@, false)),
        SqlArg::Text(json_text_or(p, "regionRule"@, "[]"@)),
        SqlArg::Text(json_text_or(p, "freeShippingRule"@, "{}"@)),
    ]
}

fn shipping_template_plan(
    tenant_id: &str,
    organization_id: &str,
    shop_id: &str,
    explicit_id: Option<String>,
    payload: &Payload,
    now: &str,
) -> (r: (String, Vec<SqlValue>))
    ensures
        r.0@ == row_id(opt_view(explicit_id), payload@, shipping_template_parts(tenant_id@, shop_id@, payload@)),
        args_of(r.1@) == head_args(r.0@, tenant_id@, organization_id@, shop_id@) + shipping_template_fields(payload@, now@) + seq![SqlArg::Text(now@)],
{
    let template_code: &str = payload.str_or("templateCode", "default");
    let parts = ["shop-shipping-template", tenant_id, shop_id, template_code];
    proof {
        assert(str_views(parts@) =~= shipping_template_parts(tenant_id@, shop_id@, payload@));
    }
    let id = resolve_row_id(explicit_id, payload, &parts);
    let mut binds: Vec<SqlValue> = Vec::new();
    binds.push(SqlValue::Text(id.clone()));
    binds.push(SqlValue::Text(tenant_id.to_owned()));
    binds.push(SqlValue::Text(organization_id.to_owned()));
    binds.push(SqlValue::Text(shop_id.to_owned()));
    binds.push(SqlValue::Text(template_code.to_owned()));
    binds.push(SqlValue::Text(payload.text_or("templateName", "default template")));
    binds.push(SqlValue::Text(payload.text_or("templateStatus", "active")));
    binds.push(SqlValue::Text(payload.text_or("pricingMode", "fixed")));
    binds.push(SqlValue::Text(payload.text_or("deliveryMethod", "standard")));
    binds.push(SqlValue::Int(payload.int_or("baseQuantity", 1)));
    binds.push(SqlValue::Text(payload.text_or("baseFeeAmount", "0")));
    binds.push(SqlValue::Text(payload.text_or("currencyCode", "CNY")));
    binds.push(SqlValue::Bool(payload.bool_or("isDefault", false)));
    binds.push(SqlValue::Text(payload.json_text_or("regionRule", "[]")));
    binds.push(SqlValue::Text(payload.json_text_or("freeShippingRule", "{}")));
    binds.push(SqlValue::Text(now.to_owned()));
    proof {
        assert(args_of(binds@) =~= head_args(id@, tenant_id@, organization_id@, shop_id@) + shipping_template_fields(payload@, now@) + seq![SqlArg::Text(now@)]);
    }
    (id, binds)
}

/// The stable-id parts of a `Channel` row.
pub open spec fn channel_parts(tenant: Seq<char>, shop: Seq<char>, p: Option<Seq<(Seq<char>, JsonVal)>>) -> Seq<Seq<char>> {
    let channel_code = str_or(p, "channelCode"@, "web"@);
    seq!["shop-channel"@, tenant, shop, channel_code]
}

/// The values bound to the `Channel` upsert statement, after the row id,
/// tenant, organization and shop.
pub open spec fn channel_fields(p: Option<Seq<(Seq<char>, JsonVal)>>, now: Seq<char>) -> Seq<SqlArg> {
    let channel_code = str_or(p, "channelCode"@, "web"@);
    seq![
        SqlArg::Text(channel_code),
        SqlArg::Text(str_or(p, "storefrontStatus"@, "active"@)),
        SqlArg::OptText(get_str(p, "domainName"@)),
        SqlArg::OptText(get_str(p, "pathPrefix"@)),
        SqlArg::OptText(get_str(p, "themeCode"@)),
        SqlArg::Text(json_text_or(p, "channelConfig"@, "{}"@)),
        SqlArg::Int(int_or(p, "sortOrder"@, 0)),
    ]
}

fn channel_plan(
    tenant_id: &str,
    organization_id: &str,
    shop_id: &str,
    explicit_id: Option<String>,
    payload: &Payload,
    now: &str,
) -> (r: (String, Vec<SqlValue>))
    ensures
        r.0@ == row_id(opt_view(explicit_id), payload@, channel_parts(tenant_id@, shop_id@, payload@)),
        args_of(r.1@) == head_args(r.0@, tenant_id@, organization_id@, shop_id@) + channel_fields(payload@, now@) + seq![SqlArg::Text(now@)],
{
    let channel_code: &str = payload.str_or("channelCode", "web");
    let parts = ["shop-channel", tenant_id, shop_id, channel_code];
    proof {
        assert(str_views(parts@) =~= channel_parts(tenant_id@, shop_id@, payload@));
    }
    let id = resolve_row_id(explicit_id, payload, &parts);
    let mut binds: Vec<SqlValue> = Vec::new();
    binds.push(SqlValue::Text(id.clone()));
    binds.push(SqlValue::Text(tenant_id.to_owned()));
    binds.push(SqlValue::Text(organization_id.to_owned()));
    binds.push(SqlValue::Text(shop_id.to_owned()));
    binds.push(SqlValue::Text(channel_code.to_owned()));
    binds.push(SqlValue::Text(payload.text_or("storefrontStatus", "active")));
    binds.push(SqlValue::OptText(payload.opt_text("domainName")));
    binds.push(SqlValue::OptText(payload.opt_text("pathPrefix")));
    binds.push(SqlValue::OptText(payload.opt_text("themeCode")));
    binds.push(SqlValue::Text(payload.json_text_or("channelConfig", "{}")));
    binds.push(SqlValue::Int(payload.int_or("sortOrder", 0)));
    binds.push(SqlValue::Text(now.to_owned()));
    proof {
        assert(args_of(binds@) =~= head_args(id@, tenant_id@, organization_id@, shop_id@) + channel_fields(payload@, now@) + seq![SqlArg::Text(now@)]);
    }
    (id, binds)
}

/// The stable-id parts of a `ServiceArea` row.
pub open spec fn service_area_parts(tenant: Seq<char>, shop: Seq<char>, p: Option<Seq<(Seq<char>, JsonVal)>>) -> Seq<Seq<char>> {
    let area_type = str_or(p, "areaType"@, "country"@);
    let country_code = str_or(p, "countryCode"@, "CN"@);
    let area_key = str_or(p, "areaKey"@, "default"@);
    seq!["shop-service-area"@, tenant, shop, area_type, country_code, area_key]
}

/// The values bound to the `ServiceArea` upsert statement, after the row id,
/// tenant, organization and shop.
pub open spec fn service_area_fields(p: Option<Seq<(Seq<char>, JsonVal)>>, now: Seq<char>) -> Seq<SqlArg> {
    let area_type = str_or(p, "areaType"@, "country"@);
    let country_code = str_or(p, "countryCode"@, "CN"@);
    let area_key = str_or(p, "areaKey"@, "default"@);
    seq![
        SqlArg::Text(area_type),
        SqlArg::Text(country_code),
        SqlArg::OptText(get_str(p, "regionCode"@)),
        SqlArg::OptText(get_str(p, "cityCode"@)),
        SqlArg::Text(area_key),
        SqlArg::OptText(get_str(p, "postalCodePattern"@)),
        SqlArg::OptInt(get_int(p, "deliveryRadiusMeters"@)),
        SqlArg::Text(str_or(p, "serviceStatus"@, "active"@)),
        SqlArg::Text(json_text_or(p, "serviceConfig"@, "{}"@)),
        SqlArg::Int(int_or(p, "sortOrder"@, 0)),
    ]
}

fn service_area_plan(
    tenant_id: &str,
    organization_id: &str,
    shop_id: &str,
    explicit_id: Option<String>,
    payload: &Payload,
    now: &str,
) -> (r: (String, Vec<SqlValue>))
    ensures
        r.0@ == row_id(opt_view(explicit_id), payload@, service_area_parts(tenant_id@, shop_id@, payload@)),
        args_of(r.1@) == head_args(r.0@, tenant_id@, organization_id@, shop_id@) + service_area_fields(payload@, now@) + seq![SqlArg::Text(now@)],
{
    let area_type: &str = payload.str_or("areaType", "country");
    let country_code: &str = payload.str_or("countryCode", "CN");
    let area_key: &str = payload.str_or("areaKey", "default");
    let parts = ["shop-service-area", tenant_id, shop_id, area_type, country_code, area_key];
    proof {
        assert(str_views(parts@) =~= service_area_parts(tenant_id@, shop_id@, payload@));
    }
    let id = resolve_row_id(explicit_id, payload, &parts);
    let mut binds: Vec<SqlValue> = Vec::new();
    binds.push(SqlValue::Text(id.clone()));
    binds.push(SqlValue::Text(tenant_id.to_owned()));
    binds.push(SqlValue::Text(organization_id.to_owned()));
    binds.push(SqlValue::Text(shop_id.to_owned()));
    binds.push(SqlValue::Text(area_type.to_owned()));
    binds.push(SqlValue::Text(country_code.to_owned()));
    binds.push(SqlValue::OptText(payload.opt_text("regionCode")));
    binds.push(SqlValue::OptText(payload.opt_text("cityCode")));
    binds.push(SqlValue::Text(area_key.to_owned()));
    binds.push(SqlValue::OptText(payload.opt_text("postalCodePattern")));
    binds.push(SqlValue::OptInt(payload.opt_int("deliveryRadiusMeters")));
    binds.push(SqlValue::Text(payload.text_or("serviceStatus", "active")));
    binds.push(SqlValue::Text(payload.json_text_or("serviceConfig", "{}")));
    binds.push(SqlValue::Int(payload.int_or("sortOrder", 0)));
    binds.push(SqlValue::Text(now.to_owned()));
    proof {
        assert(args_of(binds@) =~= head_args(id@, tenant_id@, organization_id@, shop_id@) + service_area_fields(payload@, now@) + seq![SqlArg::Text(now@)]);
    }
    (id, binds)
}

/// The stable-id parts of a `Policy` row.
pub open spec fn policy_parts(tenant: Seq<char>, shop: Seq<char>, p: Option<Seq<(Seq<char>, JsonVal)>>) -> Seq<Seq<char>> {
    let policy_type = str_or(p, "policyType"@, "terms"@);
    let policy_version = int_or(p, "policyVersion"@, 1);
    let policy_version_text = signed_decimal(policy_version as int);
    seq!["shop-policy"@, tenant, shop, policy_type, policy_version_text]
}

/// The values bound to the `Policy` upsert statement, after the row id,
/// tenant, organization and shop.
pub open spec fn policy_fields(p: Option<Seq<(Seq<char>, JsonVal)>>, now: Seq<char>) -> Seq<SqlArg> {
    let policy_type = str_or(p, "policyType"@, "terms"@);
    let policy_version = int_or(p, "policyVersion"@, 1);
    let policy_version_text = signed_decimal(policy_version as int);
    seq![
        SqlArg::Text(policy_type),
        SqlArg::Text(str_or(p, "policyStatus"@, "draft"@)),
        SqlArg::Int(policy_version),
        SqlArg::Text(json_text_or(p, "policy"@, "{}"@)),
        SqlArg::OptText(get_str(p, "publishedAt"@)),
        SqlArg::OptText(get_str(p, "reviewedBy"@)),
        SqlArg::OptText(get_str(p, "reviewedAt"@)),
    ]
}

fn policy_plan(
    tenant_id: &str,
    organization_id: &str,
    shop_id: &str,
    explicit_id: Option<String>,
    payload: &Payload,
    now: &str,
) -> (r: (String, Vec<SqlValue>))
    ensures
        r.0@ == row_id(opt_view(explicit_id), payload@, policy_parts(tenant_id@, shop_id@, payload@)),
        args_of(r.1@) == head_args(r.0@, tenant_id@, organization_id@, shop_id@) + policy_fields(payload@, now@) + seq![SqlArg::Text(now@)],
{
    let policy_type: &str = payload.str_or("policyType", "terms");
    let policy_version: i64 = payload.int_or("policyVersion", 1);
    let policy_version_text = i64_to_decimal(policy_version);
    let parts = ["shop-policy", tenant_id, shop_id, policy_type, policy_version_text.as_str()];
    proof {
        assert(str_views(parts@) =~= policy_parts(tenant_id@, shop_id@, payload@));
    }
    let id = resolve_row_id(explicit_id, payload, &parts);
    let mut binds: Vec<SqlValue> = Vec::new();
    binds.push(SqlValue::Text(id.clone()));
    binds.push(SqlValue::Text(tenant_id.to_owned()));
    binds.push(SqlValue::Text(organization_id.to_owned()));
    binds.push(SqlValue::Text(shop_id.to_owned()));
    binds.push(SqlValue::Text(policy_type.to_owned()));
    binds.push(SqlValue::Text(payload.text_or("policyStatus", "draft")));
    binds.push(SqlValue::Int(policy_version));
    binds.push(SqlValue::Text(payload.json_text_or("policy", "{}")));
    binds.push(SqlValue::OptText(payload.opt_text("publishedAt")));
    binds.push(SqlValue::OptText(payload.opt_text("reviewedBy")));
    binds.push(SqlValue::OptText(payload.opt_text("reviewedAt")));
    binds.push(SqlValue::Text(now.to_owned()));
    proof {
        assert(args_of(binds@) =~= head_args(id@, tenant_id@, organization_id@, shop_id@) + policy_fields(payload@, now@) + seq![SqlArg::Text(now@)]);
    }
    (id, binds)
}

/// The stable-id parts of a `FulfillmentProfile` row.
pub open spec fn fulfillment_profile_parts(tenant: Seq<char>, shop: Seq<char>, p: Option<Seq<(Seq<char>, JsonVal)>>) -> Seq<Seq<char>> {

    seq!["shop-fulfillment"@, tenant, shop]
}

/// The values bound to the `FulfillmentProfile` upsert statement, after the row id,
/// tenant, organization and shop.
pub open spec fn fulfillment_profile_fields(p: Option<Seq<(Seq<char>, JsonVal)>>, now: Seq<char>) -> Seq<SqlArg> {

    seq![
        SqlArg::Text(str_or(p, "fulfillmentMode"@, "merchant"@)),
        SqlArg::OptText(get_str(p, "shippingOriginRegionCode"@)),
        SqlArg::OptText(get_str(p, "serviceLevelCode"@)),
        SqlArg::Text(json_text_or(p, "afterSalesPolicy"@, "{}"@)),
        SqlArg::Text(json_text_or(p, "serviceConfig"@, "{}"@)),
    ]
}

fn fulfillment_profile_plan(
    tenant_id: &str,
    organization_id: &str,
    shop_id: &str,
    explicit_id: Option<String>,
    payload: &Payload,
    now: &str,
) -> (r: (String, Vec<SqlValue>))
    ensures
        r.0@ == row_id(opt_view(explicit_id), payload@, fulfillment_profile_parts(tenant_id@, shop_id@, payload@)),
        args_of(r.1@) == head_args(r.0@, tenant_id@, organization_id@, shop_id@) + fulfillment_profile_fields(payload@, now@) + seq![SqlArg::Text(now@)],
{

    let parts = ["shop-fulfillment", tenant_id, shop_id];
    proof {
        assert(str_views(parts@) =~= fulfillment_profile_parts(tenant_id@, shop_id@, payload@));
    }
    let id = resolve_row_id(explicit_id, payload, &parts);
    let mut binds: Vec<SqlValue> = Vec::new();
    binds.push(SqlValue::Text(id.clone()));
    binds.push(SqlValue::Text(tenant_id.to_owned()));
    binds.push(SqlValue::Text(organization_id.to_owned()));
    binds.push(SqlValue::Text(shop_id.to_owned()));
    binds.push(SqlValue::Text(payload.text_or("fulfillmentMode", "merchant")));
    binds.push(SqlValue::OptText(payload.opt_text("shippingOriginRegionCode")));
    binds.push(SqlValue::OptText(payload.opt_text("serviceLevelCode")));
    binds.push(SqlValue::Text(payload.json_text_or("afterSalesPolicy", "{}")));
    binds.push(SqlValue::Text(payload.json_text_or("serviceConfig", "{}")));
    binds.push(SqlValue::Text(now.to_owned()));
    proof {
        assert(args_of(binds@) =~= head_args(id@, tenant_id@, organization_id@, shop_id@) + fulfillment_profile_fields(payload@, now@) + seq![SqlArg::Text(now@)]);
    }
    (id, binds)
}

/// The stable-id parts of a `SettlementProfile` row.
pub open spec fn settlement_profile_parts(tenant: Seq<char>, shop: Seq<char>, p: Option<Seq<(Seq<char>, JsonVal)>>) -> Seq<Seq<char>> {

    seq!["shop-settlement"@, tenant, shop]
}

/// The values bound to the `SettlementProfile` upsert statement, after the row id,
/// tenant, organization and shop.
pub open spec fn settlement_profile_fields(p: Option<Seq<(Seq<char>, JsonVal)>>, now: Seq<char>) -> Seq<SqlArg> {

    seq![
        SqlArg::Text(str_or(p, "settlementStatus"@, "pending"@)),
        SqlArg::Text(str_or(p, "settlementCycle"@, "monthly"@)),
        SqlArg::Text(str_or(p, "settlementCurrencyCode"@, "CNY"@)),
        SqlArg::OptText(get_str(p, "accountRef"@)),
        SqlArg::Int(int_or(p, "riskHoldDays"@, 0)),
        SqlArg::Text(json_text_or(p, "settlementConfig"@, "{}"@)),
        SqlArg::OptText(get_str(p, "reviewedBy"@)),
        SqlArg::OptText(get_str(p, "reviewedAt"@)),
    ]
}

fn settlement_profile_plan(
    tenant_id: &str,
    organization_id: &str,
    shop_id: &str,
    explicit_id: Option<String>,
    payload: &Payload,
    now: &str,
) -> (r: (String, Vec<SqlValue>))
    ensures
        r.0@ == row_id(opt_view(explicit_id), payload@, settlement_profile_parts(tenant_id@, shop_id@, payload@)),
        args_of(r.1@) == head_args(r.0@, tenant_id@, organization_id@, shop_id@) + settlement_profile_fields(payload@, now@) + seq![SqlArg::Text(now@)],
{

    let parts = ["shop-settlement", tenant_id, shop_id];
    proof {
        assert(str_views(parts@) =~= settlement_profile_parts(tenant_id@, shop_id@, payload@));
    }
    let id = resolve_row_id(explicit_id, payload, &parts);
    let mut binds: Vec<SqlValue> = Vec::new();
    binds.push(SqlValue::Text(id.clone()));
    binds.push(SqlValue::Text(tenant_id.to_owned()));
    binds.push(SqlValue::Text(organization_id.to_owned()));
    binds.push(SqlValue::Text(shop_id.to_owned()));
    binds.push(SqlValue::Text(payload.text_or("settlementStatus", "pending")));
    binds.push(SqlValue::Text(payload.text_or("settlementCycle", "monthly")));
    binds.push(SqlValue::Text(payload.text_or("settlementCurrencyCode", "CNY")));
    binds.push(SqlValue::OptText(payload.opt_text("accountRef")));
    binds.push(SqlValue::Int(payload.int_or("riskHoldDays", 0)));
    binds.push(SqlValue::Text(payload.json_text_or("settlementConfig", "{}")));
    binds.push(SqlValue::OptText(payload.opt_text("reviewedBy")));
    binds.push(SqlValue::OptText(payload.opt_text("reviewedAt")));
    binds.push(SqlValue::Text(now.to_owned()));
    proof {
        assert(args_of(binds@) =~= head_args(id@, tenant_id@, organization_id@, shop_id@) + settlement_profile_fields(payload@, now@) + seq![SqlArg::Text(now@)]);
    }
    (id, binds)
}

/// The stable-id parts of a `BusinessHour` row.
pub open spec fn business_hour_parts(tenant: Seq<char>, shop: Seq<char>, p: Option<Seq<(Seq<char>, JsonVal)>>) -> Seq<Seq<char>> {
    let schedule_type = str_or(p, "scheduleType"@, "default"@);
    seq!["shop-business-hour"@, tenant, shop, schedule_type]
}

/// The values bound to the `BusinessHour` upsert statement, after the row id,
/// tenant, organization and shop.
pub open spec fn business_hour_fields(p: Option<Seq<(Seq<char>, JsonVal)>>, now: Seq<char>) -> Seq<SqlArg> {
    let schedule_type = str_or(p, "scheduleType"@, "default"@);
    seq![
        SqlArg::Text(schedule_type),
        SqlArg::Text(str_or(p, "timezone"@, "Asia/Shanghai"@)),
        SqlArg::Text(json_text_or(p, "weeklySchedule"@, "{}"@)),
        SqlArg::Text(json_text_or(p, "holidaySchedule"@, "{}"@)),
        SqlArg::OptText(get_str(p, "effectiveFrom"@)),
        SqlArg::OptText(get_str(p, "effectiveTo"@)),
        SqlArg::Text(str_or(p, "status"@, "active"@)),
        SqlArg::Int(int_or(p, "version"@, 0)),
    ]
}

fn business_hour_plan(
    tenant_id: &str,
    organization_id: &str,
    shop_id: &str,
    explicit_id: Option<String>,
    payload: &Payload,
    now: &str,
) -> (r: (String, Vec<SqlValue>))
    ensures
        r.0@ == row_id(opt_view(explicit_id), payload@, business_hour_parts(tenant_id@, shop_id@, payload@)),
        args_of(r.1@) == head_args(r.0@, tenant_id@, organization_id@, shop_id@) + business_hour_fields(payload@, now@) + seq![SqlArg::Text(now@)],
{
    let schedule_type: &str = payload.str_or("scheduleType", "default");
    let parts = ["shop-business-hour", tenant_id, shop_id, schedule_type];
    proof {
        assert(str_views(parts@) =~= business_hour_parts(tenant_id@, shop_id@, payload@));
    }
    let id = resolve_row_id(explicit_id, payload, &parts);
    let mut binds: Vec<SqlValue> = Vec::new();
    binds.push(SqlValue::Text(id.clone()));
    binds.push(SqlValue::Text(tenant_id.to_owned()));
    binds.push(SqlValue::Text(organization_id.to_owned()));
    binds.push(SqlValue::Text(shop_id.to_owned()));
    binds.push(SqlValue::Text(schedule_type.to_owned()));
    binds.push(SqlValue::Text(payload.text_or("timezone", "Asia/Shanghai")));
    binds.push(SqlValue::Text(payload.json_text_or("weeklySchedule", "{}")));
    binds.push(SqlValue::Text(payload.json_text_or("holidaySchedule", "{}")));
    binds.push(SqlValue::OptText(payload.opt_text("effectiveFrom")));
    binds.push(SqlValue::OptText(payload.opt_text("effectiveTo")));
    binds.push(SqlValue::Text(payload.text_or("status", "active")));
    binds.push(SqlValue::Int(payload.int_or("version", 0)));
    binds.push(SqlValue::Text(now.to_owned()));
    proof {
        assert(args_of(binds@) =~= head_args(id@, tenant_id@, organization_id@, shop_id@) + business_hour_fields(payload@, now@) + seq![SqlArg::Text(now@)]);
    }
    (id, binds)
}

/// The stable-id parts of a `DepositAccount` row.
pub open spec fn deposit_account_parts(tenant: Seq<char>, shop: Seq<char>, p: Option<Seq<(Seq<char>, JsonVal)>>) -> Seq<Seq<char>> {

    seq!["shop-deposit"@, tenant, shop]
}

/// The values bound to the `DepositAccount` upsert statement, after the row id,
/// tenant, organization and shop.
pub open spec fn deposit_account_fields(p: Option<Seq<(Seq<char>, JsonVal)>>, now: Seq<char>) -> Seq<SqlArg> {

    seq![
        SqlArg::Text(str_or(p, "depositStatus"@, "pending"@)),
        SqlArg::Text(str_or(p, "currencyCode"@, "CNY"@)),
        SqlArg::Text(str_or(p, "requiredAmount"@, "0"@)),
        SqlArg::Text(str_or(p, "paidAmount"@, "0"@)),
        SqlArg::Text(str_or(p, "frozenAmount"@, "0"@)),
        SqlArg::OptText(get_str(p, "accountRef"@)),
        SqlArg::OptText(get_str(p, "dueAt"@)),
        SqlArg::OptText(get_str(p, "reviewedBy"@)),
        SqlArg::OptText(get_str(p, "reviewedAt"@)),
    ]
}

fn deposit_account_plan(
    tenant_id: &str,
    organization_id: &str,
    shop_id: &str,
    explicit_id: Option<String>,
    payload: &Payload,
    now: &str,
) -> (r: (String, Vec<SqlValue>))
    ensures
        r.0@ == row_id(opt_view(explicit_id), payload@, deposit_account_parts(tenant_id@, shop_id@, payload@)),
        args_of(r.1@) == head_args(r.0@, tenant_id@, organization_id@, shop_id@) + deposit_account_fields(payload@, now@) + seq![SqlArg::Text(now@)],
{

    let parts = ["shop-deposit", tenant_id, shop_id];
    proof {
        assert(str_views(parts@) =~= deposit_account_parts(tenant_id@, shop_id@, payload@));
    }
    let id = resolve_row_id(explicit_id, payload, &parts);
    let mut binds: Vec<SqlValue> = Vec::new();
    binds.push(SqlValue::Text(id.clone()));
    binds.push(SqlValue::Text(tenant_id.to_owned()));
    binds.push(SqlValue::Text(organization_id.to_owned()));
    binds.push(SqlValue::Text(shop_id.to_owned()));
    binds.push(SqlValue::Text(payload.text_or("depositStatus", "pending")));
    binds.push(SqlValue::Text(payload.text_or("currencyCode", "CNY")));
    binds.push(SqlValue::Text(payload.text_or("requiredAmount", "0")));
    binds.push(SqlValue::Text(payload.text_or("paidAmount", "0")));
    binds.push(SqlValue::Text(payload.text_or("frozenAmount", "0")));
    binds.push(SqlValue::OptText(payload.opt_text("accountRef")));
    binds.push(SqlValue::OptText(payload.opt_text("dueAt")));
    binds.push(SqlValue::OptText(payload.opt_text("reviewedBy")));
    binds.push(SqlValue::OptText(payload.opt_text("reviewedAt")));
    binds.push(SqlValue::Text(now.to_owned()));
    proof {
        assert(args_of(binds@) =~= head_args(id@, tenant_id@, organization_id@, shop_id@) + deposit_account_fields(payload@, now@) + seq![SqlArg::Text(now@)]);
    }
    (id, binds)
}

/// The stable-id parts of a `Verification` row.
pub open spec fn verification_parts(tenant: Seq<char>, shop: Seq<char>, p: Option<Seq<(Seq<char>, JsonVal)>>) -> Seq<Seq<char>> {
    let verification_type = str_or(p, "verificationType"@, "business_license"@);
    seq!["shop-verification"@, tenant, shop, verification_type]
}

/// The values bound to the `Verification` upsert statement, after the row id,
/// tenant, organization and shop.
pub open spec fn verification_fields(p: Option<Seq<(Seq<char>, JsonVal)>>, now: Seq<char>) -> Seq<SqlArg> {
    let verification_type = str_or(p, "verificationType"@, "business_license"@);
    seq![
        SqlArg::Text(verification_type),
        SqlArg::Text(str_or(p, "verificationStatus"@, "pending"@)),
        SqlArg::OptText(get_str(p, "legalEntityName"@)),
        SqlArg::OptText(get_str(p, "credentialNoHash"@)),
        SqlArg::OptText(get_str(p, "credentialMediaResourceId"@)),
        SqlArg::Text(json_text_or(p, "verificationSnapshot"@, "{}"@)),
        SqlArg::OptText(get_str(p, "expiresAt"@)),
        SqlArg::OptText(get_str(p, "reviewedBy"@)),
        SqlArg::OptText(get_str(p, "reviewedAt"@)),
    ]
}

fn verification_plan(
    tenant_id: &str,
    organization_id: &str,
    shop_id: &str,
    explicit_id: Option<String>,
    payload: &Payload,
    now: &str,
) -> (r: (String, Vec<SqlValue>))
    ensures
        r.0@ == row_id(opt_view(explicit_id), payload@, verification_parts(tenant_id@, shop_id@, payload@)),
        args_of(r.1@) == head_args(r.0@, tenant_id@, organization_id@, shop_id@) + verification_fields(payload@, now@) + seq![SqlArg::Text(now@)],
{
    let verification_type: &str = payload.str_or("verificationType", "business_license");
    let parts = ["shop-verification", tenant_id, shop_id, verification_type];
    proof {
        assert(str_views(parts@) =~= verification_parts(tenant_id@, shop_id@, payload@));
    }
    let id = resolve_row_id(explicit_id, payload, &parts);
    let mut binds: Vec<SqlValue> = Vec::new();
    binds.push(SqlValue::Text(id.clone()));
    binds.push(SqlValue::Text(tenant_id.to_owned()));
    binds.push(SqlValue::Text(organization_id.to_owned()));
    binds.push(SqlValue::Text(shop_id.to_owned()));
    binds.push(SqlValue::Text(verification_type.to_owned()));
    binds.push(SqlValue::Text(payload.text_or("verificationStatus", "pending")));
    binds.push(SqlValue::OptText(payload.opt_text("legalEntityName")));
    binds.push(SqlValue::OptText(payload.opt_text("credentialNoHash")));
    binds.push(SqlValue::OptText(payload.opt_text("credentialMediaResourceId")));
    binds.push(SqlValue::Text(payload.json_text_or("verificationSnapshot", "{}")));
    binds.push(SqlValue::OptText(payload.opt_text("expiresAt")));
    binds.push(SqlValue::OptText(payload.opt_text("reviewedBy")));
    binds.push(SqlValue::OptText(payload.opt_text("reviewedAt")));
    binds.push(SqlValue::Text(now.to_owned()));
    proof {
        assert(args_of(binds@) =~= head_args(id@, tenant_id@, organization_id@, shop_id@) + verification_fields(payload@, now@) + seq![SqlArg::Text(now@)]);
    }
    (id, binds)
}

/// The stable-id parts of a `RiskSignal` row.
pub open spec fn risk_signal_parts(tenant: Seq<char>, shop: Seq<char>, p: Option<Seq<(Seq<char>, JsonVal)>>) -> Seq<Seq<char>> {
    let signal_no = str_or(p, "signalNo"@, "signal"@);
    seq!["shop-risk-signal"@, tenant, shop, signal_no]
}

/// The values bound to the `RiskSignal` upsert statement, after the row id,
/// tenant, organization and shop.
pub open spec fn risk_signal_fields(p: Option<Seq<(Seq<char>, JsonVal)>>, now: Seq<char>) -> Seq<SqlArg> {
    let signal_no = str_or(p, "signalNo"@, "signal"@);
    seq![
        SqlArg::Text(signal_no),
        SqlArg::Text(str_or(p, "signalType"@, "manual"@)),
        SqlArg::Text(str_or(p, "riskLevel"@, "low"@)),
        SqlArg::Text(str_or(p, "signalStatus"@, "open"@)),
        SqlArg::OptText(get_str(p, "sourceType"@)),
        SqlArg::OptText(get_str(p, "sourceId"@)),
        SqlArg::Int(int_or(p, "riskScore"@, 0)),
        SqlArg::Text(json_text_or(p, "payload"@, "{}"@)),
        SqlArg::Text(str_or(p, "detectedAt"@, now)),
    ]
}

fn risk_signal_plan(
    tenant_id: &str,
    organization_id: &str,
    shop_id: &str,
    explicit_id: Option<String>,
    payload: &Payload,
    now: &str,
) -> (r: (String, Vec<SqlValue>))
    ensures
        r.0@ == row_id(opt_view(explicit_id), payload@, risk_signal_parts(tenant_id@, shop_id@, payload@)),
        args_of(r.1@) == head_args(r.0@, tenant_id@, organization_id@, shop_id@) + risk_signal_fields(payload@, now@) + seq![SqlArg::Text(now@)],
{
    let signal_no: &str = payload.str_or("signalNo", "signal");
    let parts = ["shop-risk-signal", tenant_id, shop_id, signal_no];
    proof {
        assert(str_views(parts@) =~= risk_signal_parts(tenant_id@, shop_id@, payload@));
    }
    let id = resolve_row_id(explicit_id, payload, &parts);
    let mut binds: Vec<SqlValue> = Vec::new();
    binds.push(SqlValue::Text(id.clone()));
    binds.push(SqlValue::Text(tenant_id.to_owned()));
    binds.push(SqlValue::Text(organization_id.to_owned()));
    binds.push(SqlValue::Text(shop_id.to_owned()));
    binds.push(SqlValue::Text(signal_no.to_owned()));
    binds.push(SqlValue::Text(payload.text_or("signalType", "manual")));
    binds.push(SqlValue::Text(payload.text_or("riskLevel", "low")));
    binds.push(SqlValue::Text(payload.text_or("signalStatus", "open")));
    binds.push(SqlValue::OptText(payload.opt_text("sourceType")));
    binds.push(SqlValue::OptText(payload.opt_text("sourceId")));
    binds.push(SqlValue::Int(payload.int_or("riskScore", 0)));
    binds.push(SqlValue::Text(payload.json_text_or("payload", "{}")));
    binds.push(SqlValue::Text(payload.str_or("detectedAt", now).to_owned()));
    binds.push(SqlValue::Text(now.to_owned()));
    proof {
        assert(args_of(binds@) =~= head_args(id@, tenant_id@, organization_id@, shop_id@) + risk_signal_fields(payload@, now@) + seq![SqlArg::Text(now@)]);
    }
    (id, binds)
}

/// The stable-id parts of a `Application` row.
pub open spec fn application_parts(tenant: Seq<char>, shop: Seq<char>, p: Option<Seq<(Seq<char>, JsonVal)>>) -> Seq<Seq<char>> {
    let application_no = str_or(p, "applicationNo"@, "APP-001"@);
    let idempotency_key = str_or(p, "idempotencyKey"@, application_no);
    seq!["shop-application"@, tenant, shop, idempotency_key]
}

/// The values bound to the `Application` upsert statement, after the row id,
/// tenant, organization and shop.
pub open spec fn application_fields(p: Option<Seq<(Seq<char>, JsonVal)>>, now: Seq<char>) -> Seq<SqlArg> {
    let application_no = str_or(p, "applicationNo"@, "APP-001"@);
    let idempotency_key = str_or(p, "idempotencyKey"@, application_no);
    seq![
        SqlArg::Text(application_no),
        SqlArg::Text(str_or(p, "applicationType"@, "onboarding"@)),
        SqlArg::Text(str_or(p, "reviewStatus"@, "pending"@)),
        SqlArg::Text(json_text_or(p, "legalEntitySnapshot"@, "{}"@)),
        SqlArg::Text(json_text_or(p, "contactSnapshot"@, "{}"@)),
        SqlArg::Text(json_text_or(p, "qualificationSnapshot"@, "{}"@)),
        SqlArg::Text(str_or(p, "submittedBy"@, "system"@)),
        SqlArg::Text(str_or(p, "submittedAt"@, now)),
        SqlArg::OptText(get_str(p, "reviewedBy"@)),
        SqlArg::OptText(get_str(p, "reviewedAt"@)),
        SqlArg::OptText(get_str(p, "reviewComment"@)),
        SqlArg::Text(idempotency_key),
    ]
}

fn application_plan(
    tenant_id: &str,
    organization_id: &str,
    shop_id: &str,
    explicit_id: Option<String>,
    payload: &Payload,
    now: &str,
) -> (r: (String, Vec<SqlValue>))
    ensures
        r.0@ == row_id(opt_view(explicit_id), payload@, application_parts(tenant_id@, shop_id@, payload@)),
        args_of(r.1@) == head_args(r.0@, tenant_id@, organization_id@, shop_id@) + application_fields(payload@, now@) + seq![SqlArg::Text(now@)],
{
    let application_no: &str = payload.str_or("applicationNo", "APP-001");
    let idempotency_key: &str = payload.str_or("idempotencyKey", application_no);
    let parts = ["shop-application", tenant_id, shop_id, idempotency_key];
    proof {
        assert(str_views(parts@) =~= application_parts(tenant_id@, shop_id@, payload@));
    }
    let id = resolve_row_id(explicit_id, payload, &parts);
    let mut binds: Vec<SqlValue> = Vec::new();
    binds.push(SqlValue::Text(id.clone()));
    binds.push(SqlValue::Text(tenant_id.to_owned()));
    binds.push(SqlValue::Text(organization_id.to_owned()));
    binds.push(SqlValue::Text(shop_id.to_owned()));
    binds.push(SqlValue::Text(application_no.to_owned()));
    binds.push(SqlValue::Text(payload.text_or("applicationType", "onboarding")));
    binds.push(SqlValue::Text(payload.text_or("reviewStatus", "pending")));
    binds.push(SqlValue::Text(payload.json_text_or("legalEntitySnapshot", "{}")));
    binds.push(SqlValue::Text(payload.json_text_or("contactSnapshot", "{}")));
    binds.push(SqlValue::Text(payload.json_text_or("qualificationSnapshot", "{}")));
    binds.push(SqlValue::Text(payload.text_or("submittedBy", "system")));
    binds.push(SqlValue::Text(payload.str_or("submittedAt", now).to_owned()));
    binds.push(SqlValue::OptText(payload.opt_text("reviewedBy")));
    binds.push(SqlValue::OptText(payload.opt_text("reviewedAt")));
    binds.push(SqlValue::OptText(payload.opt_text("reviewComment")));
    binds.push(SqlValue::Text(idempotency_key.to_owned()));
    binds.push(SqlValue::Text(now.to_owned()));
    proof {
        assert(args_of(binds@) =~= head_args(id@, tenant_id@, organization_id@, shop_id@) + application_fields(payload@, now@) + seq![SqlArg::Text(now@)]);
    }
    (id, binds)
}

/// The stable-id parts of a row of table `t`.
pub open spec fn upsert_parts(t: ShopTable, tenant: Seq<char>, shop: Seq<char>, p: Option<Seq<(Seq<char>, JsonVal)>>) -> Seq<Seq<char>> {
    match t {
        ShopTable::CategoryBinding => category_binding_parts(tenant, shop, p),
        ShopTable::BrandAuthorization => brand_authorization_parts(tenant, shop, p),
        ShopTable::Qualification => qualification_parts(tenant, shop, p),
        ShopTable::CustomerService => customer_service_parts(tenant, shop, p),
        ShopTable::ReturnAddress => return_address_parts(tenant, shop, p),
        ShopTable::ShippingTemplate => shipping_template_parts(tenant, shop, p),
        ShopTable::Channel => channel_parts(tenant, shop, p),
        ShopTable::ServiceArea => service_area_parts(tenant, shop, p),
        ShopTable::Policy => policy_parts(tenant, shop, p),
        ShopTable::FulfillmentProfile => fulfillment_profile_parts(tenant, shop, p),
        ShopTable::SettlementProfile => settlement_profile_parts(tenant, shop, p),
        ShopTable::BusinessHour => business_hour_parts(tenant, shop, p),
        ShopTable::DepositAccount => deposit_account_parts(tenant, shop, p),
        ShopTable::Verification => verification_parts(tenant, shop, p),
        ShopTable::RiskSignal => risk_signal_parts(tenant, shop, p),
        ShopTable::Application => application_parts(tenant, shop, p),
    }
}

/// The table-specific values bound to the upsert statement of table `t`.
pub open spec fn upsert_fields(t: ShopTable, p: Option<Seq<(Seq<char>, JsonVal)>>, now: Seq<char>) -> Seq<SqlArg> {
    match t {
        ShopTable::CategoryBinding => category_binding_fields(p, now),
        ShopTable::BrandAuthorization => brand_authorization_fields(p, now),
        ShopTable::Qualification => qualification_fields(p, now),
        ShopTable::CustomerService => customer_service_fields(p, now),
        ShopTable::ReturnAddress => return_address_fields(p, now),
        ShopTable::ShippingTemplate => shipping_template_fields(p, now),
        ShopTable::Channel => channel_fields(p, now),
        ShopTable::ServiceArea => service_area_fields(p, now),
        ShopTable::Policy => policy_fields(p, now),
        ShopTable::FulfillmentProfile => fulfillment_profile_fields(p, now),
        ShopTable::SettlementProfile => settlement_profile_fields(p, now),
        ShopTable::BusinessHour => business_hour_fields(p, now),
        ShopTable::DepositAccount => deposit_account_fields(p, now),
        ShopTable::Verification => verification_fields(p, now),
        ShopTable::RiskSignal => risk_signal_fields(p, now),
        ShopTable::Application => application_fields(p, now),
    }
}

fn table_plan(
    table: ShopTable,
    tenant_id: &str,
    organization_id: &str,
    shop_id: &str,
    explicit_id: Option<String>,
    payload: &Payload,
    now: &str,
) -> (r: (String, Vec<SqlValue>))
    ensures
        r.0@ == row_id(opt_view(explicit_id), payload@, upsert_parts(table, tenant_id@, shop_id@, payload@)),
        args_of(r.1@) == head_args(r.0@, tenant_id@, organization_id@, shop_id@) + upsert_fields(table, payload@, now@) + seq![SqlArg::Text(now@)],
{
    match table {
        ShopTable::CategoryBinding => category_binding_plan(tenant_id, organization_id, shop_id, explicit_id, payload, now),
        ShopTable::BrandAuthorization => brand_authorization_plan(tenant_id, organization_id, shop_id, explicit_id, payload, now),
        ShopTable::Qualification => qualification_plan(tenant_id, organization_id, shop_id, explicit_id, payload, now),
        ShopTable::CustomerService => customer_service_plan(tenant_id, organization_id, shop_id, explicit_id, payload, now),
        ShopTable::ReturnAddress => return_address_plan(tenant_id, organization_id, shop_id, explicit_id, payload, now),
        ShopTable::ShippingTemplate => shipping_template_plan(tenant_id, organization_id, shop_id, explicit_id, payload, now),
        ShopTable::Channel => channel_plan(tenant_id, organization_id, shop_id, explicit_id, payload, now),
        ShopTable::ServiceArea => service_area_plan(tenant_id, organization_id, shop_id, explicit_id, payload, now),
        ShopTable::Policy => policy_plan(tenant_id, organization_id, shop_id, explicit_id, payload, now),
        ShopTable::FulfillmentProfile => fulfillment_profile_plan(tenant_id, organization_id, shop_id, explicit_id, payload, now),
        ShopTable::SettlementProfile => settlement_profile_plan(tenant_id, organization_id, shop_id, explicit_id, payload, now),
        ShopTable::BusinessHour => business_hour_plan(tenant_id, organization_id, shop_id, explicit_id, payload, now),
        ShopTable::DepositAccount => deposit_account_plan(tenant_id, organization_id, shop_id, explicit_id, payload, now),
        ShopTable::Verification => verification_plan(tenant_id, organization_id, shop_id, explicit_id, payload, now),
        ShopTable::RiskSignal => risk_signal_plan(tenant_id, organization_id, shop_id, explicit_id, payload, now),
        ShopTable::Application => application_plan(tenant_id, organization_id, shop_id, explicit_id, payload, now),
    }
}

/// `payload.get("shopCategoryCode")`, else `get("categoryCode")`, else `get("categoryId")`.
pub open spec fn category_code_member(p: Option<Seq<(Seq<char>, JsonVal)>>) -> Option<JsonVal> {
    match json_get(p, "shopCategoryCode"@) {
        Some(v) => Some(v),
        None => json_get_either(p, "categoryCode"@, "categoryId"@),
    }
}

/// The first four values of every upsert statement.
pub open spec fn head_args(id: Seq<char>, tenant: Seq<char>, org: Seq<char>, shop: Seq<char>) -> Seq<SqlArg> {
    seq![SqlArg::Text(id), SqlArg::Text(tenant), SqlArg::Text(org), SqlArg::Text(shop)]
}

pub open spec fn opt_str_view(o: Option<&str>) -> Option<Seq<char>> {
    match o {
        Some(s) => Some(s@),
        None => None,
    }
}

/// The organization scope a sub-resource row is written under: the trimmed
/// organization id, or the platform sentinel `0` when there is none or it is
/// blank, so that no-organization sessions never write an empty scope.
pub open spec fn write_organization(org: Option<Seq<char>>) -> Seq<char> {
    match org {
        Some(o) => if trim(o).len() > 0 {
            trim(o)
        } else {
            "0"@
        },
        None => "0"@,
    }
}

/// Computes [`write_organization`].
pub fn write_organization_of(organization_id: Option<&str>) -> (o: String)
    ensures
        o@ == write_organization(opt_str_view(organization_id)),
{
    match organization_id {
        Some(org) => {
            let trimmed = trim_text(org);
            if trimmed.as_str().is_empty() {
                "0".to_owned()
            } else {
                trimmed
            }
        },
        None => "0".to_owned(),
    }
}

/// The row a sub-resource write produces: the table, the row id, and the
/// values for the table's upsert statement in parameter order.
#[derive(Debug)]
pub struct UpsertPlan {
    pub table: ShopTable,
    pub id: String,
    pub binds: Vec<SqlValue>,
}

/// All values of the upsert statement of table `t`.
pub open spec fn upsert_args(
    t: ShopTable,
    id: Seq<char>,
    tenant: Seq<char>,
    org: Option<Seq<char>>,
    shop: Seq<char>,
    p: Option<Seq<(Seq<char>, JsonVal)>>,
    now: Seq<char>,
) -> Seq<SqlArg> {
    head_args(id, tenant, write_organization(org), shop) + upsert_fields(t, p, now) + seq![SqlArg::Text(now)]
}

/// `plan` is the write of `p` into table `t` at time `now`.
pub open spec fn plan_is(
    plan: UpsertPlan,
    t: ShopTable,
    tenant: Seq<char>,
    org: Option<Seq<char>>,
    shop: Seq<char>,
    explicit: Option<Seq<char>>,
    p: Option<Seq<(Seq<char>, JsonVal)>>,
    now: Seq<char>,
) -> bool {
    &&& plan.table == t
    &&& plan.id@ == row_id(explicit, p, upsert_parts(t, tenant, shop, p))
    &&& args_of(plan.binds@) == upsert_args(t, plan.id@, tenant, org, shop, p, now)
}

/// The message of the error for a table that accepts no writes.
pub open spec fn unsupported_table_message(table: Seq<char>) -> Seq<char> {
    "unsupported shop subresource table: "@ + table
}

/// Plans the write of `payload` into the sub-resource table named `table`
/// for one shop, at time `now`.
pub fn plan_shop_table_upsert_at(
    table: &str,
    tenant_id: &str,
    organization_id: Option<&str>,
    shop_id: &str,
    explicit_id: Option<String>,
    payload: &Payload,
    now: &str,
) -> (r: Result<UpsertPlan, ShopError>)
    ensures
        match r {
            Ok(plan) => table_name(plan.table) == table@ && plan_is(
                plan,
                plan.table,
                tenant_id@,
                opt_str_view(organization_id),
                shop_id@,
                opt_view(explicit_id),
                payload@,
                now@,
            ),
            Err(e) => (forall|u: ShopTable| table_name(u) != table@) && e.kind
                == ShopErrorKind::Validation && e.message@ == unsupported_table_message(table@),
        },
{
    let org = write_organization_of(organization_id);
    match ShopTable::from_name(table) {
        Some(t) => {
            let (id, binds) = table_plan(t, tenant_id, org.as_str(), shop_id, explicit_id, payload, now);
            Ok(UpsertPlan { table: t, id, binds })
        },
        None => {
            let mut message = "unsupported shop subresource table: ".to_owned();
            message.append(table);
            Err(ShopError::validation(message))
        },
    }
}

/// Plans the write of `payload` into the sub-resource table named `table`
/// for one shop, stamped with the current time.
pub fn plan_shop_table_upsert(
    table: &str,
    tenant_id: &str,
    organization_id: Option<&str>,
    shop_id: &str,
    explicit_id: Option<String>,
    payload: &Payload,
) -> (r: Result<UpsertPlan, ShopError>)
    ensures
        match r {
            Ok(plan) => table_name(plan.table) == table@ && exists|reading: Option<u64>|
                plan_is(
                    plan,
                    plan.table,
                    tenant_id@,
                    opt_str_view(organization_id),
                    shop_id@,
                    opt_view(explicit_id),
                    payload@,
                    #[trigger] epoch_text(reading),
                ),
            Err(e) => (forall|u: ShopTable| table_name(u) != table@) && e.kind
                == ShopErrorKind::Validation && e.message@ == unsupported_table_message(table@),
        },
{
    let now = current_timestamp_string();
    plan_shop_table_upsert_at(table, tenant_id, organization_id, shop_id, explicit_id, payload, now.as_str())
}

/// The outcome of a sub-resource write, given the row read back by its id:
/// that row, or a storage error naming what is missing.
pub fn upserted_row(table: ShopTable, row: Option<JsonObject>) -> (r: Result<JsonObject, ShopError>)
    ensures
        match row {
            Some(o) => r == Ok::<JsonObject, ShopError>(o),
            None => r matches Err(e) && e.kind == ShopErrorKind::Storage && e.message@
                == missing_after_upsert(table),
        },
{
    match row {
        Some(o) => Ok(o),
        None => Err(ShopError::storage(table.missing_message())),
    }
}

/// The outcome of resolving a risk signal, given the row read back: that
/// row, or "not found" when the signal does not exist.
pub fn resolved_risk_signal(row: Option<JsonObject>) -> (r: Result<JsonObject, ShopError>)
    ensures
        match row {
            Some(o) => r == Ok::<JsonObject, ShopError>(o),
            None => r matches Err(e) && e.kind == ShopErrorKind::NotFound && e.message@
                == "risk signal was not found"@,
        },
{
    match row {
        Some(o) => Ok(o),
        None => Err(ShopError::not_found("risk signal was not found")),
    }
}

/// The query reading a row of `table` by its id.
pub fn table_row_by_id_sql(table: &str) -> (sql: String)
    ensures
        sql@ == "SELECT * FROM "@ + table@
            + " WHERE tenant_id = CAST($1 AS TEXT) AND id = CAST($2 AS TEXT) LIMIT 1"@,
{
    let mut sql = "SELECT * FROM ".to_owned();
    sql.append(table);
    sql.append(" WHERE tenant_id = CAST($1 AS TEXT) AND id = CAST($2 AS TEXT) LIMIT 1");
    sql
}

/// The values bound to the statement that marks a risk signal resolved at
/// time `now`: status, resolution time, update time, then the row's key.
pub fn plan_resolve_risk_signal(tenant_id: &str, shop_id: &str, risk_signal_id: &str, now: &str) -> (binds: Vec<SqlValue>)
    ensures
        args_of(binds@) == seq![
            SqlArg::Text("resolved"@),
            SqlArg::Text(now@),
            SqlArg::Text(now@),
            SqlArg::Text(tenant_id@),
            SqlArg::Text(shop_id@),
            SqlArg::Text(risk_signal_id@),
        ],
{
    let mut binds: Vec<SqlValue> = Vec::new();
    binds.push(SqlValue::Text("resolved".to_owned()));
    binds.push(SqlValue::Text(now.to_owned()));
    binds.push(SqlValue::Text(now.to_owned()));
    binds.push(SqlValue::Text(tenant_id.to_owned()));
    binds.push(SqlValue::Text(shop_id.to_owned()));
    binds.push(SqlValue::Text(risk_signal_id.to_owned()));
    proof {
        assert(args_of(binds@) =~= seq![
            SqlArg::Text("resolved"@),
            SqlArg::Text(now@),
            SqlArg::Text(now@),
            SqlArg::Text(tenant_id@),
            SqlArg::Text(shop_id@),
            SqlArg::Text(risk_signal_id@),
        ]);
    }
    binds
}

} // verus!
