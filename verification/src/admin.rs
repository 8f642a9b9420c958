//! The shop administration surface: paging of the shop list, creating and
//! editing shops, the review / operation state transitions, the status
//! events they record, and the launch readiness they recompute.

use vstd::prelude::*;
use crate::error::{ShopError, ShopErrorKind};
use crate::json::{
    get_str, json_get, json_quote, json_quote_str, lookup, opt_or, str_or, JsonObject, JsonVal,
    JsonValue, Payload,
};
use crate::store::{at_least_one, clamp, PageWindow};
use crate::subresource::{args_of, opt_str_view, stable_storage_id, SqlArg, SqlValue};
use crate::text::{storage_id_of, str_views};

verus! {

/// The window of the admin shop list: the page defaults to 1 and is raised
/// to at least 1; the page size defaults to 20 and is held between 1 and 200.
pub fn admin_list_window(page: Option<u32>, page_size: Option<u32>) -> (w: PageWindow)
    requires
        (at_least_one(opt_or_u32(page, 1) as int) - 1) * clamp(opt_or_u32(page_size, 20) as int, 1, 200)
            <= u32::MAX,
    ensures
        w.page == at_least_one(opt_or_u32(page, 1) as int),
        w.page_size == clamp(opt_or_u32(page_size, 20) as int, 1, 200),
        w.limit == w.page_size,
        w.offset == (w.page - 1) * w.page_size,
{
    let p = match page {
        Some(p) => p,
        None => 1,
    };
    let p = if p < 1 {
        1
    } else {
        p
    };
    let size = match page_size {
        Some(s) => s,
        None => 20,
    };
    let size = if size < 1 {
        1
    } else if size > 200 {
        200
    } else {
        size
    };
    let offset = (p - 1) * size;
    PageWindow { page: p, page_size: size, limit: size as i64, offset: offset as i64 }
}

pub open spec fn opt_or_u32(o: Option<u32>, default: u32) -> u32 {
    match o {
        Some(x) => x,
        None => default,
    }
}

/// The organization a new shop belongs to: the body's `organizationId`, else
/// the session's organization, else the platform sentinel `0`.
pub open spec fn new_shop_organization(p: Option<Seq<(Seq<char>, JsonVal)>>, org: Option<Seq<char>>) -> Seq<char> {
    match get_str(p, "organizationId"@) {
        Some(o) => o,
        None => opt_or(org, "0"@),
    }
}

pub open spec fn new_shop_no(p: Option<Seq<(Seq<char>, JsonVal)>>) -> Seq<char> {
    str_or(p, "shopNo"@, "shop-no"@)
}

/// The id of a new shop: the body's `id`, else the stable id of its shop number.
pub open spec fn new_shop_id(tenant: Seq<char>, p: Option<Seq<(Seq<char>, JsonVal)>>) -> Seq<char> {
    opt_or(get_str(p, "id"@), storage_id_of(seq!["shop"@, tenant, new_shop_no(p)]))
}

/// The values bound to the shop insert, in statement order.
pub open spec fn shop_create_args(
    tenant: Seq<char>,
    org: Option<Seq<char>>,
    p: Option<Seq<(Seq<char>, JsonVal)>>,
    now: Seq<char>,
) -> Seq<SqlArg> {
    seq![
        SqlArg::Text(new_shop_id(tenant, p)),
        SqlArg::Text(tenant),
        SqlArg::Text(new_shop_organization(p, org)),
        SqlArg::Text(new_shop_no(p)),
        SqlArg::Text(str_or(p, "shopName"@, "shop"@)),
        SqlArg::Text(str_or(p, "shopType"@, "official"@)),
        SqlArg::Text(str_or(p, "businessModel"@, "self_operated"@)),
        SqlArg::Text(str_or(p, "storefrontStatus"@, "draft"@)),
        SqlArg::Text(str_or(p, "operationStatus"@, "draft"@)),
        SqlArg::Text(str_or(p, "reviewStatus"@, "pending"@)),
        SqlArg::Text(str_or(p, "defaultCurrencyCode"@, "CNY"@)),
        SqlArg::OptText(get_str(p, "defaultLocale"@)),
        SqlArg::OptText(get_str(p, "timezone"@)),
        SqlArg::Text(now),
    ]
}

/// A new shop: its id, organization and initial statuses (which its launch
/// readiness is computed from), and the values of its insert statement.
#[derive(Debug)]
pub struct ShopCreatePlan {
    pub id: String,
    pub organization_id: String,
    pub operation_status: String,
    pub review_status: String,
    pub binds: Vec<SqlValue>,
}

/// Plans the creation of a shop from an admin request body, at time `now`.
pub fn plan_shop_create(tenant_id: &str, organization_id: Option<&str>, payload: &Payload, now: &str) -> (plan: ShopCreatePlan)
    ensures
        plan.id@ == new_shop_id(tenant_id@, payload@),
        plan.organization_id@ == new_shop_organization(payload@, opt_str_view(organization_id)),
        plan.operation_status@ == str_or(payload@, "operationStatus"@, "draft"@),
        plan.review_status@ == str_or(payload@, "reviewStatus"@, "pending"@),
        args_of(plan.binds@) == shop_create_args(tenant_id@, opt_str_view(organization_id), payload@, now@),
{
    let org: &str = match payload.get_str("organizationId") {
        Some(o) => o,
        None => match organization_id {
            Some(o) => o,
            None => "0",
        },
    };
    let shop_no = payload.str_or("shopNo", "shop-no");
    let id = match payload.get_str("id") {
        Some(id) => id.to_owned(),
        None => {
            let parts = ["shop", tenant_id, shop_no];
            proof {
                assert(str_views(parts@) =~= seq!["shop"@, tenant_id@, shop_no@]);
            }
            stable_storage_id(&parts)
        },
    };
    let operation_status = payload.text_or("operationStatus", "draft");
    let review_status = payload.text_or("reviewStatus", "pending");
    let mut binds: Vec<SqlValue> = Vec::new();
    binds.push(SqlValue::Text(id.clone()));
    binds.push(SqlValue::Text(tenant_id.to_owned()));
    binds.push(SqlValue::Text(org.to_owned()));
    binds.push(SqlValue::Text(shop_no.to_owned()));
    binds.push(SqlValue::Text(payload.text_or("shopName", "shop")));
    binds.push(SqlValue::Text(payload.text_or("shopType", "official")));
    binds.push(SqlValue::Text(payload.text_or("businessModel", "self_operated")));
    binds.push(SqlValue::Text(payload.text_or("storefrontStatus", "draft")));
    binds.push(SqlValue::Text(operation_status.clone()));
    binds.push(SqlValue::Text(review_status.clone()));
    binds.push(SqlValue::Text(payload.text_or("defaultCurrencyCode", "CNY")));
    binds.push(SqlValue::OptText(payload.opt_text("defaultLocale")));
    binds.push(SqlValue::OptText(payload.opt_text("timezone")));
    binds.push(SqlValue::Text(now.to_owned()));
    proof {
        assert(args_of(binds@) =~= shop_create_args(tenant_id@, opt_str_view(organization_id), payload@, now@));
    }
    ShopCreatePlan {
        id,
        organization_id: org.to_owned(),
        operation_status,
        review_status,
        binds,
    }
}

/// The shop just created, or a storage error when it cannot be read back.
pub fn created_shop(row: Option<JsonObject>) -> (r: Result<JsonObject, ShopError>)
    ensures
        match row {
            Some(o) => r == Ok::<JsonObject, ShopError>(o),
            None => r matches Err(e) && e.kind == ShopErrorKind::Storage && e.message@
                == "created shop missing"@,
        },
{
    match row {
        Some(o) => Ok(o),
        None => Err(ShopError::storage("created shop missing")),
    }
}

/// The shop addressed by an admin request, or "not found".
pub fn existing_shop(row: Option<JsonObject>) -> (r: Result<JsonObject, ShopError>)
    ensures
        match row {
            Some(o) => r == Ok::<JsonObject, ShopError>(o),
            None => r matches Err(e) && e.kind == ShopErrorKind::NotFound && e.message@
                == "shop was not found"@,
        },
{
    match row {
        Some(o) => Ok(o),
        None => Err(ShopError::not_found("shop was not found")),
    }
}

/// An edited field: the body's value, else the stored value, else `default`.
pub open spec fn merged_field(
    p: Option<Seq<(Seq<char>, JsonVal)>>,
    existing: Seq<(Seq<char>, JsonVal)>,
    body_key: Seq<char>,
    column: Seq<char>,
    default: Seq<char>,
) -> Seq<char> {
    match get_str(p, body_key) {
        Some(s) => s,
        None => match lookup(existing, column) {
            Some(JsonVal::Str(s)) => s,
            _ => default,
        },
    }
}

/// The values bound to the shop update, in statement order.
pub open spec fn shop_update_args(
    tenant: Seq<char>,
    shop: Seq<char>,
    existing: Seq<(Seq<char>, JsonVal)>,
    p: Option<Seq<(Seq<char>, JsonVal)>>,
    now: Seq<char>,
) -> Seq<SqlArg> {
    seq![
        SqlArg::Text(merged_field(p, existing, "shopName"@, "shop_name"@, "shop"@)),
        SqlArg::Text(merged_field(p, existing, "storefrontStatus"@, "storefront_status"@, "draft"@)),
        SqlArg::Text(merged_field(p, existing, "operationStatus"@, "operation_status"@, "draft"@)),
        SqlArg::Text(merged_field(p, existing, "reviewStatus"@, "review_status"@, "pending"@)),
        SqlArg::Text(now),
        SqlArg::Text(tenant),
        SqlArg::Text(shop),
    ]
}

fn merged_text<'a>(
    payload: &'a Payload,
    existing: &'a JsonObject,
    body_key: &str,
    column: &str,
    default: &'a str,
) -> (s: &'a str)
    ensures
        s@ == merged_field(payload@, existing@, body_key@, column@, default@),
{
    match payload.get_str(body_key) {
        Some(s) => s,
        None => match existing.get(column) {
            Some(JsonValue::Str(s)) => s.as_str(),
            _ => default,
        },
    }
}

/// Plans an edit of a stored shop (`existing`, keyed by column name): each
/// editable field takes the body's value, else keeps the stored one.
pub fn plan_shop_update(
    tenant_id: &str,
    shop_id: &str,
    existing: &JsonObject,
    payload: &Payload,
    now: &str,
) -> (binds: Vec<SqlValue>)
    ensures
        args_of(binds@) == shop_update_args(tenant_id@, shop_id@, existing@, payload@, now@),
{
    let mut binds: Vec<SqlValue> = Vec::new();
    binds.push(SqlValue::Text(merged_text(payload, existing, "shopName", "shop_name", "shop").to_owned()));
    binds.push(SqlValue::Text(merged_text(payload, existing, "storefrontStatus", "storefront_status", "draft").to_owned()));
    binds.push(SqlValue::Text(merged_text(payload, existing, "operationStatus", "operation_status", "draft").to_owned()));
    binds.push(SqlValue::Text(merged_text(payload, existing, "reviewStatus", "review_status", "pending").to_owned()));
    binds.push(SqlValue::Text(now.to_owned()));
    binds.push(SqlValue::Text(tenant_id.to_owned()));
    binds.push(SqlValue::Text(shop_id.to_owned()));
    proof {
        assert(args_of(binds@) =~= shop_update_args(tenant_id@, shop_id@, existing@, payload@, now@));
    }
    binds
}

/// The review and operation transitions an administrator applies to a shop.
#[derive(Debug, Clone, Copy, PartialEq, Eq, Structural)]
pub enum ShopTransition {
    SubmitReview,
    Approve,
    Reject,
    Suspend,
    Resume,
    Close,
}

/// The event type recorded for a transition.
pub open spec fn transition_event(t: ShopTransition) -> Seq<char> {
    match t {
        ShopTransition::SubmitReview => "submit_review"@,
        ShopTransition::Approve => "approve"@,
        ShopTransition::Reject => "reject"@,
        ShopTransition::Suspend => "suspend"@,
        ShopTransition::Resume => "resume"@,
        ShopTransition::Close => "close"@,
    }
}

/// The operation (and storefront) status a transition moves the shop to.
pub open spec fn transition_operation(t: ShopTransition) -> Seq<char> {
    match t {
        ShopTransition::SubmitReview => "pending_review"@,
        ShopTransition::Approve => "active"@,
        ShopTransition::Reject => "rejected"@,
        ShopTransition::Suspend => "suspended"@,
        ShopTransition::Resume => "active"@,
        ShopTransition::Close => "closed"@,
    }
}

/// The review status a transition moves the shop to.
pub open spec fn transition_review(t: ShopTransition) -> Seq<char> {
    match t {
        ShopTransition::SubmitReview => "submitted"@,
        ShopTransition::Approve => "approved"@,
        ShopTransition::Reject => "rejected"@,
        ShopTransition::Suspend => "approved"@,
        ShopTransition::Resume => "approved"@,
        ShopTransition::Close => "approved"@,
    }
}

impl ShopTransition {
    pub fn event_type(self) -> (s: &'static str)
        ensures
            s@ == transition_event(self),
    {
        match self {
            ShopTransition::SubmitReview => "submit_review",
            ShopTransition::Approve => "approve",
            ShopTransition::Reject => "reject",
            ShopTransition::Suspend => "suspend",
            ShopTransition::Resume => "resume",
            ShopTransition::Close => "close",
        }
    }

    pub fn operation_status(self) -> (s: &'static str)
        ensures
            s@ == transition_operation(self),
    {
        match self {
            ShopTransition::SubmitReview => "pending_review",
            ShopTransition::Approve => "active",
            ShopTransition::Reject => "rejected",
            ShopTransition::Suspend => "suspended",
            ShopTransition::Resume => "active",
            ShopTransition::Close => "closed",
        }
    }

    pub fn review_status(self) -> (s: &'static str)
        ensures
            s@ == transition_review(self),
    {
        match self {
            ShopTransition::SubmitReview => "submitted",
            ShopTransition::Approve => "approved",
            ShopTransition::Reject => "rejected",
            ShopTransition::Suspend => "approved",
            ShopTransition::Resume => "approved",
            ShopTransition::Close => "approved",
        }
    }

    /// The edit a transition applies: storefront and operation status set to
    /// the target operation status, review status to the target review status.
    pub fn update_payload(self) -> (p: Payload)
        ensures
            p@ is Some,
            get_str(p@, "storefrontStatus"@) == Some(transition_operation(self)),
            get_str(p@, "operationStatus"@) == Some(transition_operation(self)),
            get_str(p@, "reviewStatus"@) == Some(transition_review(self)),
            get_str(p@, "shopName"@) is None,
    {
        proof {
            reveal_strlit("storefrontStatus");
            reveal_strlit("operationStatus");
            reveal_strlit("reviewStatus");
            reveal_strlit("shopName");
        }
        let mut p = Payload::empty_object();
        let ghost p0 = p@;
        assert("shopName"@.len() == 8 && "reviewStatus"@.len() == 12 && "operationStatus"@.len() == 15
            && "storefrontStatus"@.len() == 16);
        assert(json_get(p0, "shopName"@) is None);
        p.set_member("storefrontStatus", JsonValue::string(self.operation_status()));
        let ghost p1 = p@;
        assert(json_get(p1, "storefrontStatus"@) == Some(JsonVal::Str(transition_operation(self))));
        assert(json_get(p1, "shopName"@) == json_get(p0, "shopName"@));
        p.set_member("operationStatus", JsonValue::string(self.operation_status()));
        let ghost p2 = p@;
        assert(json_get(p2, "storefrontStatus"@) == json_get(p1, "storefrontStatus"@));
        assert(json_get(p2, "operationStatus"@) == Some(JsonVal::Str(transition_operation(self))));
        assert(json_get(p2, "shopName"@) == json_get(p1, "shopName"@));
        p.set_member("reviewStatus", JsonValue::string(self.review_status()));
        assert(json_get(p@, "storefrontStatus"@) == json_get(p2, "storefrontStatus"@));
        assert(json_get(p@, "operationStatus"@) == json_get(p2, "operationStatus"@));
        assert(json_get(p@, "reviewStatus"@) == Some(JsonVal::Str(transition_review(self))));
        assert(json_get(p@, "shopName"@) == json_get(p2, "shopName"@));
        p
    }
}

/// The operation status a stored shop is in, as recorded in its status
/// events (`None` when the column is null).
pub fn stored_operation_status(existing: &JsonObject) -> (s: Option<String>)
    ensures
        match s {
            Some(x) => lookup(existing@, "operation_status"@) == Some(JsonVal::Str(x@)),
            None => !(lookup(existing@, "operation_status"@) matches Some(JsonVal::Str(_))),
        },
{
    match existing.get("operation_status") {
        Some(JsonValue::Str(s)) => Some(s.clone()),
        _ => None,
    }
}

/// The values bound to the status-event insert, in statement order.
pub open spec fn status_event_args(
    tenant: Seq<char>,
    org: Seq<char>,
    shop: Seq<char>,
    event: Seq<char>,
    from: Option<Seq<char>>,
    to: Seq<char>,
    actor: Seq<char>,
    now: Seq<char>,
) -> Seq<SqlArg> {
    let id = storage_id_of(seq!["shop-status-event"@, tenant, shop, event, now]);
    seq![
        SqlArg::Text(id),
        SqlArg::Text(tenant),
        SqlArg::Text(org),
        SqlArg::Text(shop),
        SqlArg::Text("EVT-"@ + id),
        SqlArg::Text(event),
        SqlArg::OptText(from),
        SqlArg::Text(to),
        SqlArg::Text("admin"@),
        SqlArg::Text(actor),
        SqlArg::Text(storage_id_of(seq![tenant, shop, event, now])),
        SqlArg::Text(now),
    ]
}

/// Plans the status event an administrator's transition records.
pub fn plan_status_event(
    tenant_id: &str,
    organization_id: &str,
    shop_id: &str,
    event_type: &str,
    from_status: Option<&str>,
    to_status: &str,
    actor_id: &str,
    now: &str,
) -> (binds: Vec<SqlValue>)
    ensures
        args_of(binds@) == status_event_args(
            tenant_id@,
            organization_id@,
            shop_id@,
            event_type@,
            opt_str_view(from_status),
            to_status@,
            actor_id@,
            now@,
        ),
{
    let id_parts = ["shop-status-event", tenant_id, shop_id, event_type, now];
    let key_parts = [tenant_id, shop_id, event_type, now];
    proof {
        assert(str_views(id_parts@) =~= seq!["shop-status-event"@, tenant_id@, shop_id@, event_type@, now@]);
        assert(str_views(key_parts@) =~= seq![tenant_id@, shop_id@, event_type@, now@]);
    }
    let id = stable_storage_id(&id_parts);
    let mut event_no = "EVT-".to_owned();
    event_no.append(id.as_str());
    let idempotency_key = stable_storage_id(&key_parts);
    let from = match from_status {
        Some(s) => Some(s.to_owned()),
        None => None,
    };
    let mut binds: Vec<SqlValue> = Vec::new();
    binds.push(SqlValue::Text(id));
    binds.push(SqlValue::Text(tenant_id.to_owned()));
    binds.push(SqlValue::Text(organization_id.to_owned()));
    binds.push(SqlValue::Text(shop_id.to_owned()));
    binds.push(SqlValue::Text(event_no));
    binds.push(SqlValue::Text(event_type.to_owned()));
    binds.push(SqlValue::OptText(from));
    binds.push(SqlValue::Text(to_status.to_owned()));
    binds.push(SqlValue::Text("admin".to_owned()));
    binds.push(SqlValue::Text(actor_id.to_owned()));
    binds.push(SqlValue::Text(idempotency_key));
    binds.push(SqlValue::Text(now.to_owned()));
    proof {
        assert(args_of(binds@) =~= status_event_args(
            tenant_id@,
            organization_id@,
            shop_id@,
            event_type@,
            opt_str_view(from_status),
            to_status@,
            actor_id@,
            now@,
        ));
    }
    binds
}

/// A shop's launch readiness: its status and its blocking and warning counts.
#[derive(Debug, Clone, Copy, PartialEq, Eq)]
pub struct Readiness {
    pub status: &'static str,
    pub blocking_count: i32,
    pub warning_count: i32,
}

/// The launch readiness of a shop in operation status `op` and review status
/// `review`.
pub open spec fn readiness_of(op: Seq<char>, review: Seq<char>) -> (Seq<char>, i32, i32) {
    if op == "active"@ && review == "approved"@ {
        ("ready"@, 0, 0)
    } else if op == "pending_review"@ {
        ("pending_review"@, 1, 0)
    } else if op == "rejected"@ {
        ("blocked"@, 2, 0)
    } else if op == "suspended"@ {
        ("suspended"@, 1, 1)
    } else if op == "closed"@ {
        ("closed"@, 0, 0)
    } else {
        ("not_ready"@, 3, 1)
    }
}

fn same_text(a: &str, b: &str) -> (r: bool)
    ensures
        r == (a@ == b@),
{
    a.to_owned() == b.to_owned()
}

/// Computes [`readiness_of`].
pub fn shop_readiness(operation_status: &str, review_status: &str) -> (r: Readiness)
    ensures
        (r.status@, r.blocking_count, r.warning_count) == readiness_of(operation_status@, review_status@),
{
    if same_text(operation_status, "active") && same_text(review_status, "approved") {
        Readiness { status: "ready", blocking_count: 0, warning_count: 0 }
    } else if same_text(operation_status, "pending_review") {
        Readiness { status: "pending_review", blocking_count: 1, warning_count: 0 }
    } else if same_text(operation_status, "rejected") {
        Readiness { status: "blocked", blocking_count: 2, warning_count: 0 }
    } else if same_text(operation_status, "suspended") {
        Readiness { status: "suspended", blocking_count: 1, warning_count: 1 }
    } else if same_text(operation_status, "closed") {
        Readiness { status: "closed", blocking_count: 0, warning_count: 0 }
    } else {
        Readiness { status: "not_ready", blocking_count: 3, warning_count: 1 }
    }
}

/// The readiness checklist, as the compact JSON text of
/// `[{"code":"qualification","status":..},{"code":"settlement_profile","status":..},{"code":"review","status":..}]`:
/// qualification is pending while anything blocks, the settlement profile is
/// done once the shop is active, and the review entry carries the review status.
pub open spec fn checklist_json(op: Seq<char>, review: Seq<char>, blocking: i32) -> Seq<char> {
    let qualification = if blocking > 0 {
        "pending"@
    } else {
        "done"@
    };
    let settlement = if op == "active"@ {
        "done"@
    } else {
        "pending"@
    };
    "[{\"code\":\"qualification\",\"status\":\""@ + qualification
        + "\"},{\"code\":\"settlement_profile\",\"status\":\""@ + settlement
        + "\"},{\"code\":\"review\",\"status\":"@ + json_quote(review) + "}]"@
}

/// The values bound to the readiness upsert, in statement order.
pub open spec fn readiness_args(
    tenant: Seq<char>,
    org: Seq<char>,
    shop: Seq<char>,
    op: Seq<char>,
    review: Seq<char>,
    now: Seq<char>,
) -> Seq<SqlArg> {
    let r = readiness_of(op, review);
    seq![
        SqlArg::Text(storage_id_of(seq!["shop-readiness"@, tenant, shop, "shop_launch"@])),
        SqlArg::Text(tenant),
        SqlArg::Text(org),
        SqlArg::Text(shop),
        SqlArg::Text("shop_launch"@),
        SqlArg::Text(r.0),
        SqlArg::Int32(r.1),
        SqlArg::Int32(r.2),
        SqlArg::Text(checklist_json(op, review, r.1)),
        SqlArg::Text(now),
    ]
}

/// Plans the recomputation of a shop's launch readiness after it was created
/// or changed status.
pub fn plan_shop_readiness(
    tenant_id: &str,
    organization_id: &str,
    shop_id: &str,
    operation_status: &str,
    review_status: &str,
    now: &str,
) -> (binds: Vec<SqlValue>)
    ensures
        args_of(binds@) == readiness_args(
            tenant_id@,
            organization_id@,
            shop_id@,
            operation_status@,
            review_status@,
            now@,
        ),
{
    let scope = "shop_launch";
    let parts = ["shop-readiness", tenant_id, shop_id, scope];
    proof {
        assert(str_views(parts@) =~= seq!["shop-readiness"@, tenant_id@, shop_id@, "shop_launch"@]);
    }
    let id = stable_storage_id(&parts);
    let r = shop_readiness(operation_status, review_status);
    let qualification = if r.blocking_count > 0 {
        "pending"
    } else {
        "done"
    };
    let settlement = if same_text(operation_status, "active") {
        "done"
    } else {
        "pending"
    };
    let mut checklist = "[{\"code\":\"qualification\",\"status\":\"".to_owned();
    checklist.append(qualification);
    checklist.append("\"},{\"code\":\"settlement_profile\",\"status\":\"");
    checklist.append(settlement);
    checklist.append("\"},{\"code\":\"review\",\"status\":");
    let quoted = json_quote_str(review_status);
    checklist.append(quoted.as_str());
    checklist.append("}]");
    let mut binds: Vec<SqlValue> = Vec::new();
    binds.push(SqlValue::Text(id));
    binds.push(SqlValue::Text(tenant_id.to_owned()));
    binds.push(SqlValue::Text(organization_id.to_owned()));
    binds.push(SqlValue::Text(shop_id.to_owned()));
    binds.push(SqlValue::Text(scope.to_owned()));
    binds.push(SqlValue::Text(r.status.to_owned()));
    binds.push(SqlValue::Int32(r.blocking_count));
    binds.push(SqlValue::Int32(r.warning_count));
    binds.push(SqlValue::Text(checklist));
    binds.push(SqlValue::Text(now.to_owned()));
    proof {
        assert(args_of(binds@) =~= readiness_args(
            tenant_id@,
            organization_id@,
            shop_id@,
            operation_status@,
            review_status@,
            now@,
        ));
    }
    binds
}

/// The query listing the rows of a per-shop table for one shop, newest first.
pub fn admin_table_rows_sql(table: &str) -> (sql: String)
    ensures
        sql@ == "SELECT * FROM "@ + table@
            + " WHERE tenant_id = CAST($1 AS TEXT) AND shop_id = CAST($2 AS TEXT) ORDER BY created_at DESC, id DESC"@,
{
    let mut sql = "SELECT * FROM ".to_owned();
    sql.append(table);
    sql.append(" WHERE tenant_id = CAST($1 AS TEXT) AND shop_id = CAST($2 AS TEXT) ORDER BY created_at DESC, id DESC");
    sql
}

/// The body of an administrator's decision on a settlement profile:
/// `{"settlementStatus": "approved"}` or `{"settlementStatus": "rejected"}`.
pub fn settlement_decision_payload(approved: bool) -> (p: Payload)
    ensures
        p@ is Some,
        get_str(p@, "settlementStatus"@) == Some(if approved {
            "approved"@
        } else {
            "rejected"@
        }),
        forall|k: Seq<char>| k != "settlementStatus"@ ==> #[trigger] json_get(p@, k) is None,
{
    let mut p = Payload::empty_object();
    let status = if approved {
        "approved"
    } else {
        "rejected"
    };
    let ghost p0 = p@;
    p.set_member("settlementStatus", JsonValue::string(status));
    assert forall|k: Seq<char>| k != "settlementStatus"@ implies #[trigger] json_get(p@, k) is None by {
        assert(json_get(p@, k) == json_get(p0, k));
    }
    p
}

} // verus!
