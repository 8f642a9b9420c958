//! What the shop-level plans bind, stated against the request body, the
//! stored shop and each other.

use vstd::prelude::*;
use crate::admin::{readiness_args, readiness_of, shop_create_args, shop_update_args, status_event_args};
use crate::json::{json_get, json_quote, lookup, JsonVal};
use crate::store::fulfillment_args;
use crate::text::storage_id_of;
use crate::write_laws::{chosen_id, opt_member, text_member};
use crate::subresource::SqlArg;

verus! {

/// One entry of a readiness checklist whose code and status need no
/// escaping: `{"code":"<code>","status":"<status>"}`.
pub open spec fn checklist_entry(code: Seq<char>, status: Seq<char>) -> Seq<char> {
    "{\"code\":\""@ + code + "\",\"status\":\""@ + status + "\"}"@
}

/// The review entry of a readiness checklist: `{"code":"review","status":<review as a JSON string>}`.
pub open spec fn review_entry(review: Seq<char>) -> Seq<char> {
    "{\"code\":\"review\",\"status\":"@ + json_quote(review) + "}"@
}

/// The readiness written for a shop carries a checklist of three entries
/// that agrees with the counts written beside it: the qualification entry
/// is `pending` exactly when the written blocking count is above zero (and
/// `done` when it is zero), the settlement profile is `done` exactly when
/// the shop is `active`, and the review entry carries the review status.
pub proof fn lemma_readiness_checklist_agrees(
    tenant: Seq<char>,
    org: Seq<char>,
    shop: Seq<char>,
    op: Seq<char>,
    review: Seq<char>,
    now: Seq<char>,
)
    ensures
        ({
            let a = readiness_args(tenant, org, shop, op, review, now);
            &&& a.len() == 10
            &&& a[6] matches SqlArg::Int32(blocking) && blocking >= 0 && a[8] == SqlArg::Text(
                "["@ + checklist_entry(
                    "qualification"@,
                    if blocking > 0 { "pending"@ } else { "done"@ },
                ) + ","@ + checklist_entry(
                    "settlement_profile"@,
                    if op == "active"@ { "done"@ } else { "pending"@ },
                ) + ","@ + review_entry(review) + "]"@,
            )
        }),
{
    reveal_strlit("[");
    reveal_strlit("]");
    reveal_strlit(",");
    reveal_strlit("}");
    reveal_strlit("\"}");
    reveal_strlit("{\"code\":\"");
    reveal_strlit("\",\"status\":\"");
    reveal_strlit("{\"code\":\"review\",\"status\":");
    reveal_strlit("qualification");
    reveal_strlit("settlement_profile");
    reveal_strlit("pending");
    reveal_strlit("done");
    reveal_strlit("[{\"code\":\"qualification\",\"status\":\"");
    reveal_strlit("\"},{\"code\":\"settlement_profile\",\"status\":\"");
    reveal_strlit("\"},{\"code\":\"review\",\"status\":");
    reveal_strlit("}]");
    reveal_strlit("active");
    reveal_strlit("approved");
    reveal_strlit("pending_review");
    reveal_strlit("rejected");
    reveal_strlit("suspended");
    reveal_strlit("closed");
    let a = readiness_args(tenant, org, shop, op, review, now);
    let blocking = a[6]->Int32_0;
    let q = if blocking > 0 { "pending"@ } else { "done"@ };
    let st = if op == "active"@ { "done"@ } else { "pending"@ };
    let jq = json_quote(review);
    let lhs = "[{\"code\":\"qualification\",\"status\":\""@ + q + "\"},{\"code\":\"settlement_profile\",\"status\":\""@
        + st + "\"},{\"code\":\"review\",\"status\":"@ + jq + "}]"@;
    let rhs = "["@ + checklist_entry("qualification"@, q) + ","@ + checklist_entry("settlement_profile"@, st) + ","@
        + review_entry(review) + "]"@;
    assert(lhs =~= rhs);
}

/// The stored shop's text column `column`, else `default`.
pub open spec fn stored_text(existing: Seq<(Seq<char>, JsonVal)>, column: Seq<char>, default: Seq<char>) -> Seq<char> {
    match lookup(existing, column) {
        Some(JsonVal::Str(s)) => s,
        _ => default,
    }
}

/// An edited shop field: the body's string member `key` when there is one,
/// else the stored text column `column`, else `default`.
pub open spec fn edited_text(
    p: Option<Seq<(Seq<char>, JsonVal)>>,
    existing: Seq<(Seq<char>, JsonVal)>,
    key: Seq<char>,
    column: Seq<char>,
    default: Seq<char>,
) -> Seq<char> {
    match opt_member(p, key) {
        Some(s) => s,
        None => stored_text(existing, column, default),
    }
}

/// A shop edit binds, in order: the shop name, storefront status, operation
/// status and review status, each the body's string member of that name,
/// else the stored shop's own column of that name, else its default (`shop`,
/// `draft`, `draft`, `pending`); then the edit time, the tenant and the shop.
/// In particular, a body without a string `reviewStatus` keeps the stored
/// review status, whatever the other stored columns hold.
pub proof fn lemma_shop_update_binds(
    tenant: Seq<char>,
    shop: Seq<char>,
    existing: Seq<(Seq<char>, JsonVal)>,
    p: Option<Seq<(Seq<char>, JsonVal)>>,
    now: Seq<char>,
)
    ensures
        ({
            let a = shop_update_args(tenant, shop, existing, p, now);
            &&& a.len() == 7
            &&& a[0] == SqlArg::Text(edited_text(p, existing, "shopName"@, "shop_name"@, "shop"@))
            &&& a[1] == SqlArg::Text(edited_text(p, existing, "storefrontStatus"@, "storefront_status"@, "draft"@))
            &&& a[2] == SqlArg::Text(edited_text(p, existing, "operationStatus"@, "operation_status"@, "draft"@))
            &&& a[3] == SqlArg::Text(edited_text(p, existing, "reviewStatus"@, "review_status"@, "pending"@))
            &&& a[4] == SqlArg::Text(now)
            &&& a[5] == SqlArg::Text(tenant)
            &&& a[6] == SqlArg::Text(shop)
        }),
{
}

/// A new shop's insert binds, in order: its id (the body's string `id`, else
/// the stable id of `shop`, the tenant and the shop number), the tenant, its
/// organization (the body's string `organizationId`, else the session's
/// organization, else `0`), the shop number (`shopNo`, else `shop-no`), then
/// `shopName`, `shopType`, `businessModel`, `storefrontStatus`,
/// `operationStatus`, `reviewStatus` and `defaultCurrencyCode` (else `shop`,
/// `official`, `self_operated`, `draft`, `draft`, `pending`, `CNY`),
/// `defaultLocale` and `timezone` (else null), and the creation time.
pub proof fn lemma_shop_create_binds(
    tenant: Seq<char>,
    org: Option<Seq<char>>,
    p: Option<Seq<(Seq<char>, JsonVal)>>,
    now: Seq<char>,
)
    ensures
        ({
            let a = shop_create_args(tenant, org, p, now);
            let shop_no = text_member(p, "shopNo"@, "shop-no"@);
            &&& a.len() == 14
            &&& a[0] == SqlArg::Text(chosen_id(None, p, storage_id_of(seq!["shop"@, tenant, shop_no])))
            &&& a[1] == SqlArg::Text(tenant)
            &&& a[2] == SqlArg::Text(match opt_member(p, "organizationId"@) {
                Some(o) => o,
                None => match org {
                    Some(o) => o,
                    None => "0"@,
                },
            })
            &&& a[3] == SqlArg::Text(shop_no)
            &&& a[4] == SqlArg::Text(text_member(p, "shopName"@, "shop"@))
            &&& a[5] == SqlArg::Text(text_member(p, "shopType"@, "official"@))
            &&& a[6] == SqlArg::Text(text_member(p, "businessModel"@, "self_operated"@))
            &&& a[7] == SqlArg::Text(text_member(p, "storefrontStatus"@, "draft"@))
            &&& a[8] == SqlArg::Text(text_member(p, "operationStatus"@, "draft"@))
            &&& a[9] == SqlArg::Text(text_member(p, "reviewStatus"@, "pending"@))
            &&& a[10] == SqlArg::Text(text_member(p, "defaultCurrencyCode"@, "CNY"@))
            &&& a[11] == SqlArg::OptText(opt_member(p, "defaultLocale"@))
            &&& a[12] == SqlArg::OptText(opt_member(p, "timezone"@))
            &&& a[13] == SqlArg::Text(now)
        }),
{
}

/// A status event binds, in order: its id (the stable id of
/// `shop-status-event`, tenant, shop, event type and time), the tenant,
/// organization and shop, its event number (`EVT-` followed by its id), the
/// event type, the status moved from and to, the actor type `admin`, the
/// actor, an idempotency key (the stable id of tenant, shop, event type and
/// time) and the time.
pub proof fn lemma_status_event_binds(
    tenant: Seq<char>,
    org: Seq<char>,
    shop: Seq<char>,
    event: Seq<char>,
    from: Option<Seq<char>>,
    to: Seq<char>,
    actor: Seq<char>,
    now: Seq<char>,
)
    ensures
        ({
            let a = status_event_args(tenant, org, shop, event, from, to, actor, now);
            let id = storage_id_of(seq!["shop-status-event"@, tenant, shop, event, now]);
            &&& a.len() == 12
            &&& a[0] == SqlArg::Text(id)
            &&& a[1] == SqlArg::Text(tenant)
            &&& a[2] == SqlArg::Text(org)
            &&& a[3] == SqlArg::Text(shop)
            &&& a[4] == SqlArg::Text("EVT-"@ + id)
            &&& a[5] == SqlArg::Text(event)
            &&& a[6] == SqlArg::OptText(from)
            &&& a[7] == SqlArg::Text(to)
            &&& a[8] == SqlArg::Text("admin"@)
            &&& a[9] == SqlArg::Text(actor)
            &&& a[10] == SqlArg::Text(storage_id_of(seq![tenant, shop, event, now]))
            &&& a[11] == SqlArg::Text(now)
        }),
{
}

/// The body's member `camel`, else its member `snake`, as a string; `default`
/// when the first of them present is not a string or neither is present.
pub open spec fn first_text(
    p: Option<Seq<(Seq<char>, JsonVal)>>,
    camel: Seq<char>,
    snake: Seq<char>,
    default: Seq<char>,
) -> Seq<char> {
    match json_get(p, camel) {
        Some(JsonVal::Str(s)) => s,
        Some(_) => default,
        None => text_member(p, snake, default),
    }
}

/// A new fulfillment order binds, in order: its id (`fulfillmentId` or
/// `fulfillment_id`, else `fulfillment-generated`), the tenant, the session's
/// organization (else empty), its number (`fulfillmentNo` or
/// `fulfillment_no`, else `FF-GEN`), the order, the shop, its type
/// (`fulfillmentType` or `fulfillment_type`, else `physical`), its number
/// again as the request number, the idempotency key `idem-` followed by its
/// id, and the creation time twice. The requested type is kept whenever the
/// body names one as a string.
pub proof fn lemma_fulfillment_binds(
    tenant: Seq<char>,
    org: Option<Seq<char>>,
    shop: Seq<char>,
    order: Seq<char>,
    p: Option<Seq<(Seq<char>, JsonVal)>>,
)
    ensures
        ({
            let a = fulfillment_args(tenant, org, shop, order, p);
            let id = first_text(p, "fulfillmentId"@, "fulfillment_id"@, "fulfillment-generated"@);
            let no = first_text(p, "fulfillmentNo"@, "fulfillment_no"@, "FF-GEN"@);
            &&& a.len() == 11
            &&& a[0] == SqlArg::Text(id)
            &&& a[1] == SqlArg::Text(tenant)
            &&& a[2] == SqlArg::Text(match org {
                Some(o) => o,
                None => Seq::empty(),
            })
            &&& a[3] == SqlArg::Text(no)
            &&& a[4] == SqlArg::Text(order)
            &&& a[5] == SqlArg::Text(shop)
            &&& a[6] == SqlArg::Text(first_text(p, "fulfillmentType"@, "fulfillment_type"@, "physical"@))
            &&& a[7] == SqlArg::Text(no)
            &&& a[8] == SqlArg::Text("idem-"@ + id)
            &&& a[9] == a[10]
        }),
{
}

/// A shop that is neither launched (active and approved) nor pending review,
/// rejected, suspended or closed is `not_ready`, with three blocking items
/// and one warning: an active shop whose review is not approved counts as
/// not ready.
pub proof fn lemma_readiness_unlaunched(op: Seq<char>, review: Seq<char>)
    requires
        !(op == "active"@ && review == "approved"@),
        op != "pending_review"@,
        op != "rejected"@,
        op != "suspended"@,
        op != "closed"@,
    ensures
        readiness_of(op, review) == ("not_ready"@, 3i32, 1i32),
{
}

} // verus!
