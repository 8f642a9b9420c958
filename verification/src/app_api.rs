//! Decisions of the app-facing shop API that do not touch storage.

use vstd::prelude::*;
use crate::error::{ShopError, ShopErrorKind};
use crate::json::{json_get, JsonVal, JsonValue, Payload};

verus! {

/// The page and page size of an app list request: 1 and 20 when absent.
pub fn list_params(page: Option<u32>, page_size: Option<u32>) -> (r: (u32, u32))
    ensures
        r.0 == (match page {
            Some(p) => p,
            None => 1,
        }),
        r.1 == (match page_size {
            Some(s) => s,
            None => 20,
        }),
{
    let p = match page {
        Some(p) => p,
        None => 1,
    };
    let s = match page_size {
        Some(s) => s,
        None => 20,
    };
    (p, s)
}

/// Addresses a write at the row named in the request path: when the body is
/// an object, its `id` member becomes `id`; any other body is left as it is.
pub fn set_path_id(payload: &mut Payload, id: &str)
    ensures
        old(payload)@ is Some <==> final(payload)@ is Some,
        old(payload) matches Payload::Other(_) ==> *final(payload) == *old(payload),
        forall|k: Seq<char>|
            #![trigger json_get(final(payload)@, k)]
            json_get(final(payload)@, k) == if k == "id"@ && old(payload)@ is Some {
                Some(JsonVal::Str(id@))
            } else {
                json_get(old(payload)@, k)
            },
{
    payload.set_member("id", JsonValue::string(id));
}

/// The organization a product is created under: the session's organization,
/// which is required.
pub fn product_organization(organization_id: Option<String>) -> (r: Result<String, ShopError>)
    ensures
        match organization_id {
            Some(o) => r matches Ok(x) && x@ == o@,
            None => r matches Err(e) && e.kind == ShopErrorKind::Validation && e.message@
                == "organization_id is required"@,
        },
{
    match organization_id {
        Some(o) => Ok(o),
        None => Err(ShopError::validation("organization_id is required".to_owned())),
    }
}

/// The surfaces a new product is visible on: as requested, else all.
pub fn visible_surfaces_or_all(visible_surfaces: Option<String>) -> (s: String)
    ensures
        s@ == (match visible_surfaces {
            Some(v) => v@,
            None => "all"@,
        }),
{
    match visible_surfaces {
        Some(v) => v,
        None => "all".to_owned(),
    }
}

} // verus!
