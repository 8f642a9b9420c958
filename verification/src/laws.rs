//! Properties of the shop logic that span several functions or all inputs.

use vstd::prelude::*;
use crate::admin::{
    readiness_of, shop_update_args, transition_operation, transition_review, ShopTransition,
};
use crate::json::{get_str, json_get, JsonVal};
use crate::store::{at_least_one, camel_case, camel_piece, camel_prefix, clamp};
use crate::subresource::{row_id, write_organization, SqlArg};
use crate::text::{
    decimal, digit_char, is_ascii_alnum, join_with, sanitize_part, storage_id_char, storage_id_of,
    trim,
};

verus! {

/// A character that may appear in a stable storage id.
pub open spec fn storage_id_allowed(c: char) -> bool {
    is_ascii_alnum(c) || c == '-' || c == '_' || c == '.'
}

proof fn lemma_join_allowed(parts: Seq<Seq<char>>)
    requires
        forall|i: int, j: int|
            0 <= i < parts.len() && 0 <= j < parts[i].len() ==> storage_id_allowed(#[trigger] parts[i][j]),
    ensures
        forall|j: int| 0 <= j < join_with(parts, seq!['-']).len() ==> storage_id_allowed(
            #[trigger] join_with(parts, seq!['-'])[j],
        ),
    decreases parts.len(),
{
    if parts.len() > 1 {
        let init = parts.drop_last();
        assert forall|i: int, j: int| 0 <= i < init.len() && 0 <= j < init[i].len() implies storage_id_allowed(
            #[trigger] init[i][j],
        ) by {
            assert(init[i] == parts[i]);
        }
        lemma_join_allowed(init);
        let head = join_with(init, seq!['-']);
        let whole = join_with(parts, seq!['-']);
        assert(whole == head + seq!['-'] + parts.last());
        assert forall|j: int| 0 <= j < whole.len() implies storage_id_allowed(#[trigger] whole[j]) by {
            if j < head.len() {
                assert(whole[j] == head[j]);
            } else if j == head.len() {
                assert(whole[j] == '-');
            } else {
                assert(whole[j] == parts[parts.len() - 1][j - head.len() - 1]);
            }
        }
    } else if parts.len() == 1 {
        assert forall|j: int| 0 <= j < parts[0].len() implies storage_id_allowed(#[trigger] parts[0][j]) by {}
    }
}

/// A stable storage id holds only ASCII letters, digits, `-`, `_` and `.`,
/// whatever the parts it is built from.
pub proof fn lemma_storage_id_charset(parts: Seq<Seq<char>>)
    ensures
        forall|j: int| 0 <= j < storage_id_of(parts).len() ==> storage_id_allowed(
            #[trigger] storage_id_of(parts)[j],
        ),
{
    let sanitized = parts.map_values(|p: Seq<char>| sanitize_part(p));
    assert forall|i: int, j: int| 0 <= i < sanitized.len() && 0 <= j < sanitized[i].len() implies storage_id_allowed(
        #[trigger] sanitized[i][j],
    ) by {
        assert(sanitized[i] == sanitize_part(parts[i]));
        assert(sanitized[i][j] == storage_id_char(parts[i][j]));
    }
    lemma_join_allowed(sanitized);
}

/// Building a stable id from a single stable id gives it back: ids are
/// already in the form they are sanitized to.
pub proof fn lemma_storage_id_idempotent(parts: Seq<Seq<char>>)
    ensures
        storage_id_of(seq![storage_id_of(parts)]) == storage_id_of(parts),
{
    let id = storage_id_of(parts);
    lemma_storage_id_charset(parts);
    let once = seq![id].map_values(|p: Seq<char>| sanitize_part(p));
    assert(sanitize_part(id) =~= id) by {
        assert forall|j: int| 0 <= j < id.len() implies #[trigger] sanitize_part(id)[j] == id[j] by {
            assert(storage_id_allowed(id[j]));
        }
    }
    assert(once =~= seq![id]);
}

/// Sub-resource rows are never written with an empty organization scope: a
/// missing or blank organization becomes the platform sentinel `0`.
pub proof fn lemma_write_organization_nonempty(org: Option<Seq<char>>)
    ensures
        write_organization(org).len() > 0,
{
    reveal_strlit("0");
}

/// When a request path names a row, the row written is that row: after the
/// body's `id` member is set to `id`, the row id chosen from the body is `id`,
/// whatever stable parts the table would otherwise use.
pub proof fn lemma_path_id_selects_row(
    before: Option<Seq<(Seq<char>, JsonVal)>>,
    after: Option<Seq<(Seq<char>, JsonVal)>>,
    id: Seq<char>,
    parts: Seq<Seq<char>>,
)
    requires
        before is Some,
        json_get(after, "id"@) == Some(JsonVal::Str(id)),
    ensures
        row_id(get_str(after, "id"@), after, parts) == id,
{
}

/// A column name without `_` is its own camel-case key.
pub proof fn lemma_camel_case_identity(s: Seq<char>)
    requires
        forall|i: int| 0 <= i < s.len() ==> s[i] != '_',
    ensures
        camel_case(s) == s,
{
    assert forall|n: int| 0 <= n <= s.len() implies #[trigger] camel_prefix(s, n) =~= s.take(n) by {
        lemma_camel_prefix_take(s, n);
    }
    assert(s.take(s.len() as int) =~= s);
}

proof fn lemma_camel_prefix_take(s: Seq<char>, n: int)
    requires
        0 <= n <= s.len(),
        forall|i: int| 0 <= i < s.len() ==> s[i] != '_',
    ensures
        camel_prefix(s, n) =~= s.take(n),
    decreases n,
{
    if n > 0 {
        lemma_camel_prefix_take(s, n - 1);
        assert(camel_piece(s, n - 1) == seq![s[n - 1]]);
        assert(s.take(n) =~= s.take(n - 1).push(s[n - 1]));
    }
}

/// After approving or resuming a shop it is ready to launch with nothing
/// blocking; every other transition leaves it in the state its target
/// status names, and none leaves it `not_ready`.
pub proof fn lemma_transition_readiness(t: ShopTransition)
    ensures
        readiness_of(transition_operation(t), transition_review(t)) == match t {
            ShopTransition::SubmitReview => ("pending_review"@, 1i32, 0i32),
            ShopTransition::Approve => ("ready"@, 0i32, 0i32),
            ShopTransition::Reject => ("blocked"@, 2i32, 0i32),
            ShopTransition::Suspend => ("suspended"@, 1i32, 1i32),
            ShopTransition::Resume => ("ready"@, 0i32, 0i32),
            ShopTransition::Close => ("closed"@, 0i32, 0i32),
        },
{
    reveal_strlit("active");
    reveal_strlit("approved");
    reveal_strlit("pending_review");
    reveal_strlit("rejected");
    reveal_strlit("suspended");
    reveal_strlit("closed");
    reveal_strlit("submitted");
    assert("active"@.len() == 6 && "pending_review"@.len() == 14 && "rejected"@.len() == 8
        && "suspended"@.len() == 9 && "closed"@.len() == 6);
    assert("active"@[0] == 'a' && "closed"@[0] == 'c');
    assert("approved"@.len() == 8 && "submitted"@.len() == 9 && "rejected"@[0] == 'r'
        && "approved"@[0] == 'a');
}

/// Nothing blocks a shop's launch exactly when it is ready or closed.
pub proof fn lemma_readiness_blocking(op: Seq<char>, review: Seq<char>)
    ensures
        readiness_of(op, review).1 == 0 <==> (readiness_of(op, review).0 == "ready"@
            || readiness_of(op, review).0 == "closed"@),
        readiness_of(op, review).1 >= 0 && readiness_of(op, review).2 >= 0,
{
    reveal_strlit("ready");
    reveal_strlit("closed");
    reveal_strlit("pending_review");
    reveal_strlit("blocked");
    reveal_strlit("suspended");
    reveal_strlit("not_ready");
    assert("ready"@.len() == 5 && "closed"@.len() == 6 && "pending_review"@.len() == 14
        && "blocked"@.len() == 7 && "suspended"@.len() == 9 && "not_ready"@.len() == 9);
}

/// A transition's edit moves storefront and operation status to the target
/// operation status and the review status to the target review status,
/// and keeps the stored shop name.
pub proof fn lemma_transition_update(
    t: ShopTransition,
    tenant: Seq<char>,
    shop: Seq<char>,
    existing: Seq<(Seq<char>, JsonVal)>,
    p: Option<Seq<(Seq<char>, JsonVal)>>,
    now: Seq<char>,
)
    requires
        get_str(p, "storefrontStatus"@) == Some(transition_operation(t)),
        get_str(p, "operationStatus"@) == Some(transition_operation(t)),
        get_str(p, "reviewStatus"@) == Some(transition_review(t)),
        get_str(p, "shopName"@) is None,
    ensures
        shop_update_args(tenant, shop, existing, p, now)[1] == SqlArg::Text(transition_operation(t)),
        shop_update_args(tenant, shop, existing, p, now)[2] == SqlArg::Text(transition_operation(t)),
        shop_update_args(tenant, shop, existing, p, now)[3] == SqlArg::Text(transition_review(t)),
        shop_update_args(tenant, shop, existing, p, now)[0] == SqlArg::Text(
            match crate::json::lookup(existing, "shop_name"@) {
                Some(JsonVal::Str(s)) => s,
                _ => "shop"@,
            },
        ),
{
}

/// The decimal value of a text of digits, most significant first.
pub open spec fn digits_value(s: Seq<char>) -> nat
    decreases s.len(),
{
    if s.len() == 0 {
        0
    } else {
        digits_value(s.drop_last()) * 10 + ((s.last() as int - 48) as nat)
    }
}

/// A decimal text reads back as the number it was written from, so the
/// policy version bound to a policy row is the version its id names.
pub proof fn lemma_decimal_roundtrip(n: nat)
    ensures
        digits_value(decimal(n)) == n,
        decimal(n).len() > 0,
        forall|i: int| 0 <= i < decimal(n).len() ==> '0' <= #[trigger] decimal(n)[i] && decimal(n)[i] <= '9',
    decreases n,
{
    if n < 10 {
        assert(digit_char(n) as int == 48 + n);
        assert(decimal(n).drop_last() =~= Seq::<char>::empty());
        assert(decimal(n).last() == digit_char(n));
        assert(digits_value(decimal(n)) == digits_value(decimal(n).drop_last()) * 10 + ((decimal(n).last() as int - 48) as nat));
    } else {
        lemma_decimal_roundtrip(n / 10);
        let d = decimal(n / 10);
        assert(decimal(n) == d.push(digit_char(n % 10)));
        assert(decimal(n).drop_last() =~= d);
        assert(digit_char(n % 10) as int == 48 + n % 10);
        assert(decimal(n).last() == digit_char(n % 10));
        assert(digits_value(decimal(n)) == digits_value(d) * 10 + n % 10);
        assert((n / 10) * 10 + n % 10 == n) by (nonlinear_arith);
        assert forall|i: int| 0 <= i < decimal(n).len() implies '0' <= #[trigger] decimal(n)[i] && decimal(n)[i] <= '9' by {
            if i < d.len() {
                assert(decimal(n)[i] == d[i]);
            }
        }
    }
}

/// The stable id of one part keeps the part's length, keeps every character
/// that is an ASCII letter or digit, `-`, `_` or `.`, and writes `-` for
/// every other character.
pub proof fn lemma_storage_id_single_part(s: Seq<char>)
    ensures
        storage_id_of(seq![s]).len() == s.len(),
        forall|i: int|
            0 <= i < s.len() ==> #[trigger] storage_id_of(seq![s])[i] == if storage_id_allowed(s[i]) {
                s[i]
            } else {
                '-'
            },
{
    let m = seq![s].map_values(|p: Seq<char>| sanitize_part(p));
    assert(m =~= seq![sanitize_part(s)]);
    assert(storage_id_of(seq![s]) == sanitize_part(s));
}

/// The stable id of several parts is the stable id of all but the last, a
/// `-`, and the stable id of the last: the parts are joined by `-`.
pub proof fn lemma_storage_id_append(parts: Seq<Seq<char>>, last: Seq<char>)
    requires
        parts.len() > 0,
    ensures
        storage_id_of(parts.push(last)) == storage_id_of(parts) + seq!['-'] + storage_id_of(seq![last]),
{
    let f = |p: Seq<char>| sanitize_part(p);
    let whole = parts.push(last).map_values(f);
    assert(whole.drop_last() =~= parts.map_values(f));
    assert(whole.last() == sanitize_part(last));
    assert(seq![last].map_values(f) =~= seq![sanitize_part(last)]);
}

/// A page window's bounds: a clamped page size lies within its bounds and is
/// the requested size whenever that already does; a raised page is at least
/// 1 and is the requested page whenever that already is.
pub proof fn lemma_page_bounds(x: int, lo: int, hi: int)
    requires
        lo <= hi,
    ensures
        lo <= clamp(x, lo, hi) <= hi,
        lo <= x <= hi ==> clamp(x, lo, hi) == x,
        x < lo ==> clamp(x, lo, hi) == lo,
        x > hi ==> clamp(x, lo, hi) == hi,
        at_least_one(x) >= 1,
        x >= 1 ==> at_least_one(x) == x,
        x < 1 ==> at_least_one(x) == 1,
{
}

} // verus!
