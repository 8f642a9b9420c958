//! The shop read model: how stored rows are rendered for the app API, which
//! shop is "current", how lists are paged, and how a fulfillment order is
//! written.

use vstd::prelude::*;
use crate::error::{ShopError, ShopErrorKind};
use crate::json::{
    get_str, json_document_valid, json_document_is_valid, json_get_either, lookup, opt_or, val_str,
    JsonObject, JsonVal, JsonValue, Payload,
};
use crate::subresource::{
    args_of, epoch_text, opt_str_view, opt_view, plan_is, plan_shop_table_upsert, table_name, ShopTable, SqlArg,
    SqlValue, UpsertPlan,
};
use crate::text::chars_of;

verus! {

/// The characters that `char::to_uppercase` yields for `c`.
pub uninterp spec fn char_uppercase(c: char) -> Seq<char>;

/// Calls `char::to_uppercase` and collects the characters it yields. The
/// contract names the result (`char_uppercase`) and states what the standard
/// library documents for ASCII: a lower-case letter becomes its upper-case
/// letter, every other ASCII character is unchanged.
#[verifier::external_body]
fn uppercase_of(c: char) -> (s: String)
    ensures
        s@ == char_uppercase(c),
        ('a' <= c && c <= 'z') ==> s@ == seq![((c as u32) - 32) as char],
        ((c as u32) < 128 && !('a' <= c && c <= 'z')) ==> s@ == seq![c],
{
    c.to_uppercase().collect::<String>()
}

/// The upper-case form of `c`: an ASCII lower-case letter becomes its
/// upper-case letter, any other ASCII character stays, and any other
/// character becomes what `char::to_uppercase` yields.
pub open spec fn upper_form(c: char) -> Seq<char> {
    if 'a' <= c && c <= 'z' {
        seq![((c as u32) - 32) as char]
    } else if (c as u32) < 128 {
        seq![c]
    } else {
        char_uppercase(c)
    }
}

/// What character `i` of `s` contributes to the camel-case key: nothing for
/// `_`, its upper-case form right after a `_`, else itself.
pub open spec fn camel_piece(s: Seq<char>, i: int) -> Seq<char> {
    if s[i] == '_' {
        Seq::empty()
    } else if i > 0 && s[i - 1] == '_' {
        upper_form(s[i])
    } else {
        seq![s[i]]
    }
}

pub open spec fn camel_prefix(s: Seq<char>, n: int) -> Seq<char>
    decreases n,
{
    if n <= 0 {
        Seq::empty()
    } else {
        camel_prefix(s, n - 1) + camel_piece(s, n - 1)
    }
}

/// The camel-case form of a snake-case column name: the `_`-separated
/// pieces joined, each piece after the first with its first character
/// upper-cased.
pub open spec fn camel_case(s: Seq<char>) -> Seq<char> {
    camel_prefix(s, s.len() as int)
}

/// Renders a snake-case column name as the camel-case key of the API.
pub fn snake_to_camel(name: &str) -> (key: String)
    ensures
        key@ == camel_case(name@),
{
    let v = chars_of(name);
    let n = v.len();
    let mut key = String::new();
    for i in 0..n
        invariant
            n == v@.len(),
            v@ == name@,
            key@ == camel_prefix(name@, i as int),
    {
        let c = v[i];
        if c == '_' {
        } else if i > 0 && v[i - 1] == '_' {
            let up = uppercase_of(c);
            key.append(up.as_str());
        } else {
            key.push(c);
        }
    }
    key
}

/// `s` ends with `suffix`.
pub open spec fn ends_with(s: Seq<char>, suffix: Seq<char>) -> bool {
    s.len() >= suffix.len() && s.subrange(s.len() - suffix.len(), s.len() as int) == suffix
}

fn text_ends_with(s: &str, suffix: &str) -> (b: bool)
    ensures
        b == ends_with(s@, suffix@),
{
    let v = chars_of(s);
    let w = chars_of(suffix);
    if v.len() < w.len() {
        return false;
    }
    let vl = v.len();
    let off = vl - w.len();
    let mut i: usize = 0;
    while i < w.len()
        invariant
            v@ == s@,
            w@ == suffix@,
            vl == v@.len(),
            off + w@.len() == vl,
            i <= w@.len(),
            forall|j: int| 0 <= j < i ==> v@[off + j] == w@[j],
        decreases w@.len() - i,
    {
        if v[off + i] != w[i] {
            assert(s@.subrange(off as int, s@.len() as int)[i as int] != suffix@[i as int]);
            return false;
        }
        i += 1;
    }
    assert(s@.subrange(off as int, s@.len() as int) =~= suffix@);
    true
}

/// One column of a stored row, read as optional text (`None` for SQL NULL
/// and for a column that does not read as text).
#[derive(Debug, Clone, PartialEq)]
pub struct RowCell {
    pub name: String,
    pub text: Option<String>,
}

pub open spec fn cell_view(c: RowCell) -> (Seq<char>, Option<Seq<char>>) {
    (c.name@, opt_view(c.text))
}

pub open spec fn cells_view(cells: Seq<RowCell>) -> Seq<(Seq<char>, Option<Seq<char>>)> {
    cells.map_values(|c: RowCell| cell_view(c))
}

/// Text or JSON null.
pub open spec fn text_or_null(t: Option<Seq<char>>) -> JsonVal {
    match t {
        Some(s) => JsonVal::Str(s),
        None => JsonVal::Null,
    }
}

/// How the app API renders one column: `id` as text (empty when null),
/// `*_json` columns as the JSON document they hold (an empty object when
/// null or not valid JSON), every other column as text or null.
pub open spec fn api_cell_value(name: Seq<char>, t: Option<Seq<char>>) -> JsonVal {
    if name == "id"@ {
        JsonVal::Str(opt_or(t, Seq::empty()))
    } else if ends_with(name, "_id"@) {
        text_or_null(t)
    } else if ends_with(name, "_json"@) {
        match t {
            Some(s) => if json_document_valid(s) {
                JsonVal::Raw(s)
            } else {
                JsonVal::Raw("{}"@)
            },
            None => JsonVal::Raw("{}"@),
        }
    } else {
        text_or_null(t)
    }
}

/// The member `key` of the rendering of `cells`: the value of the last
/// column whose key is `key`, as repeated inserts into a JSON map leave it.
pub open spec fn rendered_lookup(
    cells: Seq<(Seq<char>, Option<Seq<char>>)>,
    key_of: spec_fn(Seq<char>) -> Seq<char>,
    value_of: spec_fn(Seq<char>, Option<Seq<char>>) -> JsonVal,
    key: Seq<char>,
) -> Option<JsonVal>
    decreases cells.len(),
{
    if cells.len() == 0 {
        None
    } else if key_of(cells.last().0) == key {
        Some(value_of(cells.last().0, cells.last().1))
    } else {
        rendered_lookup(cells.drop_last(), key_of, value_of, key)
    }
}

pub open spec fn api_key(name: Seq<char>) -> Seq<char> {
    camel_case(name)
}

pub open spec fn plain_key(name: Seq<char>) -> Seq<char> {
    name
}

pub open spec fn plain_value(name: Seq<char>, t: Option<Seq<char>>) -> JsonVal {
    text_or_null(t)
}

fn clone_text(t: &Option<String>) -> (r: Option<String>)
    ensures
        opt_view(r) == opt_view(*t),
{
    match t {
        Some(s) => Some(s.clone()),
        None => None,
    }
}

fn api_value(name: &str, text: &Option<String>) -> (v: JsonValue)
    ensures
        v@ == api_cell_value(name@, opt_view(*text)),
{
    let is_id = name.to_owned() == "id".to_owned();
    if is_id {
        match text {
            Some(s) => JsonValue::Str(s.clone()),
            None => JsonValue::Str(String::new()),
        }
    } else if text_ends_with(name, "_id") {
        match clone_text(text) {
            Some(s) => JsonValue::Str(s),
            None => JsonValue::Null,
        }
    } else if text_ends_with(name, "_json") {
        match text {
            Some(s) => if json_document_is_valid(s.as_str()) {
                JsonValue::Raw(s.clone())
            } else {
                JsonValue::Raw("{}".to_owned())
            },
            None => JsonValue::Raw("{}".to_owned()),
        }
    } else {
        match clone_text(text) {
            Some(s) => JsonValue::Str(s),
            None => JsonValue::Null,
        }
    }
}

/// Renders a stored row for the app API: keys in camel case, values as
/// [`api_cell_value`] gives them.
pub fn map_row_json(row: &Vec<RowCell>) -> (o: JsonObject)
    ensures
        forall|k: Seq<char>|
            #![trigger lookup(o@, k)]
            lookup(o@, k) == rendered_lookup(
                cells_view(row@),
                |n: Seq<char>| api_key(n),
                |n: Seq<char>, t: Option<Seq<char>>| api_cell_value(n, t),
                k,
            ),
{
    let mut o = JsonObject::new();
    let n = row.len();
    for i in 0..n
        invariant
            n == row@.len(),
            forall|k: Seq<char>|
                #![trigger lookup(o@, k)]
                lookup(o@, k) == rendered_lookup(
                    cells_view(row@.take(i as int)),
                    |n: Seq<char>| api_key(n),
                    |n: Seq<char>, t: Option<Seq<char>>| api_cell_value(n, t),
                    k,
                ),
    {
        let cell = &row[i];
        let key = snake_to_camel(cell.name.as_str());
        let value = api_value(cell.name.as_str(), &cell.text);
        o.insert(key.as_str(), value);
        assert(cells_view(row@.take(i + 1)).drop_last() =~= cells_view(row@.take(i as int)));
    }
    assert(row@.take(n as int) =~= row@);
    o
}

/// Renders a stored row for the admin API: keys are the column names,
/// values are text or null.
pub fn map_row_json_pg(row: &Vec<RowCell>) -> (o: JsonObject)
    ensures
        forall|k: Seq<char>|
            #![trigger lookup(o@, k)]
            lookup(o@, k) == rendered_lookup(
                cells_view(row@),
                |n: Seq<char>| plain_key(n),
                |n: Seq<char>, t: Option<Seq<char>>| plain_value(n, t),
                k,
            ),
{
    let mut o = JsonObject::new();
    let n = row.len();
    for i in 0..n
        invariant
            n == row@.len(),
            forall|k: Seq<char>|
                #![trigger lookup(o@, k)]
                lookup(o@, k) == rendered_lookup(
                    cells_view(row@.take(i as int)),
                    |n: Seq<char>| plain_key(n),
                    |n: Seq<char>, t: Option<Seq<char>>| plain_value(n, t),
                    k,
                ),
    {
        let cell = &row[i];
        let value = match clone_text(&cell.text) {
            Some(s) => JsonValue::Str(s),
            None => JsonValue::Null,
        };
        o.insert(cell.name.as_str(), value);
        assert(cells_view(row@.take(i + 1)).drop_last() =~= cells_view(row@.take(i as int)));
    }
    assert(row@.take(n as int) =~= row@);
    o
}

/// The organization scope used to find the current shop's id: the session's
/// organization, or the platform sentinel `0`.
pub fn shop_id_scope_organization(organization_id: Option<&str>) -> (o: &str)
    ensures
        o@ == opt_or(opt_str_view(organization_id), "0"@),
{
    match organization_id {
        Some(o) => o,
        None => "0",
    }
}

/// The organization scope used to read the current shop's summary: the
/// session's organization, or the empty text.
pub fn shop_row_scope_organization(organization_id: Option<&str>) -> (o: &str)
    ensures
        o@ == opt_or(opt_str_view(organization_id), Seq::empty()),
{
    proof {
        reveal_strlit("");
    }
    match organization_id {
        Some(o) => o,
        None => "",
    }
}

/// The current shop's id, given the id found for the session's scope, or
/// "not found" when the scope has no shop.
pub fn current_shop_id(found: Option<String>) -> (r: Result<String, ShopError>)
    ensures
        match found {
            Some(id) => r matches Ok(x) && x@ == id@,
            None => r matches Err(e) && e.kind == ShopErrorKind::NotFound && e.message@
                == "current shop was not found"@,
        },
{
    match found {
        Some(id) => Ok(id),
        None => Err(ShopError::not_found("current shop was not found")),
    }
}

/// The page a list query returns and the `LIMIT` / `OFFSET` it runs with.
#[derive(Debug, Clone, Copy, PartialEq, Eq, Structural)]
pub struct PageWindow {
    pub page: u32,
    pub page_size: u32,
    pub limit: i64,
    pub offset: i64,
}

/// The window of a shop list query: page `page` (counted from 1) of
/// `page_size` rows.
pub fn shop_list_window(page: u32, page_size: u32) -> (w: PageWindow)
    requires
        page >= 1,
        (page - 1) * page_size <= u32::MAX,
    ensures
        w.page == page,
        w.page_size == page_size,
        w.limit == page_size,
        w.offset == (page - 1) * page_size,
{
    let offset = (page - 1) * page_size;
    PageWindow { page, page_size, limit: page_size as i64, offset: offset as i64 }
}

pub open spec fn clamp(x: int, lo: int, hi: int) -> int {
    if x < lo {
        lo
    } else if x > hi {
        hi
    } else {
        x
    }
}

pub open spec fn at_least_one(x: int) -> int {
    if x < 1 {
        1
    } else {
        x
    }
}

/// The window of the current shop's order list: the page raised to at least
/// 1 and the page size held between 1 and 200.
pub fn order_list_window(page: u32, page_size: u32) -> (w: PageWindow)
    requires
        (at_least_one(page as int) - 1) * clamp(page_size as int, 1, 200) <= u32::MAX,
    ensures
        w.page == at_least_one(page as int),
        w.page_size == clamp(page_size as int, 1, 200),
        w.limit == w.page_size,
        w.offset == (w.page - 1) * w.page_size,
{
    let p = if page < 1 {
        1
    } else {
        page
    };
    let size = if page_size < 1 {
        1
    } else if page_size > 200 {
        200
    } else {
        page_size
    };
    let offset = (p - 1) * size;
    PageWindow { page: p, page_size: size, limit: size as i64, offset: offset as i64 }
}

/// The settlements page: always the first 20 rows.
pub fn settlement_window() -> (w: PageWindow)
    ensures
        w == (PageWindow { page: 1, page_size: 20, limit: 20, offset: 0 }),
{
    PageWindow { page: 1, page_size: 20, limit: 20, offset: 0 }
}

/// The total reported with the settlements page: the count, never negative.
pub fn settlement_total(count: i64) -> (t: u64)
    ensures
        t == if count < 0 {
            0
        } else {
            count as int
        },
{
    if count < 0 {
        0
    } else {
        count as u64
    }
}

/// The timestamp written on fulfillment orders created from the shop API.
pub fn chrono_like_now() -> (s: String)
    ensures
        s@ == "2026-06-17 00:00:00"@,
{
    "2026-06-17 00:00:00".to_owned()
}

/// `get(camel).or_else(|| get(snake)).and_then(as_str).unwrap_or(default)`.
pub open spec fn either_str_or(
    p: Option<Seq<(Seq<char>, JsonVal)>>,
    camel: Seq<char>,
    snake: Seq<char>,
    default: Seq<char>,
) -> Seq<char> {
    opt_or(val_str(json_get_either(p, camel, snake)), default)
}

pub open spec fn fulfillment_id_of(p: Option<Seq<(Seq<char>, JsonVal)>>) -> Seq<char> {
    either_str_or(p, "fulfillmentId"@, "fulfillment_id"@, "fulfillment-generated"@)
}

/// The values bound to the fulfillment-order insert, in statement order.
pub open spec fn fulfillment_args(
    tenant: Seq<char>,
    org: Option<Seq<char>>,
    shop: Seq<char>,
    order: Seq<char>,
    p: Option<Seq<(Seq<char>, JsonVal)>>,
) -> Seq<SqlArg> {
    let id = fulfillment_id_of(p);
    let no = either_str_or(p, "fulfillmentNo"@, "fulfillment_no"@, "FF-GEN"@);
    let kind = either_str_or(p, "fulfillmentType"@, "fulfillment_type"@, "physical"@);
    let now = "2026-06-17 00:00:00"@;
    seq![
        SqlArg::Text(id),
        SqlArg::Text(tenant),
        SqlArg::Text(opt_or(org, Seq::empty())),
        SqlArg::Text(no),
        SqlArg::Text(order),
        SqlArg::Text(shop),
        SqlArg::Text(kind),
        SqlArg::Text(no),
        SqlArg::Text("idem-"@ + id),
        SqlArg::Text(now),
        SqlArg::Text(now),
    ]
}

/// A pending fulfillment order for one order of the current shop: its id
/// and the values of its insert statement.
#[derive(Debug)]
pub struct FulfillmentPlan {
    pub id: String,
    pub binds: Vec<SqlValue>,
}

fn either_text<'a>(payload: &'a Payload, camel: &str, snake: &str, default: &'a str) -> (s: &'a str)
    ensures
        s@ == either_str_or(payload@, camel@, snake@, default@),
{
    match payload.get_either(camel, snake) {
        Some(JsonValue::Str(s)) => s.as_str(),
        _ => default,
    }
}

/// Plans the fulfillment order that the shop creates for `order_id`.
pub fn plan_shop_fulfillment(
    tenant_id: &str,
    organization_id: Option<&str>,
    shop_id: &str,
    order_id: &str,
    payload: &Payload,
) -> (plan: FulfillmentPlan)
    ensures
        plan.id@ == fulfillment_id_of(payload@),
        args_of(plan.binds@) == fulfillment_args(
            tenant_id@,
            opt_str_view(organization_id),
            shop_id@,
            order_id@,
            payload@,
        ),
{
    let organization = shop_row_scope_organization(organization_id);
    let now = chrono_like_now();
    let id = either_text(payload, "fulfillmentId", "fulfillment_id", "fulfillment-generated");
    let no = either_text(payload, "fulfillmentNo", "fulfillment_no", "FF-GEN");
    let kind = either_text(payload, "fulfillmentType", "fulfillment_type", "physical");
    let mut idem = "idem-".to_owned();
    idem.append(id);
    let mut binds: Vec<SqlValue> = Vec::new();
    binds.push(SqlValue::Text(id.to_owned()));
    binds.push(SqlValue::Text(tenant_id.to_owned()));
    binds.push(SqlValue::Text(organization.to_owned()));
    binds.push(SqlValue::Text(no.to_owned()));
    binds.push(SqlValue::Text(order_id.to_owned()));
    binds.push(SqlValue::Text(shop_id.to_owned()));
    binds.push(SqlValue::Text(kind.to_owned()));
    binds.push(SqlValue::Text(no.to_owned()));
    binds.push(SqlValue::Text(idem));
    binds.push(SqlValue::Text(now.clone()));
    binds.push(SqlValue::Text(now));
    proof {
        assert(args_of(binds@) =~= fulfillment_args(
            tenant_id@,
            opt_str_view(organization_id),
            shop_id@,
            order_id@,
            payload@,
        ));
    }
    FulfillmentPlan { id: id.to_owned(), binds }
}

/// The outcome of creating a fulfillment order, given the row read back by
/// its id.
pub fn created_fulfillment(row: Option<JsonObject>) -> (r: Result<JsonObject, ShopError>)
    ensures
        match row {
            Some(o) => r == Ok::<JsonObject, ShopError>(o),
            None => r matches Err(e) && e.kind == ShopErrorKind::Storage && e.message@
                == "fulfillment row missing after insert"@,
        },
{
    match row {
        Some(o) => Ok(o),
        None => Err(ShopError::storage("fulfillment row missing after insert")),
    }
}

/// Plans a write of `payload` into table `table` for the current shop: the
/// body's own `id` member, when it is a string, is the explicit row id.
pub fn plan_current_shop_upsert(
    table: ShopTable,
    tenant_id: &str,
    organization_id: Option<&str>,
    shop_id: &str,
    payload: &Payload,
) -> (r: Result<UpsertPlan, ShopError>)
    ensures
        r matches Ok(plan) && exists|reading: Option<u64>|
            plan_is(
                plan,
                table,
                tenant_id@,
                opt_str_view(organization_id),
                shop_id@,
                get_str(payload@, "id"@),
                payload@,
                #[trigger] epoch_text(reading),
            ),
{
    let explicit = payload.opt_text("id");
    let name = table.name();
    let r = plan_shop_table_upsert(name, tenant_id, organization_id, shop_id, explicit, payload);
    proof {
        if r is Ok {
            crate::subresource::lemma_table_name_injective(r->Ok_0.table, table);
        } else {
            assert(table_name(table) == name@);
        }
    }
    r
}

/// The text of column `column` in a stored row, as `Row::try_get` reads it by
/// name: the last column of that name; `None` when there is none, when it is
/// NULL, or when it does not read as text.
pub open spec fn row_text(cells: Seq<(Seq<char>, Option<Seq<char>>)>, column: Seq<char>) -> Option<Seq<char>>
    decreases cells.len(),
{
    if cells.len() == 0 {
        None
    } else if cells.last().0 == column {
        cells.last().1
    } else {
        row_text(cells.drop_last(), column)
    }
}

/// Reads column `column` of a stored row as optional text.
pub fn pg_optional_string(row: &Vec<RowCell>, column: &str) -> (t: Option<String>)
    ensures
        opt_view(t) == row_text(cells_view(row@), column@),
{
    let c = column.to_owned();
    let mut i = row.len();
    assert(row@.take(i as int) =~= row@);
    while i > 0
        invariant
            i <= row@.len(),
            c@ == column@,
            row_text(cells_view(row@), column@) == row_text(cells_view(row@.take(i as int)), column@),
        decreases i,
    {
        assert(cells_view(row@.take(i as int)).drop_last() =~= cells_view(row@.take(i - 1)));
        if row[i - 1].name == c {
            return clone_text(&row[i - 1].text);
        }
        i -= 1;
    }
    None
}

/// Reads column `column` of a stored row as text, empty when absent or NULL.
pub fn pg_string(row: &Vec<RowCell>, column: &str) -> (t: String)
    ensures
        t@ == opt_or(row_text(cells_view(row@), column@), Seq::empty()),
{
    match pg_optional_string(row, column) {
        Some(t) => t,
        None => String::new(),
    }
}

/// The summary of a shop as the shop lists and detail views show it.
#[derive(Debug, Clone, PartialEq)]
pub struct ShopSummary {
    pub shop_id: String,
    pub tenant_id: String,
    pub organization_id: String,
    pub shop_no: String,
    pub shop_name: String,
    pub shop_type: String,
    pub business_model: String,
    pub storefront_status: String,
    pub operation_status: String,
    pub review_status: String,
    pub data_scope: String,
    pub logo_media_resource_id: Option<String>,
    pub cover_media_resource_id: Option<String>,
    pub default_currency_code: String,
    pub default_locale: Option<String>,
    pub timezone: Option<String>,
    pub version: i64,
    pub created_at: String,
    pub updated_at: String,
}

pub open spec fn text_col(cells: Seq<(Seq<char>, Option<Seq<char>>)>, column: Seq<char>) -> Seq<char> {
    opt_or(row_text(cells, column), Seq::empty())
}

/// Builds a shop summary from a `commerce_shop` row; `version` is the
/// `version` column read as an integer (`None` when it does not read as one),
/// and counts as 0 when missing.
pub fn map_shop_summary(row: &Vec<RowCell>, version: Option<i64>) -> (v: ShopSummary)
    ensures
        v.shop_id@ == text_col(cells_view(row@), "id"@),
        v.tenant_id@ == text_col(cells_view(row@), "tenant_id"@),
        v.organization_id@ == text_col(cells_view(row@), "organization_id"@),
        v.shop_no@ == text_col(cells_view(row@), "shop_no"@),
        v.shop_name@ == text_col(cells_view(row@), "shop_name"@),
        v.shop_type@ == text_col(cells_view(row@), "shop_type"@),
        v.business_model@ == text_col(cells_view(row@), "business_model"@),
        v.storefront_status@ == text_col(cells_view(row@), "storefront_status"@),
        v.operation_status@ == text_col(cells_view(row@), "operation_status"@),
        v.review_status@ == text_col(cells_view(row@), "review_status"@),
        v.data_scope@ == text_col(cells_view(row@), "data_scope"@),
        opt_view(v.logo_media_resource_id) == row_text(cells_view(row@), "logo_media_resource_id"@),
        opt_view(v.cover_media_resource_id) == row_text(cells_view(row@), "cover_media_resource_id"@),
        v.default_currency_code@ == text_col(cells_view(row@), "default_currency_code"@),
        opt_view(v.default_locale) == row_text(cells_view(row@), "default_locale"@),
        opt_view(v.timezone) == row_text(cells_view(row@), "timezone"@),
        v.version == (match version {
            Some(n) => n,
            None => 0,
        }),
        v.created_at@ == text_col(cells_view(row@), "created_at"@),
        v.updated_at@ == text_col(cells_view(row@), "updated_at"@),
{
    ShopSummary {
        shop_id: pg_string(row, "id"),
        tenant_id: pg_string(row, "tenant_id"),
        organization_id: pg_string(row, "organization_id"),
        shop_no: pg_string(row, "shop_no"),
        shop_name: pg_string(row, "shop_name"),
        shop_type: pg_string(row, "shop_type"),
        business_model: pg_string(row, "business_model"),
        storefront_status: pg_string(row, "storefront_status"),
        operation_status: pg_string(row, "operation_status"),
        review_status: pg_string(row, "review_status"),
        data_scope: pg_string(row, "data_scope"),
        logo_media_resource_id: pg_optional_string(row, "logo_media_resource_id"),
        cover_media_resource_id: pg_optional_string(row, "cover_media_resource_id"),
        default_currency_code: pg_string(row, "default_currency_code"),
        default_locale: pg_optional_string(row, "default_locale"),
        timezone: pg_optional_string(row, "timezone"),
        version: match version {
            Some(n) => n,
            None => 0,
        },
        created_at: pg_string(row, "created_at"),
        updated_at: pg_string(row, "updated_at"),
    }
}

/// The query listing the rows of a per-shop table for one shop, newest first.
pub fn shop_table_rows_sql(table: &str) -> (sql: String)
    ensures
        sql@ == "SELECT * FROM "@ + table@
            + " WHERE tenant_id = CAST(? AS TEXT) AND shop_id = CAST(? AS TEXT) ORDER BY created_at DESC, id DESC"@,
{
    let mut sql = "SELECT * FROM ".to_owned();
    sql.append(table);
    sql.append(" WHERE tenant_id = CAST(? AS TEXT) AND shop_id = CAST(? AS TEXT) ORDER BY created_at DESC, id DESC");
    sql
}

/// The query reading the one row of a per-shop table for one shop.
pub fn shop_table_row_sql(table: &str) -> (sql: String)
    ensures
        sql@ == "SELECT * FROM "@ + table@
            + " WHERE tenant_id = CAST(? AS TEXT) AND shop_id = CAST(? AS TEXT) LIMIT 1"@,
{
    let mut sql = "SELECT * FROM ".to_owned();
    sql.append(table);
    sql.append(" WHERE tenant_id = CAST(? AS TEXT) AND shop_id = CAST(? AS TEXT) LIMIT 1");
    sql
}

/// The query reading a row of `table` by the value of `key_column`.
pub fn table_row_by_column_sql(table: &str, key_column: &str) -> (sql: String)
    ensures
        sql@ == "SELECT * FROM "@ + table@ + " WHERE tenant_id = CAST(? AS TEXT) AND "@ + key_column@
            + " = CAST(? AS TEXT) LIMIT 1"@,
{
    let mut sql = "SELECT * FROM ".to_owned();
    sql.append(table);
    sql.append(" WHERE tenant_id = CAST(? AS TEXT) AND ");
    sql.append(key_column);
    sql.append(" = CAST(? AS TEXT) LIMIT 1");
    sql
}

} // verus!
