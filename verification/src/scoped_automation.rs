//! What the automation identities may send and what they get to see: aggregate queries that fill
//! a template of the policy, and governed dashboards.

use crate::automation::{Method, DASHBOARD_IDENTITY, QUERY_IDENTITY};
use crate::digest;
use crate::json;
use crate::json::Json;
use crate::json::JsonView;
use crate::oidc::reply::{Reply, ReplyView};
use crate::policy;
use crate::policy::{AutomationPolicy, DashboardDefinition, QueryTemplate};
use crate::template;
use crate::text;
use crate::text::CharClass;
use vstd::prelude::*;
use vstd::string::*;
use vstd::utf8::*;

verus! {

/// The largest body of a query that is read.
pub const MAX_QUERY_BODY: usize = 65_536;

/// The largest body of a dashboard, written or read, that is looked into.
pub const MAX_DASHBOARD_BODY: usize = 1_048_576;

// ---------------------------------------------------------------------------------------------
// Query strings
// ---------------------------------------------------------------------------------------------

/// The names and values of a query string.
pub uninterp spec fn form_fields(input: Seq<u8>) -> Seq<(Seq<char>, Seq<char>)>;

/// `url::form_urlencoded::parse`: the names and values of a query string in order, each decoded.
#[verifier::external_body]
fn parse_form(input: &[u8]) -> (pairs: Vec<(String, String)>)
    ensures
        text::pair_views(pairs@) == form_fields(input@),
{
    url::form_urlencoded::parse(input).into_owned().collect()
}

/// The value of the only pair, where there is one pair and its name is `type`.
pub open spec fn sole_type(pairs: Seq<(Seq<char>, Seq<char>)>) -> Option<Seq<char>> {
    if pairs.len() == 1 && pairs[0].0 == "type"@ {
        Some(pairs[0].1)
    } else {
        None
    }
}

/// The signal that a query string asks for.
pub open spec fn requested_signal(query: Option<Seq<char>>) -> Option<Seq<char>> {
    match query {
        Some(raw) => sole_type(form_fields(encode_utf8(raw))),
        None => None,
    }
}

/// A pair that may come with a dashboard that is replaced: its folder, which is the default one,
/// or the hash of what it replaces.
pub open spec fn dashboard_pair_ok(pair: (Seq<char>, Seq<char>)) -> bool {
    if pair.0 == "folder"@ {
        pair.1 == "default"@
    } else if pair.0 == "hash"@ {
        text::made_of(pair.1, CharClass::Name, 1, 128)
    } else {
        false
    }
}

/// Every pair may come with a dashboard that is replaced.
pub open spec fn dashboard_pairs_ok(pairs: Seq<(Seq<char>, Seq<char>)>) -> bool {
    forall|i: int| 0 <= i < pairs.len() ==> dashboard_pair_ok(#[trigger] pairs[i])
}

/// A dashboard request has no query string, or it replaces and every pair may come with that.
pub open spec fn dashboard_query_ok(query: Option<Seq<char>>, method: Method) -> bool {
    match query {
        None => true,
        Some(raw) => method is Put && dashboard_pairs_ok(form_fields(encode_utf8(raw))),
    }
}

/// The signal that the pairs of a query string ask for.
pub fn type_of_pairs(pairs: &Vec<(String, String)>) -> (signal: Option<String>)
    ensures
        text::text_view(signal) == sole_type(text::pair_views(pairs@)),
{
    if pairs.len() == 1 && text::same_text(pairs[0].0.as_str(), "type") {
        Some(pairs[0].1.clone())
    } else {
        None
    }
}

/// The signal that a query string asks for.
pub fn query_type(query: Option<&str>) -> (signal: Option<String>)
    ensures
        text::text_view(signal) == requested_signal(text::str_view(query)),
{
    match query {
        Some(raw) => type_of_pairs(&parse_form(raw.as_bytes())),
        None => None,
    }
}

/// Whether every pair may come with a dashboard that is replaced.
pub fn dashboard_pairs_allowed(pairs: &Vec<(String, String)>) -> (allowed: bool)
    ensures
        allowed == dashboard_pairs_ok(text::pair_views(pairs@)),
{
    let mut i: usize = 0;
    while i < pairs.len()
        invariant
            i <= pairs.len(),
            forall|j: int| 0 <= j < i ==> dashboard_pair_ok(#[trigger] text::pair_views(pairs@)[j]),
        decreases pairs.len() - i,
    {
        let name: &str = pairs[i].0.as_str();
        let value: &str = pairs[i].1.as_str();
        let allowed: bool = if text::same_text(name, "folder") {
            text::same_text(value, "default")
        } else if text::same_text(name, "hash") {
            text::is_made_of(value, CharClass::Name, 1, 128)
        } else {
            false
        };
        proof {
            assert(text::pair_views(pairs@)[i as int] == (name@, value@));
        }
        if !allowed {
            return false;
        }
        i = i + 1;
    }
    true
}

/// Whether a dashboard request may have the query string that it has.
pub fn dashboard_query_allowed(query: Option<&str>, method: Method) -> (allowed: bool)
    ensures
        allowed == dashboard_query_ok(text::str_view(query), method),
{
    match query {
        None => true,
        Some(raw) => method == Method::Put && dashboard_pairs_allowed(&parse_form(raw.as_bytes())),
    }
}

// ---------------------------------------------------------------------------------------------
// Queries
// ---------------------------------------------------------------------------------------------

/// The value is an object, and each of its fields has one of the names.
pub open spec fn keys_within(value: JsonView, allowed: Seq<Seq<char>>) -> bool {
    value matches JsonView::Object(fields) && forall|i: int|
        0 <= i < fields.len() ==> allowed.contains((#[trigger] fields[i]).0)
}

/// A template answers a query on a signal.
pub open spec fn answers(query: QueryTemplate, signal: Seq<char>, sql: Seq<char>) -> bool {
    query.signal@ == signal && template::template_accepts(query.sql@, sql)
}

/// The position, from `from` on, of the first template that answers a query on a signal.
pub open spec fn answering_from(
    queries: Seq<QueryTemplate>,
    signal: Seq<char>,
    sql: Seq<char>,
    from: int,
) -> Option<int>
    decreases queries.len() - from,
{
    if from < 0 || from >= queries.len() {
        None
    } else if answers(queries[from], signal, sql) {
        Some(from)
    } else {
        answering_from(queries, signal, sql, from + 1)
    }
}

/// The query of a search.
pub open spec fn searched(body: JsonView) -> Option<Seq<char>> {
    match body.get("query"@) {
        Some(query) => query.text_field("sql"@),
        None => None,
    }
}

/// The search request is the fixed interface request, and its size and time range lie within the
/// bounds of the policy.
pub open spec fn search_bounded(body: JsonView, policy: AutomationPolicy) -> bool {
    &&& keys_within(body, seq!["query"@, "search_type"@, "timeout"@])
    &&& body.text_field("search_type"@) == Some("ui"@)
    &&& body.unsigned_field("timeout"@) matches Some(timeout) && 1 <= timeout <= 10
    &&& body.get("query"@) matches Some(query) && {
        &&& keys_within(query, seq!["sql"@, "start_time"@, "end_time"@, "from"@, "size"@])
        &&& query.unsigned_field("from"@) == Some(0u64)
        &&& query.unsigned_field("size"@) matches Some(size) && 0 < size <= policy.max_result_size
        &&& query.signed_field("start_time"@) matches Some(start) && query.signed_field(
            "end_time"@,
        ) matches Some(end) && 0 < start < end && end - start <= policy.max_time_range_micros
    }
}

/// The search request is within its bounds, and a template of the policy answers its query on the
/// signal.
pub open spec fn search_ok(signal: Seq<char>, body: JsonView, policy: AutomationPolicy) -> bool {
    &&& search_bounded(body, policy)
    &&& searched(body) matches Some(sql) && answering_from(
        policy.query_templates@,
        signal,
        sql,
        0,
    ) is Some
}

/// The query is a template of the policy for the signal, with its slots filled.
pub open spec fn fills_some(policy: AutomationPolicy, signal: Seq<char>, sql: Seq<char>) -> bool {
    exists|i: int|
        0 <= i < policy.query_templates@.len() && (
        #[trigger] policy.query_templates@[i]).signal@ == signal && template::instance_of(
            policy.query_templates@[i].sql@,
            sql,
        )
}

/// The query of a search request is a template of the policy for the signal, with its slots
/// filled.
pub open spec fn fills_template(
    signal: Seq<char>,
    body: JsonView,
    policy: AutomationPolicy,
) -> bool {
    searched(body) matches Some(sql) && fills_some(policy, signal, sql)
}

/// The request posts a search on one signal that is in order.
pub open spec fn query_request_ok(
    query: Option<Seq<char>>,
    method: Method,
    body: Seq<u8>,
    policy: AutomationPolicy,
) -> bool {
    &&& method is Post
    &&& requested_signal(query) matches Some(signal) && json::json_document(body) matches Some(
        value,
    ) && search_ok(signal, value, policy)
}

/// The request posts a search on one signal that is within its bounds and fills a template.
pub open spec fn query_request_fills(
    query: Option<Seq<char>>,
    method: Method,
    body: Seq<u8>,
    policy: AutomationPolicy,
) -> bool {
    &&& method is Post
    &&& requested_signal(query) matches Some(signal) && json::json_document(body) matches Some(
        value,
    ) && search_bounded(value, policy) && fills_template(signal, value, policy)
}

/// Whether a value is an object all of whose fields have one of the names.
pub fn exact_object_keys(value: &Json, allowed: &Vec<&str>) -> (exact: bool)
    ensures
        exact == keys_within(value@, allowed@.map_values(|name: &str| name@)),
{
    let ghost names: Seq<Seq<char>> = allowed@.map_values(|name: &str| name@);
    let fields: &Vec<(String, Json)> = match value {
        Json::Object(fields) => fields,
        _ => {
            return false;
        },
    };
    proof {
        json::lemma_object_view(*fields);
    }
    let mut i: usize = 0;
    while i < fields.len()
        invariant
            i <= fields.len(),
            names == allowed@.map_values(|name: &str| name@),
            value@ == JsonView::Object(json::field_views(fields@)),
            forall|j: int|
                0 <= j < i ==> names.contains((#[trigger] json::field_views(fields@)[j]).0),
        decreases fields.len() - i,
    {
        let mut found: bool = false;
        let mut k: usize = 0;
        while k < allowed.len()
            invariant
                i < fields.len(),
                k <= allowed.len(),
                names == allowed@.map_values(|name: &str| name@),
                found == exists|j: int| 0 <= j < k && names[j] == fields@[i as int].0@,
            decreases allowed.len() - k,
        {
            if text::same_text(fields[i].0.as_str(), allowed[k]) {
                proof {
                    assert(names[k as int] == fields@[i as int].0@);
                }
                found = true;
            }
            k = k + 1;
        }
        proof {
            assert(json::field_views(fields@)[i as int].0 == fields@[i as int].0@);
            assert(found == names.contains(fields@[i as int].0@));
        }
        if !found {
            proof {
                assert(!names.contains((value@->Object_0)[i as int].0));
            }
            return false;
        }
        i = i + 1;
    }
    true
}

/// The first template of the policy for the signal that the query fills.
pub fn matching_template<'a>(policy: &'a AutomationPolicy, signal: &str, sql: &str) -> (found: Option<
    &'a QueryTemplate,
>)
    ensures
        match answering_from(policy.query_templates@, signal@, sql@, 0) {
            Some(i) => 0 <= i < policy.query_templates@.len() && found == Some(
                &policy.query_templates@[i],
            ),
            None => found is None,
        },
        found matches Some(query) ==> query.signal@ == signal@ && template::instance_of(
            query.sql@,
            sql@,
        ),
        policy::templates_safe(policy.query_templates@) ==> (found is Some <==> fills_some(
            *policy,
            signal@,
            sql@,
        )),
{
    let mut i: usize = 0;
    while i < policy.query_templates.len()
        invariant
            i <= policy.query_templates.len(),
            policy::templates_safe(policy.query_templates@) ==> forall|j: int|
                0 <= j < i ==> !((#[trigger] policy.query_templates@[j]).signal@ == signal@
                    && template::instance_of(policy.query_templates@[j].sql@, sql@)),
            answering_from(policy.query_templates@, signal@, sql@, 0) == answering_from(
                policy.query_templates@,
                signal@,
                sql@,
                i as int,
            ),
        decreases policy.query_templates.len() - i,
    {
        let query: &QueryTemplate = &policy.query_templates[i];
        if text::same_text(query.signal.as_str(), signal) && template::template_matches(
            query.sql.as_str(),
            sql,
        ) {
            assert(policy.query_templates@[i as int].signal@ == signal@);
            return Some(query);
        }
        assert(policy::templates_safe(policy.query_templates@) ==> policy::template_safe(
            policy.query_templates@[i as int],
        ));
        i = i + 1;
    }
    None
}

/// Whether a search on a signal is in order.
pub fn search_allowed(signal: &str, body: &Json, policy: &AutomationPolicy) -> (allowed: bool)
    ensures
        allowed == search_ok(signal@, body@, *policy),
        allowed ==> fills_template(signal@, body@, *policy),
        policy::templates_safe(policy.query_templates@) ==> allowed == (search_bounded(
            body@,
            *policy,
        ) && fills_template(signal@, body@, *policy)),
{
    let outer: Vec<&str> = vec!["query", "search_type", "timeout"];
    let inner: Vec<&str> = vec!["sql", "start_time", "end_time", "from", "size"];
    proof {
        assert(outer@.map_values(|name: &str| name@) =~= seq![
            "query"@,
            "search_type"@,
            "timeout"@,
        ]);
        assert(inner@.map_values(|name: &str| name@) =~= seq![
            "sql"@,
            "start_time"@,
            "end_time"@,
            "from"@,
            "size"@,
        ]);
    }
    if !exact_object_keys(body, &outer) {
        return false;
    }
    match body.text_field("search_type") {
        Some(search_type) => {
            if !text::same_text(search_type, "ui") {
                return false;
            }
        },
        None => {
            return false;
        },
    }
    match body.unsigned_field("timeout") {
        Some(timeout) => {
            if timeout < 1 || timeout > 10 {
                return false;
            }
        },
        None => {
            return false;
        },
    }
    let query: &Json = match body.get("query") {
        Some(query) => query,
        None => {
            return false;
        },
    };
    if !exact_object_keys(query, &inner) {
        return false;
    }
    match query.unsigned_field("from") {
        Some(from) => {
            if from != 0 {
                return false;
            }
        },
        None => {
            return false;
        },
    }
    let size: u64 = match query.unsigned_field("size") {
        Some(size) => size,
        None => {
            return false;
        },
    };
    let start: i64 = match query.signed_field("start_time") {
        Some(start) => start,
        None => {
            return false;
        },
    };
    let end: i64 = match query.signed_field("end_time") {
        Some(end) => end,
        None => {
            return false;
        },
    };
    let sql: &str = match query.text_field("sql") {
        Some(sql) => sql,
        None => {
            return false;
        },
    };
    size > 0 && size <= policy.max_result_size && start > 0 && end > start && end - start
        <= policy.max_time_range_micros && matching_template(policy, signal, sql).is_some()
}

/// Whether a request of the query identity is in order.
pub fn validate_query_request(
    query: Option<&str>,
    method: Method,
    body: &[u8],
    policy: &AutomationPolicy,
) -> (valid: bool)
    ensures
        valid == query_request_ok(text::str_view(query), method, body@, *policy),
        valid ==> fills_template(
            requested_signal(text::str_view(query)).unwrap(),
            json::json_document(body@).unwrap(),
            *policy,
        ),
        policy::templates_safe(policy.query_templates@) ==> valid == query_request_fills(
            text::str_view(query),
            method,
            body@,
            *policy,
        ),
{
    if method != Method::Post {
        return false;
    }
    let signal: String = match query_type(query) {
        Some(signal) => signal,
        None => {
            return false;
        },
    };
    match json::read_json(body) {
        Some(value) => search_allowed(signal.as_str(), &value, policy),
        None => false,
    }
}

// ---------------------------------------------------------------------------------------------
// Dashboards
// ---------------------------------------------------------------------------------------------

/// The policy has a dashboard of that title.
pub open spec fn title_governed(policy: AutomationPolicy, title: Seq<char>) -> bool {
    exists|i: int|
        0 <= i < policy.dashboards@.len() && (#[trigger] policy.dashboards@[i]).title@ == title
}

/// The policy has a dashboard of that title and with that digest.
pub open spec fn definition_governed(
    policy: AutomationPolicy,
    title: Seq<char>,
    digest: Seq<char>,
) -> bool {
    exists|i: int|
        0 <= i < policy.dashboards@.len() && (#[trigger] policy.dashboards@[i]).title@ == title
            && policy.dashboards@[i].body_sha256@ == digest
}

/// A dashboard request reads without a body, or writes a definition that the policy has by its
/// title and by the digest of the body, byte for byte.
pub open spec fn dashboard_request_ok(
    query: Option<Seq<char>>,
    method: Method,
    body: Seq<u8>,
    policy: AutomationPolicy,
) -> bool {
    &&& dashboard_query_ok(query, method)
    &&& match method {
        Method::Get => body.len() == 0,
        Method::Post | Method::Put => json::json_document(body) matches Some(value)
            && value.text_field("title"@) matches Some(title) && definition_governed(
            policy,
            title,
            digest::hex_text(digest::sha256(body)),
        ),
        _ => false,
    }
}

/// The title of a dashboard: its own, or else the one of its `v5` form; `None` where that is no
/// text.
pub open spec fn dashboard_title(value: JsonView) -> Option<Seq<char>> {
    match value.get("title"@) {
        Some(title) => title.as_text(),
        None => match value.get("v5"@) {
            Some(dashboard) => dashboard.text_field("title"@),
            None => None,
        },
    }
}

/// The value is a dashboard that the policy has by its title.
pub open spec fn governed(value: JsonView, policy: AutomationPolicy) -> bool {
    dashboard_title(value) matches Some(title) && title_governed(policy, title)
}

/// The items that are governed dashboards, in order.
pub open spec fn governed_items(items: Seq<JsonView>, policy: AutomationPolicy) -> Seq<JsonView>
    decreases items.len(),
{
    if items.len() == 0 {
        Seq::empty()
    } else if governed(items.last(), policy) {
        governed_items(items.drop_last(), policy).push(items.last())
    } else {
        governed_items(items.drop_last(), policy)
    }
}

/// What is shown of a dashboard that was read, or of a list of them: a governed dashboard as it
/// is, and a list with its governed dashboards alone. `None` where nothing is shown.
pub open spec fn shown(value: JsonView, list: bool, policy: AutomationPolicy) -> Option<JsonView> {
    if !list {
        if governed(value, policy) {
            Some(value)
        } else {
            None
        }
    } else {
        match value {
            JsonView::Object(fields) => match json::field_position(fields, "dashboards"@) {
                Some(i) => match fields[i].1 {
                    JsonView::Array(items) => Some(
                        JsonView::Object(
                            fields.update(
                                i,
                                (fields[i].0, JsonView::Array(governed_items(items, policy))),
                            ),
                        ),
                    ),
                    _ => None,
                },
                None => None,
            },
            _ => None,
        }
    }
}

/// The body that is shown in place of one that was read; `None` where nothing is shown.
pub open spec fn shown_body(body: Option<Seq<u8>>, list: bool, policy: AutomationPolicy) -> Option<
    Seq<char>,
> {
    match body {
        Some(data) => match json::json_document(data) {
            Some(value) => match shown(value, list, policy) {
                Some(kept) => json::json_text(kept),
                None => None,
            },
            None => None,
        },
        None => None,
    }
}

/// What is taken out of a list leaves the rest as it was.
proof fn lemma_governed_items(items: Seq<JsonView>, policy: AutomationPolicy, i: int)
    requires
        0 <= i < governed_items(items, policy).len(),
    ensures
        items.contains(governed_items(items, policy)[i]),
        governed(governed_items(items, policy)[i], policy),
    decreases items.len(),
{
    let rest = governed_items(items.drop_last(), policy);
    if i < rest.len() {
        lemma_governed_items(items.drop_last(), policy, i);
        let j = choose|j: int| 0 <= j < items.len() - 1 && items.drop_last()[j] == rest[i];
        assert(items[j] == rest[i]);
    } else {
        assert(items.last() == items[items.len() - 1]);
    }
}

/// What is shown of a value that can be written can be written.
proof fn lemma_shown_is_writable(value: JsonView, list: bool, policy: AutomationPolicy)
    requires
        json::writable(value),
        shown(value, list, policy) is Some,
    ensures
        json::writable(shown(value, list, policy).unwrap()),
{
    if list {
        let fields = value->Object_0;
        let i = json::field_position(fields, "dashboards"@).unwrap();
        let items = fields[i].1->Array_0;
        json::lemma_field_position(fields, "dashboards"@);
        assert(json::writable(fields[i].1));
        let kept = JsonView::Array(governed_items(items, policy));
        assert forall|k: int| 0 <= k < governed_items(items, policy).len() implies json::writable(
            governed_items(items, policy)[k],
        ) by {
            lemma_governed_items(items, policy, k);
        }
        assert(json::writable(kept));
        let after = fields.update(i, (fields[i].0, kept));
        assert forall|k: int| 0 <= k < after.len() implies json::writable(
            (#[trigger] after[k]).1,
        ) by {
            if k != i {
                assert(json::writable(fields[k].1));
            }
        }
    }
}

/// Whether the policy has a dashboard of that title and with that digest.
fn is_definition_governed(policy: &AutomationPolicy, title: &str, digest: &str) -> (is: bool)
    ensures
        is == definition_governed(*policy, title@, digest@),
{
    let mut i: usize = 0;
    while i < policy.dashboards.len()
        invariant
            i <= policy.dashboards.len(),
            forall|j: int|
                0 <= j < i ==> !((#[trigger] policy.dashboards@[j]).title@ == title@
                    && policy.dashboards@[j].body_sha256@ == digest@),
        decreases policy.dashboards.len() - i,
    {
        let dashboard: &DashboardDefinition = &policy.dashboards[i];
        if text::same_text(dashboard.title.as_str(), title) && text::same_text(
            dashboard.body_sha256.as_str(),
            digest,
        ) {
            assert(policy.dashboards@[i as int].title@ == title@);
            return true;
        }
        i = i + 1;
    }
    false
}

/// Whether a request of the dashboard identity is in order.
pub fn validate_dashboard_request(
    query: Option<&str>,
    method: Method,
    body: &[u8],
    policy: &AutomationPolicy,
) -> (valid: bool)
    ensures
        valid == dashboard_request_ok(text::str_view(query), method, body@, *policy),
{
    if !dashboard_query_allowed(query, method) {
        return false;
    }
    if method == Method::Get {
        return body.len() == 0;
    }
    if method != Method::Post && method != Method::Put {
        return false;
    }
    let value: Json = match json::read_json(body) {
        Some(value) => value,
        None => {
            return false;
        },
    };
    match value.text_field("title") {
        Some(title) => is_definition_governed(policy, title, digest::digest_hex(body).as_str()),
        None => false,
    }
}

/// Whether a value is a dashboard that the policy has by its title.
pub fn governed_dashboard_title(value: &Json, policy: &AutomationPolicy) -> (is: bool)
    ensures
        is == governed(value@, *policy),
{
    let title: Option<&str> = match value.get("title") {
        Some(title) => title.as_text(),
        None => match value.get("v5") {
            Some(dashboard) => dashboard.text_field("title"),
            None => None,
        },
    };
    let title: &str = match title {
        Some(title) => title,
        None => {
            return false;
        },
    };
    let mut i: usize = 0;
    while i < policy.dashboards.len()
        invariant
            i <= policy.dashboards.len(),
            dashboard_title(value@) == Some(title@),
            forall|j: int| 0 <= j < i ==> (#[trigger] policy.dashboards@[j]).title@ != title@,
        decreases policy.dashboards.len() - i,
    {
        if text::same_text(policy.dashboards[i].title.as_str(), title) {
            assert(policy.dashboards@[i as int].title@ == title@);
            return true;
        }
        i = i + 1;
    }
    false
}

/// Takes out of a list what is no governed dashboard.
fn keep_governed(items: &mut Vec<Json>, policy: &AutomationPolicy)
    ensures
        json::item_views(final(items)@) == governed_items(json::item_views(old(items)@), *policy),
{
    let ghost all: Seq<JsonView> = json::item_views(items@);
    let ghost mut seen: int = 0;
    let mut i: usize = 0;
    proof {
        assert(governed_items(all.take(0), *policy) + all.skip(0) =~= all);
    }
    while i < items.len()
        invariant
            i <= items.len(),
            0 <= seen <= all.len(),
            governed_items(all.take(seen), *policy).len() == i,
            items@.len() - i == all.len() - seen,
            json::item_views(items@) == governed_items(all.take(seen), *policy) + all.skip(seen),
        decreases items.len() - i,
    {
        let ghost kept: Seq<JsonView> = governed_items(all.take(seen), *policy);
        let ghost before: Seq<JsonView> = json::item_views(items@);
        proof {
            assert(before[i as int] == all.skip(seen)[0]);
            assert(items@[i as int]@ == all[seen]);
            assert(all.take(seen + 1).drop_last() =~= all.take(seen));
        }
        if governed_dashboard_title(&items[i], policy) {
            proof {
                assert(kept + all.skip(seen) =~= kept.push(all[seen]) + all.skip(seen + 1));
            }
            i = i + 1;
        } else {
            items.remove(i);
            proof {
                assert(json::item_views(items@) =~= before.remove(i as int));
                assert(before.remove(i as int) =~= kept + all.skip(seen + 1));
            }
        }
        proof {
            seen = seen + 1;
        }
    }
    proof {
        assert(all.take(all.len() as int) =~= all);
        assert(json::item_views(items@) =~= governed_items(all, *policy));
    }
}

/// What is shown of a dashboard that was read, or of a list of them.
pub fn filter_dashboard_value(value: Json, list: bool, policy: &AutomationPolicy) -> (kept: Option<
    Json,
>)
    ensures
        json::optional_view(kept) == shown(value@, list, *policy),
{
    if !list {
        return if governed_dashboard_title(&value, policy) {
            Some(value)
        } else {
            None
        };
    }
    let mut fields: Vec<(String, Json)> = match value {
        Json::Object(fields) => fields,
        _ => {
            return None;
        },
    };
    let ghost views: Seq<(Seq<char>, JsonView)> = json::field_views(fields@);
    proof {
        json::lemma_object_view(fields);
    }
    let i: usize = match json::position_of_field(&fields, "dashboards") {
        Some(i) => i,
        None => {
            return None;
        },
    };
    let (name, dashboards): (String, Json) = fields.remove(i);
    let mut items: Vec<Json> = match dashboards {
        Json::Array(items) => items,
        _ => {
            return None;
        },
    };
    proof {
        json::lemma_array_view(items);
        assert(views[i as int] == (name@, JsonView::Array(json::item_views(items@))));
    }
    keep_governed(&mut items, policy);
    proof {
        json::lemma_array_view(items);
    }
    fields.insert(i, (name, Json::Array(items)));
    proof {
        json::lemma_object_view(fields);
        assert(json::field_views(fields@) =~= views.update(
            i as int,
            (name@, JsonView::Array(json::item_views(items@))),
        ));
    }
    Some(Json::Object(fields))
}

/// The body that is shown in place of one that was read; `None` where nothing is shown. `body` is
/// `None` where it was too large or could not be read.
pub fn filter_dashboard_body(body: Option<&[u8]>, list: bool, policy: &AutomationPolicy) -> (kept: Option<
    String,
>)
    ensures
        text::text_view(kept) == shown_body(
            match body {
                Some(data) => Some(data@),
                None => None,
            },
            list,
            *policy,
        ),
        kept is Some <==> (body matches Some(data) && json::json_document(data@) matches Some(value)
            && shown(value, list, *policy) is Some),
{
    let data: &[u8] = match body {
        Some(data) => data,
        None => {
            return None;
        },
    };
    let value: Json = match json::read_json(data) {
        Some(value) => value,
        None => {
            return None;
        },
    };
    proof {
        if shown(value@, list, *policy) is Some {
            lemma_shown_is_writable(value@, list, *policy);
        }
    }
    match filter_dashboard_value(value, list, policy) {
        Some(kept) => json::write_json(&kept),
        None => None,
    }
}

// ---------------------------------------------------------------------------------------------
// The course of a request
// ---------------------------------------------------------------------------------------------

/// Whose requests are looked into.
#[derive(Clone, Copy, Debug, PartialEq, Eq, Structural)]
pub enum Subject {
    Query,
    Dashboard,
}

/// A request with its body.
#[derive(Debug)]
pub struct ScopedRequest {
    pub method: Method,
    pub path: String,
    pub query: Option<String>,
    pub body: Vec<u8>,
}

/// How far a request has come.
#[derive(Debug)]
pub enum ScopedState {
    /// Nothing is known of the request.
    Arrived,
    /// The policy is being loaded.
    LoadingPolicy { subject: Subject },
    /// The body is being read.
    ReadingRequest { subject: Subject, policy: AutomationPolicy },
    /// The request was handed on. `filter` says whether the response is shown as a list or as one
    /// dashboard; `None` where it is shown as it is.
    AwaitingResponse { filter: Option<bool>, policy: AutomationPolicy },
    /// The body of the response is being read.
    ReadingResponse { list: bool, policy: AutomationPolicy },
    /// The request was answered.
    Answered,
}

/// What comes of an action.
#[derive(Debug)]
pub enum ScopedEvent {
    /// The identity that the request was let in as; empty where there is none.
    Identity(String),
    /// The policy that is in force.
    Policy(Result<AutomationPolicy, String>),
    /// The request with its body; `None` where that was too large or could not be read.
    Request(Option<ScopedRequest>),
    /// The status of the response.
    Response(u16),
    /// The body of the response; `None` where it was too large or could not be read.
    ResponseBody(Option<Vec<u8>>),
}

/// What is to be done next.
#[derive(Debug)]
pub enum ScopedAction {
    /// Hand the request on unread, and answer with the response as it is.
    PassThrough,
    /// Load the policy.
    LoadPolicy,
    /// Read the body of the request, up to that many bytes.
    ReadRequest { limit: usize },
    /// Answer that the request is not permitted, as [`forbidden`] says.
    Refuse,
    /// Hand the request on with the body that was read.
    Forward { request: ScopedRequest },
    /// Answer with the response as it is.
    ReturnResponse,
    /// Read the body of the response, up to that many bytes.
    ReadResponse { limit: usize },
    /// Answer with the response, but with that body in place of its own.
    ReplaceBody { body: String },
}

/// The identities whose requests are looked into.
pub open spec fn subject_of(identity: Seq<char>) -> Option<Subject> {
    if identity == QUERY_IDENTITY@ {
        Some(Subject::Query)
    } else if identity == DASHBOARD_IDENTITY@ {
        Some(Subject::Dashboard)
    } else {
        None
    }
}

/// The largest body that a subject may send.
pub open spec fn body_limit(subject: Subject) -> usize {
    match subject {
        Subject::Query => MAX_QUERY_BODY,
        Subject::Dashboard => MAX_DASHBOARD_BODY,
    }
}

/// The request of a subject is in order.
pub open spec fn request_ok(
    subject: Subject,
    request: ScopedRequest,
    policy: AutomationPolicy,
) -> bool {
    match subject {
        Subject::Query => query_request_ok(
            text::text_view(request.query),
            request.method,
            request.body@,
            policy,
        ),
        Subject::Dashboard => dashboard_request_ok(
            text::text_view(request.query),
            request.method,
            request.body@,
            policy,
        ),
    }
}

/// How the response to a request is shown: what a dashboard read gets is filtered, as a list where
/// the path is the one of the list.
pub open spec fn response_filter(subject: Subject, request: ScopedRequest) -> Option<bool> {
    if subject is Dashboard && request.method is Get {
        Some("/dashboards"@.is_suffix_of(request.path@))
    } else {
        None
    }
}

/// The statuses of success.
pub open spec fn success(status: u16) -> bool {
    200 <= status < 300
}

/// One step in the course of a request. What does not belong to the state is refused.
pub open spec fn scoped_step(
    before: ScopedState,
    event: ScopedEvent,
    after: ScopedState,
    action: ScopedAction,
) -> bool {
    match (before, event) {
        (ScopedState::Arrived, ScopedEvent::Identity(identity)) => match subject_of(identity@) {
            None => after is Answered && action is PassThrough,
            Some(subject) => after == (ScopedState::LoadingPolicy { subject })
                && action is LoadPolicy,
        },
        (
            ScopedState::LoadingPolicy { subject },
            ScopedEvent::Policy(Ok(policy)),
        ) => after == (ScopedState::ReadingRequest { subject, policy }) && action == (
        ScopedAction::ReadRequest { limit: body_limit(subject) }),
        (
            ScopedState::ReadingRequest { subject, policy },
            ScopedEvent::Request(Some(request)),
        ) => if request_ok(subject, request, policy) {
            after == (ScopedState::AwaitingResponse {
                filter: response_filter(subject, request),
                policy,
            }) && action == (ScopedAction::Forward { request })
        } else {
            after is Answered && action is Refuse
        },
        (
            ScopedState::AwaitingResponse { filter: Some(list), policy },
            ScopedEvent::Response(status),
        ) => if success(status) {
            after == (ScopedState::ReadingResponse { list, policy }) && action == (
            ScopedAction::ReadResponse { limit: MAX_DASHBOARD_BODY })
        } else {
            after is Answered && action is ReturnResponse
        },
        (
            ScopedState::AwaitingResponse { filter: None, .. },
            ScopedEvent::Response(_),
        ) => after is Answered && action is ReturnResponse,
        (
            ScopedState::ReadingResponse { list, policy },
            ScopedEvent::ResponseBody(Some(body)),
        ) => match shown_body(Some(body@), list, policy) {
            Some(kept) => after is Answered && (action matches ScopedAction::ReplaceBody { body }
                && body@ == kept),
            None => after is Answered && action is Refuse,
        },
        _ => after is Answered && action is Refuse,
    }
}

/// The answer to a request that is refused.
pub fn forbidden() -> (answer: Reply)
    ensures
        answer@ == (ReplyView {
            status: 403,
            headers: seq![("content-type"@, "text/plain; charset=utf-8"@)],
            body: "Scoped automation request is not permitted"@,
        }),
{
    let mut headers: Vec<(String, String)> = Vec::new();
    headers.push(("content-type".to_owned(), "text/plain; charset=utf-8".to_owned()));
    let body: String = "Scoped automation request is not permitted".to_owned();
    let answer: Reply = Reply { status: 403, headers, body };
    assert(answer@.headers =~= seq![("content-type"@, "text/plain; charset=utf-8"@)]);
    answer
}

fn judge_request(subject: Subject, request: &ScopedRequest, policy: &AutomationPolicy) -> (ok: bool)
    ensures
        ok == request_ok(subject, *request, *policy),
        subject is Query && policy::templates_safe(policy.query_templates@) ==> ok
            == query_request_fills(
            text::text_view(request.query),
            request.method,
            request.body@,
            *policy,
        ),
{
    match subject {
        Subject::Query => validate_query_request(
            text::as_text(&request.query),
            request.method,
            request.body.as_slice(),
            policy,
        ),
        Subject::Dashboard => validate_dashboard_request(
            text::as_text(&request.query),
            request.method,
            request.body.as_slice(),
            policy,
        ),
    }
}

/// Takes a request one step on: from what came of the last action to the next one. A request of
/// the query or the dashboard identity is handed on only where it is in order, and what the
/// dashboard identity reads is shown only as far as it is governed.
pub fn scoped_automation_middleware(state: ScopedState, event: ScopedEvent) -> (next: (
    ScopedState,
    ScopedAction,
))
    ensures
        scoped_step(state, event, next.0, next.1),
        // Where the templates of the policy are safe, a query is handed on exactly where it fills
        // one of them.
        match (state, event) {
            (
                ScopedState::ReadingRequest { subject: Subject::Query, policy },
                ScopedEvent::Request(Some(request)),
            ) => policy::templates_safe(policy.query_templates@) ==> (next.1 is Forward
                <==> query_request_fills(
                text::text_view(request.query),
                request.method,
                request.body@,
                policy,
            )),
            _ => true,
        },
        // One dashboard that was read is shown as it was exactly where its title is governed, and a
        // list exactly where there is one.
        match (state, event) {
            (
                ScopedState::ReadingResponse { list, policy },
                ScopedEvent::ResponseBody(Some(read)),
            ) => match json::json_document(read@) {
                Some(value) => if list {
                    next.1 is ReplaceBody <==> (value.get("dashboards"@) matches Some(
                        JsonView::Array(_),
                    ))
                } else if governed(value, policy) {
                    next.1 matches ScopedAction::ReplaceBody { body } && json::json_text(value)
                        == Some(body@)
                } else {
                    next.1 is Refuse
                },
                None => next.1 is Refuse,
            },
            _ => true,
        },
{
    match (state, event) {
        (ScopedState::Arrived, ScopedEvent::Identity(identity)) => {
            if text::same_text(identity.as_str(), QUERY_IDENTITY) {
                (ScopedState::LoadingPolicy { subject: Subject::Query }, ScopedAction::LoadPolicy)
            } else if text::same_text(identity.as_str(), DASHBOARD_IDENTITY) {
                (
                    ScopedState::LoadingPolicy { subject: Subject::Dashboard },
                    ScopedAction::LoadPolicy,
                )
            } else {
                (ScopedState::Answered, ScopedAction::PassThrough)
            }
        },
        (ScopedState::LoadingPolicy { subject }, ScopedEvent::Policy(Ok(policy))) => {
            let limit: usize = match subject {
                Subject::Query => MAX_QUERY_BODY,
                Subject::Dashboard => MAX_DASHBOARD_BODY,
            };
            (ScopedState::ReadingRequest { subject, policy }, ScopedAction::ReadRequest { limit })
        },
        (
            ScopedState::ReadingRequest { subject, policy },
            ScopedEvent::Request(Some(request)),
        ) => {
            if judge_request(subject, &request, &policy) {
                let filter: Option<bool> = if subject == Subject::Dashboard && request.method
                    == Method::Get {
                    Some(text::has_suffix(request.path.as_str(), "/dashboards"))
                } else {
                    None
                };
                (ScopedState::AwaitingResponse { filter, policy }, ScopedAction::Forward { request })
            } else {
                (ScopedState::Answered, ScopedAction::Refuse)
            }
        },
        (ScopedState::AwaitingResponse { filter, policy }, ScopedEvent::Response(status)) => {
            match filter {
                Some(list) => {
                    if 200 <= status && status < 300 {
                        (
                            ScopedState::ReadingResponse { list, policy },
                            ScopedAction::ReadResponse { limit: MAX_DASHBOARD_BODY },
                        )
                    } else {
                        (ScopedState::Answered, ScopedAction::ReturnResponse)
                    }
                },
                None => (ScopedState::Answered, ScopedAction::ReturnResponse),
            }
        },
        (
            ScopedState::ReadingResponse { list, policy },
            ScopedEvent::ResponseBody(Some(body)),
        ) => {
            match filter_dashboard_body(Some(body.as_slice()), list, &policy) {
                Some(kept) => (ScopedState::Answered, ScopedAction::ReplaceBody { body: kept }),
                None => (ScopedState::Answered, ScopedAction::Refuse),
            }
        },
        _ => (ScopedState::Answered, ScopedAction::Refuse),
    }
}

// ---------------------------------------------------------------------------------------------
// Laws
// ---------------------------------------------------------------------------------------------

/// Under a policy that is in force, a search that is in order only counts: it is one statement on
/// one of the three signals that starts with `SELECT ` and counts, and it asks for at most 100
/// results of at most a day.
pub proof fn searches_only_count(
    signal: Seq<char>,
    body: JsonView,
    policy: AutomationPolicy,
    org: Seq<char>,
)
    requires
        policy::policy_fault(policy, org) is None,
        search_bounded(body, policy),
        fills_template(signal, body, policy),
    ensures
        policy::known_signal(signal),
        searched(body) matches Some(sql) && "SELECT "@.is_prefix_of(sql) && text::contains_text(
            sql,
            "count("@,
        ) && !sql.contains(';'),
        body.get("query"@) matches Some(query) && (query.unsigned_field("size"@) matches Some(size)
            && size <= 100) && (query.signed_field("start_time"@) matches Some(start) && (
        query.signed_field("end_time"@) matches Some(end) && 0 < end - start <= 86_400_000_000)),
{
    let sql = searched(body).unwrap();
    let i = choose|i: int|
        0 <= i < policy.query_templates@.len() && (
        #[trigger] policy.query_templates@[i]).signal@ == signal && template::instance_of(
            policy.query_templates@[i].sql@,
            sql,
        );
    let query = policy.query_templates@[i];
    assert(policy::template_safe(query));
    reveal_strlit("SELECT ");
    reveal_strlit("count(");
    template::instances_start_as_their_template(query.sql@, sql, "SELECT "@);
    assert(!('a' <= "count("@[5] <= 'z'));
    template::what_stands_in_a_template_stands_in_its_instances(query.sql@, sql, "count("@);
    if sql.contains(';') {
        template::instances_have_no_other_characters(query.sql@, sql, ';');
    }
}

/// A list that is shown has the governed dashboards of the list that was read and no others, and
/// everything beside the list is as it was.
pub proof fn lists_show_governed_dashboards_alone(
    fields: Seq<(Seq<char>, JsonView)>,
    items: Seq<JsonView>,
    policy: AutomationPolicy,
)
    requires
        JsonView::Object(fields).get("dashboards"@) == Some(JsonView::Array(items)),
    ensures
        shown(JsonView::Object(fields), true, policy) matches Some(JsonView::Object(after)) && {
            &&& after.len() == fields.len()
            &&& JsonView::Object(after).get("dashboards"@) == Some(
                JsonView::Array(governed_items(items, policy)),
            )
            &&& forall|k: int|
                0 <= k < fields.len() && k != json::field_position(fields, "dashboards"@).unwrap()
                    ==> #[trigger] after[k] == fields[k]
        },
        forall|d: JsonView|
            #[trigger] governed_items(items, policy).contains(d) <==> items.contains(d)
                && governed(d, policy),
{
    let name = "dashboards"@;
    let i = json::field_position(fields, name).unwrap();
    json::lemma_field_position(fields, name);
    let after = fields.update(i, (fields[i].0, JsonView::Array(governed_items(items, policy))));
    lemma_same_positions(fields, after, name, 0);
    assert forall|d: JsonView| #[trigger] governed_items(items, policy).contains(d) implies
        items.contains(d) && governed(d, policy) by {
        let k = choose|k: int|
            0 <= k < governed_items(items, policy).len() && governed_items(items, policy)[k] == d;
        lemma_governed_items(items, policy, k);
    }
    assert forall|d: JsonView| items.contains(d) && governed(d, policy) implies
        #[trigger] governed_items(items, policy).contains(d) by {
        lemma_governed_stay(items, policy, d);
    }
}

proof fn lemma_same_positions(
    a: Seq<(Seq<char>, JsonView)>,
    b: Seq<(Seq<char>, JsonView)>,
    name: Seq<char>,
    from: int,
)
    requires
        a.len() == b.len(),
        forall|k: int| 0 <= k < a.len() ==> a[k].0 == b[k].0,
    ensures
        json::field_position_from(a, name, from) == json::field_position_from(b, name, from),
    decreases a.len() - from,
{
    if 0 <= from < a.len() && a[from].0 != name {
        lemma_same_positions(a, b, name, from + 1);
    }
}

proof fn lemma_governed_stay(items: Seq<JsonView>, policy: AutomationPolicy, d: JsonView)
    requires
        items.contains(d),
        governed(d, policy),
    ensures
        governed_items(items, policy).contains(d),
    decreases items.len(),
{
    let rest = governed_items(items.drop_last(), policy);
    let k = choose|k: int| 0 <= k < items.len() && items[k] == d;
    if k < items.len() - 1 {
        assert(items.drop_last()[k] == d);
        lemma_governed_stay(items.drop_last(), policy, d);
        let j = choose|j: int| 0 <= j < rest.len() && rest[j] == d;
        assert(governed_items(items, policy)[j] == d);
    } else {
        assert(governed_items(items, policy)[rest.len() as int] == d);
    }
}

/// What was shown once is shown again as it is.
pub proof fn showing_twice_is_showing_once(value: JsonView, list: bool, policy: AutomationPolicy)
    requires
        shown(value, list, policy) is Some,
    ensures
        shown(shown(value, list, policy).unwrap(), list, policy) == shown(value, list, policy),
{
    if list {
        let fields = value->Object_0;
        let name = "dashboards"@;
        let i = json::field_position(fields, name).unwrap();
        let items = fields[i].1->Array_0;
        json::lemma_field_position(fields, name);
        let kept = governed_items(items, policy);
        let after = fields.update(i, (fields[i].0, JsonView::Array(kept)));
        lemma_same_positions(fields, after, name, 0);
        lemma_governed_items_fixed(items, policy);
        assert(after.update(i, (after[i].0, JsonView::Array(governed_items(kept, policy))))
            =~= after);
    }
}

proof fn lemma_governed_items_fixed(items: Seq<JsonView>, policy: AutomationPolicy)
    ensures
        governed_items(governed_items(items, policy), policy) == governed_items(items, policy),
    decreases items.len(),
{
    if items.len() > 0 {
        let rest = governed_items(items.drop_last(), policy);
        lemma_governed_items_fixed(items.drop_last(), policy);
        if governed(items.last(), policy) {
            assert(rest.push(items.last()).drop_last() =~= rest);
        }
    }
}

/// A dashboard is written only as the policy has it: with a title of the policy and with a body
/// of the digest that goes with that title.
pub proof fn dashboards_are_written_as_governed(
    query: Option<Seq<char>>,
    method: Method,
    body: Seq<u8>,
    policy: AutomationPolicy,
)
    requires
        dashboard_request_ok(query, method, body, policy),
        method is Post || method is Put,
    ensures
        exists|i: int|
            0 <= i < policy.dashboards@.len() && (
            #[trigger] policy.dashboards@[i]).body_sha256@ == digest::hex_text(digest::sha256(body))
                && (json::json_document(body) matches Some(value) && value.text_field("title"@)
                == Some(policy.dashboards@[i].title@)),
{
}

/// A request of the query or the dashboard identity is handed on in one way only: with the policy
/// loaded, with its body read, and in order by that policy. It is never passed through.
pub proof fn only_requests_in_order_are_handed_on(
    before: ScopedState,
    event: ScopedEvent,
    after: ScopedState,
    action: ScopedAction,
)
    requires
        scoped_step(before, event, after, action),
    ensures
        action matches ScopedAction::Forward { request } ==> before matches ScopedState::ReadingRequest {
            subject,
            policy,
        } && request_ok(subject, request, policy),
        action is PassThrough ==> before is Arrived && (event matches ScopedEvent::Identity(identity)
            && identity@ != QUERY_IDENTITY@ && identity@ != DASHBOARD_IDENTITY@),
{
}

/// What the dashboard identity reads with success is answered with what is shown of it or with a
/// refusal, never as it is.
pub proof fn dashboard_reads_are_always_filtered(
    list: bool,
    policy: AutomationPolicy,
    event: ScopedEvent,
    after: ScopedState,
    action: ScopedAction,
)
    requires
        scoped_step(
            ScopedState::AwaitingResponse { filter: Some(list), policy },
            event,
            after,
            action,
        ) || scoped_step(ScopedState::ReadingResponse { list, policy }, event, after, action),
        event matches ScopedEvent::Response(status) ==> success(status),
    ensures
        action is ReadResponse || action is Refuse || action is ReplaceBody,
        action matches ScopedAction::ReplaceBody { body } ==> event matches ScopedEvent::ResponseBody(
            Some(read),
        ) && shown_body(Some(read@), list, policy) == Some(body@),
{
}

// ---------------------------------------------------------------------------------------------
// Laws on searches
// ---------------------------------------------------------------------------------------------

/// The search is within its bounds, and its query is a template of the policy for the signal with
/// its slots filled.
pub open spec fn search_fills(signal: Seq<char>, body: JsonView, policy: AutomationPolicy) -> bool {
    search_bounded(body, policy) && fills_template(signal, body, policy)
}

/// The object with another value in the field of that name.
pub open spec fn with_field(value: JsonView, name: Seq<char>, new: JsonView) -> JsonView {
    match value {
        JsonView::Object(fields) => match json::field_position(fields, name) {
            Some(i) => JsonView::Object(fields.update(i, (fields[i].0, new))),
            None => value,
        },
        _ => value,
    }
}

/// The search with another value in a field of its query.
pub open spec fn with_query_field(body: JsonView, name: Seq<char>, new: JsonView) -> JsonView {
    match body.get("query"@) {
        Some(query) => with_field(body, "query"@, with_field(query, name, new)),
        None => body,
    }
}

/// A number as JSON has it.
pub open spec fn number(n: i64) -> JsonView {
    if n < 0 {
        JsonView::Negative(n)
    } else {
        JsonView::Unsigned(n as u64)
    }
}

/// The search with another start and another end.
pub open spec fn at_times(body: JsonView, start: i64, end: i64) -> JsonView {
    with_query_field(with_query_field(body, "start_time"@, number(start)), "end_time"@, number(end))
}

proof fn lemma_with_field(value: JsonView, name: Seq<char>, new: JsonView)
    requires
        value.get(name) is Some,
    ensures
        with_field(value, name, new).get(name) == Some(new),
        forall|other: Seq<char>|
            other != name ==> #[trigger] with_field(value, name, new).get(other) == value.get(
                other,
            ),
        forall|allowed: Seq<Seq<char>>|
            #[trigger] keys_within(with_field(value, name, new), allowed) <==> keys_within(
                value,
                allowed,
            ),
{
    let fields = value->Object_0;
    let i = json::field_position(fields, name).unwrap();
    json::lemma_field_position(fields, name);
    let after = fields.update(i, (fields[i].0, new));
    lemma_same_positions(fields, after, name, 0);
    assert forall|other: Seq<char>| other != name implies #[trigger] with_field(
        value,
        name,
        new,
    ).get(other) == value.get(other) by {
        lemma_same_positions(fields, after, other, 0);
        json::lemma_field_position(fields, other);
    }
    assert forall|allowed: Seq<Seq<char>>| #[trigger]
        keys_within(with_field(value, name, new), allowed) <==> keys_within(value, allowed) by {
        if keys_within(value, allowed) {
            assert forall|k: int| 0 <= k < after.len() implies allowed.contains(
                (#[trigger] after[k]).0,
            ) by {
                assert(allowed.contains(fields[k].0));
            }
        }
        if keys_within(JsonView::Object(after), allowed) {
            assert forall|k: int| 0 <= k < fields.len() implies allowed.contains(
                (#[trigger] fields[k]).0,
            ) by {
                assert(allowed.contains(after[k].0));
            }
        }
    }
}

proof fn lemma_search_names()
    ensures
        "query"@ != "search_type"@ && "query"@ != "timeout"@ && "search_type"@ != "timeout"@,
        "sql"@ != "start_time"@ && "sql"@ != "end_time"@ && "sql"@ != "from"@ && "sql"@ != "size"@,
        "start_time"@ != "end_time"@ && "start_time"@ != "from"@ && "start_time"@ != "size"@,
        "end_time"@ != "from"@ && "end_time"@ != "size"@ && "from"@ != "size"@,
{
    reveal_strlit("query");
    reveal_strlit("search_type");
    reveal_strlit("timeout");
    reveal_strlit("sql");
    reveal_strlit("start_time");
    reveal_strlit("end_time");
    reveal_strlit("from");
    reveal_strlit("size");
    assert("query"@.len() == 5 && "search_type"@.len() == 11 && "timeout"@.len() == 7);
    assert("sql"@.len() == 3 && "start_time"@.len() == 10 && "end_time"@.len() == 8);
    assert("from"@[0] == 'f' && "size"@[0] == 's' && "from"@.len() == 4 && "size"@.len() == 4);
}

/// A search that is in order stays so at any other times exactly where the start is positive, the
/// end comes after it, and the time between them is no longer than the policy allows. How late the
/// two are makes no difference.
pub proof fn a_search_is_free_in_its_times(
    signal: Seq<char>,
    body: JsonView,
    policy: AutomationPolicy,
    start: i64,
    end: i64,
)
    ensures
        search_ok(signal, body, policy) ==> (search_ok(signal, at_times(body, start, end), policy)
            <==> 0 < start && start < end && end - start <= policy.max_time_range_micros),
        search_fills(signal, body, policy) ==> (search_fills(
            signal,
            at_times(body, start, end),
            policy,
        ) <==> 0 < start && start < end && end - start <= policy.max_time_range_micros),
{
    if search_bounded(body, policy) {
        lemma_at_times(body, start, end);
    }
}

proof fn lemma_at_times(body: JsonView, start: i64, end: i64)
    requires
        body.get("query"@) matches Some(query) && query.get("start_time"@) is Some && query.get(
            "end_time"@,
        ) is Some,
    ensures
        at_times(body, start, end).get("query"@) matches Some(query) && query.get("start_time"@)
            == Some(number(start)) && query.get("end_time"@) == Some(number(end))
            && query.signed_field("start_time"@) == Some(start) && query.signed_field("end_time"@)
            == Some(end) && query.get("from"@) == body.get("query"@).unwrap().get("from"@)
            && query.get("size"@) == body.get("query"@).unwrap().get("size"@) && query.get("sql"@)
            == body.get("query"@).unwrap().get("sql"@) && (forall|allowed: Seq<Seq<char>>| #[trigger]
            keys_within(query, allowed) <==> keys_within(body.get("query"@).unwrap(), allowed)),
        at_times(body, start, end).get("search_type"@) == body.get("search_type"@),
        at_times(body, start, end).get("timeout"@) == body.get("timeout"@),
        forall|allowed: Seq<Seq<char>>| #[trigger]
            keys_within(at_times(body, start, end), allowed) <==> keys_within(body, allowed),
{
    lemma_search_names();
    let query = body.get("query"@).unwrap();
    lemma_with_field(query, "start_time"@, number(start));
    let started = with_field(query, "start_time"@, number(start));
    lemma_with_field(body, "query"@, started);
    let first = with_query_field(body, "start_time"@, number(start));
    assert(first == with_field(body, "query"@, started));
    assert(first.get("query"@) == Some(started));
    lemma_with_field(started, "end_time"@, number(end));
    let ended = with_field(started, "end_time"@, number(end));
    lemma_with_field(first, "query"@, ended);
    let last = at_times(body, start, end);
    assert(last == with_field(first, "query"@, ended));
    assert(ended.get("start_time"@) == started.get("start_time"@));
    assert forall|allowed: Seq<Seq<char>>| #[trigger] keys_within(ended, allowed) <==> keys_within(
        query,
        allowed,
    ) by {
        assert(keys_within(started, allowed) <==> keys_within(query, allowed));
    }
    assert forall|allowed: Seq<Seq<char>>| #[trigger] keys_within(last, allowed) <==> keys_within(
        body,
        allowed,
    ) by {
        assert(keys_within(first, allowed) <==> keys_within(body, allowed));
    }
    assert(last.get("search_type"@) == first.get("search_type"@));
    assert(last.get("timeout"@) == first.get("timeout"@));
    assert(ended.get("from"@) == started.get("from"@));
    assert(ended.get("size"@) == started.get("size"@));
    assert(ended.get("sql"@) == started.get("sql"@));
}

/// Moving a search in time, both ends by the same amount, leaves the decision on it as it is, as
/// long as the start stays positive.
pub proof fn moving_a_search_in_time_is_indifferent(
    signal: Seq<char>,
    body: JsonView,
    policy: AutomationPolicy,
    start: i64,
    end: i64,
    by: i64,
)
    requires
        body.get("query"@) matches Some(query) && query.get("start_time"@) is Some && query.get(
            "end_time"@,
        ) is Some,
        0 < start,
        0 < start + by <= i64::MAX,
        i64::MIN <= end + by <= i64::MAX,
    ensures
        search_ok(signal, at_times(body, start, end), policy) == search_ok(
            signal,
            at_times(body, (start + by) as i64, (end + by) as i64),
            policy,
        ),
        search_fills(signal, at_times(body, start, end), policy) == search_fills(
            signal,
            at_times(body, (start + by) as i64, (end + by) as i64),
            policy,
        ),
{
    lemma_at_times(body, start, end);
    lemma_at_times(body, (start + by) as i64, (end + by) as i64);
}

/// What a search that is in order may have in place of each other thing that it says: as search
/// type only `ui`, a timeout of 1 to 10, no offset, a size of 1 up to what the policy allows, and as
/// query whatever some template of the policy for the signal answers.
pub proof fn a_search_is_free_within_its_bounds(
    signal: Seq<char>,
    body: JsonView,
    policy: AutomationPolicy,
    new: JsonView,
)
    ensures
        search_ok(signal, body, policy) ==> {
            &&& search_ok(signal, with_field(body, "search_type"@, new), policy) <==> new
                == JsonView::Text("ui"@)
            &&& search_ok(signal, with_field(body, "timeout"@, new), policy) <==> (
            new matches JsonView::Unsigned(n) && 1 <= n <= 10)
            &&& search_ok(signal, with_query_field(body, "from"@, new), policy) <==> new
                == JsonView::Unsigned(0)
            &&& search_ok(signal, with_query_field(body, "size"@, new), policy) <==> (
            new matches JsonView::Unsigned(n) && 1 <= n <= policy.max_result_size)
            &&& search_ok(signal, with_query_field(body, "sql"@, new), policy) <==> (
            new matches JsonView::Text(sql) && exists|i: int|
                0 <= i < policy.query_templates@.len() && #[trigger] answers(
                    policy.query_templates@[i],
                    signal,
                    sql,
                ))
            &&& !(new is Unsigned) && !(new is Negative) ==> !search_ok(
                signal,
                with_query_field(body, "start_time"@, new),
                policy,
            ) && !search_ok(signal, with_query_field(body, "end_time"@, new), policy)
        },
        search_fills(signal, body, policy) ==> {
            &&& search_fills(signal, with_field(body, "search_type"@, new), policy) <==> new
                == JsonView::Text("ui"@)
            &&& search_fills(signal, with_field(body, "timeout"@, new), policy) <==> (
            new matches JsonView::Unsigned(n) && 1 <= n <= 10)
            &&& search_fills(signal, with_query_field(body, "from"@, new), policy) <==> new
                == JsonView::Unsigned(0)
            &&& search_fills(signal, with_query_field(body, "size"@, new), policy) <==> (
            new matches JsonView::Unsigned(n) && 1 <= n <= policy.max_result_size)
            &&& search_fills(signal, with_query_field(body, "sql"@, new), policy) <==> (
            new matches JsonView::Text(sql) && fills_some(policy, signal, sql))
            &&& !(new is Unsigned) && !(new is Negative) ==> !search_fills(
                signal,
                with_query_field(body, "start_time"@, new),
                policy,
            ) && !search_fills(signal, with_query_field(body, "end_time"@, new), policy)
        },
{
    if search_bounded(body, policy) {
        lemma_search_names();
        lemma_with_field(body, "search_type"@, new);
        assert(with_field(body, "search_type"@, new).get("query"@) == body.get("query"@));
        assert(with_field(body, "search_type"@, new).get("timeout"@) == body.get("timeout"@));
        lemma_with_field(body, "timeout"@, new);
        assert(with_field(body, "timeout"@, new).get("query"@) == body.get("query"@));
        assert(with_field(body, "timeout"@, new).get("search_type"@) == body.get("search_type"@));
        lemma_query_field(body, "from"@, new);
        lemma_query_field(body, "size"@, new);
        lemma_query_field(body, "start_time"@, new);
        lemma_query_field(body, "end_time"@, new);
        if searched(body) is Some {
            lemma_query_field(body, "sql"@, new);
            if let JsonView::Text(sql) = new {
                let queries = policy.query_templates@;
                if answering_from(queries, signal, sql, 0) is Some {
                    lemma_answered(queries, signal, sql, 0);
                }
                assert forall|i: int|
                    0 <= i < queries.len() && #[trigger] answers(
                        queries[i],
                        signal,
                        sql,
                    ) implies answering_from(queries, signal, sql, 0) is Some by {
                    lemma_answering(queries, signal, sql, 0, i);
                }
            }
        }
    }
}

proof fn lemma_query_field(body: JsonView, name: Seq<char>, new: JsonView)
    requires
        body.get("query"@) matches Some(query) && query.get(name) is Some,
    ensures
        with_query_field(body, name, new).get("query"@) == Some(
            with_field(body.get("query"@).unwrap(), name, new),
        ),
        with_query_field(body, name, new).get("search_type"@) == body.get("search_type"@),
        with_query_field(body, name, new).get("timeout"@) == body.get("timeout"@),
        forall|allowed: Seq<Seq<char>>| #[trigger]
            keys_within(with_query_field(body, name, new), allowed) <==> keys_within(body, allowed),
        with_field(body.get("query"@).unwrap(), name, new).get(name) == Some(new),
        forall|other: Seq<char>|
            other != name ==> #[trigger] with_field(body.get("query"@).unwrap(), name, new).get(
                other,
            ) == body.get("query"@).unwrap().get(other),
        forall|allowed: Seq<Seq<char>>| #[trigger]
            keys_within(with_field(body.get("query"@).unwrap(), name, new), allowed)
                <==> keys_within(body.get("query"@).unwrap(), allowed),
{
    lemma_search_names();
    let query = body.get("query"@).unwrap();
    lemma_with_field(query, name, new);
    lemma_with_field(body, "query"@, with_field(query, name, new));
}

/// The first template of the policy for the signal that answers a query is taken, wherever it
/// stands, and one is found exactly where there is one.
pub proof fn a_template_is_found_wherever_it_stands(
    queries: Seq<QueryTemplate>,
    signal: Seq<char>,
    sql: Seq<char>,
    i: int,
)
    requires
        0 <= i < queries.len(),
        queries[i].signal@ == signal,
        template::template_accepts(queries[i].sql@, sql),
    ensures
        answering_from(queries, signal, sql, 0) matches Some(first) && 0 <= first <= i
            && queries[first].signal@ == signal && template::template_accepts(
            queries[first].sql@,
            sql,
        ),
{
    lemma_answering(queries, signal, sql, 0, i);
}

proof fn lemma_answering(
    queries: Seq<QueryTemplate>,
    signal: Seq<char>,
    sql: Seq<char>,
    from: int,
    i: int,
)
    requires
        0 <= from <= i < queries.len(),
        answers(queries[i], signal, sql),
    ensures
        answering_from(queries, signal, sql, from) matches Some(first) && from <= first <= i
            && answers(queries[first], signal, sql),
    decreases i - from,
{
    if !answers(queries[from], signal, sql) {
        lemma_answering(queries, signal, sql, from + 1, i);
    }
}

proof fn lemma_answered(queries: Seq<QueryTemplate>, signal: Seq<char>, sql: Seq<char>, from: int)
    requires
        0 <= from,
        answering_from(queries, signal, sql, from) is Some,
    ensures
        answering_from(queries, signal, sql, from) matches Some(i) && from <= i < queries.len()
            && answers(queries[i], signal, sql),
    decreases queries.len() - from,
{
    if from < queries.len() && !answers(queries[from], signal, sql) {
        lemma_answered(queries, signal, sql, from + 1);
    }
}

/// A search that says what it has to say is in order: nothing but the query, the search type `ui`
/// and a timeout of 1 to 10; a query with nothing but its text, its times, no offset and a size
/// within the policy; a positive start, an end after it, no longer apart than the policy allows; and
/// as text a template of the policy for the signal with its slots filled.
pub proof fn a_search_within_its_bounds_is_in_order(
    signal: Seq<char>,
    fields: Seq<(Seq<char>, JsonView)>,
    inner: Seq<(Seq<char>, JsonView)>,
    timeout: u64,
    size: u64,
    start: i64,
    end: i64,
    sql: Seq<char>,
    policy: AutomationPolicy,
    i: int,
)
    requires
        forall|k: int|
            0 <= k < fields.len() ==> ((#[trigger] fields[k]).0 == "query"@ || fields[k].0
                == "search_type"@ || fields[k].0 == "timeout"@),
        forall|k: int|
            0 <= k < inner.len() ==> ((#[trigger] inner[k]).0 == "sql"@ || inner[k].0
                == "start_time"@ || inner[k].0 == "end_time"@ || inner[k].0 == "from"@ || inner[k].0
                == "size"@),
        JsonView::Object(fields).get("query"@) == Some(JsonView::Object(inner)),
        JsonView::Object(fields).get("search_type"@) == Some(JsonView::Text("ui"@)),
        JsonView::Object(fields).get("timeout"@) == Some(JsonView::Unsigned(timeout)),
        JsonView::Object(inner).get("sql"@) == Some(JsonView::Text(sql)),
        JsonView::Object(inner).get("start_time"@) == Some(number(start)),
        JsonView::Object(inner).get("end_time"@) == Some(number(end)),
        JsonView::Object(inner).get("from"@) == Some(JsonView::Unsigned(0)),
        JsonView::Object(inner).get("size"@) == Some(JsonView::Unsigned(size)),
        1 <= timeout <= 10,
        1 <= size <= policy.max_result_size,
        0 < start < end,
        end <= start + policy.max_time_range_micros,
        0 <= i < policy.query_templates@.len(),
        policy.query_templates@[i].signal@ == signal,
    ensures
        template::instance_of(policy.query_templates@[i].sql@, sql) ==> search_fills(
            signal,
            JsonView::Object(fields),
            policy,
        ),
        template::template_accepts(policy.query_templates@[i].sql@, sql) ==> search_ok(
            signal,
            JsonView::Object(fields),
            policy,
        ),
{
    let outer = seq!["query"@, "search_type"@, "timeout"@];
    assert(outer[0] == "query"@ && outer[1] == "search_type"@ && outer[2] == "timeout"@);
    assert(keys_within(JsonView::Object(fields), outer));
    let names = seq!["sql"@, "start_time"@, "end_time"@, "from"@, "size"@];
    assert(names[0] == "sql"@ && names[1] == "start_time"@ && names[2] == "end_time"@ && names[3]
        == "from"@ && names[4] == "size"@);
    assert(keys_within(JsonView::Object(inner), names));
    if template::template_accepts(policy.query_templates@[i].sql@, sql) {
        lemma_answering(policy.query_templates@, signal, sql, 0, i);
    }
}

/// A search with anything beside what it may say is not in order.
pub proof fn a_search_says_nothing_else(
    fields: Seq<(Seq<char>, JsonView)>,
    policy: AutomationPolicy,
    k: int,
)
    requires
        0 <= k < fields.len(),
        fields[k].0 != "query"@ && fields[k].0 != "search_type"@ && fields[k].0 != "timeout"@,
    ensures
        !search_bounded(JsonView::Object(fields), policy),
        forall|body: JsonView|
            (#[trigger] body.get("query"@)) == Some(JsonView::Object(fields)) && fields[k].0
                != "sql"@ && fields[k].0 != "start_time"@ && fields[k].0 != "end_time"@
                && fields[k].0 != "from"@ && fields[k].0 != "size"@ ==> !search_bounded(
                body,
                policy,
            ),
{
    let outer = seq!["query"@, "search_type"@, "timeout"@];
    if keys_within(JsonView::Object(fields), outer) {
        assert(outer.contains(fields[k].0));
    }
    let names = seq!["sql"@, "start_time"@, "end_time"@, "from"@, "size"@];
    if keys_within(JsonView::Object(fields), names) {
        assert(names.contains(fields[k].0));
    }
}

/// A request of the query identity is in order exactly where it posts a JSON document that is a
/// search in order on the one signal that its query string names, by `type` and nothing else.
pub proof fn a_query_request_is_one_search(
    raw: Seq<char>,
    other: Seq<char>,
    body: Seq<u8>,
    policy: AutomationPolicy,
    signal: Seq<char>,
    value: JsonView,
    method: Method,
)
    requires
        form_fields(encode_utf8(raw)) == seq![("type"@, signal)],
        json::json_document(body) == Some(value),
    ensures
        query_request_ok(Some(raw), method, body, policy) <==> method == Method::Post && search_ok(
            signal,
            value,
            policy,
        ),
        query_request_fills(Some(raw), method, body, policy) <==> method == Method::Post
            && search_fills(signal, value, policy),
        !query_request_ok(None, method, body, policy),
        form_fields(encode_utf8(other)).len() != 1 || form_fields(
            encode_utf8(other),
        )[0].0 != "type"@ ==> !query_request_ok(Some(other), method, body, policy),
{
}

// ---------------------------------------------------------------------------------------------
// Laws on dashboards
// ---------------------------------------------------------------------------------------------

/// What is shown of two lists together is what is shown of each, in order; and of one dashboard,
/// that dashboard or nothing.
pub proof fn lists_are_filtered_item_by_item(
    a: Seq<JsonView>,
    b: Seq<JsonView>,
    item: JsonView,
    policy: AutomationPolicy,
)
    ensures
        governed_items(a + b, policy) == governed_items(a, policy) + governed_items(b, policy),
        governed(item, policy) ==> governed_items(seq![item], policy) == seq![item],
        !governed(item, policy) ==> governed_items(seq![item], policy) == Seq::<JsonView>::empty(),
        governed_items(seq![], policy) == Seq::<JsonView>::empty(),
    decreases b.len(),
{
    let one = seq![item];
    assert(one.drop_last() =~= Seq::empty());
    assert(governed_items(Seq::empty(), policy) =~= Seq::empty());
    assert(Seq::<JsonView>::empty().push(item) =~= seq![item]);
    if b.len() == 0 {
        assert(a + b =~= a);
        assert(governed_items(a, policy) + governed_items(b, policy) =~= governed_items(a, policy));
    } else {
        lists_are_filtered_item_by_item(a, b.drop_last(), item, policy);
        assert((a + b).drop_last() =~= a + b.drop_last());
        assert((a + b).last() == b.last());
        assert(governed_items(a + b, policy) =~= governed_items(a, policy) + governed_items(
            b,
            policy,
        ));
    }
}

/// A dashboard is governed by its title, or, where it has none, by the title of its `v5` form. A
/// title that is no text is none of the policy, whatever the `v5` form says.
pub proof fn a_dashboard_is_governed_by_its_title(
    value: JsonView,
    form: JsonView,
    title: Seq<char>,
    policy: AutomationPolicy,
)
    ensures
        value.get("title"@) == Some(JsonView::Text(title)) ==> (governed(value, policy)
            <==> exists|i: int|
            0 <= i < policy.dashboards@.len() && (#[trigger] policy.dashboards@[i]).title@ == title),
        value.get("title"@) is None && value.get("v5"@) == Some(form) && form.get("title"@) == Some(
            JsonView::Text(title),
        ) ==> (governed(value, policy) <==> exists|i: int|
            0 <= i < policy.dashboards@.len() && (#[trigger] policy.dashboards@[i]).title@ == title),
        value.get("title"@) matches Some(other) ==> !(other is Text) ==> !governed(value, policy),
        value.get("title"@) is None && value.get("v5"@) is None ==> !governed(value, policy),
        value.get("title"@) is None && value.get("v5"@) == Some(form) && !(form.get(
            "title"@,
        ) matches Some(JsonView::Text(_))) ==> !governed(value, policy),
{
}

/// A definition that the policy has, by its title and the digest of its bytes, may be created
/// without a query string, and may replace another with one or without.
pub proof fn a_governed_definition_may_be_written(
    raw: Seq<char>,
    body: Seq<u8>,
    value: JsonView,
    policy: AutomationPolicy,
    i: int,
)
    requires
        0 <= i < policy.dashboards@.len(),
        json::json_document(body) == Some(value),
        value.get("title"@) == Some(JsonView::Text(policy.dashboards@[i].title@)),
        policy.dashboards@[i].body_sha256@ == digest::hex_text(digest::sha256(body)),
    ensures
        dashboard_request_ok(None, Method::Post, body, policy),
        dashboard_request_ok(None, Method::Put, body, policy),
        !dashboard_request_ok(Some(raw), Method::Post, body, policy),
        dashboard_request_ok(Some(raw), Method::Put, body, policy) <==> dashboard_pairs_ok(
            form_fields(encode_utf8(raw)),
        ),
        !dashboard_request_ok(None, Method::Delete, body, policy),
        !dashboard_request_ok(None, Method::Other, body, policy),
{
}

/// Dashboards are read without a query string and without a body.
pub proof fn dashboards_are_read_bare(raw: Seq<char>, body: Seq<u8>, policy: AutomationPolicy)
    ensures
        dashboard_request_ok(None, Method::Get, body, policy) <==> body.len() == 0,
        !dashboard_request_ok(Some(raw), Method::Get, body, policy),
{
}

/// The query string of a dashboard that is replaced is judged pair by pair: the folder is the
/// default one, a hash has 1 to 128 letters, digits, `_` and `-`, and nothing else may come.
pub proof fn dashboard_queries_are_judged_pair_by_pair(
    a: Seq<(Seq<char>, Seq<char>)>,
    b: Seq<(Seq<char>, Seq<char>)>,
    name: Seq<char>,
    value: Seq<char>,
)
    ensures
        dashboard_pairs_ok(a + b) <==> dashboard_pairs_ok(a) && dashboard_pairs_ok(b),
        dashboard_pairs_ok(seq![]),
        dashboard_pairs_ok(seq![("folder"@, value)]) <==> value == "default"@,
        dashboard_pairs_ok(seq![("hash"@, value)]) <==> 1 <= value.len() <= 128 && forall|i: int|
            0 <= i < value.len() ==> ('0' <= #[trigger] value[i] <= '9' || 'A' <= value[i] <= 'Z'
                || 'a' <= value[i] <= 'z' || value[i] == '_' || value[i] == '-'),
        name != "folder"@ && name != "hash"@ ==> !dashboard_pairs_ok(seq![(name, value)]),
{
    reveal_strlit("folder");
    reveal_strlit("hash");
    assert("folder"@.len() == 6 && "hash"@.len() == 4);
    let all = a + b;
    if dashboard_pairs_ok(all) {
        assert forall|i: int| 0 <= i < a.len() implies dashboard_pair_ok(#[trigger] a[i]) by {
            assert(all[i] == a[i]);
        }
        assert forall|i: int| 0 <= i < b.len() implies dashboard_pair_ok(#[trigger] b[i]) by {
            assert(all[a.len() + i] == b[i]);
        }
    }
    let folder = seq![("folder"@, value)];
    assert(folder[0] == ("folder"@, value));
    let hash = seq![("hash"@, value)];
    assert(hash[0] == ("hash"@, value));
    assert(seq![(name, value)][0] == (name, value));
    if 1 <= value.len() <= 128 && forall|i: int|
        0 <= i < value.len() ==> ('0' <= #[trigger] value[i] <= '9' || 'A' <= value[i] <= 'Z' || 'a'
            <= value[i] <= 'z' || value[i] == '_' || value[i] == '-') {
        assert forall|i: int| 0 <= i < value.len() implies CharClass::Name.admits(
            #[trigger] value[i],
        ) by {}
        assert(dashboard_pair_ok(hash[0]));
    }
    if dashboard_pairs_ok(hash) {
        assert(dashboard_pair_ok(hash[0]));
        assert forall|i: int| 0 <= i < value.len() implies ('0' <= #[trigger] value[i] <= '9' || 'A'
            <= value[i] <= 'Z' || 'a' <= value[i] <= 'z' || value[i] == '_' || value[i] == '-') by {
            assert(CharClass::Name.admits(value[i]));
        }
    }
}

// ---------------------------------------------------------------------------------------------
// Laws on whole requests
// ---------------------------------------------------------------------------------------------

/// A request that is looked into, from the identity to the body of the response: the states that it
/// goes through and what is done at each step.
pub open spec fn whole_request(
    identity: String,
    policy: AutomationPolicy,
    request: ScopedRequest,
    status: u16,
    data: Vec<u8>,
    states: Seq<ScopedState>,
    actions: Seq<ScopedAction>,
) -> bool {
    &&& states.len() == 6
    &&& actions.len() == 5
    &&& states[0] == ScopedState::Arrived
    &&& scoped_step(states[0], ScopedEvent::Identity(identity), states[1], actions[0])
    &&& scoped_step(states[1], ScopedEvent::Policy(Ok(policy)), states[2], actions[1])
    &&& scoped_step(states[2], ScopedEvent::Request(Some(request)), states[3], actions[2])
    &&& scoped_step(states[3], ScopedEvent::Response(status), states[4], actions[3])
    &&& scoped_step(states[4], ScopedEvent::ResponseBody(Some(data)), states[5], actions[4])
}

/// A path ends in the name of the list exactly where its last name is that.
proof fn lemma_last_name(base: Seq<char>, last: Seq<char>)
    requires
        forall|i: int| 0 <= i < last.len() ==> #[trigger] last[i] != '/',
    ensures
        "/dashboards"@.is_suffix_of(base + "/"@ + last) <==> last == "dashboards"@,
{
    reveal_strlit("/dashboards");
    reveal_strlit("dashboards");
    reveal_strlit("/");
    let path = base + "/"@ + last;
    let end = "/dashboards"@;
    if last == "dashboards"@ {
        assert(path.subrange(path.len() - 11, path.len() as int) =~= end);
    }
    if end.is_suffix_of(path) {
        let tail = path.subrange(path.len() - 11, path.len() as int);
        assert(tail == end);
        assert forall|k: int| 0 <= k < 11 implies path[path.len() - 11 + k] == end[k] by {
            assert(tail[k] == path[path.len() - 11 + k]);
        }
        if last.len() >= 11 {
            assert(path[path.len() - 11] == last[last.len() - 11]);
            assert(end[0] == '/');
        } else if last.len() < 10 {
            let k = 10 - last.len();
            assert(path[base.len() as int] == '/');
            assert(path[path.len() - 11 + k] == end[k]);
            assert(end[1] != '/' && end[2] != '/' && end[3] != '/' && end[4] != '/' && end[5] != '/'
                && end[6] != '/' && end[7] != '/' && end[8] != '/' && end[9] != '/' && end[10]
                != '/');
        } else {
            assert forall|k: int| 0 <= k < 10 implies last[k] == "dashboards"@[k] by {
                assert(path[path.len() - 11 + k + 1] == last[k]);
                assert(end[k + 1] == "dashboards"@[k]);
            }
            assert(last =~= "dashboards"@);
        }
    }
}

/// One governed dashboard is read. Where the reconciler gets a path whose last name is not that of
/// the list, without a query string or a body, the request is handed on; and where the response is
/// a success, a dashboard with a title of the policy is answered with its own text, and any other
/// is refused.
pub proof fn one_governed_dashboard_is_read(
    identity: String,
    policy: AutomationPolicy,
    request: ScopedRequest,
    status: u16,
    data: Vec<u8>,
    states: Seq<ScopedState>,
    actions: Seq<ScopedAction>,
    base: Seq<char>,
    id: Seq<char>,
    value: JsonView,
    written: Seq<char>,
)
    requires
        whole_request(identity, policy, request, status, data, states, actions),
        identity@ == "creator-signal-dashboard-reconciler"@,
        request.method == Method::Get,
        request.query is None,
        request.body@.len() == 0,
        request.path@ == base + "/"@ + id,
        forall|i: int| 0 <= i < id.len() ==> #[trigger] id[i] != '/',
        id != "dashboards"@,
        200 <= status < 300,
        json::json_document(data@) == Some(value),
        json::json_text(value) == Some(written),
    ensures
        actions[0] is LoadPolicy,
        actions[1] == (ScopedAction::ReadRequest { limit: 1_048_576 }),
        actions[2] == (ScopedAction::Forward { request }),
        actions[3] == (ScopedAction::ReadResponse { limit: 1_048_576 }),
        forall|i: int|
            0 <= i < policy.dashboards@.len() && value.get("title"@) == Some(
                JsonView::Text((#[trigger] policy.dashboards@[i]).title@),
            ) ==> (actions[4] matches ScopedAction::ReplaceBody { body } && body@ == written),
        (forall|i: int|
            0 <= i < policy.dashboards@.len() ==> value.get("title"@) != Some(
                JsonView::Text((#[trigger] policy.dashboards@[i]).title@),
            )) && value.get("title"@) is Some ==> actions[4] is Refuse,
{
    lemma_identities();
    lemma_last_name(base, id);
}

proof fn lemma_identities()
    ensures
        QUERY_IDENTITY@ != DASHBOARD_IDENTITY@,
{
    reveal_strlit("creator-signal-query");
    reveal_strlit("creator-signal-dashboard-reconciler");
    assert(QUERY_IDENTITY@.len() == 20 && DASHBOARD_IDENTITY@.len() == 35);
}

/// The list of dashboards is read. Where the reconciler gets a path whose last name is that of the
/// list, the response is answered with its list cut down to the governed dashboards and with all
/// else as it was; one without such a list is refused.
pub proof fn the_list_of_dashboards_is_read(
    identity: String,
    policy: AutomationPolicy,
    request: ScopedRequest,
    status: u16,
    data: Vec<u8>,
    states: Seq<ScopedState>,
    actions: Seq<ScopedAction>,
    base: Seq<char>,
    value: JsonView,
    items: Seq<JsonView>,
    written: Seq<char>,
)
    requires
        whole_request(identity, policy, request, status, data, states, actions),
        identity@ == "creator-signal-dashboard-reconciler"@,
        request.method == Method::Get,
        request.query is None,
        request.body@.len() == 0,
        request.path@ == base + "/dashboards"@,
        200 <= status < 300,
        json::json_document(data@) == Some(value),
    ensures
        actions[2] == (ScopedAction::Forward { request }),
        actions[3] == (ScopedAction::ReadResponse { limit: 1_048_576 }),
        value.get("dashboards"@) == Some(JsonView::Array(items)) && json::json_text(
            with_field(value, "dashboards"@, JsonView::Array(governed_items(items, policy))),
        ) == Some(written) ==> (actions[4] matches ScopedAction::ReplaceBody { body } && body@
            == written),
        !(value.get("dashboards"@) matches Some(JsonView::Array(_))) ==> actions[4] is Refuse,
{
    lemma_identities();
    let end = "/dashboards"@;
    let path = request.path@;
    assert(path.subrange(path.len() - end.len(), path.len() as int) =~= end);
}

/// What the reconciler reads without success, and what its writes and the searches of the query
/// identity are answered with, is answered as it is, whatever the response is. A search may have up
/// to 64 KiB.
pub proof fn other_responses_are_answered_as_they_are(
    identity: String,
    policy: AutomationPolicy,
    request: ScopedRequest,
    status: u16,
    data: Vec<u8>,
    states: Seq<ScopedState>,
    actions: Seq<ScopedAction>,
)
    requires
        whole_request(identity, policy, request, status, data, states, actions),
    ensures
        identity@ == "creator-signal-query"@ ==> actions[0] is LoadPolicy && actions[1] == (
        ScopedAction::ReadRequest { limit: 65_536 }),
        identity@ == "creator-signal-query"@ && query_request_ok(
            text::text_view(request.query),
            request.method,
            request.body@,
            policy,
        ) ==> actions[2] == (ScopedAction::Forward { request }) && actions[3] is ReturnResponse,
        identity@ == "creator-signal-query"@ && !query_request_ok(
            text::text_view(request.query),
            request.method,
            request.body@,
            policy,
        ) ==> actions[2] is Refuse,
        identity@ == "creator-signal-dashboard-reconciler"@ && dashboard_request_ok(
            text::text_view(request.query),
            request.method,
            request.body@,
            policy,
        ) && (request.method != Method::Get || !(200 <= status < 300)) ==> actions[2] == (
        ScopedAction::Forward { request }) && actions[3] is ReturnResponse,
        identity@ == "creator-signal-dashboard-reconciler"@ && !dashboard_request_ok(
            text::text_view(request.query),
            request.method,
            request.body@,
            policy,
        ) ==> actions[2] is Refuse,
{
    lemma_identities();
}

/// Everyone else's requests pass through unread, and a request that cannot be looked into is
/// refused: without a policy, without its body, or where the body of the response is missing.
pub proof fn what_cannot_be_looked_into_is_refused(
    state: ScopedState,
    event: ScopedEvent,
    after: ScopedState,
    action: ScopedAction,
)
    requires
        scoped_step(state, event, after, action),
    ensures
        state is Arrived ==> (event matches ScopedEvent::Identity(identity) ==> (action is PassThrough
            <==> identity@ != "creator-signal-query"@ && identity@
            != "creator-signal-dashboard-reconciler"@)),
        event matches ScopedEvent::Policy(Err(_)) ==> action is Refuse,
        event matches ScopedEvent::Request(None) ==> action is Refuse,
        event matches ScopedEvent::ResponseBody(None) ==> action is Refuse,
        action is Refuse ==> after is Answered,
{
}

/// What does not belong to the state that a request is in is refused.
pub proof fn what_comes_out_of_place_is_refused(
    state: ScopedState,
    event: ScopedEvent,
    after: ScopedState,
    action: ScopedAction,
)
    requires
        scoped_step(state, event, after, action),
        !(state is Arrived && event is Identity),
        !(state is LoadingPolicy && event is Policy),
        !(state is ReadingRequest && event is Request),
        !(state is AwaitingResponse && event is Response),
        !(state is ReadingResponse && event is ResponseBody),
    ensures
        after is Answered,
        action is Refuse,
{
}

} // verus!
