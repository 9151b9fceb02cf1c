//! The automation policy: which aggregate queries and which dashboards the automation identities
//! may touch.

use crate::template;
use crate::text;
use crate::text::CharClass;
use vstd::prelude::*;
use vstd::string::*;

verus! {

/// The only schema of a policy that is understood.
pub const POLICY_SCHEMA: &'static str = "creator-signal.openobserve-automation-policy/v1";

/// The largest policy file that is read.
pub const MAX_POLICY_BYTES: usize = 131_072;

/// An aggregate query, with places that a request fills.
#[derive(Clone, Debug, PartialEq, Eq)]
pub struct QueryTemplate {
    pub id: String,
    pub signal: String,
    pub sql: String,
}

/// A dashboard that may be written: its title and the digest of its definition.
#[derive(Clone, Debug, PartialEq, Eq)]
pub struct DashboardDefinition {
    pub title: String,
    pub body_sha256: String,
}

/// What the automation identities may do.
#[derive(Clone, Debug, PartialEq, Eq)]
pub struct AutomationPolicy {
    pub schema: String,
    pub organization: String,
    pub max_time_range_micros: i64,
    pub max_result_size: u64,
    pub query_templates: Vec<QueryTemplate>,
    pub dashboards: Vec<DashboardDefinition>,
}

/// A name of an organization: 1 to 64 ASCII letters, digits, `_` and `-`.
pub open spec fn org_ok(value: Seq<char>) -> bool {
    text::made_of(value, CharClass::Name, 1, 64)
}

/// One of the three signals that are stored.
pub open spec fn known_signal(signal: Seq<char>) -> bool {
    signal == "logs"@ || signal == "metrics"@ || signal == "traces"@
}

/// A template that can only count: it selects, counts, is one statement, asks for no raw rows and
/// leaves no place open but the known ones.
pub open spec fn template_safe(query: QueryTemplate) -> bool {
    &&& text::made_of(query.id@, CharClass::Slug, 1, 64)
    &&& known_signal(query.signal@)
    &&& text::byte_len(query.sql@) <= template::MAX_TEMPLATE_BYTES
    &&& "SELECT "@.is_prefix_of(query.sql@)
    &&& text::contains_text(query.sql@, "count("@)
    &&& !query.sql@.contains(';')
    &&& !text::contains_text(text::lower_text(query.sql@), "select *"@)
    &&& template::template_parts(query.sql@) is Some
}

/// Every template is safe, and no two have the same identifier.
pub open spec fn templates_safe(queries: Seq<QueryTemplate>) -> bool {
    &&& forall|i: int| 0 <= i < queries.len() ==> template_safe(#[trigger] queries[i])
    &&& forall|i: int, j: int|
        0 <= i < j < queries.len() ==> (#[trigger] queries[i]).id@ != (#[trigger] queries[j]).id@
}

/// A dashboard with a governed title of one line and a hexadecimal SHA-256 digest.
pub open spec fn dashboard_ok(dashboard: DashboardDefinition) -> bool {
    &&& "Creator Signal "@.is_prefix_of(dashboard.title@)
    &&& text::byte_len(dashboard.title@) <= 160
    &&& !dashboard.title@.contains('\r')
    &&& !dashboard.title@.contains('\n')
    &&& text::made_of(dashboard.body_sha256@, CharClass::Hex, 64, 64)
}

/// 1 to 64 dashboards that are each in order, no two with the same title.
pub open spec fn dashboards_ok(dashboards: Seq<DashboardDefinition>) -> bool {
    &&& 1 <= dashboards.len() <= 64
    &&& forall|i: int| 0 <= i < dashboards.len() ==> dashboard_ok(#[trigger] dashboards[i])
    &&& forall|i: int, j: int|
        0 <= i < j < dashboards.len() ==> (#[trigger] dashboards[i]).title@ != (
        #[trigger] dashboards[j]).title@
}

/// The time range is between a second and a day, and the result size between 1 and 100.
pub open spec fn bounds_ok(policy: AutomationPolicy) -> bool {
    &&& 1_000_000 <= policy.max_time_range_micros <= 86_400_000_000
    &&& 1 <= policy.max_result_size <= 100
}

/// What is wrong with a policy, by the first rule that it breaks.
pub open spec fn policy_fault(policy: AutomationPolicy, configured_org: Seq<char>) -> Option<
    Seq<char>,
> {
    if policy.schema@ != POLICY_SCHEMA@ {
        Some("Scoped automation policy schema is unsupported"@)
    } else if !org_ok(policy.organization@) || policy.organization@ != configured_org {
        Some("Scoped automation policy organization does not match"@)
    } else if !bounds_ok(policy) {
        Some("Scoped automation query bounds are invalid"@)
    } else if !(1 <= policy.query_templates@.len() <= 64) {
        Some("Scoped automation query template count is invalid"@)
    } else if !templates_safe(policy.query_templates@) {
        Some("Scoped automation query template is unsafe"@)
    } else if !dashboards_ok(policy.dashboards@) {
        Some("Scoped automation dashboard title allowlist is invalid"@)
    } else {
        None
    }
}

/// Whether a text can name an organization.
pub fn valid_org(value: &str) -> (valid: bool)
    ensures
        valid == org_ok(value@),
{
    text::is_made_of(value, CharClass::Name, 1, 64)
}

fn is_known_signal(signal: &str) -> (known: bool)
    ensures
        known == known_signal(signal@),
{
    text::same_text(signal, "logs") || text::same_text(signal, "metrics") || text::same_text(
        signal,
        "traces",
    )
}

fn is_template_safe(query: &QueryTemplate) -> (safe: bool)
    ensures
        safe == template_safe(*query),
{
    let sql: &str = query.sql.as_str();
    text::is_made_of(query.id.as_str(), CharClass::Slug, 1, 64) && is_known_signal(
        query.signal.as_str(),
    ) && text::bytes_in(sql) <= template::MAX_TEMPLATE_BYTES && text::has_prefix(sql, "SELECT ") && text::has_text(
        sql,
        "count(",
    ) && !text::has_char(sql, ';') && !text::has_text(
        text::to_lower_text(sql).as_str(),
        "select *",
    ) && template::placeholders_are_supported(sql)
}

fn are_templates_safe(queries: &Vec<QueryTemplate>) -> (safe: bool)
    ensures
        safe == templates_safe(queries@),
{
    let mut i: usize = 0;
    while i < queries.len()
        invariant
            i <= queries.len(),
            templates_safe(queries@.take(i as int)),
        decreases queries.len() - i,
    {
        proof {
            assert(queries@.take(i + 1) =~= queries@.take(i as int).push(queries@[i as int]));
        }
        if !is_template_safe(&queries[i]) {
            return false;
        }
        let mut j: usize = 0;
        while j < i
            invariant
                j <= i < queries.len(),
                forall|k: int|
                    0 <= k < j ==> (#[trigger] queries@[k]).id@ != queries@[i as int].id@,
            decreases i - j,
        {
            if queries[j].id == queries[i].id {
                return false;
            }
            j = j + 1;
        }
        i = i + 1;
    }
    assert(queries@.take(queries@.len() as int) == queries@);
    true
}

fn is_dashboard_ok(dashboard: &DashboardDefinition) -> (ok: bool)
    ensures
        ok == dashboard_ok(*dashboard),
{
    let title: &str = dashboard.title.as_str();
    text::has_prefix(title, "Creator Signal ") && text::bytes_in(title) <= 160 && !text::has_char(
        title,
        '\r',
    ) && !text::has_char(title, '\n') && text::is_made_of(
        dashboard.body_sha256.as_str(),
        CharClass::Hex,
        64,
        64,
    )
}

fn are_dashboards_ok(dashboards: &Vec<DashboardDefinition>) -> (ok: bool)
    ensures
        ok == dashboards_ok(dashboards@),
{
    if dashboards.len() == 0 || dashboards.len() > 64 {
        return false;
    }
    let mut i: usize = 0;
    while i < dashboards.len()
        invariant
            i <= dashboards.len() <= 64,
            i > 0 ==> dashboards_ok(dashboards@.take(i as int)),
        decreases dashboards.len() - i,
    {
        proof {
            assert(dashboards@.take(i + 1) =~= dashboards@.take(i as int).push(
                dashboards@[i as int],
            ));
        }
        if !is_dashboard_ok(&dashboards[i]) {
            return false;
        }
        let mut j: usize = 0;
        while j < i
            invariant
                j <= i < dashboards.len(),
                forall|k: int|
                    0 <= k < j ==> (#[trigger] dashboards@[k]).title@ != dashboards@[i as int].title@,
            decreases i - j,
        {
            if dashboards[j].title == dashboards[i].title {
                return false;
            }
            j = j + 1;
        }
        i = i + 1;
    }
    assert(dashboards@.take(dashboards@.len() as int) == dashboards@);
    true
}

/// Checks a policy against the rules and the configured organization.
pub fn validate_policy(policy: &AutomationPolicy, configured_org: &str) -> (result: Result<
    (),
    String,
>)
    ensures
        match policy_fault(*policy, configured_org@) {
            None => result is Ok,
            Some(fault) => result matches Err(message) && message@ == fault,
        },
{
    if !text::same_text(policy.schema.as_str(), POLICY_SCHEMA) {
        return Err("Scoped automation policy schema is unsupported".to_owned());
    }
    if !valid_org(policy.organization.as_str()) || !text::same_text(
        policy.organization.as_str(),
        configured_org,
    ) {
        return Err("Scoped automation policy organization does not match".to_owned());
    }
    if policy.max_time_range_micros < 1_000_000 || policy.max_time_range_micros > 86_400_000_000
        || policy.max_result_size < 1 || policy.max_result_size > 100 {
        return Err("Scoped automation query bounds are invalid".to_owned());
    }
    if policy.query_templates.len() == 0 || policy.query_templates.len() > 64 {
        return Err("Scoped automation query template count is invalid".to_owned());
    }
    if !are_templates_safe(&policy.query_templates) {
        return Err("Scoped automation query template is unsafe".to_owned());
    }
    if !are_dashboards_ok(&policy.dashboards) {
        return Err("Scoped automation dashboard title allowlist is invalid".to_owned());
    }
    Ok(())
}

// ---------------------------------------------------------------------------------------------
// Laws
// ---------------------------------------------------------------------------------------------

/// An organization has a name of 1 to 64 ASCII letters, digits, `_` and `-`, in whatever order, and
/// no other name.
pub proof fn organizations_have_plain_names(value: Seq<char>)
    ensures
        org_ok(value) <==> 1 <= value.len() <= 64 && forall|i: int|
            0 <= i < value.len() ==> ('0' <= #[trigger] value[i] <= '9' || 'A' <= value[i] <= 'Z'
                || 'a' <= value[i] <= 'z' || value[i] == '_' || value[i] == '-'),
{
    if org_ok(value) {
        assert forall|i: int| 0 <= i < value.len() implies ('0' <= #[trigger] value[i] <= '9' || 'A'
            <= value[i] <= 'Z' || 'a' <= value[i] <= 'z' || value[i] == '_' || value[i] == '-') by {
            assert(CharClass::Name.admits(value[i]));
        }
    }
    if 1 <= value.len() <= 64 && forall|i: int|
        0 <= i < value.len() ==> ('0' <= #[trigger] value[i] <= '9' || 'A' <= value[i] <= 'Z' || 'a'
            <= value[i] <= 'z' || value[i] == '_' || value[i] == '-') {
        assert forall|i: int| 0 <= i < value.len() implies CharClass::Name.admits(
            #[trigger] value[i],
        ) by {}
    }
}

/// A template is safe exactly where its identifier has 1 to 64 small letters, digits and `-`, it is
/// for logs, metrics or traces, and its text is one bounded `SELECT ` that counts, asks for no raw
/// rows and has no slots but the known ones. Where the `count(` stands in it, and what else it
/// says, makes no difference.
pub proof fn templates_that_only_count_are_safe(
    query: QueryTemplate,
    before: Seq<char>,
    after: Seq<char>,
)
    ensures
        template_safe(query) ==> 1 <= query.id@.len() <= 64 && (forall|i: int|
            0 <= i < query.id@.len() ==> ('0' <= #[trigger] query.id@[i] <= '9' || 'a'
                <= query.id@[i] <= 'z' || query.id@[i] == '-')) && (query.signal@ == "logs"@
            || query.signal@ == "metrics"@ || query.signal@ == "traces"@),
        template_safe(query) ==> text::byte_len(query.sql@) <= 4096 && "SELECT "@.is_prefix_of(
            query.sql@,
        ) && text::contains_text(query.sql@, "count("@) && !query.sql@.contains(';')
            && !text::contains_text(text::lower_text(query.sql@), "select *"@)
            && template::template_parts(query.sql@) is Some,
        1 <= query.id@.len() <= 64 && (forall|i: int|
            0 <= i < query.id@.len() ==> ('0' <= #[trigger] query.id@[i] <= '9' || 'a'
                <= query.id@[i] <= 'z' || query.id@[i] == '-')) && (query.signal@ == "logs"@
            || query.signal@ == "metrics"@ || query.signal@ == "traces"@) && text::byte_len(
            query.sql@,
        ) <= 4096 && query.sql@ == "SELECT "@ + before + "count("@ + after && !query.sql@.contains(
            ';',
        ) && !text::contains_text(text::lower_text(query.sql@), "select *"@)
            && template::template_parts(query.sql@) is Some ==> template_safe(query),
{
    let id = query.id@;
    if template_safe(query) {
        assert forall|i: int| 0 <= i < id.len() implies ('0' <= #[trigger] id[i] <= '9' || 'a'
            <= id[i] <= 'z' || id[i] == '-') by {
            assert(CharClass::Slug.admits(id[i]));
        }
    }
    if forall|i: int|
        0 <= i < id.len() ==> ('0' <= #[trigger] id[i] <= '9' || 'a' <= id[i] <= 'z' || id[i]
            == '-') {
        assert forall|i: int| 0 <= i < id.len() implies CharClass::Slug.admits(#[trigger] id[i]) by {
            assert('0' <= id[i] <= '9' || 'a' <= id[i] <= 'z' || id[i] == '-');
        }
    }
    let sql = query.sql@;
    if sql == "SELECT "@ + before + "count("@ + after {
        let start = "SELECT "@;
        assert(sql.take(start.len() as int) =~= start);
        let at = (start + before).len() as int;
        assert(sql.subrange(at, at + "count("@.len()) =~= "count("@);
        assert(text::occurs_at(sql, "count("@, at));
    }
}

/// A dashboard is in order exactly where its title is one line of at most 160 bytes behind the
/// common start, and its digest has 64 hexadecimal digits in either case.
pub proof fn dashboards_with_a_governed_title_are_in_order(
    dashboard: DashboardDefinition,
    rest: Seq<char>,
)
    requires
        dashboard.title@ == "Creator Signal "@ + rest,
    ensures
        dashboard_ok(dashboard) <==> text::byte_len(dashboard.title@) <= 160 && (forall|i: int|
            0 <= i < rest.len() ==> #[trigger] rest[i] != '\r' && rest[i] != '\n')
            && dashboard.body_sha256@.len() == 64 && (forall|i: int|
            0 <= i < 64 ==> ('0' <= #[trigger] dashboard.body_sha256@[i] <= '9' || 'a'
                <= dashboard.body_sha256@[i] <= 'f' || 'A' <= dashboard.body_sha256@[i] <= 'F')),
{
    let start = "Creator Signal "@;
    let title = dashboard.title@;
    reveal_strlit("Creator Signal ");
    assert(title.take(start.len() as int) =~= start);
    let sha = dashboard.body_sha256@;
    if dashboard_ok(dashboard) {
        assert forall|i: int| 0 <= i < rest.len() implies #[trigger] rest[i] != '\r' && rest[i]
            != '\n' by {
            assert(title[start.len() + i] == rest[i]);
            assert(title.contains(title[start.len() + i]));
        }
        assert forall|i: int| 0 <= i < 64 implies ('0' <= #[trigger] sha[i] <= '9' || 'a' <= sha[i]
            <= 'f' || 'A' <= sha[i] <= 'F') by {
            assert(CharClass::Hex.admits(sha[i]));
        }
    }
    if sha.len() == 64 && forall|i: int|
        0 <= i < 64 ==> ('0' <= #[trigger] sha[i] <= '9' || 'a' <= sha[i] <= 'f' || 'A' <= sha[i]
            <= 'F') {
        assert forall|i: int| 0 <= i < sha.len() implies CharClass::Hex.admits(#[trigger] sha[i]) by {
            assert('0' <= sha[i] <= '9' || 'a' <= sha[i] <= 'f' || 'A' <= sha[i] <= 'F');
        }
    }
    if forall|i: int| 0 <= i < rest.len() ==> #[trigger] rest[i] != '\r' && rest[i] != '\n' {
        assert forall|i: int| 0 <= i < title.len() implies #[trigger] title[i] != '\r' && title[i]
            != '\n' by {
            if i >= start.len() {
                assert(title[i] == rest[i - start.len()]);
            } else {
                assert(title[i] == start[i]);
                lemma_one_line(i);
            }
        }
    }
}

proof fn lemma_one_line(i: int)
    requires
        0 <= i < "Creator Signal "@.len(),
    ensures
        "Creator Signal "@[i] != '\r',
        "Creator Signal "@[i] != '\n',
{
    reveal_strlit("Creator Signal ");
}

/// A dashboard with another title is not in order.
pub proof fn other_titles_are_not_governed(dashboard: DashboardDefinition)
    ensures
        dashboard_ok(dashboard) ==> exists|rest: Seq<char>|
            dashboard.title@ == #[trigger] ("Creator Signal "@ + rest),
{
    let start = "Creator Signal "@;
    let title = dashboard.title@;
    if dashboard_ok(dashboard) {
        assert(title.take(start.len() as int) == start);
        assert(title =~= start + title.skip(start.len() as int));
    }
}

/// A policy that meets every rule is in order: its schema is the known one, it is for the configured
/// organization, its range is between a second and a day and its results between 1 and 100, and it
/// has 1 to 64 safe templates with distinct identifiers and 1 to 64 dashboards in order with
/// distinct titles.
pub proof fn a_policy_that_meets_every_rule_is_in_order(policy: AutomationPolicy, org: Seq<char>)
    requires
        policy.schema@ == "creator-signal.openobserve-automation-policy/v1"@,
        policy.organization@ == org,
        org_ok(org),
        1_000_000 <= policy.max_time_range_micros <= 86_400_000_000,
        1 <= policy.max_result_size <= 100,
        1 <= policy.query_templates@.len() <= 64,
        forall|i: int|
            0 <= i < policy.query_templates@.len() ==> template_safe(
                #[trigger] policy.query_templates@[i],
            ),
        forall|i: int, j: int|
            0 <= i < j < policy.query_templates@.len() ==> (
            #[trigger] policy.query_templates@[i]).id@ != (#[trigger] policy.query_templates@[j]).id@,
        1 <= policy.dashboards@.len() <= 64,
        forall|i: int|
            0 <= i < policy.dashboards@.len() ==> dashboard_ok(#[trigger] policy.dashboards@[i]),
        forall|i: int, j: int|
            0 <= i < j < policy.dashboards@.len() ==> (#[trigger] policy.dashboards@[i]).title@ != (
            #[trigger] policy.dashboards@[j]).title@,
    ensures
        policy_fault(policy, org) is None,
{
}

/// A policy that breaks a rule is not in order, and of the rules that it breaks the first is named.
pub proof fn a_policy_that_breaks_a_rule_is_not_in_order(
    policy: AutomationPolicy,
    org: Seq<char>,
    i: int,
    j: int,
)
    ensures
        policy.schema@ != "creator-signal.openobserve-automation-policy/v1"@ ==> policy_fault(
            policy,
            org,
        ) == Some("Scoped automation policy schema is unsupported"@),
        policy.schema@ == "creator-signal.openobserve-automation-policy/v1"@ && (
        policy.organization@ != org || !org_ok(org)) ==> policy_fault(policy, org) == Some(
            "Scoped automation policy organization does not match"@,
        ),
        policy.schema@ == "creator-signal.openobserve-automation-policy/v1"@ && policy.organization@
            == org && org_ok(org) ==> {
            let timed = 1_000_000 <= policy.max_time_range_micros <= 86_400_000_000 && 1
                <= policy.max_result_size <= 100;
            &&& !timed ==> policy_fault(policy, org) == Some(
                "Scoped automation query bounds are invalid"@,
            )
            &&& timed && (policy.query_templates@.len() == 0 || policy.query_templates@.len() > 64)
                ==> policy_fault(policy, org) == Some(
                "Scoped automation query template count is invalid"@,
            )
            &&& timed && 1 <= policy.query_templates@.len() <= 64 && 0 <= i
                < policy.query_templates@.len() && !template_safe(policy.query_templates@[i])
                ==> policy_fault(policy, org) == Some("Scoped automation query template is unsafe"@)
            &&& timed && policy.query_templates@.len() <= 64 && 0 <= i < j
                < policy.query_templates@.len() && policy.query_templates@[i].id@
                == policy.query_templates@[j].id@ ==> policy_fault(policy, org) == Some(
                "Scoped automation query template is unsafe"@,
            )
        },
        policy_fault(policy, org) matches Some(fault) ==> (fault
            == "Scoped automation policy schema is unsupported"@ || fault
            == "Scoped automation policy organization does not match"@ || fault
            == "Scoped automation query bounds are invalid"@ || fault
            == "Scoped automation query template count is invalid"@ || fault
            == "Scoped automation query template is unsafe"@ || fault
            == "Scoped automation dashboard title allowlist is invalid"@),
        policy_fault(policy, org) is None ==> 1 <= policy.dashboards@.len() <= 64 && (0 <= i
            < policy.dashboards@.len() ==> dashboard_ok(policy.dashboards@[i])) && (0 <= i < j
            < policy.dashboards@.len() ==> policy.dashboards@[i].title@
            != policy.dashboards@[j].title@),
{
}

/// A policy in order stays so with any other bounds within their ranges, and with no others.
pub proof fn bounds_are_free_within_their_ranges(
    policy: AutomationPolicy,
    org: Seq<char>,
    max_time_range_micros: i64,
    max_result_size: u64,
)
    requires
        policy_fault(policy, org) is None,
    ensures
        policy_fault(AutomationPolicy { max_time_range_micros, max_result_size, ..policy }, org)
            is None <==> 1_000_000 <= max_time_range_micros <= 86_400_000_000 && 1
            <= max_result_size <= 100,
{
}

/// A template more keeps a policy in order exactly where it is safe, its identifier is new, and
/// there is room for it; so does a dashboard more.
pub proof fn a_policy_grows_by_what_is_in_order(
    policy: AutomationPolicy,
    grown: AutomationPolicy,
    org: Seq<char>,
    query: QueryTemplate,
    dashboard: DashboardDefinition,
)
    requires
        policy_fault(policy, org) is None,
        grown.schema == policy.schema,
        grown.organization == policy.organization,
        grown.max_time_range_micros == policy.max_time_range_micros,
        grown.max_result_size == policy.max_result_size,
    ensures
        grown.dashboards == policy.dashboards && grown.query_templates@
            == policy.query_templates@.push(query) ==> (policy_fault(grown, org) is None
            <==> template_safe(query) && policy.query_templates@.len() < 64 && forall|i: int|
            0 <= i < policy.query_templates@.len() ==> (#[trigger] policy.query_templates@[i]).id@
                != query.id@),
        grown.query_templates == policy.query_templates && grown.dashboards@
            == policy.dashboards@.push(dashboard) ==> (policy_fault(grown, org) is None
            <==> dashboard_ok(dashboard) && policy.dashboards@.len() < 64 && forall|i: int|
            0 <= i < policy.dashboards@.len() ==> (#[trigger] policy.dashboards@[i]).title@
                != dashboard.title@),
{
    let queries = policy.query_templates@;
    if grown.query_templates@ == queries.push(query) {
        let all = queries.push(query);
        assert(all[queries.len() as int] == query);
        assert forall|i: int| 0 <= i < queries.len() implies all[i] == #[trigger] queries[i] by {}
        if templates_safe(all) {
            assert(template_safe(all[queries.len() as int]));
            assert forall|i: int| 0 <= i < queries.len() implies (#[trigger] queries[i]).id@
                != query.id@ by {
                assert(all[i].id@ != all[queries.len() as int].id@);
            }
        }
    }
    let list = policy.dashboards@;
    if grown.dashboards@ == list.push(dashboard) {
        let all = list.push(dashboard);
        assert(all[list.len() as int] == dashboard);
        assert forall|i: int| 0 <= i < list.len() implies all[i] == #[trigger] list[i] by {}
        if dashboards_ok(all) {
            assert(dashboard_ok(all[list.len() as int]));
            assert forall|i: int| 0 <= i < list.len() implies (#[trigger] list[i]).title@
                != dashboard.title@ by {
                assert(all[i].title@ != all[list.len() as int].title@);
            }
        }
    }
}

} // verus!
