//! The administrator dashboard and the system-health page: who may see
//! them, how health readings are classified and labelled, and how the
//! health, database and user-statistics responses are decoded.
use vstd::prelude::*;
use crate::json::{
    array_items, error_from_body, error_from_parsed, error_message, get, get_in, is_success,
    json_get, json_get_in, json_i64, json_i64_spec, json_result, json_string,
    json_string_or_empty, json_text, opt_view, parse_json, parsed_json, success_flag,
    view_or_empty, view_result, Json, json_error_message, amount_text, json_amount, json_id,
    json_id_spec,
};
use crate::permissions::{guard_matches, Permissions, RouteGuard};
use crate::seqs::{filter_map_seq, lemma_filter_map_step, lemma_full_prefix};
use crate::text::{blank, is_blank, str_eq, trim, trim_str};

verus! {

pub const HEALTH_API_PATH: &'static str = "/api/health";
pub const HEALTH_STATUS_API_PATH: &'static str = "/api/health/status";
pub const DATABASE_STATS_API_PATH: &'static str = "/api/admin/database/stats";
pub const USER_STATS_API_PATH: &'static str = "/api/users/stats/overview";
pub const EVENTS_OVERVIEW_API_PATH: &'static str = "/api/analytics/events/overview";

pub const NETWORK_ERROR: &'static str = "Network error occurred";
pub const HEALTH_FETCH_FALLBACK: &'static str = "Failed to load system health";
pub const SYSTEM_FETCH_FALLBACK: &'static str = "載入系統健康資料失敗";
pub const USER_STATS_FETCH_FALLBACK: &'static str = "Failed to retrieve user statistics";
pub const DATABASE_STATS_FETCH_FALLBACK: &'static str = "Failed to get database statistics";
pub const EVENTS_OVERVIEW_FETCH_FALLBACK: &'static str = "Failed to retrieve event analytics overview";
pub const UNAUTHORIZED_FALLBACK: &'static str = "Access token required";
pub const ADMIN_ROUTE_FALLBACK: &'static str = "/login";

#[derive(Clone, Copy, Debug, PartialEq, Eq)]
pub enum OverallStatus {
    Healthy,
    Warning,
    Error,
    Unknown,
}

#[derive(Clone, Copy, Debug, PartialEq, Eq)]
pub enum ComponentStatus {
    Healthy,
    Unhealthy,
    Disabled,
}

#[derive(Clone, Copy, Debug, PartialEq, Eq)]
pub enum SystemTab {
    Overview,
    Detailed,
    Metrics,
    Diagnostics,
}

#[derive(Clone, Copy, Debug, PartialEq, Eq)]
pub enum AdminPhase {
    Loading,
    Error,
    Ready,
}

#[derive(Clone, Copy, Debug, PartialEq, Eq)]
pub enum SystemPhase {
    Loading,
    Error,
    Empty,
    Ready,
}

/// The admin pages admit sessions that may view the admin area; the others
/// go to the login page, and nothing is decided while the session is being
/// restored.
pub fn admin_route_guard(restoring: bool, permissions: &Permissions) -> (g: RouteGuard)
    ensures
        guard_matches(g, restoring, permissions.view_admin, ADMIN_ROUTE_FALLBACK@),
{
    if restoring {
        RouteGuard::Loading
    } else if !permissions.view_admin {
        RouteGuard::Redirect(ADMIN_ROUTE_FALLBACK)
    } else {
        RouteGuard::Allow
    }
}

/// The dashboard's greeting for a user's (trimmed) name.
pub open spec fn welcome_text(name: Seq<char>) -> Seq<char> {
    let name = trim(name);
    if name.len() == 0 {
        "管理系統運作並監控平台健康狀況。"@
    } else {
        "歡迎回來，"@ + name + "。管理系統運作並監控平台健康狀況。"@
    }
}

pub fn welcome_copy(name: &str) -> (s: String)
    ensures
        s@ == welcome_text(name@),
{
    let name = trim_str(name);
    if name.as_str().unicode_len() == 0 {
        String::from_str("管理系統運作並監控平台健康狀況。")
    } else {
        let mut s = String::from_str("歡迎回來，");
        s.append(name.as_str());
        s.append("。管理系統運作並監控平台健康狀況。");
        s
    }
}

/// An optional error text that is present and not blank.
pub open spec fn has_error(error: Option<&str>) -> bool {
    match error {
        Some(e) => !is_blank(e@),
        None => false,
    }
}

fn error_present(error: Option<&str>) -> (b: bool)
    ensures
        b == has_error(error),
{
    match error {
        Some(e) => !blank(e),
        None => false,
    }
}

/// The dashboard shows its spinner while loading, then the error when there
/// is a non-blank one, then the data.
pub fn admin_phase(loading: bool, error: Option<&str>) -> (p: AdminPhase)
    ensures
        p == (if loading {
            AdminPhase::Loading
        } else if has_error(error) {
            AdminPhase::Error
        } else {
            AdminPhase::Ready
        }),
{
    if loading {
        AdminPhase::Loading
    } else if error_present(error) {
        AdminPhase::Error
    } else {
        AdminPhase::Ready
    }
}

/// The system page: spinner, then error, then an empty state while no
/// status has been read, then the data.
pub fn system_phase(loading: bool, error: Option<&str>, has_status: bool) -> (p: SystemPhase)
    ensures
        p == (if loading {
            SystemPhase::Loading
        } else if has_error(error) {
            SystemPhase::Error
        } else if !has_status {
            SystemPhase::Empty
        } else {
            SystemPhase::Ready
        }),
{
    if loading {
        SystemPhase::Loading
    } else if error_present(error) {
        SystemPhase::Error
    } else if !has_status {
        SystemPhase::Empty
    } else {
        SystemPhase::Ready
    }
}

/// The classification of a reported overall status, read after trimming.
pub open spec fn overall_status_of(status: Seq<char>) -> OverallStatus {
    let s = trim(status);
    if s == "healthy"@ {
        OverallStatus::Healthy
    } else if s == "warning"@ {
        OverallStatus::Warning
    } else if s == "error"@ {
        OverallStatus::Error
    } else {
        OverallStatus::Unknown
    }
}

pub fn overall_status(status: &str) -> (o: OverallStatus)
    ensures
        o == overall_status_of(status@),
{
    let s = trim_str(status);
    if str_eq(s.as_str(), "healthy") {
        OverallStatus::Healthy
    } else if str_eq(s.as_str(), "warning") {
        OverallStatus::Warning
    } else if str_eq(s.as_str(), "error") {
        OverallStatus::Error
    } else {
        OverallStatus::Unknown
    }
}

pub open spec fn overall_status_text(status: OverallStatus) -> Seq<char> {
    match status {
        OverallStatus::Healthy => "健康"@,
        OverallStatus::Warning => "警告"@,
        OverallStatus::Error => "錯誤"@,
        OverallStatus::Unknown => "未知"@,
    }
}

pub fn overall_status_label(status: OverallStatus) -> (s: &'static str)
    ensures
        s@ == overall_status_text(status),
{
    match status {
        OverallStatus::Healthy => "健康",
        OverallStatus::Warning => "警告",
        OverallStatus::Error => "錯誤",
        OverallStatus::Unknown => "未知",
    }
}

pub open spec fn health_color_text(status: OverallStatus) -> Seq<char> {
    match status {
        OverallStatus::Healthy => "text-green-400"@,
        OverallStatus::Warning => "text-yellow-400"@,
        OverallStatus::Error => "text-red-400"@,
        OverallStatus::Unknown => "text-gray-400"@,
    }
}

pub fn health_status_color(status: &str) -> (s: &'static str)
    ensures
        s@ == health_color_text(overall_status_of(status@)),
{
    match overall_status(status) {
        OverallStatus::Healthy => "text-green-400",
        OverallStatus::Warning => "text-yellow-400",
        OverallStatus::Error => "text-red-400",
        OverallStatus::Unknown => "text-gray-400",
    }
}

pub open spec fn health_bg_text(status: OverallStatus) -> Seq<char> {
    match status {
        OverallStatus::Healthy => "bg-green-500/20"@,
        OverallStatus::Warning => "bg-yellow-500/20"@,
        OverallStatus::Error => "bg-red-500/20"@,
        OverallStatus::Unknown => "bg-gray-500/20"@,
    }
}

pub fn health_status_bg(status: &str) -> (s: &'static str)
    ensures
        s@ == health_bg_text(overall_status_of(status@)),
{
    match overall_status(status) {
        OverallStatus::Healthy => "bg-green-500/20",
        OverallStatus::Warning => "bg-yellow-500/20",
        OverallStatus::Error => "bg-red-500/20",
        OverallStatus::Unknown => "bg-gray-500/20",
    }
}

pub open spec fn health_glyph_text(status: OverallStatus) -> Seq<char> {
    match status {
        OverallStatus::Healthy => "✅"@,
        OverallStatus::Warning => "⚠️"@,
        OverallStatus::Error => "❌"@,
        OverallStatus::Unknown => "❓"@,
    }
}

pub fn health_status_glyph(status: &str) -> (s: &'static str)
    ensures
        s@ == health_glyph_text(overall_status_of(status@)),
{
    match overall_status(status) {
        OverallStatus::Healthy => "✅",
        OverallStatus::Warning => "⚠️",
        OverallStatus::Error => "❌",
        OverallStatus::Unknown => "❓",
    }
}

pub open spec fn component_color_text(status: ComponentStatus) -> Seq<char> {
    match status {
        ComponentStatus::Healthy => "text-green-400"@,
        ComponentStatus::Unhealthy => "text-red-400"@,
        ComponentStatus::Disabled => "text-yellow-400"@,
    }
}

pub fn component_status_color(status: ComponentStatus) -> (s: &'static str)
    ensures
        s@ == component_color_text(status),
{
    match status {
        ComponentStatus::Healthy => "text-green-400",
        ComponentStatus::Unhealthy => "text-red-400",
        ComponentStatus::Disabled => "text-yellow-400",
    }
}

pub fn database_status(connected: bool) -> (s: ComponentStatus)
    ensures
        s == (if connected {
            ComponentStatus::Healthy
        } else {
            ComponentStatus::Unhealthy
        }),
{
    if connected {
        ComponentStatus::Healthy
    } else {
        ComponentStatus::Unhealthy
    }
}

/// The state of the backup sync as reported, read after trimming: anything
/// but `disabled` and `healthy` counts as a problem.
pub open spec fn r2_status_of(r2_sync: Seq<char>) -> ComponentStatus {
    let s = trim(r2_sync);
    if s == "disabled"@ {
        ComponentStatus::Disabled
    } else if s == "healthy"@ {
        ComponentStatus::Healthy
    } else {
        ComponentStatus::Unhealthy
    }
}

pub fn r2_status(r2_sync: &str) -> (s: ComponentStatus)
    ensures
        s == r2_status_of(r2_sync@),
{
    let t = trim_str(r2_sync);
    if str_eq(t.as_str(), "disabled") {
        ComponentStatus::Disabled
    } else if str_eq(t.as_str(), "healthy") {
        ComponentStatus::Healthy
    } else {
        ComponentStatus::Unhealthy
    }
}

pub fn database_connection_label(loading: bool, connected: bool) -> (s: &'static str)
    ensures
        s@ == (if loading {
            "載入中..."@
        } else if connected {
            "已連線"@
        } else {
            "未連線"@
        }),
{
    if loading {
        "載入中..."
    } else if connected {
        "已連線"
    } else {
        "未連線"
    }
}

/// The caption of the backup-sync state; empty when no state was reported.
pub open spec fn r2_label_text(loading: bool, r2_sync: Option<&str>) -> Seq<char> {
    if loading {
        "載入中..."@
    } else {
        match r2_sync {
            Some(v) => if is_blank(v@) {
                Seq::empty()
            } else {
                match r2_status_of(v@) {
                    ComponentStatus::Disabled => "已停用"@,
                    ComponentStatus::Healthy => "正常"@,
                    ComponentStatus::Unhealthy => "連線問題"@,
                }
            },
            None => Seq::empty(),
        }
    }
}

pub fn r2_status_label(loading: bool, r2_sync: Option<&str>) -> (s: &'static str)
    ensures
        s@ == r2_label_text(loading, r2_sync),
{
    if loading {
        "載入中..."
    } else {
        match r2_sync {
            Some(v) => {
                if blank(v) {
                    proof {
                        reveal_strlit("");
                    }
                    ""
                } else {
                    match r2_status(v) {
                        ComponentStatus::Disabled => "已停用",
                        ComponentStatus::Healthy => "正常",
                        ComponentStatus::Unhealthy => "連線問題",
                    }
                }
            },
            None => {
                proof {
                    reveal_strlit("");
                }
                ""
            },
        }
    }
}

/// Without a browser date formatter a timestamp is shown as given.
pub fn format_timestamp(iso: &str) -> (s: String)
    ensures
        s@ == iso@,
{
    String::from_str(iso)
}

#[derive(Clone, Debug, PartialEq, Eq, Default)]
pub struct HealthCheck {
    pub success: bool,
    pub message: String,
    pub timestamp: String,
    pub version: String,
    pub database: String,
}

pub struct HealthCheckView {
    pub success: bool,
    pub message: Seq<char>,
    pub timestamp: Seq<char>,
    pub version: Seq<char>,
    pub database: Seq<char>,
}

impl View for HealthCheck {
    type V = HealthCheckView;

    open spec fn view(&self) -> HealthCheckView {
        HealthCheckView {
            success: self.success,
            message: self.message@,
            timestamp: self.timestamp@,
            version: self.version@,
            database: self.database@,
        }
    }
}

#[derive(Clone, Debug, PartialEq, Eq, Default)]
pub struct DatabaseTable {
    pub name: String,
    pub column_count: Option<i64>,
}

pub struct DatabaseTableView {
    pub name: Seq<char>,
    pub column_count: Option<i64>,
}

impl View for DatabaseTable {
    type V = DatabaseTableView;

    open spec fn view(&self) -> DatabaseTableView {
        DatabaseTableView { name: self.name@, column_count: self.column_count }
    }
}

#[derive(Clone, Debug, PartialEq, Eq, Default)]
pub struct DatabaseStats {
    pub schema_version: Option<String>,
    pub tables: Vec<DatabaseTable>,
    pub total_tables: Option<i64>,
    pub timestamp: Option<String>,
}

pub struct DatabaseStatsView {
    pub schema_version: Option<Seq<char>>,
    pub tables: Seq<DatabaseTableView>,
    pub total_tables: Option<i64>,
    pub timestamp: Option<Seq<char>>,
}

impl View for DatabaseStats {
    type V = DatabaseStatsView;

    open spec fn view(&self) -> DatabaseStatsView {
        DatabaseStatsView {
            schema_version: opt_view(self.schema_version),
            tables: self.tables@.map_values(|t: DatabaseTable| t@),
            total_tables: self.total_tables,
            timestamp: opt_view(self.timestamp),
        }
    }
}

#[derive(Clone, Debug, PartialEq, Eq, Default)]
pub struct NamedCount {
    pub key: String,
    pub count: Option<i64>,
}

pub struct NamedCountView {
    pub key: Seq<char>,
    pub count: Option<i64>,
}

impl View for NamedCount {
    type V = NamedCountView;

    open spec fn view(&self) -> NamedCountView {
        NamedCountView { key: self.key@, count: self.count }
    }
}

#[derive(Clone, Debug, PartialEq, Eq, Default)]
pub struct UserStats {
    pub total_users: Option<i64>,
    pub users_by_role: Vec<NamedCount>,
    pub users_by_membership_tier: Vec<NamedCount>,
    pub users_by_verification_status: Vec<NamedCount>,
    pub recent_registrations: Option<i64>,
}

pub struct UserStatsView {
    pub total_users: Option<i64>,
    pub users_by_role: Seq<NamedCountView>,
    pub users_by_membership_tier: Seq<NamedCountView>,
    pub users_by_verification_status: Seq<NamedCountView>,
    pub recent_registrations: Option<i64>,
}

impl View for UserStats {
    type V = UserStatsView;

    open spec fn view(&self) -> UserStatsView {
        UserStatsView {
            total_users: self.total_users,
            users_by_role: self.users_by_role@.map_values(|c: NamedCount| c@),
            users_by_membership_tier: self.users_by_membership_tier@.map_values(
                |c: NamedCount| c@,
            ),
            users_by_verification_status: self.users_by_verification_status@.map_values(
                |c: NamedCount| c@,
            ),
            recent_registrations: self.recent_registrations,
        }
    }
}

/// The admin API's reading of a response: `401` is answered with the body's
/// error or "Access token required", another status outside 2xx with the
/// body's error or the fallback, a blank or unparsable body with the
/// fallback, and a body whose `success` is not `true` with its error or
/// the fallback. What remains is the parsed body.
pub open spec fn admin_root(status: u16, body_blank: bool, parsed: Option<Json>, fallback: Seq<char>) -> Result<Json, Seq<char>> {
    if status == 401 {
        Err(error_from_parsed(parsed, UNAUTHORIZED_FALLBACK@))
    } else if !(200 <= status < 300) {
        Err(error_from_parsed(parsed, fallback))
    } else if body_blank {
        Err(fallback)
    } else {
        match parsed {
            Some(v) => if is_success(v) {
                Ok(v)
            } else {
                Err(error_message(v, fallback))
            },
            None => Err(fallback),
        }
    }
}

/// The `data` member of an accepted body; a missing or `null` one is the
/// fallback error.
pub open spec fn admin_data(root: Result<Json, Seq<char>>, fallback: Seq<char>) -> Result<Json, Seq<char>> {
    match root {
        Ok(v) => match get(v, "data"@) {
            Some(Json::Null) => Err(fallback),
            Some(d) => Ok(d),
            None => Err(fallback),
        },
        Err(e) => Err(e),
    }
}

fn parse_root(status: u16, body_blank: bool, parsed: Option<Json>, fallback: &str) -> (r: Result<Json, String>)
    ensures
        json_result(r) == admin_root(status, body_blank, parsed, fallback@),
{
    if status == 401 {
        return Err(error_from_body(&parsed, UNAUTHORIZED_FALLBACK));
    }
    if !(200 <= status && status < 300) {
        return Err(error_from_body(&parsed, fallback));
    }
    if body_blank {
        return Err(String::from_str(fallback));
    }
    match parsed {
        Some(v) => {
            if success_flag(&v) {
                Ok(v)
            } else {
                Err(json_error_message(&v, fallback))
            }
        },
        None => Err(String::from_str(fallback)),
    }
}

/// The health record of an accepted body.
pub open spec fn health_check_of(v: Json) -> HealthCheckView {
    HealthCheckView {
        success: true,
        message: view_or_empty(json_text(get(v, "message"@))),
        timestamp: view_or_empty(json_text(get(v, "timestamp"@))),
        version: view_or_empty(json_text(get(v, "version"@))),
        database: view_or_empty(json_text(get(v, "database"@))),
    }
}

pub open spec fn health_result(status: u16, body_blank: bool, parsed: Option<Json>) -> Result<HealthCheckView, Seq<char>> {
    match admin_root(status, body_blank, parsed, HEALTH_FETCH_FALLBACK@) {
        Ok(v) => Ok(health_check_of(v)),
        Err(e) => Err(e),
    }
}

/// Decodes the health endpoint's answer, given its status, whether its body
/// is blank, and the body as parsed.
pub fn health_from_json(status: u16, body_blank: bool, parsed: Option<Json>) -> (r: Result<HealthCheck, String>)
    ensures
        view_result(r) == health_result(status, body_blank, parsed),
{
    let root = parse_root(status, body_blank, parsed, HEALTH_FETCH_FALLBACK);
    match root {
        Ok(v) => Ok(
            HealthCheck {
                success: true,
                message: json_string_or_empty(json_get(&v, "message")),
                timestamp: json_string_or_empty(json_get(&v, "timestamp")),
                version: json_string_or_empty(json_get(&v, "version")),
                database: json_string_or_empty(json_get(&v, "database")),
            },
        ),
        Err(e) => Err(e),
    }
}

pub fn parse_health_response(status: u16, body: &str) -> (r: Result<HealthCheck, String>)
    ensures
        view_result(r) == health_result(status, is_blank(body@), parsed_json(body@)),
{
    health_from_json(status, blank(body), parse_json(body))
}

/// `parse_database_table`: a row with a non-empty `name`.
pub open spec fn database_table_of(row: Json) -> Option<DatabaseTableView> {
    match json_text(get(row, "name"@)) {
        Some(name) => if name.len() > 0 {
            Some(DatabaseTableView { name, column_count: json_i64_spec(get(row, "columnCount"@)) })
        } else {
            None
        },
        None => None,
    }
}

fn parse_database_table(row: &Json) -> (r: Option<DatabaseTable>)
    ensures
        match r {
            Some(t) => database_table_of(*row) == Some(t@),
            None => database_table_of(*row).is_none(),
        },
{
    match json_string(json_get(row, "name")) {
        Some(name) => {
            if name.as_str().unicode_len() > 0 {
                Some(DatabaseTable { name, column_count: json_i64(json_get(row, "columnCount")) })
            } else {
                None
            }
        },
        None => None,
    }
}

/// The database statistics of an accepted `data` member.
pub open spec fn database_stats_of(data: Json) -> DatabaseStatsView {
    DatabaseStatsView {
        schema_version: json_text(get(data, "schemaVersion"@)),
        tables: filter_map_seq(array_items(get(data, "tables"@)), |row: Json| database_table_of(row)),
        total_tables: json_i64_spec(get_in(get(data, "meta"@), "totalTables"@)),
        timestamp: json_text(get_in(get(data, "meta"@), "timestamp"@)),
    }
}

pub open spec fn database_stats_result(status: u16, body_blank: bool, parsed: Option<Json>) -> Result<DatabaseStatsView, Seq<char>> {
    match admin_data(admin_root(status, body_blank, parsed, DATABASE_STATS_FETCH_FALLBACK@), DATABASE_STATS_FETCH_FALLBACK@) {
        Ok(d) => Ok(database_stats_of(d)),
        Err(e) => Err(e),
    }
}

fn database_tables(v: Option<&Json>) -> (r: Vec<DatabaseTable>)
    ensures
        r@.map_values(|t: DatabaseTable| t@) == filter_map_seq(
            array_items(crate::json::deref_opt(v)),
            |row: Json| database_table_of(row),
        ),
{
    let mut out: Vec<DatabaseTable> = Vec::new();
    match v {
        Some(Json::Array(items)) => {
            let n = items.len();
            let mut i: usize = 0;
            while i < n
                invariant
                    n == items@.len(),
                    i <= n,
                    out@.map_values(|t: DatabaseTable| t@) == filter_map_seq(
                        items@.subrange(0, i as int),
                        |row: Json| database_table_of(row),
                    ),
                decreases n - i,
            {
                proof {
                    lemma_filter_map_step(items@, i as int, |row: Json| database_table_of(row));
                }
                match parse_database_table(&items[i]) {
                    Some(t) => {
                        out.push(t);
                    },
                    None => {},
                }
                i = i + 1;
                assert(out@.map_values(|t: DatabaseTable| t@) =~= filter_map_seq(
                    items@.subrange(0, i as int),
                    |row: Json| database_table_of(row),
                ));
            }
            proof {
                lemma_full_prefix(items@);
            }
            out
        },
        _ => {
            assert(out@.map_values(|t: DatabaseTable| t@) =~= Seq::empty());
            out
        },
    }
}

/// Decodes the database-statistics answer, given its status, whether its
/// body is blank, and the body as parsed.
pub fn database_stats_from_json(status: u16, body_blank: bool, parsed: Option<Json>) -> (r: Result<DatabaseStats, String>)
    ensures
        view_result(r) == database_stats_result(status, body_blank, parsed),
{
    let root = parse_root(status, body_blank, parsed, DATABASE_STATS_FETCH_FALLBACK);
    match root {
        Ok(v) => {
            match json_get(&v, "data") {
                Some(data) => {
                    if let Json::Null = data {
                        return Err(String::from_str(DATABASE_STATS_FETCH_FALLBACK));
                    }
                    let meta = json_get(data, "meta");
                    Ok(
                        DatabaseStats {
                            schema_version: json_string(json_get(data, "schemaVersion")),
                            tables: database_tables(json_get(data, "tables")),
                            total_tables: json_i64(json_get_in(meta, "totalTables")),
                            timestamp: json_string(json_get_in(meta, "timestamp")),
                        },
                    )
                },
                None => Err(String::from_str(DATABASE_STATS_FETCH_FALLBACK)),
            }
        },
        Err(e) => Err(e),
    }
}

pub fn parse_database_stats_response(status: u16, body: &str) -> (r: Result<DatabaseStats, String>)
    ensures
        view_result(r) == database_stats_result(status, is_blank(body@), parsed_json(body@)),
{
    database_stats_from_json(status, blank(body), parse_json(body))
}

/// `parse_named_counts`: a row whose `key` member is a string.
pub open spec fn named_count_of(row: Json, key: Seq<char>) -> Option<NamedCountView> {
    match json_text(get(row, key)) {
        Some(name) => Some(NamedCountView { key: name, count: json_i64_spec(get(row, "count"@)) }),
        None => None,
    }
}

fn parse_named_counts(v: Option<&Json>, key: &str) -> (r: Vec<NamedCount>)
    ensures
        r@.map_values(|c: NamedCount| c@) == filter_map_seq(
            array_items(crate::json::deref_opt(v)),
            |row: Json| named_count_of(row, key@),
        ),
{
    let mut out: Vec<NamedCount> = Vec::new();
    match v {
        Some(Json::Array(items)) => {
            let n = items.len();
            let mut i: usize = 0;
            while i < n
                invariant
                    n == items@.len(),
                    i <= n,
                    out@.map_values(|c: NamedCount| c@) == filter_map_seq(
                        items@.subrange(0, i as int),
                        |row: Json| named_count_of(row, key@),
                    ),
                decreases n - i,
            {
                proof {
                    lemma_filter_map_step(items@, i as int, |row: Json| named_count_of(row, key@));
                }
                let row = &items[i];
                match json_string(json_get(row, key)) {
                    Some(name) => {
                        out.push(NamedCount { key: name, count: json_i64(json_get(row, "count")) });
                    },
                    None => {},
                }
                i = i + 1;
                assert(out@.map_values(|c: NamedCount| c@) =~= filter_map_seq(
                    items@.subrange(0, i as int),
                    |row: Json| named_count_of(row, key@),
                ));
            }
            proof {
                lemma_full_prefix(items@);
            }
            out
        },
        _ => {
            assert(out@.map_values(|c: NamedCount| c@) =~= Seq::empty());
            out
        },
    }
}

/// The user statistics of an accepted `data` member.
pub open spec fn user_stats_of(data: Json) -> UserStatsView {
    UserStatsView {
        total_users: json_i64_spec(get(data, "totalUsers"@)),
        users_by_role: filter_map_seq(array_items(get(data, "usersByRole"@)), |row: Json| named_count_of(row, "role"@)),
        users_by_membership_tier: filter_map_seq(
            array_items(get(data, "usersByMembershipTier"@)),
            |row: Json| named_count_of(row, "membership_tier"@),
        ),
        users_by_verification_status: filter_map_seq(
            array_items(get(data, "usersByVerificationStatus"@)),
            |row: Json| named_count_of(row, "verification_status"@),
        ),
        recent_registrations: json_i64_spec(get(data, "recentRegistrations"@)),
    }
}

pub open spec fn user_stats_result(status: u16, body_blank: bool, parsed: Option<Json>) -> Result<UserStatsView, Seq<char>> {
    match admin_data(admin_root(status, body_blank, parsed, USER_STATS_FETCH_FALLBACK@), USER_STATS_FETCH_FALLBACK@) {
        Ok(d) => Ok(user_stats_of(d)),
        Err(e) => Err(e),
    }
}

/// Decodes the user-statistics answer, given its status, whether its body
/// is blank, and the body as parsed.
pub fn user_stats_from_json(status: u16, body_blank: bool, parsed: Option<Json>) -> (r: Result<UserStats, String>)
    ensures
        view_result(r) == user_stats_result(status, body_blank, parsed),
{
    let root = parse_root(status, body_blank, parsed, USER_STATS_FETCH_FALLBACK);
    match root {
        Ok(v) => {
            match json_get(&v, "data") {
                Some(data) => {
                    if let Json::Null = data {
                        return Err(String::from_str(USER_STATS_FETCH_FALLBACK));
                    }
                    Ok(
                        UserStats {
                            total_users: json_i64(json_get(data, "totalUsers")),
                            users_by_role: parse_named_counts(json_get(data, "usersByRole"), "role"),
                            users_by_membership_tier: parse_named_counts(
                                json_get(data, "usersByMembershipTier"),
                                "membership_tier",
                            ),
                            users_by_verification_status: parse_named_counts(
                                json_get(data, "usersByVerificationStatus"),
                                "verification_status",
                            ),
                            recent_registrations: json_i64(json_get(data, "recentRegistrations")),
                        },
                    )
                },
                None => Err(String::from_str(USER_STATS_FETCH_FALLBACK)),
            }
        },
        Err(e) => Err(e),
    }
}

pub fn parse_user_stats_response(status: u16, body: &str) -> (r: Result<UserStats, String>)
    ensures
        view_result(r) == user_stats_result(status, is_blank(body@), parsed_json(body@)),
{
    user_stats_from_json(status, blank(body), parse_json(body))
}

/// An error of the system page: a blank one becomes the page's own message.
pub fn system_fetch_error(error: String) -> (r: String)
    ensures
        r@ == (if is_blank(error@) {
            SYSTEM_FETCH_FALLBACK@
        } else {
            error@
        }),
{
    if blank(error.as_str()) {
        String::from_str(SYSTEM_FETCH_FALLBACK)
    } else {
        error
    }
}


/// The server's detailed status. Its uptime is the text the API sent (a
/// number's printed form, or a string); reading it as a number of seconds
/// is left to the caller.
#[derive(Clone, Debug, PartialEq, Eq, Default)]
pub struct HealthStatus {
    pub success: bool,
    pub status: String,
    pub uptime: Option<String>,
    pub uptime_formatted: Option<String>,
    pub memory_rss: Option<String>,
    pub memory_heap_used: Option<String>,
    pub memory_heap_total: Option<String>,
    pub node_version: Option<String>,
    pub platform: Option<String>,
    pub database_type: Option<String>,
    pub r2_sync: Option<String>,
    pub environment: Option<String>,
    pub timestamp: Option<String>,
}

pub struct HealthStatusView {
    pub success: bool,
    pub status: Seq<char>,
    pub uptime: Option<Seq<char>>,
    pub uptime_formatted: Option<Seq<char>>,
    pub memory_rss: Option<Seq<char>>,
    pub memory_heap_used: Option<Seq<char>>,
    pub memory_heap_total: Option<Seq<char>>,
    pub node_version: Option<Seq<char>>,
    pub platform: Option<Seq<char>>,
    pub database_type: Option<Seq<char>>,
    pub r2_sync: Option<Seq<char>>,
    pub environment: Option<Seq<char>>,
    pub timestamp: Option<Seq<char>>,
}

impl View for HealthStatus {
    type V = HealthStatusView;

    open spec fn view(&self) -> HealthStatusView {
        HealthStatusView {
            success: self.success,
            status: self.status@,
            uptime: opt_view(self.uptime),
            uptime_formatted: opt_view(self.uptime_formatted),
            memory_rss: opt_view(self.memory_rss),
            memory_heap_used: opt_view(self.memory_heap_used),
            memory_heap_total: opt_view(self.memory_heap_total),
            node_version: opt_view(self.node_version),
            platform: opt_view(self.platform),
            database_type: opt_view(self.database_type),
            r2_sync: opt_view(self.r2_sync),
            environment: opt_view(self.environment),
            timestamp: opt_view(self.timestamp),
        }
    }
}

/// The detailed status of an accepted body: its `status`, the `server`
/// readings (uptime, memory, runtime), the `database` type and backup
/// sync, the environment and the time of the reading.
pub open spec fn health_status_of(v: Json) -> HealthStatusView {
    let server = get(v, "server"@);
    let memory = get_in(server, "memory"@);
    let database = get(v, "database"@);
    HealthStatusView {
        success: true,
        status: view_or_empty(json_text(get(v, "status"@))),
        uptime: amount_text(get_in(server, "uptime"@)),
        uptime_formatted: json_text(get_in(server, "uptimeFormatted"@)),
        memory_rss: json_text(get_in(memory, "rss"@)),
        memory_heap_used: json_text(get_in(memory, "heapUsed"@)),
        memory_heap_total: json_text(get_in(memory, "heapTotal"@)),
        node_version: json_text(get_in(server, "nodeVersion"@)),
        platform: json_text(get_in(server, "platform"@)),
        database_type: json_text(get_in(database, "type"@)),
        r2_sync: json_text(get_in(database, "r2Sync"@)),
        environment: json_text(get(v, "environment"@)),
        timestamp: json_text(get(v, "timestamp"@)),
    }
}

pub open spec fn health_status_result(status: u16, body_blank: bool, parsed: Option<Json>) -> Result<HealthStatusView, Seq<char>> {
    match admin_root(status, body_blank, parsed, HEALTH_FETCH_FALLBACK@) {
        Ok(v) => Ok(health_status_of(v)),
        Err(e) => Err(e),
    }
}

/// Decodes the detailed status answer, given its status, whether its body
/// is blank, and the body as parsed.
pub fn health_status_from_json(status: u16, body_blank: bool, parsed: Option<Json>) -> (r: Result<HealthStatus, String>)
    ensures
        view_result(r) == health_status_result(status, body_blank, parsed),
{
    let root = parse_root(status, body_blank, parsed, HEALTH_FETCH_FALLBACK);
    match root {
        Ok(v) => {
            let server = json_get(&v, "server");
            let memory = json_get_in(server, "memory");
            let database = json_get(&v, "database");
            Ok(
                HealthStatus {
                    success: true,
                    status: json_string_or_empty(json_get(&v, "status")),
                    uptime: json_amount(json_get_in(server, "uptime")),
                    uptime_formatted: json_string(json_get_in(server, "uptimeFormatted")),
                    memory_rss: json_string(json_get_in(memory, "rss")),
                    memory_heap_used: json_string(json_get_in(memory, "heapUsed")),
                    memory_heap_total: json_string(json_get_in(memory, "heapTotal")),
                    node_version: json_string(json_get_in(server, "nodeVersion")),
                    platform: json_string(json_get_in(server, "platform")),
                    database_type: json_string(json_get_in(database, "type")),
                    r2_sync: json_string(json_get_in(database, "r2Sync")),
                    environment: json_string(json_get(&v, "environment")),
                    timestamp: json_string(json_get(&v, "timestamp")),
                },
            )
        },
        Err(e) => Err(e),
    }
}

pub fn parse_health_status_response(status: u16, body: &str) -> (r: Result<HealthStatus, String>)
    ensures
        view_result(r) == health_status_result(status, is_blank(body@), parsed_json(body@)),
{
    health_status_from_json(status, blank(body), parse_json(body))
}

/// One of the most booked events. Its occupancy rate is the text the API
/// sent; reading it as a number is left to the caller.
#[derive(Clone, Debug, PartialEq, Eq, Default)]
pub struct PopularEvent {
    pub id: String,
    pub name: String,
    pub date_time: Option<String>,
    pub capacity: Option<i64>,
    pub current_attendees: Option<i64>,
    pub occupancy_rate: Option<String>,
}

pub struct PopularEventView {
    pub id: Seq<char>,
    pub name: Seq<char>,
    pub date_time: Option<Seq<char>>,
    pub capacity: Option<i64>,
    pub current_attendees: Option<i64>,
    pub occupancy_rate: Option<Seq<char>>,
}

impl View for PopularEvent {
    type V = PopularEventView;

    open spec fn view(&self) -> PopularEventView {
        PopularEventView {
            id: self.id@,
            name: self.name@,
            date_time: opt_view(self.date_time),
            capacity: self.capacity,
            current_attendees: self.current_attendees,
            occupancy_rate: opt_view(self.occupancy_rate),
        }
    }
}

/// The event analytics of a period. The average occupancy rate is the text
/// the API sent; reading it as a number is left to the caller.
#[derive(Clone, Debug, PartialEq, Eq, Default)]
pub struct EventsOverview {
    pub period_days: Option<i64>,
    pub total_events: Option<i64>,
    pub recent_events: Option<i64>,
    pub upcoming_events: Option<i64>,
    pub past_events: Option<i64>,
    pub avg_occupancy_rate: Option<String>,
    pub total_registrations: Option<i64>,
    pub recent_registrations: Option<i64>,
    pub unique_attendees: Option<i64>,
    pub popular_events: Vec<PopularEvent>,
}

pub struct EventsOverviewView {
    pub period_days: Option<i64>,
    pub total_events: Option<i64>,
    pub recent_events: Option<i64>,
    pub upcoming_events: Option<i64>,
    pub past_events: Option<i64>,
    pub avg_occupancy_rate: Option<Seq<char>>,
    pub total_registrations: Option<i64>,
    pub recent_registrations: Option<i64>,
    pub unique_attendees: Option<i64>,
    pub popular_events: Seq<PopularEventView>,
}

impl View for EventsOverview {
    type V = EventsOverviewView;

    open spec fn view(&self) -> EventsOverviewView {
        EventsOverviewView {
            period_days: self.period_days,
            total_events: self.total_events,
            recent_events: self.recent_events,
            upcoming_events: self.upcoming_events,
            past_events: self.past_events,
            avg_occupancy_rate: opt_view(self.avg_occupancy_rate),
            total_registrations: self.total_registrations,
            recent_registrations: self.recent_registrations,
            unique_attendees: self.unique_attendees,
            popular_events: self.popular_events@.map_values(|e: PopularEvent| e@),
        }
    }
}

/// A popular-event row: one with an id.
pub open spec fn popular_event_of(row: Json) -> Option<PopularEventView> {
    match json_id_spec(get(row, "id"@)) {
        Some(id) => Some(
            PopularEventView {
                id,
                name: view_or_empty(json_text(get(row, "name"@))),
                date_time: json_text(get(row, "date_time"@)),
                capacity: json_i64_spec(get(row, "capacity"@)),
                current_attendees: json_i64_spec(get(row, "current_attendees"@)),
                occupancy_rate: amount_text(get(row, "occupancy_rate"@)),
            },
        ),
        None => None,
    }
}

/// The overview of an accepted `data` member: the period, the `event_stats`
/// and `registration_stats` counts, and the popular-event rows with an id.
pub open spec fn events_overview_of(d: Json) -> EventsOverviewView {
    let stats = get(d, "event_stats"@);
    let regs = get(d, "registration_stats"@);
    EventsOverviewView {
        period_days: json_i64_spec(get(d, "period_days"@)),
        total_events: json_i64_spec(get_in(stats, "total_events"@)),
        recent_events: json_i64_spec(get_in(stats, "recent_events"@)),
        upcoming_events: json_i64_spec(get_in(stats, "upcoming_events"@)),
        past_events: json_i64_spec(get_in(stats, "past_events"@)),
        avg_occupancy_rate: amount_text(get_in(stats, "avg_occupancy_rate"@)),
        total_registrations: json_i64_spec(get_in(regs, "total_registrations"@)),
        recent_registrations: json_i64_spec(get_in(regs, "recent_registrations"@)),
        unique_attendees: json_i64_spec(get_in(regs, "unique_attendees"@)),
        popular_events: filter_map_seq(
            array_items(get(d, "popular_events"@)),
            |row: Json| popular_event_of(row),
        ),
    }
}

pub open spec fn events_overview_result(status: u16, body_blank: bool, parsed: Option<Json>) -> Result<EventsOverviewView, Seq<char>> {
    match admin_data(
        admin_root(status, body_blank, parsed, EVENTS_OVERVIEW_FETCH_FALLBACK@),
        EVENTS_OVERVIEW_FETCH_FALLBACK@,
    ) {
        Ok(d) => Ok(events_overview_of(d)),
        Err(e) => Err(e),
    }
}

fn popular_events_of(v: Option<&Json>) -> (r: Vec<PopularEvent>)
    ensures
        r@.map_values(|e: PopularEvent| e@) == filter_map_seq(
            array_items(crate::json::deref_opt(v)),
            |row: Json| popular_event_of(row),
        ),
{
    let mut out: Vec<PopularEvent> = Vec::new();
    match v {
        Some(Json::Array(rows)) => {
            let n = rows.len();
            let mut i: usize = 0;
            while i < n
                invariant
                    n == rows@.len(),
                    i <= n,
                    out@.map_values(|e: PopularEvent| e@) == filter_map_seq(
                        rows@.subrange(0, i as int),
                        |row: Json| popular_event_of(row),
                    ),
                decreases n - i,
            {
                proof {
                    lemma_filter_map_step(rows@, i as int, |row: Json| popular_event_of(row));
                }
                let row = &rows[i];
                match json_id(json_get(row, "id")) {
                    Some(id) => {
                        let e = PopularEvent {
                            id,
                            name: json_string_or_empty(json_get(row, "name")),
                            date_time: json_string(json_get(row, "date_time")),
                            capacity: json_i64(json_get(row, "capacity")),
                            current_attendees: json_i64(json_get(row, "current_attendees")),
                            occupancy_rate: json_amount(json_get(row, "occupancy_rate")),
                        };
                        let ghost before = out@.map_values(|e: PopularEvent| e@);
                        out.push(e);
                        assert(out@.map_values(|e: PopularEvent| e@) =~= before.push(e@));
                    },
                    None => {},
                }
                i = i + 1;
            }
            proof {
                lemma_full_prefix(rows@);
            }
            out
        },
        _ => {
            assert(out@.map_values(|e: PopularEvent| e@) =~= Seq::<PopularEventView>::empty());
            out
        },
    }
}

/// Decodes the event-analytics overview, given its status, whether its
/// body is blank, and the body as parsed.
pub fn events_overview_from_json(status: u16, body_blank: bool, parsed: Option<Json>) -> (r: Result<EventsOverview, String>)
    ensures
        view_result(r) == events_overview_result(status, body_blank, parsed),
{
    let root = parse_root(status, body_blank, parsed, EVENTS_OVERVIEW_FETCH_FALLBACK);
    match root {
        Ok(v) => match json_get(&v, "data") {
            Some(d) => {
                if let Json::Null = d {
                    return Err(String::from_str(EVENTS_OVERVIEW_FETCH_FALLBACK));
                }
                let stats = json_get(d, "event_stats");
                let regs = json_get(d, "registration_stats");
                Ok(
                    EventsOverview {
                        period_days: json_i64(json_get(d, "period_days")),
                        total_events: json_i64(json_get_in(stats, "total_events")),
                        recent_events: json_i64(json_get_in(stats, "recent_events")),
                        upcoming_events: json_i64(json_get_in(stats, "upcoming_events")),
                        past_events: json_i64(json_get_in(stats, "past_events")),
                        avg_occupancy_rate: json_amount(json_get_in(stats, "avg_occupancy_rate")),
                        total_registrations: json_i64(json_get_in(regs, "total_registrations")),
                        recent_registrations: json_i64(json_get_in(regs, "recent_registrations")),
                        unique_attendees: json_i64(json_get_in(regs, "unique_attendees")),
                        popular_events: popular_events_of(json_get(d, "popular_events")),
                    },
                )
            },
            None => Err(String::from_str(EVENTS_OVERVIEW_FETCH_FALLBACK)),
        },
        Err(e) => Err(e),
    }
}

pub fn parse_events_overview_response(status: u16, body: &str) -> (r: Result<EventsOverview, String>)
    ensures
        view_result(r) == events_overview_result(status, is_blank(body@), parsed_json(body@)),
{
    events_overview_from_json(status, blank(body), parse_json(body))
}

/// What the admin dashboard shows.
#[derive(Clone, Debug, PartialEq, Eq, Default)]
pub struct AdminDashboardData {
    pub health: HealthCheck,
    pub status: HealthStatus,
    pub users: UserStats,
}

/// What the system-health page shows.
#[derive(Clone, Debug, PartialEq, Eq, Default)]
pub struct SystemHealthBundle {
    pub health: HealthCheck,
    pub status: HealthStatus,
    pub database: DatabaseStats,
    pub users: UserStats,
    pub events: EventsOverview,
}

/// Each field of `health_check_of` is read from its own key of the API row: `message` from
/// `"message"`, `timestamp` from `"timestamp"`, `version` from `"version"`, `database` from
/// `"database"`.
pub proof fn lemma_health_check_of_reads_keys(v: Json)
    ensures
        match get(v, "message"@) { Some(Json::Text(t)) => health_check_of(v).message == t@, _ => health_check_of(v).message.len() == 0 },
        match get(v, "timestamp"@) { Some(Json::Text(t)) => health_check_of(v).timestamp == t@, _ => health_check_of(v).timestamp.len() == 0 },
        match get(v, "version"@) { Some(Json::Text(t)) => health_check_of(v).version == t@, _ => health_check_of(v).version.len() == 0 },
        match get(v, "database"@) { Some(Json::Text(t)) => health_check_of(v).database == t@, _ => health_check_of(v).database.len() == 0 },
{
}

/// Each field of `database_stats_of` is read from its own key of the API row: `schema_version`
/// from `"schemaVersion"`.
pub proof fn lemma_database_stats_of_reads_keys(data: Json)
    ensures
        match get(data, "schemaVersion"@) { Some(Json::Text(t)) => database_stats_of(data).schema_version == Some(t@), _ => database_stats_of(data).schema_version is None },
{
}

/// Each field of `health_status_of` is read from its own key of the API row: `status` from
/// `"status"`, `environment` from `"environment"`, `timestamp` from `"timestamp"`.
pub proof fn lemma_health_status_of_reads_keys(v: Json)
    ensures
        match get(v, "status"@) { Some(Json::Text(t)) => health_status_of(v).status == t@, _ => health_status_of(v).status.len() == 0 },
        match get(v, "environment"@) { Some(Json::Text(t)) => health_status_of(v).environment == Some(t@), _ => health_status_of(v).environment is None },
        match get(v, "timestamp"@) { Some(Json::Text(t)) => health_status_of(v).timestamp == Some(t@), _ => health_status_of(v).timestamp is None },
{
}

/// Each field of `popular_event_of` is read from its own key of the API row: `name` from
/// `"name"`, `date_time` from `"date_time"`, `occupancy_rate` from `"occupancy_rate"`.
pub proof fn lemma_popular_event_of_reads_keys(row: Json)
    requires
        popular_event_of(row) is Some,
    ensures
        match get(row, "name"@) { Some(Json::Text(t)) => popular_event_of(row).unwrap().name == t@, _ => popular_event_of(row).unwrap().name.len() == 0 },
        match get(row, "date_time"@) { Some(Json::Text(t)) => popular_event_of(row).unwrap().date_time == Some(t@), _ => popular_event_of(row).unwrap().date_time is None },
        match get(row, "occupancy_rate"@) { Some(Json::Text(t)) => popular_event_of(row).unwrap().occupancy_rate == Some(t@), Some(Json::Number(n)) => popular_event_of(row).unwrap().occupancy_rate == Some(n.text@), _ => popular_event_of(row).unwrap().occupancy_rate is None },
{
}

} // verus!
