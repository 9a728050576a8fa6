use hesocial_frontend::admin::{
    admin_phase, admin_route_guard, component_status_color, database_connection_label,
    database_status, format_timestamp, health_status_bg, health_status_color, health_status_glyph,
    overall_status, overall_status_label, parse_database_stats_response,
    parse_events_overview_response, parse_health_response, parse_health_status_response,
    parse_user_stats_response, r2_status, r2_status_label, system_fetch_error, system_phase,
    welcome_copy, AdminPhase, ComponentStatus, OverallStatus, SystemPhase,
    DATABASE_STATS_FETCH_FALLBACK, EVENTS_OVERVIEW_FETCH_FALLBACK, HEALTH_FETCH_FALLBACK,
    SYSTEM_FETCH_FALLBACK, UNAUTHORIZED_FALLBACK, USER_STATS_FETCH_FALLBACK,
};
use hesocial_frontend::permissions::{Permissions, RouteGuard};

fn perms(view_admin: bool) -> Permissions {
    Permissions { view_admin, event_management: false, manage_super_admin: false }
}

#[test]
fn admin_guard_waits_redirects_and_allows() {
    assert_eq!(admin_route_guard(true, &perms(true)), RouteGuard::Loading);
    assert_eq!(admin_route_guard(true, &perms(false)), RouteGuard::Loading);
    assert_eq!(admin_route_guard(false, &perms(false)), RouteGuard::Redirect("/login"));
    assert_eq!(admin_route_guard(false, &perms(true)), RouteGuard::Allow);
}

#[test]
fn welcome_copy_greets_by_trimmed_name() {
    assert_eq!(welcome_copy("  Alice "), "歡迎回來，Alice。管理系統運作並監控平台健康狀況。");
    assert_eq!(welcome_copy("   "), "管理系統運作並監控平台健康狀況。");
    assert_eq!(welcome_copy(""), "管理系統運作並監控平台健康狀況。");
}

#[test]
fn admin_and_system_phases() {
    assert_eq!(admin_phase(true, Some("boom")), AdminPhase::Loading);
    assert_eq!(admin_phase(false, Some("boom")), AdminPhase::Error);
    assert_eq!(admin_phase(false, Some("  ")), AdminPhase::Ready);
    assert_eq!(admin_phase(false, None), AdminPhase::Ready);
    assert_eq!(system_phase(true, None, false), SystemPhase::Loading);
    assert_eq!(system_phase(false, Some("x"), true), SystemPhase::Error);
    assert_eq!(system_phase(false, Some(" "), false), SystemPhase::Empty);
    assert_eq!(system_phase(false, None, true), SystemPhase::Ready);
}

#[test]
fn overall_status_reads_trimmed_words() {
    assert_eq!(overall_status(" healthy "), OverallStatus::Healthy);
    assert_eq!(overall_status("warning"), OverallStatus::Warning);
    assert_eq!(overall_status("error"), OverallStatus::Error);
    assert_eq!(overall_status("Healthy"), OverallStatus::Unknown);
    assert_eq!(overall_status_label(OverallStatus::Healthy), "健康");
    assert_eq!(overall_status_label(OverallStatus::Unknown), "未知");
    assert_eq!(health_status_color("healthy"), "text-green-400");
    assert_eq!(health_status_color("warning"), "text-yellow-400");
    assert_eq!(health_status_bg("error"), "bg-red-500/20");
    assert_eq!(health_status_bg("?"), "bg-gray-500/20");
    assert_eq!(health_status_glyph("healthy"), "✅");
    assert_eq!(health_status_glyph("nope"), "❓");
}

#[test]
fn component_statuses_and_labels() {
    assert_eq!(database_status(true), ComponentStatus::Healthy);
    assert_eq!(database_status(false), ComponentStatus::Unhealthy);
    assert_eq!(r2_status(" disabled "), ComponentStatus::Disabled);
    assert_eq!(r2_status("healthy"), ComponentStatus::Healthy);
    assert_eq!(r2_status("syncing"), ComponentStatus::Unhealthy);
    assert_eq!(component_status_color(ComponentStatus::Disabled), "text-yellow-400");
    assert_eq!(database_connection_label(true, true), "載入中...");
    assert_eq!(database_connection_label(false, true), "已連線");
    assert_eq!(database_connection_label(false, false), "未連線");
    assert_eq!(r2_status_label(true, Some("healthy")), "載入中...");
    assert_eq!(r2_status_label(false, Some("healthy")), "正常");
    assert_eq!(r2_status_label(false, Some("disabled")), "已停用");
    assert_eq!(r2_status_label(false, Some("down")), "連線問題");
    assert_eq!(r2_status_label(false, Some("  ")), "");
    assert_eq!(r2_status_label(false, None), "");
}

#[test]
fn timestamp_passes_through_off_the_browser() {
    assert_eq!(format_timestamp("2024-01-02T03:04:05Z"), "2024-01-02T03:04:05Z");
}

#[test]
fn system_fetch_error_replaces_blank_messages() {
    assert_eq!(system_fetch_error("  ".to_string()), SYSTEM_FETCH_FALLBACK);
    assert_eq!(system_fetch_error("bad".to_string()), "bad");
}

#[test]
fn health_response_fields_and_errors() {
    let ok = parse_health_response(
        200,
        r#"{"success":true,"message":"OK","timestamp":"t","version":"1.2","database":"duckdb"}"#,
    )
    .unwrap();
    assert!(ok.success);
    assert_eq!(ok.message, "OK");
    assert_eq!(ok.version, "1.2");
    assert_eq!(ok.database, "duckdb");
    assert_eq!(
        parse_health_response(401, r#"{"error":" expired "}"#).unwrap_err(),
        "expired"
    );
    assert_eq!(parse_health_response(401, "not json").unwrap_err(), UNAUTHORIZED_FALLBACK);
    assert_eq!(
        parse_health_response(500, r#"{"error":"down"}"#).unwrap_err(),
        "down"
    );
    assert_eq!(parse_health_response(200, "   ").unwrap_err(), HEALTH_FETCH_FALLBACK);
    assert_eq!(parse_health_response(200, "{oops").unwrap_err(), HEALTH_FETCH_FALLBACK);
    assert_eq!(
        parse_health_response(200, r#"{"success":false,"error":"nope"}"#).unwrap_err(),
        "nope"
    );
    assert_eq!(
        parse_health_response(200, r#"{"success":"true"}"#).unwrap_err(),
        HEALTH_FETCH_FALLBACK
    );
}

#[test]
fn health_status_response_reads_server_and_database() {
    let s = parse_health_status_response(
        200,
        r#"{"success":true,"status":"healthy","server":{"uptime":3661.5,"uptimeFormatted":"1h","memory":{"rss":"10MB","heapUsed":"5MB","heapTotal":"8MB"},"nodeVersion":"v22","platform":"linux"},"database":{"type":"duckdb","r2Sync":"healthy"},"environment":"production","timestamp":"now"}"#,
    )
    .unwrap();
    assert!(s.success);
    assert_eq!(s.status, "healthy");
    assert_eq!(s.uptime.as_deref(), Some("3661.5"));
    assert_eq!(s.uptime_formatted.as_deref(), Some("1h"));
    assert_eq!(s.memory_heap_used.as_deref(), Some("5MB"));
    assert_eq!(s.node_version.as_deref(), Some("v22"));
    assert_eq!(s.database_type.as_deref(), Some("duckdb"));
    assert_eq!(s.r2_sync.as_deref(), Some("healthy"));
    assert_eq!(s.environment.as_deref(), Some("production"));
    let bare = parse_health_status_response(200, r#"{"success":true}"#).unwrap();
    assert_eq!(bare.status, "");
    assert_eq!(bare.uptime, None);
    assert_eq!(bare.platform, None);
}

#[test]
fn database_stats_keep_named_tables() {
    let d = parse_database_stats_response(
        200,
        r#"{"success":true,"data":{"schemaVersion":"3","tables":[{"name":"users","columnCount":12},{"name":""},{"columnCount":4},{"name":"events","columnCount":"7"}],"meta":{"totalTables":2,"timestamp":"t"}}}"#,
    )
    .unwrap();
    assert_eq!(d.schema_version.as_deref(), Some("3"));
    assert_eq!(d.tables.len(), 2);
    assert_eq!(d.tables[0].name, "users");
    assert_eq!(d.tables[0].column_count, Some(12));
    assert_eq!(d.tables[1].name, "events");
    assert_eq!(d.tables[1].column_count, Some(7));
    assert_eq!(d.total_tables, Some(2));
    assert_eq!(d.timestamp.as_deref(), Some("t"));
    assert_eq!(
        parse_database_stats_response(200, r#"{"success":true,"data":null}"#).unwrap_err(),
        DATABASE_STATS_FETCH_FALLBACK
    );
    assert_eq!(
        parse_database_stats_response(200, r#"{"success":true}"#).unwrap_err(),
        DATABASE_STATS_FETCH_FALLBACK
    );
}

#[test]
fn user_stats_read_counts_by_key() {
    let u = parse_user_stats_response(
        200,
        r#"{"success":true,"data":{"totalUsers":16,"usersByRole":[{"role":"admin","count":3},{"count":1}],"usersByMembershipTier":[{"membership_tier":"Platinum","count":"5"}],"usersByVerificationStatus":[],"recentRegistrations":2.9}}"#,
    )
    .unwrap();
    assert_eq!(u.total_users, Some(16));
    assert_eq!(u.users_by_role.len(), 1);
    assert_eq!(u.users_by_role[0].key, "admin");
    assert_eq!(u.users_by_role[0].count, Some(3));
    assert_eq!(u.users_by_membership_tier[0].count, Some(5));
    assert!(u.users_by_verification_status.is_empty());
    assert_eq!(u.recent_registrations, Some(2));
    assert_eq!(
        parse_user_stats_response(403, "").unwrap_err(),
        USER_STATS_FETCH_FALLBACK
    );
}

#[test]
fn events_overview_reads_stats_and_popular_events() {
    let o = parse_events_overview_response(
        200,
        r#"{"success":true,"data":{"period_days":30,"event_stats":{"total_events":8,"recent_events":3,"upcoming_events":2,"past_events":5,"avg_occupancy_rate":71.25},"registration_stats":{"total_registrations":40,"recent_registrations":6,"unique_attendees":22},"popular_events":[{"id":7,"name":"Gala","date_time":"d","capacity":50,"current_attendees":45,"occupancy_rate":"90"},{"name":"no id"}]}}"#,
    )
    .unwrap();
    assert_eq!(o.period_days, Some(30));
    assert_eq!(o.total_events, Some(8));
    assert_eq!(o.past_events, Some(5));
    assert_eq!(o.avg_occupancy_rate.as_deref(), Some("71.25"));
    assert_eq!(o.unique_attendees, Some(22));
    assert_eq!(o.popular_events.len(), 1);
    assert_eq!(o.popular_events[0].id, "7");
    assert_eq!(o.popular_events[0].occupancy_rate.as_deref(), Some("90"));
    assert_eq!(
        parse_events_overview_response(200, r#"{"success":false}"#).unwrap_err(),
        EVENTS_OVERVIEW_FETCH_FALLBACK
    );
}
