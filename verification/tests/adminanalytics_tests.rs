use hesocial_frontend::adminanalytics::{
    dashboard_has_payload, dashboard_requests, dashboard_token, empty_dashboard,
    record_dashboard_answer, DashboardPart, REVENUE_FALLBACK,
};
use hesocial_frontend::adminanalytics::{
    admin_route_guard, analytics_phase, conversion_url, days_query, donut_color,
    event_performance_detail_data, event_performance_url, events_engagement_url,
    events_overview_url, events_performance_url, export_endpoint_available, format_thousands,
    format_year_month, is_active_date_window, membership_tier_dot_class, parse_success_array,
    parse_success_data, period_days, popular_pages_url, select_date_window, visitors_daily_url,
    visitors_url, AnalyticsPhase, AnalyticsTab, EVENT_DETAIL_FALLBACK, OVERVIEW_FALLBACK,
    UNAUTHORIZED,
};
use hesocial_frontend::json::{json_get, json_u32, Json};
use hesocial_frontend::permissions::{Permissions, RouteGuard};

#[test]
fn analytics_guard() {
    let admin = Permissions { view_admin: true, event_management: false, manage_super_admin: false };
    assert_eq!(admin_route_guard(true, &admin), RouteGuard::Loading);
    assert_eq!(admin_route_guard(false, &admin), RouteGuard::Allow);
    assert_eq!(admin_route_guard(false, &Permissions::default()), RouteGuard::Redirect("/login"));
}

#[test]
fn tabs_round_trip_through_keys() {
    for tab in [AnalyticsTab::Overview, AnalyticsTab::Revenue, AnalyticsTab::Engagement] {
        assert_eq!(AnalyticsTab::from_key(tab.key()), tab);
    }
    assert_eq!(AnalyticsTab::from_key("unknown"), AnalyticsTab::Overview);
    assert_eq!(AnalyticsTab::Revenue.label(), "營收分析");
}

#[test]
fn date_windows() {
    assert_eq!(select_date_window(None), 30);
    assert_eq!(select_date_window(Some("7")), 7);
    assert_eq!(select_date_window(Some(" 90days")), 90);
    assert_eq!(select_date_window(Some("+14")), 14);
    assert_eq!(select_date_window(Some("-5")), 1);
    assert_eq!(select_date_window(Some("0")), 30);
    assert_eq!(select_date_window(Some("abc")), 30);
    assert_eq!(select_date_window(Some("99999999999")), u32::MAX);
    assert_eq!(select_date_window(Some("99999999999999999999")), 30);
    assert_eq!(period_days(Some("x"), 0), 1);
    for days in [7u32, 30, 90, 365] {
        assert_eq!(select_date_window(Some(&days.to_string())), days);
    }
    assert!(is_active_date_window(30, 30));
    assert!(!is_active_date_window(7, 30));
}

#[test]
fn analytics_urls() {
    assert_eq!(days_query(30), "days=30");
    assert_eq!(events_overview_url(7), "/api/analytics/events/overview?days=7");
    assert_eq!(events_performance_url(7), "/api/analytics/events/performance?days=7");
    assert_eq!(events_engagement_url(7), "/api/analytics/events/engagement?days=7");
    assert_eq!(event_performance_url("e9"), "/api/analytics/events/e9/performance");
    assert_eq!(visitors_url(1), "/api/analytics/visitors?days=1");
    assert_eq!(visitors_daily_url(1), "/api/analytics/visitors/daily?days=1");
    assert_eq!(popular_pages_url(20), "/api/analytics/pages/popular?limit=20");
    assert_eq!(conversion_url(30), "/api/analytics/conversion?days=30");
    assert!(!export_endpoint_available());
}

#[test]
fn number_and_month_formats() {
    assert_eq!(format_thousands(0), "0");
    assert_eq!(format_thousands(999), "999");
    assert_eq!(format_thousands(1000), "1,000");
    assert_eq!(format_thousands(1234567), "1,234,567");
    assert_eq!(format_thousands(u64::MAX), "18,446,744,073,709,551,615");
    assert_eq!(format_year_month("2025-03"), "2025年3月");
    assert_eq!(format_year_month("2025-12-01"), "2025年12月");
    assert_eq!(format_year_month("2025-13"), "2025-13");
    assert_eq!(format_year_month("2025"), "2025");
    assert_eq!(format_year_month("x2025y00"), "x2025y00");
    assert_eq!(membership_tier_dot_class("Black Card"), "bg-luxury-gold");
    assert_eq!(membership_tier_dot_class("Diamond"), "bg-blue-400");
    assert_eq!(membership_tier_dot_class("Platinum"), "bg-gray-400");
    assert_eq!(donut_color(0), "#d4af37");
    assert_eq!(donut_color(5), "#e5e4e2");
    assert_eq!(donut_color(6), "#d4af37");
    assert_eq!(donut_color(13), "#60a5fa");
}

#[test]
fn analytics_phases() {
    assert_eq!(analytics_phase(true, false, Some("boom")), AnalyticsPhase::Loading);
    assert_eq!(
        analytics_phase(false, false, Some(" boom ")),
        AnalyticsPhase::Error("boom".to_string())
    );
    assert_eq!(analytics_phase(false, true, Some("boom")), AnalyticsPhase::Ready);
    assert_eq!(analytics_phase(false, false, Some("  ")), AnalyticsPhase::Ready);
    assert_eq!(analytics_phase(false, false, None), AnalyticsPhase::Ready);
}

#[test]
fn analytics_envelope() {
    let data = parse_success_data(200, r#"{"success":true,"data":{"period_days":7}}"#, OVERVIEW_FALLBACK)
        .unwrap();
    assert_eq!(json_u32(json_get(&data, "period_days")), Some(7));
    assert_eq!(
        parse_success_data(401, r#"{"error":"expired"}"#, OVERVIEW_FALLBACK).unwrap_err(),
        "expired"
    );
    assert_eq!(parse_success_data(401, "", OVERVIEW_FALLBACK).unwrap_err(), UNAUTHORIZED);
    assert_eq!(parse_success_data(200, " ", OVERVIEW_FALLBACK).unwrap_err(), OVERVIEW_FALLBACK);
    assert_eq!(parse_success_data(500, "oops", OVERVIEW_FALLBACK).unwrap_err(), OVERVIEW_FALLBACK);
    assert_eq!(
        parse_success_data(500, r#"{"error":"db down"}"#, OVERVIEW_FALLBACK).unwrap_err(),
        "db down"
    );
    assert_eq!(
        parse_success_data(200, r#"{"success":true,"data":null}"#, OVERVIEW_FALLBACK).unwrap_err(),
        OVERVIEW_FALLBACK
    );
    let rows = parse_success_array(200, r#"{"success":true,"data":[1,2,3]}"#, OVERVIEW_FALLBACK).unwrap();
    assert_eq!(rows.len(), 3);
    assert_eq!(
        parse_success_array(200, r#"{"success":true,"data":{}}"#, OVERVIEW_FALLBACK).unwrap_err(),
        OVERVIEW_FALLBACK
    );
}

#[test]
fn event_detail_envelope() {
    assert_eq!(event_performance_detail_data(404, "").unwrap_err(), "Event not found");
    assert_eq!(event_performance_detail_data(404, r#"{"error":"gone"}"#).unwrap_err(), "gone");
    assert_eq!(
        event_performance_detail_data(200, r#"{"success":true,"data":{"registrationTimeline":[]}}"#)
            .unwrap_err(),
        EVENT_DETAIL_FALLBACK
    );
    let d = event_performance_detail_data(200, r#"{"success":true,"data":{"event":{"id":1}}}"#).unwrap();
    assert!(matches!(json_get(&d, "event"), Some(Json::Object(_))));
}

#[test]
fn dashboard_plan_requests_each_part_once_in_order() {
    let plan = dashboard_requests(7);
    let parts: Vec<DashboardPart> = plan.iter().map(|(p, _)| *p).collect();
    assert_eq!(
        parts,
        vec![
            DashboardPart::Overview,
            DashboardPart::Performance,
            DashboardPart::Revenue,
            DashboardPart::Members,
            DashboardPart::Visitors,
            DashboardPart::VisitorsDaily,
            DashboardPart::PopularPages,
            DashboardPart::Conversion,
            DashboardPart::EventsEngagement,
        ]
    );
    let urls: Vec<&str> = plan.iter().map(|(_, u)| u.as_str()).collect();
    assert_eq!(
        urls,
        vec![
            "/api/analytics/events/overview?days=7",
            "/api/analytics/events/performance?days=7",
            "/api/analytics/revenue/events",
            "/api/analytics/engagement/members",
            "/api/analytics/visitors?days=7",
            "/api/analytics/visitors/daily?days=7",
            "/api/analytics/pages/popular?limit=20",
            "/api/analytics/conversion?days=7",
            "/api/analytics/events/engagement?days=7",
        ]
    );
}

#[test]
fn dashboard_token_and_errors() {
    assert_eq!(dashboard_token(Some("t")), Ok("t"));
    assert_eq!(dashboard_token(Some("")), Err(UNAUTHORIZED));
    assert_eq!(dashboard_token(None), Err(UNAUTHORIZED));
}

#[test]
fn dashboard_keeps_parts_and_first_error() {
    let mut d = empty_dashboard();
    assert!(!dashboard_has_payload(&d));
    record_dashboard_answer(&mut d, DashboardPart::Overview, Err("Network error occurred".to_string()));
    assert_eq!(d.error.as_deref(), Some("Network error occurred"));
    assert!(!dashboard_has_payload(&d));
    record_dashboard_answer(&mut d, DashboardPart::Revenue, Ok((500, String::new())));
    assert_eq!(d.error.as_deref(), Some("Network error occurred"));
    assert!(d.revenue.is_none());
    record_dashboard_answer(
        &mut d,
        DashboardPart::VisitorsDaily,
        Ok((200, r#"{"success":true,"data":[{"date":"2024-05-01","unique_visitors":4}]}"#.to_string())),
    );
    assert_eq!(d.visitors_daily.len(), 1);
    assert_eq!(d.visitors_daily[0].unique_visitors.as_deref(), Some("4"));
    assert!(dashboard_has_payload(&d));
    assert_eq!(d.error.as_deref(), Some("Network error occurred"));

    let mut e = empty_dashboard();
    record_dashboard_answer(&mut e, DashboardPart::Revenue, Ok((200, r#"{"success":false}"#.to_string())));
    assert_eq!(e.error.as_deref(), Some(REVENUE_FALLBACK));
    record_dashboard_answer(
        &mut e,
        DashboardPart::Conversion,
        Ok((200, r#"{"success":true,"data":{"period_days":7,"total_visitors":10}}"#.to_string())),
    );
    let c = e.conversion.as_ref().unwrap();
    assert_eq!(c.period_days, 7);
    assert_eq!(c.total_visitors.as_deref(), Some("10"));
    assert!(e.overview.is_none() && e.performance.is_none());
    assert_eq!(e.error.as_deref(), Some(REVENUE_FALLBACK));
}
