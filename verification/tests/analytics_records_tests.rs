use hesocial_frontend::adminanalytics::{
    parse_conversion_response, parse_event_performance_detail_response,
    parse_events_engagement_response, parse_events_overview_response,
    parse_events_performance_response, parse_members_engagement_response,
    parse_popular_pages_response, parse_revenue_response, parse_visitors_daily_response,
    parse_visitors_overview_response, CONVERSION_FALLBACK, EVENT_DETAIL_FALLBACK,
    OVERVIEW_FALLBACK, VISITORS_DAILY_FALLBACK,
};

fn some(s: &str) -> Option<String> {
    Some(s.to_string())
}

#[test]
fn overview_reads_counts_and_popular_events() {
    let body = r#"{"success":true,"data":{
        "period_days":7,
        "event_stats":{"total_events":12,"recent_events":"3","upcoming_events":5,"past_events":7,"avg_occupancy_rate":72.5},
        "registration_stats":{"total_registrations":40,"recent_registrations":9,"unique_attendees":31},
        "popular_events":[
            {"id":17,"name":"Gala","date_time":"2024-05-01T19:00:00Z","capacity":100,"current_attendees":80,"occupancy_rate":80.0},
            {"id":"e2","name":"Tasting"}
        ]}}"#;
    let o = parse_events_overview_response(200, body).unwrap();
    assert_eq!(o.period_days, 7);
    assert_eq!(o.event_stats.total_events, some("12"));
    assert_eq!(o.event_stats.recent_events, some("3"));
    assert_eq!(o.event_stats.avg_occupancy_rate, some("72.5"));
    assert_eq!(o.registration_stats.unique_attendees, some("31"));
    assert_eq!(o.popular_events.len(), 2);
    assert_eq!(o.popular_events[0].id, "17");
    assert_eq!(o.popular_events[0].name, "Gala");
    assert_eq!(o.popular_events[0].capacity, some("100"));
    assert_eq!(o.popular_events[1].id, "e2");
    assert_eq!(o.popular_events[1].date_time, "");
    assert_eq!(o.popular_events[1].capacity, None);
}

#[test]
fn overview_defaults_and_errors() {
    let o = parse_events_overview_response(200, r#"{"success":true,"data":{}}"#).unwrap();
    assert_eq!(o.period_days, 30);
    assert_eq!(o.event_stats.total_events, None);
    assert!(o.popular_events.is_empty());
    assert_eq!(
        parse_events_overview_response(200, r#"{"success":true,"data":null}"#),
        Err(OVERVIEW_FALLBACK.to_string())
    );
    assert_eq!(
        parse_events_overview_response(200, r#"{"success":false,"error":" nope "}"#),
        Err("nope".to_string())
    );
    assert_eq!(parse_events_overview_response(500, "  "), Err(OVERVIEW_FALLBACK.to_string()));
    assert_eq!(
        parse_events_overview_response(401, r#"{"error":"Token expired"}"#),
        Err("Token expired".to_string())
    );
}

#[test]
fn performance_reads_each_event() {
    let body = r#"{"success":true,"data":{"period_days":90,"events":[
        {"id":"a","name":"Gala","pricing_vip":"1500.00","pricing_vvip":2500,"occupancy_rate":50,
         "total_registrations":10,"confirmed_registrations":6,"pending_registrations":3,
         "cancelled_registrations":1,"avg_revenue_per_attendee":1750.25}]}}"#;
    let p = parse_events_performance_response(200, body).unwrap();
    assert_eq!(p.period_days, 90);
    assert_eq!(p.events.len(), 1);
    let e = &p.events[0];
    assert_eq!(e.pricing_vip, some("1500.00"));
    assert_eq!(e.pricing_vvip, some("2500"));
    assert_eq!(e.confirmed_registrations, some("6"));
    assert_eq!(e.avg_revenue_per_attendee, some("1750.25"));
    assert_eq!(e.capacity, None);
}

#[test]
fn event_detail_reads_event_and_breakdowns() {
    let body = r#"{"success":true,"data":{
        "event":{"id":5,"name":"Gala","fill_rate":0.8,"current_revenue":12000,"category_name":"Dinner"},
        "registrationTimeline":[{"date":"2024-05-01","registrations":3,"cumulative_registrations":3}],
        "membershipBreakdown":[{"membership_tier":"vip","count":2,"percentage":66.7}],
        "statusBreakdown":[{"status":"approved","count":2},{"status":"pending","count":1}]}}"#;
    let d = parse_event_performance_detail_response(200, body).unwrap();
    assert_eq!(d.event.id, "5");
    assert_eq!(d.event.title, "Gala");
    assert_eq!(d.event.fill_rate, some("0.8"));
    assert_eq!(d.event.current_revenue, some("12000"));
    assert_eq!(d.event.category_name, "Dinner");
    assert_eq!(d.event.venue_name, "");
    assert_eq!(d.registration_timeline.len(), 1);
    assert_eq!(d.registration_timeline[0].date, "2024-05-01");
    assert_eq!(d.membership_breakdown[0].percentage, some("66.7"));
    assert_eq!(d.status_breakdown.len(), 2);
}

#[test]
fn event_detail_errors() {
    assert_eq!(
        parse_event_performance_detail_response(404, "not json"),
        Err("Event not found".to_string())
    );
    assert_eq!(
        parse_event_performance_detail_response(404, r#"{"error":"No such event"}"#),
        Err("No such event".to_string())
    );
    assert_eq!(
        parse_event_performance_detail_response(200, r#"{"success":true,"data":{"registrationTimeline":[]}}"#),
        Err(EVENT_DETAIL_FALLBACK.to_string())
    );
}

#[test]
fn revenue_reads_three_tables() {
    let body = r#"{"success":true,"data":{
        "monthlyRevenue":[{"month":"2024-05","revenue":"1200.50","event_count":2,"total_registrations":9}],
        "categoryRevenue":[{"category":"Dinner","revenue":800,"event_count":1,"avg_revenue_per_event":800}],
        "tierRevenue":[{"membership_tier":"vvip","revenue":400,"registrations":1}]}}"#;
    let r = parse_revenue_response(200, body).unwrap();
    assert_eq!(r.monthly_revenue.len(), 1);
    assert_eq!(r.monthly_revenue[0].month, "2024-05");
    assert_eq!(r.monthly_revenue[0].revenue, some("1200.50"));
    assert_eq!(r.category_revenue.len(), 1);
    assert_eq!(r.tier_revenue.len(), 1);
    assert_eq!(r.tier_revenue[0].membership_tier, "vvip");
    let empty = parse_revenue_response(200, r#"{"success":true,"data":{"monthlyRevenue":"x"}}"#).unwrap();
    assert!(empty.monthly_revenue.is_empty());
}

#[test]
fn members_engagement_reads_three_tables() {
    let body = r#"{"success":true,"data":{
        "engagement":[{"membership_tier":"vip","total_members":10,"active_members":4,"engagement_rate":40,"avg_events_per_member":1.5}],
        "topMembers":[{"first_name":"Ada","last_name":"Lin","membership_tier":"vvip","events_attended":7,"total_spent":"9000"}],
        "retention":[{"cohort_month":"2024-01","cohort_size":20,"active_this_month":5,"retention_rate":25}]}}"#;
    let m = parse_members_engagement_response(200, body).unwrap();
    assert_eq!(m.engagement[0].avg_events_per_member, some("1.5"));
    assert_eq!(m.top_members[0].first_name, "Ada");
    assert_eq!(m.top_members[0].total_spent, some("9000"));
    assert_eq!(m.retention[0].cohort_month, "2024-01");
    assert_eq!(m.retention[0].retention_rate, some("25"));
}

#[test]
fn visitors_overview_and_conversion() {
    let v = parse_visitors_overview_response(
        200,
        r#"{"success":true,"data":{"unique_visitors":120,"total_page_views":480,"avg_pages_per_visitor":4.0}}"#,
    )
    .unwrap();
    assert_eq!(v.period_days, 30);
    assert_eq!(v.unique_visitors, some("120"));
    assert_eq!(v.avg_pages_per_visitor, some("4.0"));
    assert_eq!(v.new_visitors, None);
    let c = parse_conversion_response(
        200,
        r#"{"success":true,"data":{"period_days":14,"total_visitors":100,"event_viewers":40,"registered_users":8,"conversion_rate":8}}"#,
    )
    .unwrap();
    assert_eq!(c.period_days, 14);
    assert_eq!(c.conversion_rate, some("8"));
    assert_eq!(
        parse_conversion_response(502, r#"{"success":false}"#),
        Err(CONVERSION_FALLBACK.to_string())
    );
}

#[test]
fn daily_visitors_show_any_date() {
    let body = r#"{"success":true,"data":[
        {"date":"2024-05-01","unique_visitors":3},
        {"date":20240502},
        {"date":true},
        {"date":null},
        {}]}"#;
    let days = parse_visitors_daily_response(200, body).unwrap();
    assert_eq!(days.len(), 5);
    assert_eq!(days[0].date, "2024-05-01");
    assert_eq!(days[0].unique_visitors, some("3"));
    assert_eq!(days[1].date, "20240502");
    assert_eq!(days[2].date, "true");
    assert_eq!(days[3].date, "");
    assert_eq!(days[4].date, "");
    assert_eq!(
        parse_visitors_daily_response(200, r#"{"success":true,"data":{"date":"x"}}"#),
        Err(VISITORS_DAILY_FALLBACK.to_string())
    );
}

#[test]
fn popular_pages_and_engagement_days() {
    let pages = parse_popular_pages_response(
        200,
        r#"{"success":true,"data":[{"path":"/events","views":50,"unique_visitors":30,"conversion_rate":"2.5"}]}"#,
    )
    .unwrap();
    assert_eq!(pages.len(), 1);
    assert_eq!(pages[0].path, "/events");
    assert_eq!(pages[0].conversion_rate, some("2.5"));
    let e = parse_events_engagement_response(
        200,
        r#"{"success":true,"data":{"period_days":7,"engagement":[{"date":"2024-05-01","event_page_views":12,"avg_time_spent":33.3}]}}"#,
    )
    .unwrap();
    assert_eq!(e.period_days, 7);
    assert_eq!(e.engagement.len(), 1);
    assert_eq!(e.engagement[0].event_page_views, some("12"));
    assert_eq!(e.engagement[0].avg_time_spent, some("33.3"));
    assert_eq!(e.engagement[0].registration_page_views, None);
}
