use hesocial_frontend::events::{events_url, events_view_from_answer};
use hesocial_frontend::events::{
    collapse_on_error, empty_view, events_query_string, exclusivity_color, exclusivity_label,
    first_image, format_event_datetime, page_after_filter_change, page_in_range,
    parse_events_response, shows_diamond, star_count, EventFilters, Pagination, PLACEHOLDER_IMAGE,
};

fn filters(page: u32, search: &str, category: &str, level: &str) -> EventFilters {
    EventFilters {
        page,
        limit: 9,
        search: search.to_string(),
        category: category.to_string(),
        exclusivity_level: level.to_string(),
    }
}

#[test]
fn query_string_skips_unset_filters() {
    assert_eq!(events_query_string(&filters(1, "", "all", "all")), "page=1&limit=9");
    assert_eq!(events_query_string(&filters(2, "", "", "")), "page=2&limit=9");
    assert_eq!(
        events_query_string(&filters(3, "wine & art", "dinner", "VVIP")),
        "page=3&limit=9&search=wine+%26+art&category=dinner&exclusivityLevel=VVIP"
    );
    assert_eq!(
        events_query_string(&filters(1, "晚宴", "all", "all")),
        "page=1&limit=9&search=%E6%99%9A%E5%AE%B4"
    );
}

#[test]
fn paging_rules() {
    assert_eq!(page_after_filter_change(7), 1);
    assert_eq!(page_after_filter_change(1), 1);
    assert!(page_in_range(1, 3));
    assert!(page_in_range(3, 3));
    assert!(!page_in_range(0, 3));
    assert!(!page_in_range(4, 3));
    assert!(!page_in_range(1, 0));
    assert_eq!(
        collapse_on_error(4, 9),
        Pagination { page: 4, limit: 9, total: 0, total_pages: 1 }
    );
    let v = empty_view(&filters(5, "", "", ""));
    assert!(v.events.is_empty());
    assert_eq!(v.pagination, Pagination { page: 5, limit: 9, total: 0, total_pages: 1 });
}

#[test]
fn exclusivity_badges() {
    assert_eq!(exclusivity_color(Some("VIP")), "bg-blue-500/20 text-blue-400 border-blue-500/30");
    assert_eq!(
        exclusivity_color(Some("VVIP")),
        "bg-luxury-gold/20 text-luxury-gold border-luxury-gold/30"
    );
    assert_eq!(
        exclusivity_color(Some("僅限邀請")),
        "bg-purple-500/20 text-purple-400 border-purple-500/30"
    );
    assert_eq!(exclusivity_color(None), "bg-gray-500/20 text-gray-400 border-gray-500/30");
    assert_eq!(exclusivity_label(Some("VIP")), "VIP");
    assert_eq!(exclusivity_label(None), "");
    assert_eq!(star_count(Some("VIP")), 2);
    assert_eq!(star_count(Some("VVIP")), 3);
    assert_eq!(star_count(Some("Invitation Only")), 3);
    assert_eq!(star_count(Some("vip")), 0);
    assert_eq!(star_count(None), 0);
    assert!(shows_diamond(Some("Invitation Only")));
    assert!(!shows_diamond(Some("VVIP")));
    assert!(!shows_diamond(None));
}

#[test]
fn first_image_or_placeholder() {
    let imgs = vec!["a.jpg".to_string(), "b.jpg".to_string()];
    assert_eq!(first_image(Some(&imgs)), "a.jpg");
    let blank = vec!["".to_string(), "b.jpg".to_string()];
    assert_eq!(first_image(Some(&blank)), PLACEHOLDER_IMAGE);
    let none: Vec<String> = Vec::new();
    assert_eq!(first_image(Some(&none)), PLACEHOLDER_IMAGE);
    assert_eq!(first_image(None), PLACEHOLDER_IMAGE);
    assert_eq!(format_event_datetime("2025-01-01T10:00:00Z"), "2025-01-01T10:00:00Z");
}

#[test]
fn listing_response_decodes_rows_and_pagination() {
    let body = r#"{"success":true,"data":[
        {"id":"e1","name":"Yacht Night","description":"Sail","dateTime":"2025-06-01T18:00:00Z",
         "venue":{"name":"Marina","address":"Pier 1","rating":4.5},"exclusivityLevel":"VVIP",
         "pricing":{"vvip":12000,"vip":"8000","currency":"TWD"},"currentAttendees":12,"capacity":40,
         "images":["x.jpg",3,"y.jpg"]},
        {"id":2,"name":"Wine","date_time":"2025-07-01","venue":null,"images":null},
        {"id":"e3","name":""},
        {"name":"no id"}
    ],"pagination":{"page":2,"limit":9,"total":11,"totalPages":2}}"#;
    let v = parse_events_response(body, 1, 9);
    assert_eq!(v.events.len(), 2);
    let e = &v.events[0];
    assert_eq!(e.id, "e1");
    assert_eq!(e.name, "Yacht Night");
    assert_eq!(e.date_time, "2025-06-01T18:00:00Z");
    let venue = e.venue.as_ref().unwrap();
    assert_eq!(venue.name, "Marina");
    assert_eq!(venue.rating.as_deref(), Some("4.5"));
    assert_eq!(e.exclusivity_level.as_deref(), Some("VVIP"));
    assert_eq!(e.pricing.vvip.as_deref(), Some("12000"));
    assert_eq!(e.pricing.vip.as_deref(), Some("8000"));
    assert_eq!(e.pricing.currency, "TWD");
    assert_eq!(e.current_attendees, 12);
    assert_eq!(e.capacity, 40);
    assert_eq!(e.images.as_ref().unwrap(), &vec!["x.jpg".to_string(), "y.jpg".to_string()]);
    let w = &v.events[1];
    assert_eq!(w.id, "2");
    assert_eq!(w.date_time, "2025-07-01");
    assert!(w.venue.is_none());
    assert!(w.images.is_none());
    assert_eq!(w.pricing.vvip, None);
    assert_eq!(w.pricing.currency, "");
    assert_eq!(v.pagination, Pagination { page: 2, limit: 9, total: 11, total_pages: 2 });
}

#[test]
fn listing_response_collapses_on_failure() {
    let collapsed = Pagination { page: 3, limit: 9, total: 0, total_pages: 1 };
    let bad = parse_events_response("<html>", 3, 9);
    assert!(bad.events.is_empty());
    assert_eq!(bad.pagination, collapsed);
    let refused = parse_events_response(r#"{"success":false,"data":[{"id":1,"name":"x"}]}"#, 3, 9);
    assert!(refused.events.is_empty());
    assert_eq!(refused.pagination, collapsed);
    let no_block = parse_events_response(r#"{"success":true,"data":"none"}"#, 3, 9);
    assert!(no_block.events.is_empty());
    assert_eq!(no_block.pagination, collapsed);
    let partial = parse_events_response(r#"{"success":true,"pagination":{"total":"5"}}"#, 3, 9);
    assert_eq!(partial.pagination, Pagination { page: 3, limit: 9, total: 5, total_pages: 1 });
}

#[test]
fn listing_answers() {
    let filters = EventFilters {
        page: 2,
        limit: 9,
        search: "gala night".to_string(),
        category: "all".to_string(),
        exclusivity_level: "vip".to_string(),
    };
    assert_eq!(events_url(&filters), "/api/events?page=2&limit=9&search=gala+night&exclusivityLevel=vip");
    let none = events_view_from_answer(&filters, None);
    assert!(none.events.is_empty());
    assert_eq!((none.pagination.page, none.pagination.limit, none.pagination.total, none.pagination.total_pages), (2, 9, 0, 1));
    let refused = events_view_from_answer(&filters, Some((503, r#"{"success":true,"data":{"events":[{"id":"1","name":"Gala"}]}}"#.to_string())));
    assert!(refused.events.is_empty());
    let body = r#"{"success":true,"data":{"events":[{"id":"1","name":"Gala"}],"pagination":{"page":2,"limit":9,"total":10,"totalPages":2}}}"#;
    let shown = events_view_from_answer(&filters, Some((200, body.to_string())));
    assert_eq!(shown, parse_events_response(body, 2, 9));
}
