use hesocial_frontend::eventmgmt::{clock_cut_possible, local_cut_possible};
use hesocial_frontend::eventmgmt::upload_request;
use hesocial_frontend::eventmgmt::{
    action_is, approve_action_key, approve_payload, can_approve, can_publish, datetime_local_value,
    datetime_to_iso, empty_form, encode_multipart, event_api_path, event_approve_api_path,
    event_management_guard, event_media_api_path, event_media_documents_api_path,
    event_media_images_api_path, event_publish_api_path, events_list_url, events_query_string,
    format_event_datetime_native, format_media_date, is_allowed_mime, lines_to_list, list_to_lines,
    media_item_api_path, media_kind_from_mime, media_kind_from_type_field, media_page_path,
    media_status_badge_class, next_approval_after_decision, next_status_after_publish,
    page_after_filter_change, page_in_range, parse_u32_input, publish_action_key,
    select_valid_files, status_badge_class, status_label, tab_media_kind, toggle_membership_tier,
    validate_file, validate_file_for_kind, venue_option_label, venues_list_url, EventMgmtFilters,
    EventVenue, FileCandidate, MediaKind, MediaTab, UploadBytes, EVENT_DOCUMENTS_FIELD,
    EVENT_IMAGES_FIELD, MAX_DOCUMENT_FILES, MAX_IMAGE_FILES,
};
use hesocial_frontend::json::Json;
use hesocial_frontend::permissions::{Permissions, RouteGuard};

fn mgmt_filters(page: u32, limit: u32, search: &str, status: &str) -> EventMgmtFilters {
    EventMgmtFilters {
        page,
        limit,
        search: search.to_string(),
        status: status.to_string(),
        category: String::new(),
        venue: String::new(),
    }
}

fn file(name: &str, mime: &str, size: u64) -> FileCandidate {
    FileCandidate { name: name.to_string(), mime: mime.to_string(), size }
}

fn strings(items: &[&str]) -> Vec<String> {
    items.iter().map(|s| s.to_string()).collect()
}

#[test]
fn api_paths() {
    assert_eq!(event_api_path("42"), "/api/events/42");
    assert_eq!(event_publish_api_path("42"), "/api/events/42/publish");
    assert_eq!(event_approve_api_path("42"), "/api/events/42/approve");
    assert_eq!(event_media_api_path("9", None), "/api/media/events/9");
    assert_eq!(event_media_api_path("9", Some(MediaKind::Image)), "/api/media/events/9?type=image");
    assert_eq!(
        event_media_api_path("9", Some(MediaKind::Document)),
        "/api/media/events/9?type=document"
    );
    assert_eq!(event_media_images_api_path("9"), "/api/media/events/9/images");
    assert_eq!(event_media_documents_api_path("9"), "/api/media/events/9/documents");
    assert_eq!(media_item_api_path("m1"), "/api/media/m1");
    assert_eq!(media_page_path("9"), "/event-mgmt/media/9");
    assert_eq!(venues_list_url(), "/api/venues?limit=100");
}

#[test]
fn management_query_defaults_page_and_limit() {
    assert_eq!(events_query_string(&mgmt_filters(0, 0, "", "")), "page=1&limit=10");
    assert_eq!(
        events_query_string(&mgmt_filters(2, 25, "gala night", "draft")),
        "page=2&limit=25&search=gala+night&status=draft"
    );
    let mut f = mgmt_filters(1, 10, "", "");
    f.category = "c1".to_string();
    f.venue = "v/2".to_string();
    assert_eq!(events_list_url(&f), "/api/events?page=1&limit=10&category=c1&venue=v%2F2");
    assert_eq!(page_after_filter_change(9), 1);
    assert!(page_in_range(2, 2));
    assert!(!page_in_range(0, 2));
    assert!(!page_in_range(3, 2));
}

#[test]
fn management_guard() {
    let allowed = Permissions { view_admin: false, event_management: true, manage_super_admin: false };
    let denied = Permissions::default();
    assert_eq!(event_management_guard(true, &allowed), RouteGuard::Loading);
    assert_eq!(event_management_guard(false, &allowed), RouteGuard::Allow);
    assert_eq!(event_management_guard(false, &denied), RouteGuard::Redirect("/login"));
}

#[test]
fn action_keys_and_workflow() {
    assert_eq!(publish_action_key("e1"), "publish-e1");
    assert_eq!(approve_action_key("e1"), "approve-e1");
    assert!(action_is(Some("publish-e1"), "publish-e1"));
    assert!(!action_is(Some("publish-e1"), "approve-e1"));
    assert!(!action_is(None, "publish-e1"));
    assert!(can_approve("published", "pending"));
    assert!(can_approve("pending_review", "approved"));
    assert!(can_approve("draft", "rejected"));
    assert!(!can_approve("published", "approved"));
    assert!(can_publish("draft", "approved"));
    assert!(!can_publish("published", "approved"));
    assert!(!can_publish("cancelled", "approved"));
    assert!(!can_publish("archived", "approved"));
    assert!(!can_publish("completed", "approved"));
    assert!(!can_publish("draft", "pending"));
    assert_eq!(next_status_after_publish("draft", "approved"), Some("published"));
    assert_eq!(next_status_after_publish("completed", "approved"), None);
    assert_eq!(next_approval_after_decision(true), "approved");
    assert_eq!(next_approval_after_decision(false), "rejected");
}

#[test]
fn approve_payload_is_one_flag() {
    match approve_payload(true) {
        Json::Object(ms) => {
            assert_eq!(ms.len(), 1);
            assert_eq!(ms[0].key, "approved");
            assert_eq!(ms[0].value, Json::Bool(true));
        }
        other => panic!("unexpected payload {:?}", other),
    }
}

#[test]
fn status_labels_and_badges() {
    assert_eq!(status_label("pending_review"), "pending review");
    assert_eq!(status_label("a_b_c"), "a b_c");
    assert_eq!(status_label("draft"), "draft");
    assert_eq!(status_badge_class("published"), "bg-green-500/20 text-green-300");
    assert_eq!(status_badge_class("archived"), "bg-gray-700/30 text-gray-500");
    assert_eq!(status_badge_class("whatever"), "bg-gray-500/20 text-gray-300");
    assert_eq!(media_status_badge_class("published"), "bg-green-100 text-green-800");
    assert_eq!(media_status_badge_class("draft"), "bg-gray-100 text-gray-800");
    assert_eq!(media_status_badge_class("review"), "bg-yellow-100 text-yellow-800");
}

#[test]
fn media_kinds() {
    assert_eq!(tab_media_kind(MediaTab::All), None);
    assert_eq!(tab_media_kind(MediaTab::Images), Some(MediaKind::Image));
    assert_eq!(tab_media_kind(MediaTab::Documents), Some(MediaKind::Document));
    for kind in [MediaKind::Image, MediaKind::Document] {
        assert_eq!(media_kind_from_type_field(kind.as_str()), Some(kind));
    }
    assert_eq!(media_kind_from_type_field("video"), None);
    assert_eq!(media_kind_from_mime("image/svg+xml"), Some(MediaKind::Image));
    assert_eq!(media_kind_from_mime("application/pdf"), Some(MediaKind::Document));
    assert_eq!(media_kind_from_mime("text/plain"), None);
    assert!(is_allowed_mime("image/png"));
    assert!(!is_allowed_mime("image/svg+xml"));
    assert!(is_allowed_mime("application/vnd.ms-excel"));
    assert_eq!(MediaKind::Image.field_name(), EVENT_IMAGES_FIELD);
    assert_eq!(MediaKind::Document.field_name(), EVENT_DOCUMENTS_FIELD);
    assert_eq!(MediaKind::Image.max_files_page(), MAX_IMAGE_FILES);
    assert_eq!(MediaKind::Document.max_files_page(), MAX_DOCUMENT_FILES);
}

#[test]
fn file_validation_errors() {
    assert_eq!(validate_file(&file("a.png", "image/png", 1024), 10), Ok(()));
    assert_eq!(
        validate_file(&file("big.png", "image/png", 10 * 1024 * 1024 + 1), 10),
        Err("File size must be less than 10MB".to_string())
    );
    assert_eq!(validate_file(&file("ok.png", "image/png", 10 * 1024 * 1024), 10), Ok(()));
    assert_eq!(
        validate_file(&file("a.txt", "text/plain", 1), 10),
        Err("File type not supported. Please upload images or documents only.".to_string())
    );
    assert_eq!(
        validate_file_for_kind(&file("d.pdf", "application/pdf", 1), MediaKind::Image, 10),
        Err("d.pdf: Only images are allowed".to_string())
    );
    assert_eq!(
        validate_file_for_kind(&file("p.png", "image/png", 1), MediaKind::Document, 10),
        Err("p.png: Only documents are allowed".to_string())
    );
    assert_eq!(validate_file_for_kind(&file("p.png", "image/png", 1), MediaKind::Image, 10), Ok(()));
}

#[test]
fn selection_keeps_valid_files_within_room() {
    let picked = vec![
        file("a.png", "image/png", 10),
        file("b.txt", "text/plain", 10),
        file("c.jpg", "image/jpeg", 10),
        file("d.gif", "image/gif", 10),
    ];
    let (kept, errors) = select_valid_files(&picked, 8, 10, MediaKind::Image, 10);
    assert_eq!(kept, vec![file("a.png", "image/png", 10), file("c.jpg", "image/jpeg", 10)]);
    assert_eq!(
        errors,
        strings(&[
            "b.txt: File type not supported. Please upload images or documents only.",
            "Maximum 10 files allowed",
        ])
    );
    let (kept, errors) = select_valid_files(&picked, 0, 10, MediaKind::Image, 10);
    assert_eq!(kept.len(), 3);
    assert_eq!(errors.len(), 1);
    let (kept, errors) = select_valid_files(&picked, 12, 10, MediaKind::Image, 10);
    assert!(kept.is_empty());
    assert_eq!(errors.last().unwrap(), "Maximum 10 files allowed");
    let (kept, _) = select_valid_files(&picked, 0, 10, MediaKind::Document, 10);
    assert!(kept.is_empty());
}

#[test]
fn multipart_framing_is_exact() {
    let files = vec![UploadBytes {
        filename: "a.png".to_string(),
        mime_type: "image/png".to_string(),
        bytes: vec![1, 2, 3],
    }];
    let (content_type, body) = encode_multipart("eventImages", &files);
    assert_eq!(content_type, "multipart/form-data; boundary=----HesocialEventMediaBoundary");
    let mut expected = Vec::new();
    expected.extend_from_slice(b"------HesocialEventMediaBoundary\r\n");
    expected.extend_from_slice(
        b"Content-Disposition: form-data; name=\"eventImages\"; filename=\"a.png\"\r\nContent-Type: image/png\r\n\r\n",
    );
    expected.extend_from_slice(&[1, 2, 3]);
    expected.extend_from_slice(b"\r\n------HesocialEventMediaBoundary--\r\n");
    assert_eq!(body, expected);
    let (_, empty) = encode_multipart("eventImages", &[]);
    assert_eq!(empty, b"------HesocialEventMediaBoundary--\r\n".to_vec());
}

#[test]
fn datetime_conversions() {
    assert_eq!(datetime_local_value("2025-06-01T18:30:00.000Z"), "2025-06-01T18:30");
    assert_eq!(datetime_local_value("2025-06-01"), "2025-06-01");
    assert_eq!(datetime_to_iso("2025-06-01T18:30"), "2025-06-01T18:30:00.000Z");
    assert_eq!(datetime_to_iso(" 2025-06-01T18:30:15 "), "2025-06-01T18:30:15.000Z");
    assert_eq!(datetime_to_iso("2025-06-01T18:30:00Z"), "2025-06-01T18:30:00Z");
    assert_eq!(datetime_to_iso("2025-06-01T18:30:00+08:00"), "2025-06-01T18:30:00+08:00");
    assert_eq!(datetime_to_iso("2025-06-01T18:30:00-05:00"), "2025-06-01T18:30:00-05:00");
    assert_eq!(datetime_to_iso("2025-06-01"), "2025-06-01");
    assert_eq!(datetime_to_iso("   "), "");
    let once = datetime_to_iso("2025-06-01T18:30");
    assert_eq!(datetime_to_iso(&once), once);
    assert_eq!(format_event_datetime_native("2025-06-01T18:30:00Z"), "2025-06-01 18:30");
    assert_eq!(format_event_datetime_native("2025-06-01T9Z"), "2025-06-01 9");
    assert_eq!(format_event_datetime_native("2025-06-01"), "2025-06-01");
    assert_eq!(format_media_date("2025-06-01T18:30:00Z"), "2025-06-01");
    assert_eq!(format_media_date("today"), "today");
}

#[test]
fn numeric_input_and_lines() {
    assert_eq!(parse_u32_input(" 42 "), 42);
    assert_eq!(parse_u32_input("-1"), 0);
    assert_eq!(parse_u32_input("abc"), 0);
    assert_eq!(parse_u32_input("4294967296"), 0);
    assert_eq!(lines_to_list(" a \n\n b\n  \nc"), strings(&["a", "b", "c"]));
    assert_eq!(lines_to_list(""), Vec::<String>::new());
    assert_eq!(list_to_lines(&strings(&["a", "b"])), "a\nb");
    assert_eq!(list_to_lines(&[]), "");
    let items = strings(&["Dinner", "Wine pairing", "Valet"]);
    assert_eq!(lines_to_list(&list_to_lines(&items)), items);
}

#[test]
fn membership_tier_toggling() {
    let tiers = strings(&["Platinum"]);
    let ticked = toggle_membership_tier(&tiers, "Diamond", true);
    assert_eq!(ticked, strings(&["Platinum", "Diamond"]));
    assert_eq!(toggle_membership_tier(&ticked, "Diamond", true), ticked);
    assert_eq!(toggle_membership_tier(&ticked, "Diamond", false), tiers);
    let dup = strings(&["Diamond", "Platinum", "Diamond"]);
    assert_eq!(toggle_membership_tier(&dup, "Diamond", false), strings(&["Platinum"]));
    assert_eq!(toggle_membership_tier(&[], "Black Card", false), Vec::<String>::new());
}

#[test]
fn venue_label_and_empty_form() {
    let v = EventVenue {
        id: "v1".to_string(),
        name: "Grand Hall".to_string(),
        city: "Taipei".to_string(),
        capacity_max: 120,
    };
    assert_eq!(venue_option_label(&v), "Grand Hall - Taipei (Max: 120)");
    let f = empty_form();
    assert_eq!(f.timezone, "Asia/Taipei");
    assert_eq!(f.currency, "TWD");
    assert_eq!(f.language, "Traditional Chinese");
    assert_eq!(f.capacity_min, 1);
    assert_eq!(f.capacity_max, 20);
    assert!(f.required_verification && f.waitlist_enabled && !f.auto_approval);
    assert!(f.title.is_empty() && f.inclusions.is_empty());
}

#[test]
fn cut_checks() {
    assert!(local_cut_possible("2025-06-01T18:30:00Z"));
    assert!(local_cut_possible("short"));
    assert!(!local_cut_possible("2025-06-01T18:3\u{e9}"));
    assert!(clock_cut_possible("2025-06-01T18:30:00Z"));
    assert!(clock_cut_possible("2025-06-01"));
    assert!(!clock_cut_possible("2025-06-01T1234\u{e9}"));
}

#[test]
fn decisions_settle_the_workflow() {
    for status in ["draft", "pending_review", "published", "completed"] {
        let approval = next_approval_after_decision(true);
        assert_eq!(can_approve(status, approval), status == "draft" || status == "pending_review");
        assert_eq!(can_publish(status, approval), status != "published" && status != "completed");
        assert!(!can_publish(status, next_approval_after_decision(false)));
    }
}

#[test]
fn upload_requests_frame_the_files() {
    assert_eq!(upload_request("e1", MediaKind::Image, &[]), None);
    let files = vec![UploadBytes {
        filename: "a.pdf".to_string(),
        mime_type: "application/pdf".to_string(),
        bytes: vec![1, 2, 3],
    }];
    let docs = upload_request("e1", MediaKind::Document, &files).unwrap();
    assert_eq!(docs.url, "/api/media/events/e1/documents");
    assert_eq!(docs.content_type, "multipart/form-data; boundary=----HesocialEventMediaBoundary");
    assert_eq!(docs.body, encode_multipart(EVENT_DOCUMENTS_FIELD, &files).1);
    let images = upload_request("e1", MediaKind::Image, &files).unwrap();
    assert_eq!(images.url, "/api/media/events/e1/images");
    assert_eq!(images.body, encode_multipart("eventImages", &files).1);
}
