use hesocial_frontend::eventmgmt::{
    event_form_payload, form_from_event, parse_approve_response, parse_categories_response,
    parse_create_response, parse_delete_response, parse_document_upload_response,
    parse_event_response, parse_events_response, parse_image_upload_response,
    parse_media_delete_response, parse_media_list_response, parse_publish_response,
    parse_update_response, parse_venues_response, validate_event_form, EventAmounts,
    EventFormData, EventsPagination, ManagedEvent, MediaKind, APPROVE_FALLBACK,
    CAPACITY_MAX_POSITIVE, CAPACITY_MIN_EXCEEDS_MAX, CATEGORY_REQUIRED, DESCRIPTION_REQUIRED,
    END_AFTER_START, END_REQUIRED, EVENTS_FETCH_FALLBACK, EVENT_FETCH_FALLBACK,
    FORM_LOAD_FALLBACK, MEDIA_FETCH_FALLBACK, MEDIA_UPLOAD_DOCS_FALLBACK, START_REQUIRED,
    TITLE_REQUIRED, VENUE_REQUIRED,
};
use hesocial_frontend::json::{Json, JsonMember, JsonNumber};

const EVENT_ROW: &str = r#"{
    "id": 17, "name": "Harbour Gala", "slug": "harbour-gala",
    "description": "Black tie", "category": {"id": "c2", "name": "Dinner", "slug": "dinner"},
    "venue": {"id": 5, "name": "Harbour Hall"}, "organizer_id": "u1",
    "dateTime": "2025-06-01T18:30:00.000Z", "end_datetime": "2025-06-01T22:00:00.000Z",
    "capacity": 80, "currentAttendees": "12",
    "price_platinum": "abc", "pricing": {"vip": 1500, "vvip": 2500.5, "general": "900", "currency": "USD"},
    "status": "draft", "approval_status": "pending",
    "required_membership_tiers": "[\"Platinum\",\"\",\"Diamond\"]",
    "required_verification": 0, "dressCode": "Formal",
    "inclusions": ["Dinner", "", 3, "Wine"], "exclusions": "Transport",
    "registrationDeadline": "2025-05-30T12:00:00Z",
    "waitlist_enabled": "false", "auto_approval": "1", "profit_margin": 0.25
}"#;

fn strings(items: &[&str]) -> Vec<String> {
    items.iter().map(|s| s.to_string()).collect()
}

fn one_event(body_row: &str) -> ManagedEvent {
    let body = format!(r#"{{"success":true,"data":{}}}"#, body_row);
    parse_event_response(200, &body).unwrap()
}

#[test]
fn managed_event_reads_fallback_keys_and_defaults() {
    let e = one_event(EVENT_ROW);
    assert_eq!(e.id, "17");
    assert_eq!(e.title, "Harbour Gala");
    assert_eq!(e.slug, "harbour-gala");
    assert_eq!(e.category_id, "c2");
    assert_eq!(e.category_name, "Dinner");
    assert_eq!(e.category_slug, "dinner");
    assert_eq!(e.venue_id, "5");
    assert_eq!(e.venue_name, "Harbour Hall");
    assert_eq!(e.organizer_id, "u1");
    assert_eq!(e.start_datetime, "2025-06-01T18:30:00.000Z");
    assert_eq!(e.timezone, "Asia/Taipei");
    assert_eq!(e.capacity_min, 1);
    assert_eq!(e.capacity_max, 80);
    assert_eq!(e.current_registrations, 12);
    assert_eq!(e.price_platinum.primary.as_deref(), Some("abc"));
    assert_eq!(e.price_platinum.fallback.as_deref(), Some("1500"));
    assert_eq!(e.price_diamond.primary, None);
    assert_eq!(e.price_diamond.fallback.as_deref(), Some("2500.5"));
    assert_eq!(e.price_black_card.fallback.as_deref(), Some("900"));
    assert_eq!(e.currency, "USD");
    assert_eq!(e.required_membership_tiers, strings(&["Platinum", "Diamond"]));
    assert!(!e.required_verification);
    assert_eq!(e.dress_code, "Formal");
    assert_eq!(e.language, "Traditional Chinese");
    assert_eq!(e.inclusions, strings(&["Dinner", "Wine"]));
    assert_eq!(e.exclusions, strings(&["Transport"]));
    assert_eq!(e.registration_closes_at, "2025-05-30T12:00:00Z");
    assert!(!e.waitlist_enabled);
    assert!(e.auto_approval);
    assert_eq!(e.profit_margin.primary.as_deref(), Some("0.25"));
    assert_eq!(e.profit_margin.fallback, None);
}

#[test]
fn string_lists_follow_nested_json_strings() {
    let e = one_event(r#"{"id":"a","inclusions":"\"[\\\"x\\\"]\"","exclusions":"","required_membership_tiers":"null"}"#);
    assert_eq!(e.inclusions, strings(&["x"]));
    assert!(e.exclusions.is_empty());
    assert!(e.required_membership_tiers.is_empty());
    let bare = one_event(r#"{"id":"b"}"#);
    assert_eq!(bare.title, "");
    assert_eq!(bare.currency, "TWD");
    assert!(bare.required_verification && bare.waitlist_enabled && !bare.auto_approval);
    assert_eq!(
        bare,
        ManagedEvent { id: "b".to_string(), capacity_max: 0, ..ManagedEvent::default() }
    );
}

#[test]
fn event_answers_and_errors() {
    assert_eq!(
        parse_event_response(200, r#"{"success":true,"data":{"name":"no id"}}"#).unwrap_err(),
        EVENT_FETCH_FALLBACK
    );
    assert_eq!(
        parse_event_response(200, r#"{"success":true,"data":null}"#).unwrap_err(),
        EVENT_FETCH_FALLBACK
    );
    assert_eq!(
        parse_event_response(403, r#"{"error":"forbidden"}"#).unwrap_err(),
        "forbidden"
    );
    assert_eq!(parse_event_response(401, "x").unwrap_err(), EVENT_FETCH_FALLBACK);
    assert_eq!(parse_event_response(200, "x").unwrap_err(), EVENT_FETCH_FALLBACK);
}

#[test]
fn events_page_keeps_rows_with_ids() {
    let body = format!(
        r#"{{"success":true,"data":[{},{{"title":"no id"}},{{"id":"z","title":"Zed"}}],"pagination":{{"page":2,"totalPages":"3"}}}}"#,
        EVENT_ROW
    );
    let page = parse_events_response(200, &body).unwrap();
    assert_eq!(page.events.len(), 2);
    assert_eq!(page.events[1].title, "Zed");
    assert_eq!(page.pagination, EventsPagination { page: 2, limit: 10, total: 0, total_pages: 3 });
    let no_block = parse_events_response(200, r#"{"success":true,"data":[]}"#).unwrap();
    assert_eq!(no_block.pagination, EventsPagination { page: 1, limit: 10, total: 0, total_pages: 0 });
    assert_eq!(
        parse_events_response(200, r#"{"success":true,"data":{}}"#).unwrap_err(),
        EVENTS_FETCH_FALLBACK
    );
    assert_eq!(
        parse_events_response(200, r#"{"success":false,"error":" nope "}"#).unwrap_err(),
        "nope"
    );
}

#[test]
fn form_filled_from_event() {
    let e = one_event(EVENT_ROW);
    let f = form_from_event(&e);
    assert_eq!(f.title, "Harbour Gala");
    assert_eq!(f.start_datetime, "2025-06-01T18:30");
    assert_eq!(f.end_datetime, "2025-06-01T22:00");
    assert_eq!(f.registration_closes_at, "2025-05-30T12:00");
    assert_eq!(f.registration_opens_at, "");
    assert_eq!(f.timezone, "Asia/Taipei");
    assert_eq!(f.currency, "USD");
    assert_eq!(f.capacity_max, 80);
    assert_eq!(f.inclusions, strings(&["Dinner", "Wine"]));
    let mut blank = ManagedEvent::default();
    blank.timezone = String::new();
    blank.language = String::new();
    blank.currency = String::new();
    let g = form_from_event(&blank);
    assert_eq!(g.timezone, "Asia/Taipei");
    assert_eq!(g.language, "Traditional Chinese");
    assert_eq!(g.currency, "TWD");
}

fn valid_form() -> EventFormData {
    let mut f = EventFormData::default();
    f.title = "Gala".to_string();
    f.description = "Dinner".to_string();
    f.category_id = "c1".to_string();
    f.venue_id = "v1".to_string();
    f.start_datetime = "2025-06-01T18:00".to_string();
    f.end_datetime = "2025-06-01T22:00".to_string();
    f
}

fn broken(change: impl Fn(&mut EventFormData)) -> Result<(), String> {
    let mut f = valid_form();
    change(&mut f);
    validate_event_form(&f)
}

#[test]
fn form_validation_reports_first_broken_rule() {
    assert_eq!(validate_event_form(&valid_form()), Ok(()));
    let err = |m: &str| Err::<(), String>(m.to_string());
    assert_eq!(broken(|f| f.title = "  ".to_string()), err(TITLE_REQUIRED));
    assert_eq!(broken(|f| f.description = "\n".to_string()), err(DESCRIPTION_REQUIRED));
    assert_eq!(broken(|f| f.category_id.clear()), err(CATEGORY_REQUIRED));
    assert_eq!(broken(|f| f.venue_id.clear()), err(VENUE_REQUIRED));
    assert_eq!(broken(|f| f.start_datetime.clear()), err(START_REQUIRED));
    assert_eq!(broken(|f| f.end_datetime.clear()), err(END_REQUIRED));
    assert_eq!(broken(|f| f.end_datetime = f.start_datetime.clone()), err(END_AFTER_START));
    assert_eq!(broken(|f| f.end_datetime = "2025-05-31T22:00".to_string()), err(END_AFTER_START));
    assert_eq!(broken(|f| f.capacity_max = 0), err(CAPACITY_MAX_POSITIVE));
    assert_eq!(broken(|f| f.capacity_min = 21), err(CAPACITY_MIN_EXCEEDS_MAX));
}

fn number(text: &str, n: i64) -> Json {
    Json::Number(JsonNumber {
        text: text.to_string(),
        as_i64: Some(n),
        as_u64: Some(n as u64),
        as_f64_as_i64: Some(n),
    })
}

fn member<'a>(ms: &'a [JsonMember], key: &str) -> Option<&'a Json> {
    ms.iter().find(|m| m.key == key).map(|m| &m.value)
}

#[test]
fn payload_names_fields_and_skips_empty_ones() {
    let mut f = valid_form();
    f.required_membership_tiers = strings(&["Diamond"]);
    f.registration_opens_at = "2025-05-01T09:00".to_string();
    f.dress_code = "Formal".to_string();
    let amounts = EventAmounts {
        price_platinum: number("1500", 1500),
        price_diamond: number("2500", 2500),
        price_black_card: Json::Null,
        profit_margin: number("0", 0),
    };
    let j = event_form_payload(&f, amounts);
    let ms = match &j {
        Json::Object(ms) => ms,
        other => panic!("not an object: {:?}", other),
    };
    let keys: Vec<&str> = ms.iter().map(|m| m.key.as_str()).collect();
    assert_eq!(
        keys,
        vec![
            "title", "description", "categoryId", "venueId", "startDatetime", "endDatetime",
            "timezone", "capacityMin", "capacityMax", "pricePlatinum", "priceDiamond",
            "priceBlackCard", "currency", "requiredMembershipTiers", "requiredVerification",
            "dressCode", "language", "inclusions", "exclusions", "registrationOpensAt",
            "waitlistEnabled", "autoApproval", "profitMargin",
        ]
    );
    assert_eq!(member(ms, "startDatetime"), Some(&Json::Text("2025-06-01T18:00:00.000Z".to_string())));
    assert_eq!(member(ms, "registrationOpensAt"), Some(&Json::Text("2025-05-01T09:00:00.000Z".to_string())));
    assert_eq!(member(ms, "capacityMax"), Some(&number("20", 20)));
    assert_eq!(member(ms, "priceBlackCard"), Some(&Json::Null));
    assert_eq!(
        member(ms, "requiredMembershipTiers"),
        Some(&Json::Array(vec![Json::Text("Diamond".to_string())]))
    );
    assert_eq!(member(ms, "requiredVerification"), Some(&Json::Bool(true)));
    assert_eq!(member(ms, "detailedDescription"), None);
}

#[test]
fn categories_and_venues() {
    let cats = parse_categories_response(
        200,
        r#"{"success":true,"data":[{"id":1,"name":"Dinner","slug":"dinner"},{"name":"x"}]}"#,
    )
    .unwrap();
    assert_eq!(cats.len(), 1);
    assert_eq!(cats[0].id, "1");
    assert_eq!(cats[0].slug, "dinner");
    assert_eq!(
        parse_categories_response(200, r#"{"success":true,"data":{}}"#).unwrap_err(),
        FORM_LOAD_FALLBACK
    );
    let venues = parse_venues_response(
        200,
        r#"{"success":true,"data":[{"id":"v1","name":"Hall","city":"Taipei","capacityMax":"300"},{"id":"v2","capacity":40}]}"#,
    )
    .unwrap();
    assert_eq!(venues[0].capacity_max, 300);
    assert_eq!(venues[1].capacity_max, 40);
    assert_eq!(venues[1].city, "");
}

#[test]
fn unit_answers() {
    assert_eq!(parse_create_response(200, r#"{"success":true}"#), Ok(()));
    assert_eq!(parse_update_response(200, r#"{"success":true}"#), Ok(()));
    assert_eq!(parse_delete_response(200, r#"{"success":true}"#), Ok(()));
    assert_eq!(parse_publish_response(200, r#"{"success":true}"#), Ok(()));
    assert_eq!(parse_media_delete_response(200, r#"{"success":true}"#), Ok(()));
    assert_eq!(
        parse_create_response(200, r#"{"success":false,"error":"Title taken"}"#),
        Err("Title taken".to_string())
    );
    assert_eq!(parse_approve_response(500, "boom"), Err(APPROVE_FALLBACK.to_string()));
    assert_eq!(parse_delete_response(200, "{}"), Err("An error occurred".to_string()));
}

#[test]
fn media_lists_and_uploads() {
    let list = parse_media_list_response(
        200,
        r#"{"success":true,"data":[
            {"id":"m1","type":"image","filePath":"/f/a.jpg","thumbnails":{"medium":"/t/a.jpg"},"originalFilename":"a.jpg","fileSize":2048,"mimeType":"image/jpeg","uploadedBy":"u","createdAt":"c"},
            {"id":"m2","mime_type":"application/pdf","file_path":"/f/b.pdf","thumbnailPath":{"medium":""},"file_size":"10"},
            {"id":"m3","mimeType":"text/plain"},
            {"type":"image"}
        ]}"#,
    )
    .unwrap();
    assert_eq!(list.len(), 3);
    assert_eq!(list[0].kind, MediaKind::Image);
    assert_eq!(list[0].preview_url, "/t/a.jpg");
    assert_eq!(list[0].file_size, 2048);
    assert_eq!(list[1].kind, MediaKind::Document);
    assert_eq!(list[1].preview_url, "/f/b.pdf");
    assert_eq!(list[1].file_size, 10);
    assert_eq!(list[2].kind, MediaKind::Document);
    assert_eq!(
        parse_media_list_response(200, r#"{"success":true,"data":{}}"#).unwrap_err(),
        MEDIA_FETCH_FALLBACK
    );
    let up = parse_image_upload_response(
        200,
        r#"{"success":true,"data":{"uploadedImages":[{"id":9,"type":"image"}]}}"#,
    )
    .unwrap();
    assert_eq!(up.len(), 1);
    assert_eq!(up[0].id, "9");
    let none = parse_document_upload_response(200, r#"{"success":true,"data":{"uploadedImages":[{"id":9}]}}"#)
        .unwrap();
    assert!(none.is_empty());
    assert_eq!(
        parse_document_upload_response(200, r#"{"success":true,"data":null}"#).unwrap_err(),
        MEDIA_UPLOAD_DOCS_FALLBACK
    );
}
