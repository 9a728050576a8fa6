use hesocial_frontend::mgmt_flow::mgmt_screen;
use hesocial_frontend::register_steps::{register_next_label, register_prev_disabled};
use hesocial_frontend::eventmgmt::{
    EventMgmtModal, EventsPage, EventsPagination, FileCandidate, ManagedEvent, MediaKind, MediaTab,
    UploadBytes, TITLE_REQUIRED,
};
use hesocial_frontend::media_flow::{media_start, media_step, MediaEffect, MediaInput, MediaState};
use hesocial_frontend::mgmt_flow::{
    mgmt_start, mgmt_step, FilterField, MgmtEffect, MgmtInput, MgmtJob, MgmtState,
};

fn step(s: MgmtState, i: MgmtInput) -> (MgmtState, MgmtEffect) {
    mgmt_step(s, i)
}

fn valid_event() -> ManagedEvent {
    ManagedEvent {
        id: "e7".to_string(),
        title: "Gala".to_string(),
        description: "Dinner".to_string(),
        category_id: "c1".to_string(),
        venue_id: "v1".to_string(),
        start_datetime: "2025-01-01T18:00:00Z".to_string(),
        end_datetime: "2025-01-01T22:00:00Z".to_string(),
        ..ManagedEvent::default()
    }
}

fn loaded(s: MgmtState, total_pages: u32) -> MgmtState {
    let g = s.fetch_gen;
    let page = EventsPage {
        events: vec![valid_event()],
        pagination: EventsPagination { page: 1, limit: 10, total: 1, total_pages },
    };
    step(s, MgmtInput::EventsLoaded(g, Ok(page))).0
}

#[test]
fn mgmt_opens_loading_first_page() {
    let (s, e) = mgmt_start();
    assert!(s.loading);
    assert_eq!(s.fetch_gen, 1);
    assert_eq!(s.modal, EventMgmtModal::Closed);
    match e {
        MgmtEffect::Load(1, f) => assert_eq!(f.page, 1),
        _ => panic!("expected the first load"),
    }
}

#[test]
fn invalid_form_is_not_sent() {
    let (s, _) = mgmt_start();
    let (s, _) = step(s, MgmtInput::OpenCreate);
    let (s, e) = step(s, MgmtInput::Save);
    assert!(matches!(e, MgmtEffect::Nothing));
    assert_eq!(s.error.as_deref(), Some(TITLE_REQUIRED));
    assert_eq!(s.action_loading, None);
}

#[test]
fn edit_save_and_second_click() {
    let (s, _) = mgmt_start();
    let (s, _) = step(s, MgmtInput::OpenEdit(valid_event()));
    assert_eq!(s.modal, EventMgmtModal::Form);
    assert_eq!(s.form.title, "Gala");
    assert_eq!(s.form.start_datetime, "2025-01-01T18:00");
    let (s, e) = step(s, MgmtInput::Save);
    match e {
        MgmtEffect::Update(id, data) => {
            assert_eq!(id, "e7");
            assert_eq!(data.title, "Gala");
        }
        _ => panic!("expected an update"),
    }
    assert_eq!(s.action_loading.as_deref(), Some("edit"));
    let (s, e) = step(s, MgmtInput::Save);
    assert!(matches!(e, MgmtEffect::Nothing));
    let g = s.fetch_gen;
    let (s, e) = step(s, MgmtInput::Finished(MgmtJob::Save, Ok(())));
    assert_eq!(s.modal, EventMgmtModal::Closed);
    assert!(s.selected.is_none());
    assert_eq!(s.form.title, "");
    assert_eq!(s.action_loading, None);
    assert_eq!(s.fetch_gen, g + 1);
    assert!(matches!(e, MgmtEffect::Refetch(n, _) if n == g + 1));
}

#[test]
fn create_failure_shows_message_and_keeps_form() {
    let (s, _) = mgmt_start();
    let (mut s, _) = step(s, MgmtInput::OpenCreate);
    let mut form = s.form.clone();
    form.title = "T".to_string();
    form.description = "D".to_string();
    form.category_id = "c".to_string();
    form.venue_id = "v".to_string();
    form.start_datetime = "2025-01-01T10:00".to_string();
    form.end_datetime = "2025-01-01T12:00".to_string();
    s = step(s, MgmtInput::EditForm(form)).0;
    let (s, e) = step(s, MgmtInput::Save);
    assert!(matches!(e, MgmtEffect::Create(_)));
    assert_eq!(s.action_loading.as_deref(), Some("create"));
    let (s, e) = step(s, MgmtInput::Finished(MgmtJob::Save, Err("Server said no".to_string())));
    assert!(matches!(e, MgmtEffect::Nothing));
    assert_eq!(s.error.as_deref(), Some("Server said no"));
    assert_eq!(s.modal, EventMgmtModal::Form);
    assert_eq!(s.form.title, "T");
    assert_eq!(s.action_loading, None);
}

#[test]
fn delete_publish_and_decisions() {
    let (s, _) = mgmt_start();
    let (s, e) = step(s, MgmtInput::ConfirmDelete);
    assert!(matches!(e, MgmtEffect::Nothing));
    let (s, _) = step(s, MgmtInput::OpenDelete(valid_event()));
    assert_eq!(s.modal, EventMgmtModal::Delete);
    let (s, e) = step(s, MgmtInput::ConfirmDelete);
    assert!(matches!(e, MgmtEffect::Delete(ref id) if id == "e7"));
    let (s, e) = step(s, MgmtInput::Finished(MgmtJob::Delete, Ok(())));
    assert!(matches!(e, MgmtEffect::Refetch(..)));
    assert_eq!(s.modal, EventMgmtModal::Closed);

    let (s, e) = step(s, MgmtInput::Publish("e7".to_string()));
    assert!(matches!(e, MgmtEffect::Publish(ref id, ref f) if id == "e7" && f.page == 1));
    assert_eq!(s.action_loading.as_deref(), Some("publish-e7"));
    let (s, e) = step(s, MgmtInput::Publish("e7".to_string()));
    assert!(matches!(e, MgmtEffect::Nothing));
    let (s, e) = step(s, MgmtInput::Approve("e7".to_string()));
    assert!(matches!(e, MgmtEffect::Decide(ref id, true, _) if id == "e7"));
    assert_eq!(s.action_loading.as_deref(), Some("approve-e7"));
    let (_, e) = step(s, MgmtInput::Reject("e7".to_string()));
    assert!(matches!(e, MgmtEffect::Nothing));
}

#[test]
fn filters_pages_and_stale_answers() {
    let (s, _) = mgmt_start();
    let (s, e) = step(s, MgmtInput::Page(2));
    assert!(matches!(e, MgmtEffect::Nothing));
    let s = loaded(s, 3);
    assert!(!s.loading);
    assert_eq!(s.events.len(), 1);
    let (s, e) = step(s, MgmtInput::Page(4));
    assert!(matches!(e, MgmtEffect::Nothing));
    let (s, e) = step(s, MgmtInput::Page(2));
    assert!(matches!(e, MgmtEffect::Load(2, ref f) if f.page == 2));
    let (s, _) = step(s, MgmtInput::EventsLoaded(1, Err("old".to_string())));
    assert_eq!(s.error, None);
    assert!(s.loading);
    let s = loaded(s, 3);
    let (s, e) = step(s, MgmtInput::Filter(FilterField::Search, "gala".to_string()));
    assert_eq!(s.filters.search, "gala");
    assert_eq!(s.filters.page, 1);
    assert!(matches!(e, MgmtEffect::Load(3, _)));
    let (s, _) = step(s, MgmtInput::CategoriesLoaded(Err("no categories".to_string())));
    assert_eq!(s.error.as_deref(), Some("no categories"));
    let (s, _) = step(s, MgmtInput::VenuesLoaded(Err("no venues".to_string())));
    assert_eq!(s.error.as_deref(), Some("no categories"));
}

fn bytes(name: &str, mime: &str, n: usize) -> UploadBytes {
    UploadBytes { filename: name.to_string(), mime_type: mime.to_string(), bytes: vec![0; n] }
}

fn candidate(name: &str, mime: &str, size: u64) -> FileCandidate {
    FileCandidate { name: name.to_string(), mime: mime.to_string(), size }
}

#[test]
fn media_pick_read_upload() {
    let (s, e) = media_start();
    assert!(matches!(e, MediaEffect::LoadPage(1, None)));
    let (s, e) = media_step(
        s,
        MediaInput::Pick(
            MediaKind::Image,
            vec![candidate("a.png", "image/png", 10), candidate("b.txt", "text/plain", 10)],
        ),
    );
    assert_eq!(s.pending_images.len(), 1);
    assert_eq!(s.pending_images[0].name, "a.png");
    assert_eq!(s.upload_errors.len(), 1);
    assert!(matches!(e, MediaEffect::ReadFiles(MediaKind::Image, ref names) if names == &vec!["a.png".to_string()]));
    let (s, _) = media_step(s, MediaInput::FilesRead(MediaKind::Image, vec![bytes("a.png", "image/png", 10)]));
    assert_eq!(s.image_files.len(), 1);
    let (s, e) = media_step(s, MediaInput::Upload(MediaKind::Image));
    assert!(matches!(e, MediaEffect::Upload(MediaKind::Image, ref f, MediaTab::All) if f.len() == 1));
    assert!(s.image_files.is_empty());
    assert_eq!(s.action_loading.as_deref(), Some("upload"));
    let (s, _) = media_step(s, MediaInput::FilesRead(MediaKind::Image, vec![bytes("c.png", "image/png", 4)]));
    let (s, e) = media_step(s, MediaInput::Upload(MediaKind::Image));
    assert!(matches!(e, MediaEffect::Nothing));
    assert!(s.image_files.is_empty());
    let (s, _) = media_step(s, MediaInput::UploadFinished(MediaKind::Image, MediaTab::All, Err("too big".to_string())));
    assert_eq!(s.upload_errors.last().map(|e| e.as_str()), Some("too big"));
    assert_eq!(s.pending_images.len(), 1);
    assert_eq!(s.action_loading, None);
    let g = s.fetch_gen;
    let (s, e) = media_step(s, MediaInput::UploadFinished(MediaKind::Image, MediaTab::Images, Ok(())));
    assert!(s.pending_images.is_empty());
    assert!(s.upload_errors.is_empty());
    assert!(matches!(e, MediaEffect::FetchMedia(n, Some(MediaKind::Image)) if n == g + 1));
}

#[test]
fn media_answers_and_tabs() {
    let (s, _) = media_start();
    let (s, _) = media_step(s, MediaInput::EventLoaded(Err("Failed to load event".to_string())));
    assert_eq!(s.error.as_deref(), Some("Error loading event"));
    assert!(!s.loading);
    let (s, _) = media_step(s, MediaInput::EventLoaded(Err("Gone".to_string())));
    assert_eq!(s.error.as_deref(), Some("Gone"));
    let (s, e) = media_step(s, MediaInput::Tab(MediaTab::Documents));
    assert!(matches!(e, MediaEffect::FetchMedia(2, Some(MediaKind::Document))));
    let (s, _) = media_step(s, MediaInput::MediaLoaded(1, Err("old".to_string())));
    assert_eq!(s.media_error, None);
    assert!(s.media_loading);
    let (s, _) = media_step(s, MediaInput::MediaLoaded(2, Ok(Vec::new())));
    assert!(!s.media_loading);
    let (s, e) = media_step(s, MediaInput::DeleteMedia("m1".to_string()));
    assert!(matches!(e, MediaEffect::DeleteMedia(ref id) if id == "m1"));
    let (s, _) = media_step(s, MediaInput::MediaDeleted(Err("denied".to_string())));
    assert_eq!(s.media_error.as_deref(), Some("denied"));
    let (s, _) = media_step(s, MediaInput::Clear(MediaKind::Image));
    assert!(s.upload_errors.is_empty());
    let _: MediaState = s;
}

#[test]
fn status_change_reloads_with_filters_of_the_click() {
    let (s, _) = mgmt_start();
    let s = loaded(s, 3);
    let (s, e) = step(s, MgmtInput::Publish("e7".to_string()));
    let clicked = match e {
        MgmtEffect::Publish(_, f) => f,
        _ => panic!("expected a publish"),
    };
    let (s, _) = step(s, MgmtInput::Filter(FilterField::Status, "draft".to_string()));
    let s = loaded(s, 3);
    assert_eq!(s.filters.status, "draft");
    let (s, e) = step(s, MgmtInput::Finished(MgmtJob::StatusChange(clicked), Ok(())));
    match e {
        MgmtEffect::Refetch(n, f) => {
            assert_eq!(n, s.fetch_gen);
            assert_eq!(f.status, "");
        }
        _ => panic!("expected a reload"),
    }
    assert_eq!(s.filters.status, "draft");
    let (s, _) = step(s, MgmtInput::OpenDelete(valid_event()));
    let (s, _) = step(s, MgmtInput::ConfirmDelete);
    let (_, e) = step(s, MgmtInput::Finished(MgmtJob::Delete, Ok(())));
    assert!(matches!(e, MgmtEffect::Refetch(_, ref f) if f.status == "draft"));
}

#[test]
fn screen_flags_and_labels() {
    let (s, _) = mgmt_start();
    let v = mgmt_screen(&s);
    assert!(!v.show_pagination && !v.empty && !v.editing && !v.save_busy);
    assert_eq!(v.page_copy, "Page 1 of 0");
    assert!(v.prev_disabled && v.next_disabled);
    assert_eq!(v.form_title, "Create New Event");
    assert_eq!(v.save_label, "Create Event");
    let s = loaded(s, 3);
    let v = mgmt_screen(&s);
    assert!(v.show_pagination && !v.empty && !v.next_disabled);
    assert_eq!(v.page_copy, "Page 1 of 3");
    let (s, _) = step(s, MgmtInput::OpenEdit(valid_event()));
    let v = mgmt_screen(&s);
    assert!(v.editing);
    assert_eq!(v.form_title, "Edit Event");
    assert_eq!(v.save_label, "Update Event");
    let (s, _) = step(s, MgmtInput::Save);
    let v = mgmt_screen(&s);
    assert!(v.save_busy && !v.delete_busy);
    assert_eq!(v.save_label, "Saving...");
}

#[test]
fn register_step_buttons() {
    assert!(register_prev_disabled(1));
    assert!(!register_prev_disabled(2));
    assert_eq!(register_next_label(1), "下一步");
    assert_eq!(register_next_label(2), "下一步");
    assert_eq!(register_next_label(3), "提交申請");
}
