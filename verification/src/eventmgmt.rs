//! Event management: the listing filters and API paths, the guard, the
//! publish/approve workflow, status badges, the form helpers, media kinds,
//! upload validation and multipart framing, and the decoding of the
//! management API's answers.
use vstd::prelude::*;
use vstd::string::StringSliceAdditionalSpecFns;
use vstd::utf8::{decode_utf8, encode_utf8, is_char_boundary};
use crate::permissions::{guard_matches, Permissions, RouteGuard};
use crate::text::{
    blank, chars_of, contains_char, decimal, first_index, has_prefix, is_ws, join_with,
    lemma_first_index_range, lemma_first_index_scan, lemma_split_join, lemma_trim_fixed,
    lemma_trim_idempotent, lemma_trim_shape, split_on, starts_with_str, str_eq, str_less,
    text_lt,
    string_of_range, trim, trim_str, u64_to_decimal,
};
use crate::json::{
    error_from_body, error_from_parsed, error_message, get, get_in, is_success, json_error_message,
    json_get, json_get_in, json_id, json_id_spec, json_result, json_string, json_string_or_empty,
    amount_text, json_amount, json_bool, json_bool_spec, json_text, json_u32, json_u32_spec, json_u64, json_u64_spec, or_text,
    parse_json, parsed_json,
    seq_view_result, success_flag, view_or_empty, Json, JsonMember, JsonNumber,
};
use crate::numtext::{parse_u32_spec, parse_u32_text};
use crate::url::{push_param, with_param};
use crate::seqs::{
    filter_map_seq, lemma_filter_map_keeps_all, lemma_filter_map_member, lemma_filter_map_step,
    lemma_full_prefix,
};

verus! {

pub const EVENTS_API_PATH: &'static str = "/api/events";
pub const CATEGORIES_API_PATH: &'static str = "/api/categories";
pub const VENUES_API_PATH: &'static str = "/api/venues";
pub const MEDIA_EVENTS_API_PATH: &'static str = "/api/media/events";
pub const MEDIA_API_PATH: &'static str = "/api/media";
pub const PAGE_LIMIT: u32 = 10;
/// The time zone, currency and language an event has when none is given.
pub const DEFAULT_TIMEZONE: &'static str = "Asia/Taipei";
pub const DEFAULT_CURRENCY: &'static str = "TWD";
pub const DEFAULT_LANGUAGE: &'static str = "Traditional Chinese";
pub const EVENT_MANAGEMENT_FALLBACK: &'static str = "/login";
pub const MEDIA_ROUTE_PREFIX: &'static str = "/event-mgmt/media";
pub const EVENT_MGMT_PATH: &'static str = "/event-mgmt";
pub const CATEGORIES_PATH: &'static str = "/event-mgmt/categories";
pub const VENUES_PATH: &'static str = "/event-mgmt/venues";

pub const EVENTS_FETCH_FALLBACK: &'static str = "Failed to load event data";
pub const EVENT_FETCH_FALLBACK: &'static str = "Failed to load event";
pub const EVENT_LOAD_ERROR: &'static str = "Error loading event";
pub const EVENT_NOT_FOUND: &'static str = "Event not found";
pub const FORM_LOAD_FALLBACK: &'static str = "Failed to load form data";
pub const CREATE_FALLBACK: &'static str = "Failed to save event";
pub const UPDATE_FALLBACK: &'static str = "Failed to save event";
pub const DELETE_FALLBACK: &'static str = "An error occurred";
pub const ACTION_FALLBACK: &'static str = "An error occurred";
pub const PUBLISH_FALLBACK: &'static str = "Failed to publish event";
pub const APPROVE_FALLBACK: &'static str = "Failed to approve/reject event";
pub const MEDIA_FETCH_FALLBACK: &'static str = "Failed to get event media";
pub const MEDIA_UPLOAD_IMAGES_FALLBACK: &'static str = "Failed to upload images";
pub const MEDIA_UPLOAD_DOCS_FALLBACK: &'static str = "Failed to upload documents";
pub const MEDIA_DELETE_FALLBACK: &'static str = "Failed to delete media";
pub const NETWORK_ERROR: &'static str = "Network error occurred";

pub const TITLE_REQUIRED: &'static str = "Event title is required";
pub const DESCRIPTION_REQUIRED: &'static str = "Event description is required";
pub const CATEGORY_REQUIRED: &'static str = "Event category is required";
pub const VENUE_REQUIRED: &'static str = "Venue is required";
pub const START_REQUIRED: &'static str = "Start date and time is required";
pub const END_REQUIRED: &'static str = "End date and time is required";
pub const END_AFTER_START: &'static str = "End time must be after start time";
pub const CAPACITY_MAX_POSITIVE: &'static str = "Maximum capacity must be greater than 0";
pub const CAPACITY_MIN_EXCEEDS_MAX: &'static str = "Minimum capacity cannot exceed maximum capacity";

pub const EVENT_IMAGES_FIELD: &'static str = "eventImages";
pub const EVENT_DOCUMENTS_FIELD: &'static str = "eventDocuments";
pub const MAX_IMAGE_FILES: u32 = 10;
pub const MAX_DOCUMENT_FILES: u32 = 5;
pub const MAX_FORM_IMAGE_FILES: u32 = 5;
pub const MAX_FORM_DOCUMENT_FILES: u32 = 3;
pub const MAX_SIZE_MB: u32 = 10;
pub const MAX_FILE_SIZE_BYTES: u64 = 10485760;
pub const MULTIPART_BOUNDARY: &'static str = "----HesocialEventMediaBoundary";

pub const CREATE_ACTION: &'static str = "create";
pub const EDIT_ACTION: &'static str = "edit";
pub const DELETE_ACTION: &'static str = "delete";
pub const PUBLISH_ACTION: &'static str = "publish";
pub const APPROVE_ACTION: &'static str = "approve";
pub const UPLOAD_ACTION: &'static str = "upload";

#[derive(Clone, Debug, PartialEq, Eq, Default)]
pub struct EventMgmtFilters {
    pub page: u32,
    pub limit: u32,
    pub search: String,
    pub status: String,
    pub category: String,
    pub venue: String,
}

/// The listing's filters, texts taken by view.
pub struct EventMgmtFiltersView {
    pub page: u32,
    pub limit: u32,
    pub search: Seq<char>,
    pub status: Seq<char>,
    pub category: Seq<char>,
    pub venue: Seq<char>,
}

impl View for EventMgmtFilters {
    type V = EventMgmtFiltersView;

    open spec fn view(&self) -> EventMgmtFiltersView {
        EventMgmtFiltersView {
            page: self.page,
            limit: self.limit,
            search: self.search@,
            status: self.status@,
            category: self.category@,
            venue: self.venue@,
        }
    }
}

impl EventMgmtFilters {
    /// The filters of a fresh listing: first page, the page size, nothing
    /// else set.
    pub fn list_default() -> (f: Self)
        ensures
            f.page == 1,
            f.limit == PAGE_LIMIT,
            f.search@.len() == 0,
            f.status@.len() == 0,
            f.category@.len() == 0,
            f.venue@.len() == 0,
            f@ == (EventMgmtFiltersView {
                page: 1,
                limit: PAGE_LIMIT,
                search: Seq::empty(),
                status: Seq::empty(),
                category: Seq::empty(),
                venue: Seq::empty(),
            }),
    {
        EventMgmtFilters {
            page: 1,
            limit: PAGE_LIMIT,
            search: String::new(),
            status: String::new(),
            category: String::new(),
            venue: String::new(),
        }
    }
}

#[derive(Clone, Copy, Debug, PartialEq, Eq)]
pub struct EventsPagination {
    pub page: u32,
    pub limit: u32,
    pub total: u32,
    pub total_pages: u32,
}

impl Default for EventsPagination {
    fn default() -> (p: Self)
        ensures
            p == (EventsPagination { page: 1, limit: PAGE_LIMIT, total: 0, total_pages: 0 }),
    {
        EventsPagination { page: 1, limit: PAGE_LIMIT, total: 0, total_pages: 0 }
    }
}

#[derive(Clone, Debug, PartialEq, Eq, Default)]
pub struct EventCategory {
    pub id: String,
    pub name: String,
    pub slug: String,
}

impl EventCategory {
    /// The value a category filters by: its slug, else its name, else its id.
    pub fn filter_value(&self) -> (v: &str)
        ensures
            v@ == (if self.slug@.len() > 0 {
                self.slug@
            } else if self.name@.len() > 0 {
                self.name@
            } else {
                self.id@
            }),
    {
        if self.slug.as_str().unicode_len() > 0 {
            self.slug.as_str()
        } else if self.name.as_str().unicode_len() > 0 {
            self.name.as_str()
        } else {
            self.id.as_str()
        }
    }
}

#[derive(Clone, Debug, PartialEq, Eq, Default)]
pub struct EventVenue {
    pub id: String,
    pub name: String,
    pub city: String,
    pub capacity_max: u32,
}

#[derive(Clone, Copy, Debug, PartialEq, Eq, Default)]
pub enum EventMgmtModal {
    #[default]
    Closed,
    Form,
    Delete,
}

#[derive(Clone, Copy, Debug, PartialEq, Eq, Default)]
pub enum MediaTab {
    #[default]
    All,
    Images,
    Documents,
}

impl MediaTab {
    pub fn as_id(self) -> (s: &'static str)
        ensures
            s@ == (match self {
                MediaTab::All => "all"@,
                MediaTab::Images => "images"@,
                MediaTab::Documents => "documents"@,
            }),
    {
        match self {
            MediaTab::All => "all",
            MediaTab::Images => "images",
            MediaTab::Documents => "documents",
        }
    }

    pub fn label(self) -> (s: &'static str)
        ensures
            s@ == (match self {
                MediaTab::All => "All Media"@,
                MediaTab::Images => "Images"@,
                MediaTab::Documents => "Documents"@,
            }),
    {
        match self {
            MediaTab::All => "All Media",
            MediaTab::Images => "Images",
            MediaTab::Documents => "Documents",
        }
    }
}

#[derive(Clone, Copy, Debug, PartialEq, Eq)]
pub enum MediaKind {
    Image,
    Document,
}

/// The name a media kind goes by in the API's `type` field.
pub open spec fn kind_text(kind: MediaKind) -> Seq<char> {
    match kind {
        MediaKind::Image => "image"@,
        MediaKind::Document => "document"@,
    }
}

impl MediaKind {
    pub fn as_str(self) -> (s: &'static str)
        ensures
            s@ == kind_text(self),
    {
        match self {
            MediaKind::Image => "image",
            MediaKind::Document => "document",
        }
    }

    /// The form field under which files of this kind are uploaded.
    pub fn field_name(self) -> (s: &'static str)
        ensures
            s@ == (match self {
                MediaKind::Image => EVENT_IMAGES_FIELD@,
                MediaKind::Document => EVENT_DOCUMENTS_FIELD@,
            }),
    {
        match self {
            MediaKind::Image => EVENT_IMAGES_FIELD,
            MediaKind::Document => EVENT_DOCUMENTS_FIELD,
        }
    }

    /// How many files of this kind an event's media page accepts.
    pub fn max_files_page(self) -> (n: u32)
        ensures
            n == (match self {
                MediaKind::Image => MAX_IMAGE_FILES,
                MediaKind::Document => MAX_DOCUMENT_FILES,
            }),
    {
        match self {
            MediaKind::Image => MAX_IMAGE_FILES,
            MediaKind::Document => MAX_DOCUMENT_FILES,
        }
    }

    /// The error shown when an upload of this kind fails without a message.
    pub fn upload_fallback(self) -> (s: &'static str)
        ensures
            s@ == upload_fallback_text(self),
    {
        match self {
            MediaKind::Image => MEDIA_UPLOAD_IMAGES_FALLBACK,
            MediaKind::Document => MEDIA_UPLOAD_DOCS_FALLBACK,
        }
    }
}

pub open spec fn upload_fallback_text(kind: MediaKind) -> Seq<char> {
    match kind {
        MediaKind::Image => MEDIA_UPLOAD_IMAGES_FALLBACK@,
        MediaKind::Document => MEDIA_UPLOAD_DOCS_FALLBACK@,
    }
}

/// A picked file before upload.
#[derive(Clone, Debug, PartialEq, Eq)]
pub struct PendingFile {
    pub name: String,
    pub size: u64,
    pub mime: String,
    pub kind: MediaKind,
}

/// A file's name, type and contents, ready to be framed for upload.
#[derive(Clone, Debug, PartialEq, Eq)]
pub struct UploadBytes {
    pub filename: String,
    pub mime_type: String,
    pub bytes: Vec<u8>,
}

/// A file offered for upload, as far as validation reads it.
#[derive(Clone, Debug, PartialEq, Eq)]
pub struct FileCandidate {
    pub name: String,
    pub mime: String,
    pub size: u64,
}

pub fn event_api_path(id: &str) -> (s: String)
    ensures
        s@ == EVENTS_API_PATH@ + "/"@ + id@,
{
    let mut s = String::from_str(EVENTS_API_PATH);
    s.append("/");
    s.append(id);
    s
}

pub fn event_publish_api_path(id: &str) -> (s: String)
    ensures
        s@ == EVENTS_API_PATH@ + "/"@ + id@ + "/publish"@,
{
    let mut s = event_api_path(id);
    s.append("/publish");
    s
}

pub fn event_approve_api_path(id: &str) -> (s: String)
    ensures
        s@ == EVENTS_API_PATH@ + "/"@ + id@ + "/approve"@,
{
    let mut s = event_api_path(id);
    s.append("/approve");
    s
}

/// The media list of an event, narrowed to one kind when one is given.
pub fn event_media_api_path(event_id: &str, kind: Option<MediaKind>) -> (s: String)
    ensures
        s@ == MEDIA_EVENTS_API_PATH@ + "/"@ + event_id@ + (match kind {
            Some(MediaKind::Image) => "?type=image"@,
            Some(MediaKind::Document) => "?type=document"@,
            None => Seq::<char>::empty(),
        }),
{
    let mut s = String::from_str(MEDIA_EVENTS_API_PATH);
    s.append("/");
    s.append(event_id);
    match kind {
        Some(MediaKind::Image) => {
            s.append("?type=image");
        },
        Some(MediaKind::Document) => {
            s.append("?type=document");
        },
        None => {
            assert(s@ =~= s@ + Seq::<char>::empty());
        },
    }
    s
}

pub fn event_media_images_api_path(event_id: &str) -> (s: String)
    ensures
        s@ == MEDIA_EVENTS_API_PATH@ + "/"@ + event_id@ + "/images"@,
{
    let mut s = String::from_str(MEDIA_EVENTS_API_PATH);
    s.append("/");
    s.append(event_id);
    s.append("/images");
    s
}

pub fn event_media_documents_api_path(event_id: &str) -> (s: String)
    ensures
        s@ == MEDIA_EVENTS_API_PATH@ + "/"@ + event_id@ + "/documents"@,
{
    let mut s = String::from_str(MEDIA_EVENTS_API_PATH);
    s.append("/");
    s.append(event_id);
    s.append("/documents");
    s
}

pub fn media_item_api_path(media_id: &str) -> (s: String)
    ensures
        s@ == MEDIA_API_PATH@ + "/"@ + media_id@,
{
    let mut s = String::from_str(MEDIA_API_PATH);
    s.append("/");
    s.append(media_id);
    s
}

pub fn media_page_path(event_id: &str) -> (s: String)
    ensures
        s@ == MEDIA_ROUTE_PREFIX@ + "/"@ + event_id@,
{
    let mut s = String::from_str(MEDIA_ROUTE_PREFIX);
    s.append("/");
    s.append(event_id);
    s
}

/// The management listing's query: page and limit always (0 standing for
/// the first page and the page size), then each of search, status,
/// category and venue that is set.
pub open spec fn management_query(f: EventMgmtFilters) -> Seq<char> {
    let page: nat = if f.page == 0 {
        1
    } else {
        f.page as nat
    };
    let limit: nat = if f.limit == 0 {
        PAGE_LIMIT as nat
    } else {
        f.limit as nat
    };
    let q = with_param(with_param(Seq::empty(), "page"@, decimal(page)), "limit"@, decimal(limit));
    let q = if f.search@.len() > 0 {
        with_param(q, "search"@, f.search@)
    } else {
        q
    };
    let q = if f.status@.len() > 0 {
        with_param(q, "status"@, f.status@)
    } else {
        q
    };
    let q = if f.category@.len() > 0 {
        with_param(q, "category"@, f.category@)
    } else {
        q
    };
    if f.venue@.len() > 0 {
        with_param(q, "venue"@, f.venue@)
    } else {
        q
    }
}

pub fn events_query_string(filters: &EventMgmtFilters) -> (q: String)
    ensures
        q@ == management_query(*filters),
{
    let mut out = String::new();
    let page: u32 = if filters.page == 0 {
        1
    } else {
        filters.page
    };
    let limit: u32 = if filters.limit == 0 {
        PAGE_LIMIT
    } else {
        filters.limit
    };
    let page_text = u64_to_decimal(page as u64);
    push_param(&mut out, "page", page_text.as_str());
    let limit_text = u64_to_decimal(limit as u64);
    push_param(&mut out, "limit", limit_text.as_str());
    if filters.search.as_str().unicode_len() > 0 {
        push_param(&mut out, "search", filters.search.as_str());
    }
    if filters.status.as_str().unicode_len() > 0 {
        push_param(&mut out, "status", filters.status.as_str());
    }
    if filters.category.as_str().unicode_len() > 0 {
        push_param(&mut out, "category", filters.category.as_str());
    }
    if filters.venue.as_str().unicode_len() > 0 {
        push_param(&mut out, "venue", filters.venue.as_str());
    }
    out
}

/// The listing endpoint with its query string.
pub fn events_list_url(filters: &EventMgmtFilters) -> (s: String)
    ensures
        s@ == (if management_query(*filters).len() == 0 {
            EVENTS_API_PATH@
        } else {
            EVENTS_API_PATH@ + "?"@ + management_query(*filters)
        }),
{
    let query = events_query_string(filters);
    if query.as_str().unicode_len() == 0 {
        String::from_str(EVENTS_API_PATH)
    } else {
        let mut s = String::from_str(EVENTS_API_PATH);
        s.append("?");
        s.append(query.as_str());
        s
    }
}

pub fn venues_list_url() -> (s: String)
    ensures
        s@ == VENUES_API_PATH@ + "?limit=100"@,
{
    let mut s = String::from_str(VENUES_API_PATH);
    s.append("?limit=100");
    s
}

/// Changing a filter always goes back to the first page.
pub fn page_after_filter_change(_current_page: u32) -> (p: u32)
    ensures
        p == 1,
{
    1
}

/// A page number the pager may move to.
pub fn page_in_range(new_page: u32, total_pages: u32) -> (b: bool)
    ensures
        b == (0 < new_page <= total_pages),
{
    new_page > 0 && new_page <= total_pages
}

/// The management pages admit sessions that may manage events; the others
/// go to the login page.
pub fn event_management_guard(restoring: bool, permissions: &Permissions) -> (g: RouteGuard)
    ensures
        guard_matches(g, restoring, permissions.event_management, EVENT_MANAGEMENT_FALLBACK@),
{
    if restoring {
        RouteGuard::Loading
    } else if !permissions.event_management {
        RouteGuard::Redirect(EVENT_MANAGEMENT_FALLBACK)
    } else {
        RouteGuard::Allow
    }
}

/// Whether the action in progress is the one with the given key.
pub fn action_is(action_loading: Option<&str>, key: &str) -> (b: bool)
    ensures
        b == (match action_loading {
            Some(a) => a@ == key@,
            None => false,
        }),
{
    match action_loading {
        Some(a) => str_eq(a, key),
        None => false,
    }
}

pub fn publish_action_key(event_id: &str) -> (s: String)
    ensures
        s@ == PUBLISH_ACTION@ + "-"@ + event_id@,
{
    let mut s = String::from_str(PUBLISH_ACTION);
    s.append("-");
    s.append(event_id);
    s
}

pub fn approve_action_key(event_id: &str) -> (s: String)
    ensures
        s@ == APPROVE_ACTION@ + "-"@ + event_id@,
{
    let mut s = String::from_str(APPROVE_ACTION);
    s.append("-");
    s.append(event_id);
    s
}

/// An event awaits a decision: its approval is pending, or it is a draft
/// or under review.
pub open spec fn approvable(status: Seq<char>, approval_status: Seq<char>) -> bool {
    approval_status == "pending"@ || status == "pending_review"@ || status == "draft"@
}

pub fn can_approve(status: &str, approval_status: &str) -> (b: bool)
    ensures
        b == approvable(status@, approval_status@),
{
    str_eq(approval_status, "pending") || str_eq(status, "pending_review") || str_eq(
        status,
        "draft",
    )
}

/// An event may be published once approved, unless it is already
/// published, cancelled, archived or completed.
pub open spec fn publishable(status: Seq<char>, approval_status: Seq<char>) -> bool {
    &&& approval_status == "approved"@
    &&& status != "published"@
    &&& status != "cancelled"@
    &&& status != "archived"@
    &&& status != "completed"@
}

pub fn can_publish(status: &str, approval_status: &str) -> (b: bool)
    ensures
        b == publishable(status@, approval_status@),
{
    str_eq(approval_status, "approved") && !str_eq(status, "published") && !str_eq(
        status,
        "cancelled",
    ) && !str_eq(status, "archived") && !str_eq(status, "completed")
}

/// The status an event takes when it is published: `published`, for the
/// events that may be published.
pub fn next_status_after_publish(status: &str, approval_status: &str) -> (r: Option<&'static str>)
    ensures
        match r {
            Some(s) => publishable(status@, approval_status@) && s@ == "published"@,
            None => !publishable(status@, approval_status@),
        },
{
    if can_publish(status, approval_status) {
        Some("published")
    } else {
        None
    }
}

/// The approval status an event takes after a decision.
pub open spec fn approval_after(approved: bool) -> Seq<char> {
    if approved {
        "approved"@
    } else {
        "rejected"@
    }
}

pub fn next_approval_after_decision(approved: bool) -> (s: &'static str)
    ensures
        s@ == approval_after(approved),
{
    if approved {
        "approved"
    } else {
        "rejected"
    }
}

/// A status as shown: its first underscore becomes a space.
pub open spec fn status_text(status: Seq<char>) -> Seq<char> {
    match first_index(status, '_') {
        Some(i) => status.update(i, ' '),
        None => status,
    }
}

pub fn status_label(status: &str) -> (s: String)
    ensures
        s@ == status_text(status@),
{
    let mut cs = crate::text::chars_of(status);
    let n = cs.len();
    let mut i: usize = 0;
    while i < n
        invariant
            n == cs@.len(),
            cs@ == status@,
            i <= n,
            forall|k: int| 0 <= k < i ==> cs@[k] != '_',
        decreases n - i,
    {
        if cs[i] == '_' {
            proof {
                lemma_first_index_scan(status@, '_', i as int);
                assert(status@.subrange(i as int, n as int)[0] == '_');
            }
            cs.set(i, ' ');
            return crate::text::string_of(&cs);
        }
        i = i + 1;
    }
    proof {
        lemma_first_index_scan(status@, '_', n as int);
        assert(status@.subrange(n as int, n as int).len() == 0);
    }
    String::from_str(status)
}

/// The badge colours of an event status.
pub open spec fn status_badge_text(status: Seq<char>) -> Seq<char> {
    if status == "draft"@ {
        "bg-gray-500/20 text-gray-300"@
    } else if status == "pending_review"@ {
        "bg-yellow-500/20 text-yellow-300"@
    } else if status == "approved"@ {
        "bg-blue-500/20 text-blue-300"@
    } else if status == "published"@ {
        "bg-green-500/20 text-green-300"@
    } else if status == "full"@ {
        "bg-purple-500/20 text-purple-300"@
    } else if status == "completed"@ {
        "bg-gray-600/30 text-gray-400"@
    } else if status == "cancelled"@ {
        "bg-red-500/20 text-red-300"@
    } else if status == "archived"@ {
        "bg-gray-700/30 text-gray-500"@
    } else {
        "bg-gray-500/20 text-gray-300"@
    }
}

pub fn status_badge_class(status: &str) -> (s: &'static str)
    ensures
        s@ == status_badge_text(status@),
{
    if str_eq(status, "draft") {
        "bg-gray-500/20 text-gray-300"
    } else if str_eq(status, "pending_review") {
        "bg-yellow-500/20 text-yellow-300"
    } else if str_eq(status, "approved") {
        "bg-blue-500/20 text-blue-300"
    } else if str_eq(status, "published") {
        "bg-green-500/20 text-green-300"
    } else if str_eq(status, "full") {
        "bg-purple-500/20 text-purple-300"
    } else if str_eq(status, "completed") {
        "bg-gray-600/30 text-gray-400"
    } else if str_eq(status, "cancelled") {
        "bg-red-500/20 text-red-300"
    } else if str_eq(status, "archived") {
        "bg-gray-700/30 text-gray-500"
    } else {
        "bg-gray-500/20 text-gray-300"
    }
}

pub fn media_status_badge_class(status: &str) -> (s: &'static str)
    ensures
        s@ == (if status@ == "published"@ {
            "bg-green-100 text-green-800"@
        } else if status@ == "draft"@ {
            "bg-gray-100 text-gray-800"@
        } else {
            "bg-yellow-100 text-yellow-800"@
        }),
{
    if str_eq(status, "published") {
        "bg-green-100 text-green-800"
    } else if str_eq(status, "draft") {
        "bg-gray-100 text-gray-800"
    } else {
        "bg-yellow-100 text-yellow-800"
    }
}

pub fn tab_media_kind(tab: MediaTab) -> (k: Option<MediaKind>)
    ensures
        k == (match tab {
            MediaTab::All => None,
            MediaTab::Images => Some(MediaKind::Image),
            MediaTab::Documents => Some(MediaKind::Document),
        }),
{
    match tab {
        MediaTab::All => None,
        MediaTab::Images => Some(MediaKind::Image),
        MediaTab::Documents => Some(MediaKind::Document),
    }
}

/// The media kind named by the API's `type` field.
pub open spec fn kind_of_type_field(value: Seq<char>) -> Option<MediaKind> {
    if value == "image"@ {
        Some(MediaKind::Image)
    } else if value == "document"@ {
        Some(MediaKind::Document)
    } else {
        None
    }
}

pub fn media_kind_from_type_field(value: &str) -> (k: Option<MediaKind>)
    ensures
        k == kind_of_type_field(value@),
{
    if str_eq(value, "image") {
        Some(MediaKind::Image)
    } else if str_eq(value, "document") {
        Some(MediaKind::Document)
    } else {
        None
    }
}

/// The image types the uploader accepts.
pub open spec fn is_image_mime(m: Seq<char>) -> bool {
    m == "image/jpeg"@ || m == "image/png"@ || m == "image/webp"@ || m == "image/gif"@
}

/// The document types the uploader accepts.
pub open spec fn is_document_mime(m: Seq<char>) -> bool {
    ||| m == "application/pdf"@
    ||| m == "application/msword"@
    ||| m == "application/vnd.openxmlformats-officedocument.wordprocessingml.document"@
    ||| m == "application/vnd.ms-excel"@
    ||| m == "application/vnd.openxmlformats-officedocument.spreadsheetml.sheet"@
}

fn document_mime(mime: &str) -> (b: bool)
    ensures
        b == is_document_mime(mime@),
{
    str_eq(mime, "application/pdf") || str_eq(mime, "application/msword") || str_eq(
        mime,
        "application/vnd.openxmlformats-officedocument.wordprocessingml.document",
    ) || str_eq(mime, "application/vnd.ms-excel") || str_eq(
        mime,
        "application/vnd.openxmlformats-officedocument.spreadsheetml.sheet",
    )
}

/// The media kind of a MIME type: any `image/` type is an image, the
/// accepted document types are documents.
pub open spec fn kind_of_mime(m: Seq<char>) -> Option<MediaKind> {
    if has_prefix(m, "image/"@) {
        Some(MediaKind::Image)
    } else if is_document_mime(m) {
        Some(MediaKind::Document)
    } else {
        None
    }
}

pub fn media_kind_from_mime(mime: &str) -> (k: Option<MediaKind>)
    ensures
        k == kind_of_mime(mime@),
{
    if starts_with_str(mime, "image/") {
        Some(MediaKind::Image)
    } else if document_mime(mime) {
        Some(MediaKind::Document)
    } else {
        None
    }
}

pub fn is_allowed_mime(mime: &str) -> (b: bool)
    ensures
        b == (is_image_mime(mime@) || is_document_mime(mime@)),
{
    (str_eq(mime, "image/jpeg") || str_eq(mime, "image/png") || str_eq(mime, "image/webp")
        || str_eq(mime, "image/gif")) || document_mime(mime)
}

pub fn format_media_date(iso: &str) -> (s: String)
    ensures
        s@ == (match first_index(iso@, 'T') {
            Some(i) => iso@.subrange(0, i),
            None => iso@,
        }),
{
    let cs = crate::text::chars_of(iso);
    let n = cs.len();
    let mut i: usize = 0;
    while i < n
        invariant
            n == cs@.len(),
            cs@ == iso@,
            i <= n,
            forall|k: int| 0 <= k < i ==> cs@[k] != 'T',
        decreases n - i,
    {
        if cs[i] == 'T' {
            proof {
                lemma_first_index_scan(iso@, 'T', i as int);
                assert(iso@.subrange(i as int, n as int)[0] == 'T');
            }
            return crate::text::string_of_range(&cs, 0, i);
        }
        i = i + 1;
    }
    proof {
        lemma_first_index_scan(iso@, 'T', n as int);
        assert(iso@.subrange(n as int, n as int).len() == 0);
    }
    String::from_str(iso)
}

/// A venue as offered in the form's drop-down.
pub fn venue_option_label(venue: &EventVenue) -> (s: String)
    ensures
        s@ == venue.name@ + " - "@ + venue.city@ + " (Max: "@ + decimal(venue.capacity_max as nat)
            + ")"@,
{
    let mut s = venue.name.clone();
    s.append(" - ");
    s.append(venue.city.as_str());
    s.append(" (Max: ");
    let n = u64_to_decimal(venue.capacity_max as u64);
    s.append(n.as_str());
    s.append(")");
    s
}

/// The message for a file above the size limit.
pub open spec fn file_size_message(max_size_mb: u32) -> Seq<char> {
    "File size must be less than "@ + decimal(max_size_mb as nat) + "MB"@
}

pub const UNSUPPORTED_FILE_TYPE: &'static str = "File type not supported. Please upload images or documents only.";

/// Why a file may not be uploaded at all: too large (more than the limit in
/// mebibytes), or of a type the uploader does not accept.
pub open spec fn file_error(c: FileCandidate, max_size_mb: u32) -> Option<Seq<char>> {
    if c.size > (max_size_mb as nat) * 1024 * 1024 {
        Some(file_size_message(max_size_mb))
    } else if !(is_image_mime(c.mime@) || is_document_mime(c.mime@)) {
        Some(UNSUPPORTED_FILE_TYPE@)
    } else {
        None
    }
}

/// A unit result as an optional error message.
pub open spec fn unit_result(r: Result<(), String>) -> Option<Seq<char>> {
    match r {
        Ok(()) => None,
        Err(e) => Some(e@),
    }
}

pub fn validate_file(candidate: &FileCandidate, max_size_mb: u32) -> (r: Result<(), String>)
    ensures
        unit_result(r) == file_error(*candidate, max_size_mb),
{
    let max_bytes: u64 = (max_size_mb as u64) * 1024 * 1024;
    if candidate.size > max_bytes {
        let mut msg = String::from_str("File size must be less than ");
        let n = u64_to_decimal(max_size_mb as u64);
        msg.append(n.as_str());
        msg.append("MB");
        return Err(msg);
    }
    if !is_allowed_mime(candidate.mime.as_str()) {
        return Err(String::from_str(UNSUPPORTED_FILE_TYPE));
    }
    Ok(())
}

/// Why a file may not be uploaded as the given kind: the general reasons
/// first, then an image slot taking a non-image or a document slot taking
/// an image.
pub open spec fn file_kind_error(c: FileCandidate, kind: MediaKind, max_size_mb: u32) -> Option<Seq<char>> {
    match file_error(c, max_size_mb) {
        Some(e) => Some(e),
        None => match kind {
            MediaKind::Image => if !has_prefix(c.mime@, "image/"@) {
                Some(c.name@ + ": Only images are allowed"@)
            } else {
                None
            },
            MediaKind::Document => if has_prefix(c.mime@, "image/"@) {
                Some(c.name@ + ": Only documents are allowed"@)
            } else {
                None
            },
        },
    }
}

pub fn validate_file_for_kind(candidate: &FileCandidate, kind: MediaKind, max_size_mb: u32) -> (r: Result<(), String>)
    ensures
        unit_result(r) == file_kind_error(*candidate, kind, max_size_mb),
{
    match validate_file(candidate, max_size_mb) {
        Ok(()) => {},
        Err(e) => {
            return Err(e);
        },
    }
    let image = starts_with_str(candidate.mime.as_str(), "image/");
    match kind {
        MediaKind::Image => {
            if !image {
                let mut msg = candidate.name.clone();
                msg.append(": Only images are allowed");
                return Err(msg);
            }
        },
        MediaKind::Document => {
            if image {
                let mut msg = candidate.name.clone();
                msg.append(": Only documents are allowed");
                return Err(msg);
            }
        },
    }
    Ok(())
}

/// The files of a selection that pass validation for the kind, in order.
pub open spec fn passing_files(cs: Seq<FileCandidate>, kind: MediaKind, max_size_mb: u32) -> Seq<FileCandidate> {
    filter_map_seq(
        cs,
        |c: FileCandidate|
            if file_kind_error(c, kind, max_size_mb).is_none() {
                Some(c)
            } else {
                None
            },
    )
}

/// The error line of a rejected file, led by the file's name unless the
/// message already begins with it.
pub open spec fn rejection_line(c: FileCandidate, kind: MediaKind, max_size_mb: u32) -> Option<Seq<char>> {
    match file_kind_error(c, kind, max_size_mb) {
        Some(m) => Some(
            if has_prefix(m, c.name@) {
                m
            } else {
                c.name@ + ": "@ + m
            },
        ),
        None => None,
    }
}

/// The error lines of a selection, in order.
pub open spec fn rejection_lines(cs: Seq<FileCandidate>, kind: MediaKind, max_size_mb: u32) -> Seq<Seq<char>> {
    filter_map_seq(cs, |c: FileCandidate| rejection_line(c, kind, max_size_mb))
}

/// The message when a selection would exceed the number of files allowed.
pub open spec fn too_many_files_message(max_files: u32) -> Seq<char> {
    "Maximum "@ + decimal(max_files as nat) + " files allowed"@
}

/// The files kept from a selection: the passing ones, cut down to the
/// room left when the existing and the passing files together exceed the
/// maximum.
pub open spec fn kept_files(cs: Seq<FileCandidate>, existing: u32, max_files: u32, kind: MediaKind, max_size_mb: u32) -> Seq<FileCandidate> {
    let ok = passing_files(cs, kind, max_size_mb);
    if existing + ok.len() > max_files {
        ok.take(if max_files > existing { max_files - existing } else { 0 })
    } else {
        ok
    }
}

/// The error lines of a selection: one per rejected file, then the
/// too-many-files line when the maximum is exceeded.
pub open spec fn selection_errors(cs: Seq<FileCandidate>, existing: u32, max_files: u32, kind: MediaKind, max_size_mb: u32) -> Seq<Seq<char>> {
    let lines = rejection_lines(cs, kind, max_size_mb);
    if existing + passing_files(cs, kind, max_size_mb).len() > max_files {
        lines.push(too_many_files_message(max_files))
    } else {
        lines
    }
}

fn copy_candidate(c: &FileCandidate) -> (r: FileCandidate)
    ensures
        r == *c,
{
    FileCandidate { name: c.name.clone(), mime: c.mime.clone(), size: c.size }
}

fn starts_with_string(s: &String, p: &String) -> (b: bool)
    ensures
        b == has_prefix(s@, p@),
{
    starts_with_str(s.as_str(), p.as_str())
}

pub fn select_valid_files(
    candidates: &[FileCandidate],
    existing_count: u32,
    max_files: u32,
    kind: MediaKind,
    max_size_mb: u32,
) -> (r: (Vec<FileCandidate>, Vec<String>))
    ensures
        r.0@ == kept_files(candidates@, existing_count, max_files, kind, max_size_mb),
        r.1@.map_values(|e: String| e@) == selection_errors(
            candidates@,
            existing_count,
            max_files,
            kind,
            max_size_mb,
        ),
{
    let mut accepted: Vec<FileCandidate> = Vec::new();
    let mut errors: Vec<String> = Vec::new();
    let n = candidates.len();
    let mut i: usize = 0;
    let ghost keep = |c: FileCandidate|
        if file_kind_error(c, kind, max_size_mb).is_none() {
            Some(c)
        } else {
            None
        };
    let ghost line = |c: FileCandidate| rejection_line(c, kind, max_size_mb);
    while i < n
        invariant
            n == candidates@.len(),
            i <= n,
            accepted@ == filter_map_seq(candidates@.subrange(0, i as int), keep),
            errors@.map_values(|e: String| e@) == filter_map_seq(
                candidates@.subrange(0, i as int),
                line,
            ),
            keep == (|c: FileCandidate|
                if file_kind_error(c, kind, max_size_mb).is_none() {
                    Some(c)
                } else {
                    None
                }),
            line == (|c: FileCandidate| rejection_line(c, kind, max_size_mb)),
        decreases n - i,
    {
        proof {
            lemma_filter_map_step(candidates@, i as int, keep);
            lemma_filter_map_step(candidates@, i as int, line);
        }
        let c = &candidates[i];
        match validate_file_for_kind(c, kind, max_size_mb) {
            Ok(()) => {
                accepted.push(copy_candidate(c));
            },
            Err(message) => {
                if starts_with_string(&message, &c.name) {
                    errors.push(message);
                } else {
                    let mut m = c.name.clone();
                    m.append(": ");
                    m.append(message.as_str());
                    errors.push(m);
                }
            },
        }
        i = i + 1;
        assert(errors@.map_values(|e: String| e@) =~= filter_map_seq(
            candidates@.subrange(0, i as int),
            line,
        ));
    }
    proof {
        lemma_full_prefix(candidates@);
    }
    let over = if accepted.len() > 0xFFFF_FFFF {
        true
    } else {
        (existing_count as u64) + (accepted.len() as u64) > max_files as u64
    };
    if over {
        let mut m = String::from_str("Maximum ");
        let d = u64_to_decimal(max_files as u64);
        m.append(d.as_str());
        m.append(" files allowed");
        let ghost before = errors@;
        errors.push(m);
        assert(errors@.map_values(|e: String| e@) =~= before.map_values(|e: String| e@).push(
            too_many_files_message(max_files),
        ));
        let allowed: u32 = if max_files > existing_count {
            max_files - existing_count
        } else {
            0
        };
        accepted.truncate(allowed as usize);
        assert(accepted@ =~= filter_map_seq(candidates@, keep).take(allowed as int));
    }
    (accepted, errors)
}

/// The separator line of the upload body.
pub open spec fn multipart_marker() -> Seq<char> {
    "--"@ + MULTIPART_BOUNDARY@
}

/// The headers of one file part.
pub open spec fn part_header(field: Seq<char>, filename: Seq<char>, mime: Seq<char>) -> Seq<char> {
    "Content-Disposition: form-data; name=\""@ + field + "\"; filename=\""@ + filename
        + "\"\r\nContent-Type: "@ + mime + "\r\n\r\n"@
}

/// One file part: separator, headers, the file's bytes, line end.
pub open spec fn part_bytes(field: Seq<char>, f: UploadBytes) -> Seq<u8> {
    encode_utf8(multipart_marker()) + encode_utf8("\r\n"@) + encode_utf8(
        part_header(field, f.filename@, f.mime_type@),
    ) + f.bytes@ + encode_utf8("\r\n"@)
}

/// The parts of all files, in order.
pub open spec fn parts_bytes(field: Seq<char>, fs: Seq<UploadBytes>) -> Seq<u8>
    decreases fs.len(),
{
    if fs.len() == 0 {
        Seq::empty()
    } else {
        parts_bytes(field, fs.drop_last()) + part_bytes(field, fs.last())
    }
}

/// The whole upload body: the parts, then the closing separator.
pub open spec fn multipart_body(field: Seq<char>, fs: Seq<UploadBytes>) -> Seq<u8> {
    parts_bytes(field, fs) + encode_utf8(multipart_marker()) + encode_utf8("--\r\n"@)
}

fn append_bytes(body: &mut Vec<u8>, src: &[u8])
    ensures
        final(body)@ == old(body)@ + src@,
{
    let mut i: usize = 0;
    while i < src.len()
        invariant
            i <= src@.len(),
            body@ == old(body)@ + src@.subrange(0, i as int),
        decreases src@.len() - i,
    {
        body.push(src[i]);
        i = i + 1;
        assert(body@ =~= old(body)@ + src@.subrange(0, i as int));
    }
    assert(src@.subrange(0, src@.len() as int) =~= src@);
}

/// The content type and body of a multipart upload of the files under
/// one form field.
pub fn encode_multipart(field: &str, files: &[UploadBytes]) -> (r: (String, Vec<u8>))
    ensures
        r.0@ == "multipart/form-data; boundary="@ + MULTIPART_BOUNDARY@,
        r.1@ == multipart_body(field@, files@),
{
    let mut content_type = String::from_str("multipart/form-data; boundary=");
    content_type.append(MULTIPART_BOUNDARY);
    let mut marker = String::from_str("--");
    marker.append(MULTIPART_BOUNDARY);
    let crlf: &str = "\r\n";
    let mut body: Vec<u8> = Vec::new();
    let n = files.len();
    let mut i: usize = 0;
    while i < n
        invariant
            n == files@.len(),
            i <= n,
            marker@ == multipart_marker(),
            crlf@ == "\r\n"@,
            body@ == parts_bytes(field@, files@.subrange(0, i as int)),
        decreases n - i,
    {
        let f = &files[i];
        append_bytes(&mut body, marker.as_str().as_bytes());
        append_bytes(&mut body, crlf.as_bytes());
        let mut header = String::from_str("Content-Disposition: form-data; name=\"");
        header.append(field);
        header.append("\"; filename=\"");
        header.append(f.filename.as_str());
        header.append("\"\r\nContent-Type: ");
        header.append(f.mime_type.as_str());
        header.append("\r\n\r\n");
        append_bytes(&mut body, header.as_str().as_bytes());
        append_bytes(&mut body, f.bytes.as_slice());
        append_bytes(&mut body, crlf.as_bytes());
        proof {
            assert(files@.subrange(0, i + 1).drop_last() =~= files@.subrange(0, i as int));
            assert(header@ =~= part_header(field@, f.filename@, f.mime_type@));
        }
        i = i + 1;
    }
    proof {
        crate::seqs::lemma_full_prefix(files@);
    }
    append_bytes(&mut body, marker.as_str().as_bytes());
    append_bytes(&mut body, "--\r\n".as_bytes());
    (content_type, body)
}

/// The request that uploads files to an event: its address, content type
/// and multipart body.
#[derive(Clone, Debug, PartialEq, Eq)]
pub struct UploadRequest {
    pub url: String,
    pub content_type: String,
    pub body: Vec<u8>,
}

/// Where files of a kind are uploaded for an event.
pub open spec fn upload_url(event_id: Seq<char>, kind: MediaKind) -> Seq<char> {
    MEDIA_EVENTS_API_PATH@ + "/"@ + event_id + match kind {
        MediaKind::Image => "/images"@,
        MediaKind::Document => "/documents"@,
    }
}

/// The form field files of a kind are sent under.
pub open spec fn field_of(kind: MediaKind) -> Seq<char> {
    match kind {
        MediaKind::Image => EVENT_IMAGES_FIELD@,
        MediaKind::Document => EVENT_DOCUMENTS_FIELD@,
    }
}

/// The upload of `files` of one kind to an event: none when there are no
/// files, else the kind's address and the files framed as multipart form
/// data under the kind's field.
pub fn upload_request(event_id: &str, kind: MediaKind, files: &[UploadBytes]) -> (r: Option<UploadRequest>)
    ensures
        r is None <==> files@.len() == 0,
        r matches Some(q) ==> {
            &&& q.url@ == upload_url(event_id@, kind)
            &&& q.content_type@ == "multipart/form-data; boundary="@ + MULTIPART_BOUNDARY@
            &&& q.body@ == multipart_body(field_of(kind), files@)
        },
{
    if files.len() == 0 {
        return None;
    }
    let url = match kind {
        MediaKind::Image => event_media_images_api_path(event_id),
        MediaKind::Document => event_media_documents_api_path(event_id),
    };
    let (content_type, body) = encode_multipart(kind.field_name(), files);
    Some(UploadRequest { url, content_type, body })
}


/// A stored timestamp cut to the 16 bytes a `datetime-local` input takes
/// (`2025-01-31T18:30`); a shorter one stays as it is.
pub fn datetime_local_value(iso: &str) -> (s: String)
    requires
        iso.spec_bytes().len() >= 16 ==> is_char_boundary(iso.spec_bytes(), 16),
    ensures
        s@ == (if iso.spec_bytes().len() >= 16 {
            decode_utf8(iso.spec_bytes().subrange(0, 16))
        } else {
            iso@
        }),
{
    if iso.as_bytes().len() >= 16 {
        let (head, _) = iso.split_at(16);
        proof {
            vstd::utf8::encode_utf8_decode_utf8(head@);
            assert(head.spec_bytes() == encode_utf8(head@));
            assert(encode_utf8(head@) == iso.spec_bytes().subrange(0, 16));
            assert(decode_utf8(iso.spec_bytes().subrange(0, 16)) == head@);
        }
        String::from_str(head)
    } else {
        String::from_str(iso)
    }
}

/// The last position of a byte, if it occurs.
pub open spec fn last_byte_index(b: Seq<u8>, x: u8) -> Option<int>
    decreases b.len(),
{
    if b.len() == 0 {
        None
    } else if b.last() == x {
        Some(b.len() - 1)
    } else {
        last_byte_index(b.drop_last(), x)
    }
}

/// A timestamp that already carries its zone: a `Z`, a `+`, or a `-` past
/// the date.
pub open spec fn carries_zone(t: Seq<char>) -> bool {
    t.contains('Z') || t.contains('+') || match last_byte_index(encode_utf8(t), 0x2D) {
        Some(i) => i > 10,
        None => false,
    }
}

/// The ISO form the API takes of a form's date-time: trimmed, unchanged
/// when it carries a zone, completed with seconds, milliseconds and `Z`
/// when it has the 16 or 19 bytes of a local date-time.
pub open spec fn iso_text(v: Seq<char>) -> Seq<char> {
    let t = trim(v);
    if t.len() == 0 {
        Seq::empty()
    } else if carries_zone(t) {
        t
    } else if encode_utf8(t).len() == 16 {
        t + ":00.000Z"@
    } else if encode_utf8(t).len() == 19 {
        t + ".000Z"@
    } else {
        t
    }
}

fn last_dash_after_date(bytes: &[u8]) -> (b: bool)
    ensures
        b == (match last_byte_index(bytes@, 0x2D) {
            Some(i) => i > 10,
            None => false,
        }),
{
    let mut i = bytes.len();
    assert(bytes@.subrange(0, i as int) =~= bytes@);
    while i > 0
        invariant
            i <= bytes@.len(),
            last_byte_index(bytes@, 0x2D) == last_byte_index(bytes@.subrange(0, i as int), 0x2D),
        decreases i,
    {
        proof {
            assert(bytes@.subrange(0, i as int).drop_last() =~= bytes@.subrange(0, i - 1));
            assert(bytes@.subrange(0, i as int).last() == bytes@[i - 1]);
        }
        if bytes[i - 1] == 0x2D {
            return i - 1 > 10;
        }
        i = i - 1;
    }
    false
}

pub fn datetime_to_iso(value: &str) -> (s: String)
    ensures
        s@ == iso_text(value@),
{
    let t = trim_str(value);
    if t.as_str().unicode_len() == 0 {
        return String::new();
    }
    let bytes = t.as_str().as_bytes();
    if contains_char(t.as_str(), 'Z') || contains_char(t.as_str(), '+') || last_dash_after_date(
        bytes,
    ) {
        return t;
    }
    let len = bytes.len();
    if len == 16 {
        let mut s = t;
        s.append(":00.000Z");
        s
    } else if len == 19 {
        let mut s = t;
        s.append(".000Z");
        s
    } else {
        t
    }
}

/// The text without its trailing `Z`s (`trim_end_matches('Z')`).
pub open spec fn trim_end_z(s: Seq<char>) -> Seq<char>
    decreases s.len(),
{
    if s.len() > 0 && s.last() == 'Z' {
        trim_end_z(s.drop_last())
    } else {
        s
    }
}

/// The date of a timestamp: what comes before its first `T`.
pub open spec fn date_part(iso: Seq<char>) -> Seq<char> {
    match first_index(iso, 'T') {
        Some(i) => iso.subrange(0, i),
        None => iso,
    }
}

/// The time of a timestamp: the piece after its first `T`, up to a second
/// one, without trailing `Z`s; empty when there is no `T`.
pub open spec fn time_part(iso: Seq<char>) -> Seq<char> {
    match first_index(iso, 'T') {
        Some(i) => {
            let rest = iso.subrange(i + 1, iso.len() as int);
            trim_end_z(
                match first_index(rest, 'T') {
                    Some(j) => rest.subrange(0, j),
                    None => rest,
                },
            )
        },
        None => Seq::empty(),
    }
}

/// The clock shown: the first five bytes of the time (`18:30`), or all of a
/// shorter one.
pub open spec fn clock_text(t: Seq<char>) -> Seq<char> {
    if encode_utf8(t).len() >= 5 {
        decode_utf8(encode_utf8(t).subrange(0, 5))
    } else {
        t
    }
}

/// A timestamp shown as `date time`, or as the date alone when it has no
/// time.
pub open spec fn native_datetime_text(iso: Seq<char>) -> Seq<char> {
    let t = clock_text(time_part(iso));
    if t.len() == 0 {
        date_part(iso)
    } else {
        date_part(iso) + " "@ + t
    }
}

/// A timestamp's time may be cut after five bytes.
pub open spec fn clock_cut_ok(iso: Seq<char>) -> bool {
    encode_utf8(time_part(iso)).len() >= 5 ==> is_char_boundary(encode_utf8(time_part(iso)), 5)
}

fn time_of(iso: &str) -> (time: String)
    ensures
        time@ == time_part(iso@),
{
    let cs = chars_of(iso);
    let n = cs.len();
    assert(cs@.subrange(0, n as int) =~= iso@);
    let t_at = crate::text::find_char_from(&cs, 0, 'T');
    if t_at < n {
        let second = crate::text::find_char_from(&cs, t_at + 1, 'T');
        let ghost rest = iso@.subrange(t_at + 1, n as int);
        assert(cs@.subrange(t_at + 1, n as int) == rest);
        let ghost piece = match first_index(rest, 'T') {
            Some(j) => rest.subrange(0, j),
            None => rest,
        };
        assert(cs@.subrange(t_at + 1, second as int) =~= piece);
        let mut e = second;
        while e > t_at + 1 && cs[e - 1] == 'Z'
            invariant
                n == cs@.len(),
                t_at + 1 <= e <= second <= n,
                trim_end_z(piece) == trim_end_z(cs@.subrange(t_at + 1, e as int)),
            decreases e,
        {
            proof {
                let sub = cs@.subrange(t_at + 1, e as int);
                assert(sub.drop_last() =~= cs@.subrange(t_at + 1, e - 1));
            }
            e = e - 1;
        }
        string_of_range(&cs, t_at + 1, e)
    } else {
        String::new()
    }
}

/// Whether a timestamp's time can be cut after five bytes: the test to make
/// before `format_event_datetime_native`.
pub fn clock_cut_possible(iso: &str) -> (b: bool)
    ensures
        b == clock_cut_ok(iso@),
{
    let time = time_of(iso);
    let t = time.as_str();
    assert(t.spec_bytes() == encode_utf8(t@));
    t.as_bytes().len() < 5 || t.is_char_boundary(5)
}

/// Whether a timestamp can be cut to its first sixteen bytes: the test to
/// make before `datetime_local_value`.
pub fn local_cut_possible(t: &str) -> (b: bool)
    ensures
        b == local_cut_ok(t@),
{
    assert(t.spec_bytes() == encode_utf8(t@));
    t.as_bytes().len() < 16 || t.is_char_boundary(16)
}

pub fn format_event_datetime_native(iso: &str) -> (s: String)
    requires
        clock_cut_ok(iso@),
    ensures
        s@ == native_datetime_text(iso@),
{
    let cs = chars_of(iso);
    let n = cs.len();
    assert(cs@.subrange(0, n as int) =~= iso@);
    let t_at = crate::text::find_char_from(&cs, 0, 'T');
    let date = string_of_range(&cs, 0, t_at);
    let time = time_of(iso);
    let clock: &str = if time.as_str().as_bytes().len() >= 5 {
        let (head, _) = time.as_str().split_at(5);
        proof {
            vstd::utf8::encode_utf8_decode_utf8(head@);
            assert(head.spec_bytes() == encode_utf8(head@));
        }
        head
    } else {
        time.as_str()
    };
    assert(clock@ == clock_text(time_part(iso@)));
    if clock.unicode_len() == 0 {
        date
    } else {
        let mut s = date;
        s.append(" ");
        s.append(clock);
        s
    }
}

/// Without a browser date formatter an event's date is shown in its native
/// form.
pub fn format_event_datetime(iso: &str) -> (s: String)
    requires
        clock_cut_ok(iso@),
    ensures
        s@ == native_datetime_text(iso@),
{
    format_event_datetime_native(iso)
}

/// A number typed into the form: the trimmed text read as a `u32`, 0 when
/// it is not one.
pub fn parse_u32_input(raw: &str) -> (n: u32)
    ensures
        n == (match parse_u32_spec(trim(raw@)) {
            Some(v) => v,
            None => 0,
        }),
{
    let t = trim_str(raw);
    match parse_u32_text(t.as_str()) {
        Some(v) => v,
        None => 0,
    }
}

/// A line of a multi-line field that becomes a list entry: its trimmed
/// text, when that is not empty.
pub open spec fn kept_line(l: Seq<char>) -> Option<Seq<char>> {
    if trim(l).len() > 0 {
        Some(trim(l))
    } else {
        None
    }
}

/// The entries of a multi-line field: its lines, trimmed, the blank ones
/// left out.
pub open spec fn lines_of(value: Seq<char>) -> Seq<Seq<char>> {
    filter_map_seq(split_on(value, '\n'), |l: Seq<char>| kept_line(l))
}

proof fn lemma_split_step(s: Seq<char>, start: int, i: int)
    requires
        0 <= start <= i < s.len(),
        s[i] == '\n',
        forall|k: int| start <= k < i ==> s[k] != '\n',
    ensures
        split_on(s.subrange(start, s.len() as int), '\n') == seq![s.subrange(start, i)] + split_on(
            s.subrange(i + 1, s.len() as int),
            '\n',
        ),
{
    let sub = s.subrange(start, s.len() as int);
    lemma_first_index_scan(sub, '\n', i - start);
    let rest = sub.subrange(i - start, sub.len() as int);
    assert(rest[0] == '\n');
    assert(sub.subrange(0, i - start) =~= s.subrange(start, i));
    assert(sub.subrange(i - start + 1, sub.len() as int) =~= s.subrange(i + 1, s.len() as int));
}

proof fn lemma_split_end(s: Seq<char>, start: int)
    requires
        0 <= start <= s.len(),
        forall|k: int| start <= k < s.len() ==> s[k] != '\n',
    ensures
        split_on(s.subrange(start, s.len() as int), '\n') == seq![s.subrange(start, s.len() as int)],
{
    let sub = s.subrange(start, s.len() as int);
    lemma_first_index_range(sub, '\n');
    match first_index(sub, '\n') {
        Some(j) => {
            assert(sub[j] == s[start + j]);
        },
        None => {},
    }
}

pub fn lines_to_list(value: &str) -> (r: Vec<String>)
    ensures
        r@.map_values(|x: String| x@) == lines_of(value@),
{
    let cs = chars_of(value);
    let n = cs.len();
    let mut out: Vec<String> = Vec::new();
    let mut start: usize = 0;
    let mut i: usize = 0;
    let ghost f = |l: Seq<char>| kept_line(l);
    assert(cs@.subrange(0, n as int) =~= cs@);
    while i < n
        invariant
            n == cs@.len(),
            cs@ == value@,
            start <= i <= n,
            forall|k: int| start <= k < i ==> cs@[k] != '\n',
            out@.map_values(|x: String| x@) + filter_map_seq(
                split_on(cs@.subrange(start as int, n as int), '\n'),
                f,
            ) == lines_of(value@),
            f == (|l: Seq<char>| kept_line(l)),
        decreases n - i,
    {
        if cs[i] == '\n' {
            let seg = string_of_range(&cs, start, i);
            let t = trim_str(seg.as_str());
            proof {
                lemma_split_step(cs@, start as int, i as int);
                crate::seqs::lemma_filter_map_concat(
                    seq![cs@.subrange(start as int, i as int)],
                    split_on(cs@.subrange(i + 1, n as int), '\n'),
                    f,
                );
                crate::seqs::lemma_filter_map_single(cs@.subrange(start as int, i as int), f);
            }
            let ghost before = out@.map_values(|x: String| x@);
            if t.as_str().unicode_len() > 0 {
                out.push(t);
                assert(out@.map_values(|x: String| x@) =~= before.push(
                    trim(cs@.subrange(start as int, i as int)),
                ));
            }
            assert(out@.map_values(|x: String| x@) + filter_map_seq(
                split_on(cs@.subrange(i + 1, n as int), '\n'),
                f,
            ) =~= lines_of(value@));
            start = i + 1;
        }
        i = i + 1;
    }
    let seg = string_of_range(&cs, start, n);
    let t = trim_str(seg.as_str());
    proof {
        lemma_split_end(cs@, start as int);
        crate::seqs::lemma_filter_map_single(cs@.subrange(start as int, n as int), f);
    }
    let ghost before = out@.map_values(|x: String| x@);
    if t.as_str().unicode_len() > 0 {
        out.push(t);
        assert(out@.map_values(|x: String| x@) =~= before.push(
            trim(cs@.subrange(start as int, n as int)),
        ));
    } else {
        assert(before + Seq::<Seq<char>>::empty() =~= before);
    }
    out
}

/// The entries of a list joined into a multi-line field.
pub fn list_to_lines(items: &[String]) -> (s: String)
    ensures
        s@ == join_with(items@.map_values(|x: String| x@), "\n"@),
{
    let mut s = String::new();
    let n = items.len();
    let mut i: usize = 0;
    while i < n
        invariant
            n == items@.len(),
            i <= n,
            s@ == join_with(items@.subrange(0, i as int).map_values(|x: String| x@), "\n"@),
        decreases n - i,
    {
        let ghost prefix = items@.subrange(0, i + 1).map_values(|x: String| x@);
        assert(prefix.drop_last() =~= items@.subrange(0, i as int).map_values(|x: String| x@));
        if i > 0 {
            s.append("\n");
        } else {
            assert(s@.len() == 0);
        }
        s.append(items[i].as_str());
        i = i + 1;
        assert(s@ =~= join_with(items@.subrange(0, i as int).map_values(|x: String| x@), "\n"@));
    }
    assert(items@.subrange(0, n as int) =~= items@);
    s
}

/// The characters of each string of a list.
pub open spec fn texts(items: Seq<String>) -> Seq<Seq<char>> {
    items.map_values(|x: String| x@)
}

/// The membership tiers after one is ticked (added unless it is already
/// there) or unticked (every copy of it removed).
pub open spec fn toggled_tiers(tiers: Seq<Seq<char>>, tier: Seq<char>, checked: bool) -> Seq<Seq<char>> {
    if checked {
        if tiers.contains(tier) {
            tiers
        } else {
            tiers.push(tier)
        }
    } else {
        filter_map_seq(
            tiers,
            |x: Seq<char>|
                if x != tier {
                    Some(x)
                } else {
                    None
                },
        )
    }
}

pub fn toggle_membership_tier(tiers: &[String], tier: &str, checked: bool) -> (r: Vec<String>)
    ensures
        texts(r@) == toggled_tiers(texts(tiers@), tier@, checked),
{
    let n = tiers.len();
    let mut out: Vec<String> = Vec::new();
    let mut found = false;
    let mut i: usize = 0;
    let ghost keep = |x: Seq<char>|
        if x != tier@ {
            Some(x)
        } else {
            None
        };
    while i < n
        invariant
            n == tiers@.len(),
            i <= n,
            found == texts(tiers@.subrange(0, i as int)).contains(tier@),
            checked ==> texts(out@) == texts(tiers@.subrange(0, i as int)),
            !checked ==> texts(out@) == filter_map_seq(texts(tiers@.subrange(0, i as int)), keep),
            keep == (|x: Seq<char>|
                if x != tier@ {
                    Some(x)
                } else {
                    None
                }),
        decreases n - i,
    {
        let same = str_eq(tiers[i].as_str(), tier);
        let ghost old_texts = texts(tiers@.subrange(0, i as int));
        let ghost new_texts = texts(tiers@.subrange(0, i + 1));
        assert(new_texts =~= old_texts.push(tiers@[i as int]@));
        proof {
            assert(new_texts.drop_last() =~= old_texts);
            if !found && !same {
                assert(!new_texts.contains(tier@)) by {
                    if new_texts.contains(tier@) {
                        let k = choose|k: int| 0 <= k < new_texts.len() && new_texts[k] == tier@;
                        if k < old_texts.len() {
                            assert(old_texts[k] == tier@);
                        }
                    }
                }
            }
            if same {
                assert(new_texts[i as int] == tier@);
            }
            if found {
                let k = choose|k: int| 0 <= k < old_texts.len() && old_texts[k] == tier@;
                assert(new_texts[k] == tier@);
            }
        }
        if same {
            found = true;
        }
        if checked || !same {
            let ghost before = texts(out@);
            out.push(tiers[i].clone());
            assert(texts(out@) =~= before.push(tiers@[i as int]@));
        }
        i = i + 1;
    }
    proof {
        assert(tiers@.subrange(0, n as int) =~= tiers@);
    }
    if checked && !found {
        let ghost before = texts(out@);
        out.push(String::from_str(tier));
        assert(texts(out@) =~= before.push(tier@));
    }
    out
}

/// The body of an approval decision: `{"approved": <decision>}`.
pub fn approve_payload(approved: bool) -> (j: Json)
    ensures
        match j {
            Json::Object(ms) => ms@.len() == 1 && ms@[0].key@ == "approved"@ && ms@[0].value
                == Json::Bool(approved),
            _ => false,
        },
{
    let mut members: Vec<JsonMember> = Vec::new();
    members.push(JsonMember { key: String::from_str("approved"), value: Json::Bool(approved) });
    Json::Object(members)
}

pub struct EventCategoryView {
    pub id: Seq<char>,
    pub name: Seq<char>,
    pub slug: Seq<char>,
}

impl View for EventCategory {
    type V = EventCategoryView;

    open spec fn view(&self) -> EventCategoryView {
        EventCategoryView { id: self.id@, name: self.name@, slug: self.slug@ }
    }
}

pub struct EventVenueView {
    pub id: Seq<char>,
    pub name: Seq<char>,
    pub city: Seq<char>,
    pub capacity_max: u32,
}

impl View for EventVenue {
    type V = EventVenueView;

    open spec fn view(&self) -> EventVenueView {
        EventVenueView {
            id: self.id@,
            name: self.name@,
            city: self.city@,
            capacity_max: self.capacity_max,
        }
    }
}

/// A stored media file of an event.
#[derive(Clone, Debug, PartialEq, Eq)]
pub struct MediaAsset {
    pub id: String,
    pub kind: MediaKind,
    pub file_path: String,
    pub preview_url: String,
    pub original_filename: String,
    pub file_size: u64,
    pub mime_type: String,
    pub uploaded_by: String,
    pub created_at: String,
}

pub struct MediaAssetView {
    pub id: Seq<char>,
    pub kind: MediaKind,
    pub file_path: Seq<char>,
    pub preview_url: Seq<char>,
    pub original_filename: Seq<char>,
    pub file_size: u64,
    pub mime_type: Seq<char>,
    pub uploaded_by: Seq<char>,
    pub created_at: Seq<char>,
}

impl View for MediaAsset {
    type V = MediaAssetView;

    open spec fn view(&self) -> MediaAssetView {
        MediaAssetView {
            id: self.id@,
            kind: self.kind,
            file_path: self.file_path@,
            preview_url: self.preview_url@,
            original_filename: self.original_filename@,
            file_size: self.file_size,
            mime_type: self.mime_type@,
            uploaded_by: self.uploaded_by@,
            created_at: self.created_at@,
        }
    }
}

/// The management API's reading of a response: `401` and `403` are
/// answered with the body's error or the fallback, an unparsable body with
/// the fallback, and a body whose `success` is not `true` with its error
/// or the fallback. What remains is the parsed body.
pub open spec fn mgmt_root(status: u16, parsed: Option<Json>, fallback: Seq<char>) -> Result<Json, Seq<char>> {
    if status == 401 || status == 403 {
        Err(error_from_parsed(parsed, fallback))
    } else {
        match parsed {
            Some(v) => if is_success(v) {
                Ok(v)
            } else {
                Err(error_message(v, fallback))
            },
            None => Err(fallback),
        }
    }
}

/// The `data` member of an accepted body; a missing or `null` one is the
/// fallback error.
pub open spec fn mgmt_data(status: u16, parsed: Option<Json>, fallback: Seq<char>) -> Result<Json, Seq<char>> {
    match mgmt_root(status, parsed, fallback) {
        Ok(v) => match get(v, "data"@) {
            Some(Json::Null) => Err(fallback),
            Some(d) => Ok(d),
            None => Err(fallback),
        },
        Err(e) => Err(e),
    }
}

fn parse_success_root(status: u16, parsed: Option<Json>, fallback: &str) -> (r: Result<Json, String>)
    ensures
        json_result(r) == mgmt_root(status, parsed, fallback@),
{
    if status == 401 || status == 403 {
        return Err(error_from_body(&parsed, fallback));
    }
    match parsed {
        Some(v) => {
            if success_flag(&v) {
                Ok(v)
            } else {
                Err(json_error_message(&v, fallback))
            }
        },
        None => Err(String::from_str(fallback)),
    }
}

/// A unit answer of the management API: `None` when accepted, the error
/// message otherwise.
pub open spec fn mgmt_ack(status: u16, parsed: Option<Json>, fallback: Seq<char>) -> Option<Seq<char>> {
    match mgmt_root(status, parsed, fallback) {
        Ok(_) => None,
        Err(e) => Some(e),
    }
}

fn ack_from_json(status: u16, parsed: Option<Json>, fallback: &str) -> (r: Result<(), String>)
    ensures
        unit_result(r) == mgmt_ack(status, parsed, fallback@),
{
    match parse_success_root(status, parsed, fallback) {
        Ok(_) => Ok(()),
        Err(e) => Err(e),
    }
}

/// Decodes the answer to creating an event, given its status and its body
/// as parsed.
pub fn create_from_json(status: u16, parsed: Option<Json>) -> (r: Result<(), String>)
    ensures
        unit_result(r) == mgmt_ack(status, parsed, CREATE_FALLBACK@),
{
    ack_from_json(status, parsed, CREATE_FALLBACK)
}

pub fn parse_create_response(status: u16, body: &str) -> (r: Result<(), String>)
    ensures
        unit_result(r) == mgmt_ack(status, parsed_json(body@), CREATE_FALLBACK@),
{
    create_from_json(status, parse_json(body))
}

/// Decodes the answer to updating an event.
pub fn update_from_json(status: u16, parsed: Option<Json>) -> (r: Result<(), String>)
    ensures
        unit_result(r) == mgmt_ack(status, parsed, UPDATE_FALLBACK@),
{
    ack_from_json(status, parsed, UPDATE_FALLBACK)
}

pub fn parse_update_response(status: u16, body: &str) -> (r: Result<(), String>)
    ensures
        unit_result(r) == mgmt_ack(status, parsed_json(body@), UPDATE_FALLBACK@),
{
    update_from_json(status, parse_json(body))
}

/// Decodes the answer to deleting an event.
pub fn delete_from_json(status: u16, parsed: Option<Json>) -> (r: Result<(), String>)
    ensures
        unit_result(r) == mgmt_ack(status, parsed, DELETE_FALLBACK@),
{
    ack_from_json(status, parsed, DELETE_FALLBACK)
}

pub fn parse_delete_response(status: u16, body: &str) -> (r: Result<(), String>)
    ensures
        unit_result(r) == mgmt_ack(status, parsed_json(body@), DELETE_FALLBACK@),
{
    delete_from_json(status, parse_json(body))
}

/// Decodes the answer to publishing an event.
pub fn publish_from_json(status: u16, parsed: Option<Json>) -> (r: Result<(), String>)
    ensures
        unit_result(r) == mgmt_ack(status, parsed, PUBLISH_FALLBACK@),
{
    ack_from_json(status, parsed, PUBLISH_FALLBACK)
}

pub fn parse_publish_response(status: u16, body: &str) -> (r: Result<(), String>)
    ensures
        unit_result(r) == mgmt_ack(status, parsed_json(body@), PUBLISH_FALLBACK@),
{
    publish_from_json(status, parse_json(body))
}

/// Decodes the answer to an approval decision.
pub fn approve_from_json(status: u16, parsed: Option<Json>) -> (r: Result<(), String>)
    ensures
        unit_result(r) == mgmt_ack(status, parsed, APPROVE_FALLBACK@),
{
    ack_from_json(status, parsed, APPROVE_FALLBACK)
}

pub fn parse_approve_response(status: u16, body: &str) -> (r: Result<(), String>)
    ensures
        unit_result(r) == mgmt_ack(status, parsed_json(body@), APPROVE_FALLBACK@),
{
    approve_from_json(status, parse_json(body))
}

/// Decodes the answer to deleting a media file.
pub fn media_delete_from_json(status: u16, parsed: Option<Json>) -> (r: Result<(), String>)
    ensures
        unit_result(r) == mgmt_ack(status, parsed, MEDIA_DELETE_FALLBACK@),
{
    ack_from_json(status, parsed, MEDIA_DELETE_FALLBACK)
}

pub fn parse_media_delete_response(status: u16, body: &str) -> (r: Result<(), String>)
    ensures
        unit_result(r) == mgmt_ack(status, parsed_json(body@), MEDIA_DELETE_FALLBACK@),
{
    media_delete_from_json(status, parse_json(body))
}

/// A category row: one with an id.
pub open spec fn category_of(row: Json) -> Option<EventCategoryView> {
    match json_id_spec(get(row, "id"@)) {
        Some(id) => Some(
            EventCategoryView {
                id,
                name: view_or_empty(json_text(get(row, "name"@))),
                slug: view_or_empty(json_text(get(row, "slug"@))),
            },
        ),
        None => None,
    }
}

pub open spec fn categories_result(status: u16, parsed: Option<Json>) -> Result<Seq<EventCategoryView>, Seq<char>> {
    match mgmt_data(status, parsed, FORM_LOAD_FALLBACK@) {
        Ok(Json::Array(rows)) => Ok(filter_map_seq(rows@, |row: Json| category_of(row))),
        Ok(_) => Err(FORM_LOAD_FALLBACK@),
        Err(e) => Err(e),
    }
}

fn categories_of_rows(rows: &Vec<Json>) -> (r: Vec<EventCategory>)
    ensures
        r@.map_values(|c: EventCategory| c@) == filter_map_seq(rows@, |row: Json| category_of(row)),
{
    let mut out: Vec<EventCategory> = Vec::new();
    let n = rows.len();
    let mut i: usize = 0;
    while i < n
        invariant
            n == rows@.len(),
            i <= n,
            out@.map_values(|c: EventCategory| c@) == filter_map_seq(
                rows@.subrange(0, i as int),
                |row: Json| category_of(row),
            ),
        decreases n - i,
    {
        proof {
            lemma_filter_map_step(rows@, i as int, |row: Json| category_of(row));
        }
        let row = &rows[i];
        match json_id(json_get(row, "id")) {
            Some(id) => {
                out.push(
                    EventCategory {
                        id,
                        name: json_string_or_empty(json_get(row, "name")),
                        slug: json_string_or_empty(json_get(row, "slug")),
                    },
                );
            },
            None => {},
        }
        i = i + 1;
        assert(out@.map_values(|c: EventCategory| c@) =~= filter_map_seq(
            rows@.subrange(0, i as int),
            |row: Json| category_of(row),
        ));
    }
    proof {
        lemma_full_prefix(rows@);
    }
    out
}

/// Decodes the category list, given the answer's status and its body as
/// parsed.
pub fn categories_from_json(status: u16, parsed: Option<Json>) -> (r: Result<Vec<EventCategory>, String>)
    ensures
        seq_view_result(r) == categories_result(status, parsed),
{
    match parse_success_root(status, parsed, FORM_LOAD_FALLBACK) {
        Ok(v) => match json_get(&v, "data") {
            Some(Json::Array(rows)) => Ok(categories_of_rows(rows)),
            _ => Err(String::from_str(FORM_LOAD_FALLBACK)),
        },
        Err(e) => Err(e),
    }
}

pub fn parse_categories_response(status: u16, body: &str) -> (r: Result<Vec<EventCategory>, String>)
    ensures
        seq_view_result(r) == categories_result(status, parsed_json(body@)),
{
    categories_from_json(status, parse_json(body))
}

/// The first present number, or 0.
pub open spec fn first_u32(a: Option<u32>, b: Option<u32>, c: Option<u32>) -> u32 {
    match a {
        Some(x) => x,
        None => match b {
            Some(x) => x,
            None => match c {
                Some(x) => x,
                None => 0,
            },
        },
    }
}

/// A venue row: one with an id; its capacity read from `capacity_max`,
/// `capacityMax` or `capacity`, whichever comes first.
pub open spec fn venue_of(row: Json) -> Option<EventVenueView> {
    match json_id_spec(get(row, "id"@)) {
        Some(id) => Some(
            EventVenueView {
                id,
                name: view_or_empty(json_text(get(row, "name"@))),
                city: view_or_empty(json_text(get(row, "city"@))),
                capacity_max: first_u32(
                    json_u32_spec(get(row, "capacity_max"@)),
                    json_u32_spec(get(row, "capacityMax"@)),
                    json_u32_spec(get(row, "capacity"@)),
                ),
            },
        ),
        None => None,
    }
}

pub open spec fn venues_result(status: u16, parsed: Option<Json>) -> Result<Seq<EventVenueView>, Seq<char>> {
    match mgmt_root(status, parsed, FORM_LOAD_FALLBACK@) {
        Ok(v) => match get(v, "data"@) {
            Some(Json::Array(rows)) => Ok(filter_map_seq(rows@, |row: Json| venue_of(row))),
            _ => Err(FORM_LOAD_FALLBACK@),
        },
        Err(e) => Err(e),
    }
}

fn venues_of_rows(rows: &Vec<Json>) -> (r: Vec<EventVenue>)
    ensures
        r@.map_values(|c: EventVenue| c@) == filter_map_seq(rows@, |row: Json| venue_of(row)),
{
    let mut out: Vec<EventVenue> = Vec::new();
    let n = rows.len();
    let mut i: usize = 0;
    while i < n
        invariant
            n == rows@.len(),
            i <= n,
            out@.map_values(|c: EventVenue| c@) == filter_map_seq(
                rows@.subrange(0, i as int),
                |row: Json| venue_of(row),
            ),
        decreases n - i,
    {
        proof {
            lemma_filter_map_step(rows@, i as int, |row: Json| venue_of(row));
        }
        let row = &rows[i];
        match json_id(json_get(row, "id")) {
            Some(id) => {
                let capacity_max = match json_u32(json_get(row, "capacity_max")) {
                    Some(x) => x,
                    None => match json_u32(json_get(row, "capacityMax")) {
                        Some(x) => x,
                        None => match json_u32(json_get(row, "capacity")) {
                            Some(x) => x,
                            None => 0,
                        },
                    },
                };
                out.push(
                    EventVenue {
                        id,
                        name: json_string_or_empty(json_get(row, "name")),
                        city: json_string_or_empty(json_get(row, "city")),
                        capacity_max,
                    },
                );
            },
            None => {},
        }
        i = i + 1;
        assert(out@.map_values(|c: EventVenue| c@) =~= filter_map_seq(
            rows@.subrange(0, i as int),
            |row: Json| venue_of(row),
        ));
    }
    proof {
        lemma_full_prefix(rows@);
    }
    out
}

/// Decodes the venue list, given the answer's status and its body as
/// parsed.
pub fn venues_from_json(status: u16, parsed: Option<Json>) -> (r: Result<Vec<EventVenue>, String>)
    ensures
        seq_view_result(r) == venues_result(status, parsed),
{
    match parse_success_root(status, parsed, FORM_LOAD_FALLBACK) {
        Ok(v) => match json_get(&v, "data") {
            Some(Json::Array(rows)) => Ok(venues_of_rows(rows)),
            _ => Err(String::from_str(FORM_LOAD_FALLBACK)),
        },
        Err(e) => Err(e),
    }
}

pub fn parse_venues_response(status: u16, body: &str) -> (r: Result<Vec<EventVenue>, String>)
    ensures
        seq_view_result(r) == venues_result(status, parsed_json(body@)),
{
    venues_from_json(status, parse_json(body))
}

/// A non-empty `medium` thumbnail under `key`.
pub open spec fn medium_under(row: Json, key: Seq<char>) -> Option<Seq<char>> {
    match json_text(get_in(get(row, key), "medium"@)) {
        Some(u) => if u.len() > 0 {
            Some(u)
        } else {
            None
        },
        None => None,
    }
}

/// The preview of a media row: the medium thumbnail under `thumbnails`,
/// `thumbnailPath` or `thumbnail_path`, the first one present.
pub open spec fn thumbnail_of(row: Json) -> Option<Seq<char>> {
    or_text(
        medium_under(row, "thumbnails"@),
        or_text(medium_under(row, "thumbnailPath"@), medium_under(row, "thumbnail_path"@)),
    )
}

/// A media row: one with an id. Its kind comes from the `type` field, else
/// from the MIME type, else it counts as a document; camelCase fields come
/// before snake_case ones.
pub open spec fn media_asset_of(row: Json) -> Option<MediaAssetView> {
    match json_id_spec(get(row, "id"@)) {
        Some(id) => {
            let type_field = view_or_empty(json_text(get(row, "type"@)));
            let mime = view_or_empty(
                or_text(json_text(get(row, "mimeType"@)), json_text(get(row, "mime_type"@))),
            );
            let kind = match kind_of_type_field(type_field) {
                Some(k) => k,
                None => match kind_of_mime(mime) {
                    Some(k) => k,
                    None => MediaKind::Document,
                },
            };
            let file_path = view_or_empty(
                or_text(json_text(get(row, "filePath"@)), json_text(get(row, "file_path"@))),
            );
            Some(
                MediaAssetView {
                    id,
                    kind,
                    file_path,
                    preview_url: match thumbnail_of(row) {
                        Some(t) => t,
                        None => file_path,
                    },
                    original_filename: view_or_empty(
                        or_text(
                            json_text(get(row, "originalFilename"@)),
                            json_text(get(row, "original_filename"@)),
                        ),
                    ),
                    file_size: match json_u64_spec(get(row, "fileSize"@)) {
                        Some(x) => x,
                        None => match json_u64_spec(get(row, "file_size"@)) {
                            Some(x) => x,
                            None => 0,
                        },
                    },
                    mime_type: mime,
                    uploaded_by: view_or_empty(
                        or_text(json_text(get(row, "uploadedBy"@)), json_text(get(row, "uploaded_by"@))),
                    ),
                    created_at: view_or_empty(
                        or_text(json_text(get(row, "createdAt"@)), json_text(get(row, "created_at"@))),
                    ),
                },
            )
        },
        None => None,
    }
}

fn text_or(a: Option<String>, b: Option<String>) -> (r: String)
    ensures
        r@ == view_or_empty(or_text(crate::json::opt_view(a), crate::json::opt_view(b))),
{
    match a {
        Some(x) => x,
        None => match b {
            Some(x) => x,
            None => String::new(),
        },
    }
}

fn medium_thumbnail(row: &Json, key: &str) -> (r: Option<String>)
    ensures
        crate::json::opt_view(r) == medium_under(*row, key@),
{
    match json_string(json_get_in(json_get(row, key), "medium")) {
        Some(u) => {
            if u.as_str().unicode_len() > 0 {
                Some(u)
            } else {
                None
            }
        },
        None => None,
    }
}

fn thumbnail_url(row: &Json) -> (r: Option<String>)
    ensures
        crate::json::opt_view(r) == thumbnail_of(*row),
{
    match medium_thumbnail(row, "thumbnails") {
        Some(u) => Some(u),
        None => match medium_thumbnail(row, "thumbnailPath") {
            Some(u) => Some(u),
            None => medium_thumbnail(row, "thumbnail_path"),
        },
    }
}

fn parse_media_asset(row: &Json) -> (r: Option<MediaAsset>)
    ensures
        match r {
            Some(a) => media_asset_of(*row) == Some(a@),
            None => media_asset_of(*row).is_none(),
        },
{
    let id = match json_id(json_get(row, "id")) {
        Some(id) => id,
        None => {
            return None;
        },
    };
    let type_field = json_string_or_empty(json_get(row, "type"));
    let mime = text_or(json_string(json_get(row, "mimeType")), json_string(json_get(row, "mime_type")));
    let kind = match media_kind_from_type_field(type_field.as_str()) {
        Some(k) => k,
        None => match media_kind_from_mime(mime.as_str()) {
            Some(k) => k,
            None => MediaKind::Document,
        },
    };
    let file_path = text_or(json_string(json_get(row, "filePath")), json_string(json_get(row, "file_path")));
    let preview_url = match thumbnail_url(row) {
        Some(t) => t,
        None => file_path.clone(),
    };
    let original_filename = text_or(
        json_string(json_get(row, "originalFilename")),
        json_string(json_get(row, "original_filename")),
    );
    let file_size = match json_u64(json_get(row, "fileSize")) {
        Some(x) => x,
        None => match json_u64(json_get(row, "file_size")) {
            Some(x) => x,
            None => 0,
        },
    };
    let uploaded_by = text_or(json_string(json_get(row, "uploadedBy")), json_string(json_get(row, "uploaded_by")));
    let created_at = text_or(json_string(json_get(row, "createdAt")), json_string(json_get(row, "created_at")));
    Some(
        MediaAsset {
            id,
            kind,
            file_path,
            preview_url,
            original_filename,
            file_size,
            mime_type: mime,
            uploaded_by,
            created_at,
        },
    )
}

fn media_of_rows(rows: &Vec<Json>) -> (r: Vec<MediaAsset>)
    ensures
        r@.map_values(|c: MediaAsset| c@) == filter_map_seq(rows@, |row: Json| media_asset_of(row)),
{
    let mut out: Vec<MediaAsset> = Vec::new();
    let n = rows.len();
    let mut i: usize = 0;
    while i < n
        invariant
            n == rows@.len(),
            i <= n,
            out@.map_values(|c: MediaAsset| c@) == filter_map_seq(
                rows@.subrange(0, i as int),
                |row: Json| media_asset_of(row),
            ),
        decreases n - i,
    {
        proof {
            lemma_filter_map_step(rows@, i as int, |row: Json| media_asset_of(row));
        }
        match parse_media_asset(&rows[i]) {
            Some(a) => {
                out.push(a);
            },
            None => {},
        }
        i = i + 1;
        assert(out@.map_values(|c: MediaAsset| c@) =~= filter_map_seq(
            rows@.subrange(0, i as int),
            |row: Json| media_asset_of(row),
        ));
    }
    proof {
        lemma_full_prefix(rows@);
    }
    out
}

pub open spec fn media_list_result(status: u16, parsed: Option<Json>) -> Result<Seq<MediaAssetView>, Seq<char>> {
    match mgmt_data(status, parsed, MEDIA_FETCH_FALLBACK@) {
        Ok(Json::Array(rows)) => Ok(filter_map_seq(rows@, |row: Json| media_asset_of(row))),
        Ok(_) => Err(MEDIA_FETCH_FALLBACK@),
        Err(e) => Err(e),
    }
}

/// Decodes an event's media list, given the answer's status and its body
/// as parsed.
pub fn media_list_from_json(status: u16, parsed: Option<Json>) -> (r: Result<Vec<MediaAsset>, String>)
    ensures
        seq_view_result(r) == media_list_result(status, parsed),
{
    match parse_success_root(status, parsed, MEDIA_FETCH_FALLBACK) {
        Ok(v) => match json_get(&v, "data") {
            Some(Json::Null) => Err(String::from_str(MEDIA_FETCH_FALLBACK)),
            Some(Json::Array(rows)) => Ok(media_of_rows(rows)),
            _ => Err(String::from_str(MEDIA_FETCH_FALLBACK)),
        },
        Err(e) => Err(e),
    }
}

pub fn parse_media_list_response(status: u16, body: &str) -> (r: Result<Vec<MediaAsset>, String>)
    ensures
        seq_view_result(r) == media_list_result(status, parsed_json(body@)),
{
    media_list_from_json(status, parse_json(body))
}

/// The member of an upload answer that lists the stored files of a kind.
pub open spec fn uploaded_key(kind: MediaKind) -> Seq<char> {
    match kind {
        MediaKind::Image => "uploadedImages"@,
        MediaKind::Document => "uploadedDocuments"@,
    }
}

/// An accepted upload lists the stored files under the kind's member, or
/// none when that member is not a list.
pub open spec fn media_upload_result(status: u16, parsed: Option<Json>, kind: MediaKind) -> Result<Seq<MediaAssetView>, Seq<char>> {
    match mgmt_data(status, parsed, upload_fallback_text(kind)) {
        Ok(d) => match get(d, uploaded_key(kind)) {
            Some(Json::Array(rows)) => Ok(filter_map_seq(rows@, |row: Json| media_asset_of(row))),
            _ => Ok(Seq::empty()),
        },
        Err(e) => Err(e),
    }
}

/// Decodes the answer to an upload of the given kind, given its status and
/// its body as parsed.
pub fn media_upload_from_json(status: u16, parsed: Option<Json>, kind: MediaKind) -> (r: Result<Vec<MediaAsset>, String>)
    ensures
        seq_view_result(r) == media_upload_result(status, parsed, kind),
{
    let fallback = kind.upload_fallback();
    match parse_success_root(status, parsed, fallback) {
        Ok(v) => match json_get(&v, "data") {
            Some(Json::Null) => Err(String::from_str(fallback)),
            Some(data) => {
                let key = match kind {
                    MediaKind::Image => "uploadedImages",
                    MediaKind::Document => "uploadedDocuments",
                };
                match json_get(data, key) {
                    Some(Json::Array(rows)) => Ok(media_of_rows(rows)),
                    _ => {
                        let out: Vec<MediaAsset> = Vec::new();
                        assert(out@.map_values(|c: MediaAsset| c@) =~= Seq::empty());
                        Ok(out)
                    },
                }
            },
            None => Err(String::from_str(fallback)),
        },
        Err(e) => Err(e),
    }
}

pub fn parse_media_upload_response(status: u16, body: &str, kind: MediaKind) -> (r: Result<Vec<MediaAsset>, String>)
    ensures
        seq_view_result(r) == media_upload_result(status, parsed_json(body@), kind),
{
    media_upload_from_json(status, parse_json(body), kind)
}

pub fn parse_image_upload_response(status: u16, body: &str) -> (r: Result<Vec<MediaAsset>, String>)
    ensures
        seq_view_result(r) == media_upload_result(status, parsed_json(body@), MediaKind::Image),
{
    parse_media_upload_response(status, body, MediaKind::Image)
}

pub fn parse_document_upload_response(status: u16, body: &str) -> (r: Result<Vec<MediaAsset>, String>)
    ensures
        seq_view_result(r) == media_upload_result(status, parsed_json(body@), MediaKind::Document),
{
    parse_media_upload_response(status, body, MediaKind::Document)
}


/// A media kind read back from the name it goes by in the API is the same
/// kind.
pub proof fn lemma_media_kind_round_trip(kind: MediaKind)
    ensures
        kind_of_type_field(kind_text(kind)) == Some(kind),
{
    reveal_strlit("image");
    reveal_strlit("document");
    assert("image"@.len() != "document"@.len());
}

/// Every MIME type the uploader accepts has a media kind: the accepted
/// image types are images, the accepted document types are documents.
pub proof fn lemma_allowed_mime_kind(m: Seq<char>)
    ensures
        is_image_mime(m) ==> kind_of_mime(m) == Some(MediaKind::Image),
        is_document_mime(m) ==> kind_of_mime(m) == Some(MediaKind::Document),
{
    reveal_strlit("image/");
    reveal_strlit("image/jpeg");
    reveal_strlit("image/png");
    reveal_strlit("image/webp");
    reveal_strlit("image/gif");
    reveal_strlit("application/pdf");
    reveal_strlit("application/msword");
    reveal_strlit("application/vnd.openxmlformats-officedocument.wordprocessingml.document");
    reveal_strlit("application/vnd.ms-excel");
    reveal_strlit("application/vnd.openxmlformats-officedocument.spreadsheetml.sheet");
    if is_image_mime(m) {
        assert(m.subrange(0, 6) =~= "image/"@);
    }
    if is_document_mime(m) {
        assert(m[0] == 'a');
        assert(!has_prefix(m, "image/"@)) by {
            if has_prefix(m, "image/"@) {
                assert(m.subrange(0, 6)[0] == m[0]);
            }
        }
    }
}

/// Bringing a date-time to the API's ISO form a second time changes
/// nothing.
pub proof fn lemma_iso_text_idempotent(v: Seq<char>)
    ensures
        iso_text(iso_text(v)) == iso_text(v),
{
    let t = trim(v);
    lemma_trim_idempotent(v);
    lemma_trim_shape(v);
    if t.len() == 0 {
        assert(trim(Seq::<char>::empty()) =~= Seq::<char>::empty());
    } else if carries_zone(t) {
    } else if encode_utf8(t).len() == 16 {
        reveal_strlit(":00.000Z");
        let r = t + ":00.000Z"@;
        assert(r[0] == t[0]);
        assert(r.last() == 'Z');
        lemma_trim_fixed(r);
        assert(r.contains('Z')) by {
            assert(r[r.len() - 1] == 'Z');
        }
    } else if encode_utf8(t).len() == 19 {
        reveal_strlit(".000Z");
        let r = t + ".000Z"@;
        assert(r[0] == t[0]);
        assert(r.last() == 'Z');
        lemma_trim_fixed(r);
        assert(r.contains('Z')) by {
            assert(r[r.len() - 1] == 'Z');
        }
    }
}

/// The filter that drops one tier.
pub open spec fn without_tier(tier: Seq<char>) -> spec_fn(Seq<char>) -> Option<Seq<char>> {
    |x: Seq<char>|
        if x != tier {
            Some(x)
        } else {
            None
        }
}

proof fn lemma_unticked_is_filter(tiers: Seq<Seq<char>>, tier: Seq<char>)
    ensures
        toggled_tiers(tiers, tier, false) == filter_map_seq(tiers, without_tier(tier)),
{
    assert(without_tier(tier) =~= (|x: Seq<char>|
        if x != tier {
            Some(x)
        } else {
            None
        }));
}

proof fn lemma_drop_absent_tier(tiers: Seq<Seq<char>>, tier: Seq<char>)
    requires
        !tiers.contains(tier),
    ensures
        filter_map_seq(tiers, without_tier(tier)) == tiers,
{
    assert forall|i: int| 0 <= i < tiers.len() implies without_tier(tier)(#[trigger] tiers[i]) == Some(
        tiers[i],
    ) by {
        if tiers[i] == tier {
            assert(tiers.contains(tier));
        }
    }
    lemma_filter_map_keeps_all(tiers, without_tier(tier));
}

/// Ticking a tier leaves it among the required tiers; unticking it leaves
/// no copy of it there.
pub proof fn lemma_toggle_sets_membership(tiers: Seq<Seq<char>>, tier: Seq<char>)
    ensures
        toggled_tiers(tiers, tier, true).contains(tier),
        !toggled_tiers(tiers, tier, false).contains(tier),
{
    if !tiers.contains(tier) {
        assert(tiers.push(tier)[tiers.len() as int] == tier);
    }
    lemma_unticked_is_filter(tiers, tier);
    if filter_map_seq(tiers, without_tier(tier)).contains(tier) {
        lemma_filter_map_member(tiers, without_tier(tier), tier);
    }
}

/// Ticking or unticking the same tier twice is doing it once.
pub proof fn lemma_toggle_idempotent(tiers: Seq<Seq<char>>, tier: Seq<char>, checked: bool)
    ensures
        toggled_tiers(toggled_tiers(tiers, tier, checked), tier, checked) == toggled_tiers(
            tiers,
            tier,
            checked,
        ),
{
    lemma_toggle_sets_membership(tiers, tier);
    if !checked {
        let once = toggled_tiers(tiers, tier, false);
        lemma_unticked_is_filter(once, tier);
        lemma_drop_absent_tier(once, tier);
    }
}

/// Unticking a tier that was just ticked, where it was not required before,
/// gives back the tiers as they were.
pub proof fn lemma_untick_undoes_tick(tiers: Seq<Seq<char>>, tier: Seq<char>)
    requires
        !tiers.contains(tier),
    ensures
        toggled_tiers(toggled_tiers(tiers, tier, true), tier, false) == tiers,
{
    let ticked = tiers.push(tier);
    lemma_unticked_is_filter(ticked, tier);
    assert(ticked.drop_last() =~= tiers);
    lemma_drop_absent_tier(tiers, tier);
}

/// A list of entries written into the multi-line field and read back is
/// the same list, when each entry is non-empty, trimmed and on one line.
pub proof fn lemma_lines_round_trip(items: Seq<Seq<char>>)
    requires
        forall|i: int|
            0 <= i < items.len() ==> {
                &&& (#[trigger] items[i]).len() > 0
                &&& !is_ws(items[i][0])
                &&& !is_ws(items[i].last())
                &&& !items[i].contains('\n')
            },
    ensures
        lines_of(join_with(items, "\n"@)) == items,
{
    reveal_strlit("\n");
    assert("\n"@ =~= seq!['\n']);
    let f = |l: Seq<char>| kept_line(l);
    if items.len() == 0 {
        let e = Seq::<char>::empty();
        assert(first_index(e, '\n').is_none());
        assert(split_on(e, '\n') == seq![e]);
        crate::seqs::lemma_filter_map_single(e, f);
        assert(trim(e) =~= e);
    } else {
        lemma_split_join(items, '\n');
        assert forall|i: int| 0 <= i < items.len() implies f(#[trigger] items[i]) == Some(items[i]) by {
            lemma_trim_fixed(items[i]);
        }
        lemma_filter_map_keeps_all(items, f);
        assert(lines_of(join_with(items, "\n"@)) == filter_map_seq(items, f));
    }
}

/// Every file kept from a selection passes validation for the kind, and
/// the kept files never take the count past the maximum when it was not
/// already past it.
pub proof fn lemma_kept_files_valid(
    cs: Seq<FileCandidate>,
    existing: u32,
    max_files: u32,
    kind: MediaKind,
    max_size_mb: u32,
)
    ensures
        forall|k: int|
            0 <= k < kept_files(cs, existing, max_files, kind, max_size_mb).len() ==> file_kind_error(
                #[trigger] kept_files(cs, existing, max_files, kind, max_size_mb)[k],
                kind,
                max_size_mb,
            ).is_none(),
        existing <= max_files ==> existing + kept_files(cs, existing, max_files, kind, max_size_mb).len()
            <= max_files,
{
    let ok = passing_files(cs, kind, max_size_mb);
    let kept = kept_files(cs, existing, max_files, kind, max_size_mb);
    let f = |c: FileCandidate|
        if file_kind_error(c, kind, max_size_mb).is_none() {
            Some(c)
        } else {
            None
        };
    assert forall|k: int| 0 <= k < kept.len() implies file_kind_error(
        #[trigger] kept[k],
        kind,
        max_size_mb,
    ).is_none() by {
        assert(kept[k] == ok[k]);
        assert(ok.contains(ok[k]));
        lemma_filter_map_member(cs, f, ok[k]);
    }
}


/// Where a monetary amount of an event is read from: the value under the
/// event's own key, then the one under its `pricing` object, each as the
/// text the API sent. The library does not compute with amounts: reading
/// the first text that is a number, else zero, is left to the caller.
#[derive(Clone, Debug, PartialEq, Eq)]
pub struct AmountInput {
    pub primary: Option<String>,
    pub fallback: Option<String>,
}

pub struct AmountInputView {
    pub primary: Option<Seq<char>>,
    pub fallback: Option<Seq<char>>,
}

impl View for AmountInput {
    type V = AmountInputView;

    open spec fn view(&self) -> AmountInputView {
        AmountInputView {
            primary: crate::json::opt_view(self.primary),
            fallback: crate::json::opt_view(self.fallback),
        }
    }
}

/// An event as the management API describes it.
#[derive(Clone, Debug, PartialEq, Eq)]
pub struct ManagedEvent {
    pub id: String,
    pub title: String,
    pub slug: String,
    pub description: String,
    pub detailed_description: String,
    pub category_id: String,
    pub venue_id: String,
    pub organizer_id: String,
    pub start_datetime: String,
    pub end_datetime: String,
    pub timezone: String,
    pub capacity_min: u32,
    pub capacity_max: u32,
    pub current_registrations: u32,
    pub price_platinum: AmountInput,
    pub price_diamond: AmountInput,
    pub price_black_card: AmountInput,
    pub currency: String,
    pub status: String,
    pub approval_status: String,
    pub required_membership_tiers: Vec<String>,
    pub required_verification: bool,
    pub dress_code: String,
    pub language: String,
    pub special_requirements: String,
    pub inclusions: Vec<String>,
    pub exclusions: Vec<String>,
    pub registration_opens_at: String,
    pub registration_closes_at: String,
    pub cancellation_deadline: String,
    pub waitlist_enabled: bool,
    pub auto_approval: bool,
    pub meta_title: String,
    pub meta_description: String,
    pub featured_image: String,
    pub internal_notes: String,
    pub profit_margin: AmountInput,
    pub venue_name: String,
    pub category_name: String,
    pub category_slug: String,
}

pub struct ManagedEventView {
    pub id: Seq<char>,
    pub title: Seq<char>,
    pub slug: Seq<char>,
    pub description: Seq<char>,
    pub detailed_description: Seq<char>,
    pub category_id: Seq<char>,
    pub venue_id: Seq<char>,
    pub organizer_id: Seq<char>,
    pub start_datetime: Seq<char>,
    pub end_datetime: Seq<char>,
    pub timezone: Seq<char>,
    pub capacity_min: u32,
    pub capacity_max: u32,
    pub current_registrations: u32,
    pub price_platinum: AmountInputView,
    pub price_diamond: AmountInputView,
    pub price_black_card: AmountInputView,
    pub currency: Seq<char>,
    pub status: Seq<char>,
    pub approval_status: Seq<char>,
    pub required_membership_tiers: Seq<Seq<char>>,
    pub required_verification: bool,
    pub dress_code: Seq<char>,
    pub language: Seq<char>,
    pub special_requirements: Seq<char>,
    pub inclusions: Seq<Seq<char>>,
    pub exclusions: Seq<Seq<char>>,
    pub registration_opens_at: Seq<char>,
    pub registration_closes_at: Seq<char>,
    pub cancellation_deadline: Seq<char>,
    pub waitlist_enabled: bool,
    pub auto_approval: bool,
    pub meta_title: Seq<char>,
    pub meta_description: Seq<char>,
    pub featured_image: Seq<char>,
    pub internal_notes: Seq<char>,
    pub profit_margin: AmountInputView,
    pub venue_name: Seq<char>,
    pub category_name: Seq<char>,
    pub category_slug: Seq<char>,
}

impl View for ManagedEvent {
    type V = ManagedEventView;

    open spec fn view(&self) -> ManagedEventView {
        ManagedEventView {
            id: self.id@,
            title: self.title@,
            slug: self.slug@,
            description: self.description@,
            detailed_description: self.detailed_description@,
            category_id: self.category_id@,
            venue_id: self.venue_id@,
            organizer_id: self.organizer_id@,
            start_datetime: self.start_datetime@,
            end_datetime: self.end_datetime@,
            timezone: self.timezone@,
            capacity_min: self.capacity_min,
            capacity_max: self.capacity_max,
            current_registrations: self.current_registrations,
            price_platinum: self.price_platinum@,
            price_diamond: self.price_diamond@,
            price_black_card: self.price_black_card@,
            currency: self.currency@,
            status: self.status@,
            approval_status: self.approval_status@,
            required_membership_tiers: texts(self.required_membership_tiers@),
            required_verification: self.required_verification,
            dress_code: self.dress_code@,
            language: self.language@,
            special_requirements: self.special_requirements@,
            inclusions: texts(self.inclusions@),
            exclusions: texts(self.exclusions@),
            registration_opens_at: self.registration_opens_at@,
            registration_closes_at: self.registration_closes_at@,
            cancellation_deadline: self.cancellation_deadline@,
            waitlist_enabled: self.waitlist_enabled,
            auto_approval: self.auto_approval,
            meta_title: self.meta_title@,
            meta_description: self.meta_description@,
            featured_image: self.featured_image@,
            internal_notes: self.internal_notes@,
            profit_margin: self.profit_margin@,
            venue_name: self.venue_name@,
            category_name: self.category_name@,
            category_slug: self.category_slug@,
        }
    }
}

impl Default for ManagedEvent {
    /// A blank event: every text and list empty, no amounts, but for the
    /// default time zone, currency and language; capacity one to twenty;
    /// verification required, waitlist on, automatic approval off.
    fn default() -> (e: Self)
        ensures
            e.id@.len() == 0 && e.title@.len() == 0 && e.slug@.len() == 0,
            e.description@.len() == 0 && e.detailed_description@.len() == 0,
            e.category_id@.len() == 0 && e.venue_id@.len() == 0 && e.organizer_id@.len() == 0,
            e.start_datetime@.len() == 0 && e.end_datetime@.len() == 0,
            e.timezone@ == DEFAULT_TIMEZONE@,
            e.capacity_min == 1 && e.capacity_max == 20 && e.current_registrations == 0,
            e.price_platinum@ == (AmountInputView { primary: None, fallback: None }),
            e.price_diamond@ == (AmountInputView { primary: None, fallback: None }),
            e.price_black_card@ == (AmountInputView { primary: None, fallback: None }),
            e.profit_margin@ == (AmountInputView { primary: None, fallback: None }),
            e.currency@ == DEFAULT_CURRENCY@,
            e.status@.len() == 0 && e.approval_status@.len() == 0,
            e.required_membership_tiers@.len() == 0 && e.inclusions@.len() == 0
                && e.exclusions@.len() == 0,
            e.required_verification && e.waitlist_enabled && !e.auto_approval,
            e.dress_code@.len() == 0 && e.special_requirements@.len() == 0,
            e.language@ == DEFAULT_LANGUAGE@,
            e.registration_opens_at@.len() == 0 && e.registration_closes_at@.len() == 0
                && e.cancellation_deadline@.len() == 0,
            e.meta_title@.len() == 0 && e.meta_description@.len() == 0,
            e.featured_image@.len() == 0 && e.internal_notes@.len() == 0,
            e.venue_name@.len() == 0 && e.category_name@.len() == 0 && e.category_slug@.len() == 0,
    {
        ManagedEvent {
            id: String::new(),
            title: String::new(),
            slug: String::new(),
            description: String::new(),
            detailed_description: String::new(),
            category_id: String::new(),
            venue_id: String::new(),
            organizer_id: String::new(),
            start_datetime: String::new(),
            end_datetime: String::new(),
            timezone: String::from_str(DEFAULT_TIMEZONE),
            capacity_min: 1,
            capacity_max: 20,
            current_registrations: 0,
            price_platinum: AmountInput { primary: None, fallback: None },
            price_diamond: AmountInput { primary: None, fallback: None },
            price_black_card: AmountInput { primary: None, fallback: None },
            currency: String::from_str(DEFAULT_CURRENCY),
            status: String::new(),
            approval_status: String::new(),
            required_membership_tiers: Vec::new(),
            required_verification: true,
            dress_code: String::new(),
            language: String::from_str(DEFAULT_LANGUAGE),
            special_requirements: String::new(),
            inclusions: Vec::new(),
            exclusions: Vec::new(),
            registration_opens_at: String::new(),
            registration_closes_at: String::new(),
            cancellation_deadline: String::new(),
            waitlist_enabled: true,
            auto_approval: false,
            meta_title: String::new(),
            meta_description: String::new(),
            featured_image: String::new(),
            internal_notes: String::new(),
            profit_margin: AmountInput { primary: None, fallback: None },
            venue_name: String::new(),
            category_name: String::new(),
            category_slug: String::new(),
        }
    }
}

/// A list entry of a string-list field: a non-empty string.
pub open spec fn list_entry(item: Json) -> Option<Seq<char>> {
    match item {
        Json::Text(t) => if t@.len() > 0 {
            Some(t@)
        } else {
            None
        },
        _ => None,
    }
}

/// A text that parses as a bare string parses to a shorter one.
pub open spec fn shrinks_on_parse(t: Seq<char>) -> bool {
    parsed_json(t) matches Some(Json::Text(u)) ==> u@.len() < t.len()
}

/// A value whose string, if it is one, can be followed through the parser:
/// it is empty, or parsing it gives a shorter string if any. `parse_json`
/// promises this of every text it is given.
pub open spec fn list_readable(v: Option<Json>) -> bool {
    match v {
        Some(Json::Text(t)) => t@.len() == 0 || shrinks_on_parse(t@),
        _ => true,
    }
}

/// A string-list field (tiers, inclusions, exclusions): the non-empty
/// strings of an array; for a string, nothing when it is empty, the list
/// read from it when it is JSON, and the string itself otherwise; nothing
/// for any other value.
pub open spec fn string_list_of(v: Option<Json>) -> Seq<Seq<char>>
    decreases (match v {
        Some(Json::Text(t)) => t@.len() + 1,
        _ => 0,
    }),
    when list_readable(v)
{
    match v {
        Some(Json::Array(items)) => filter_map_seq(items@, |item: Json| list_entry(item)),
        Some(Json::Text(t)) => if t@.len() == 0 {
            Seq::empty()
        } else {
            match parsed_json(t@) {
                Some(p) => string_list_of(Some(p)),
                None => seq![t@],
            }
        },
        _ => Seq::empty(),
    }
}

fn list_entries(items: &Vec<Json>) -> (r: Vec<String>)
    ensures
        texts(r@) == filter_map_seq(items@, |item: Json| list_entry(item)),
{
    let mut out: Vec<String> = Vec::new();
    let n = items.len();
    let mut i: usize = 0;
    while i < n
        invariant
            n == items@.len(),
            i <= n,
            texts(out@) == filter_map_seq(items@.subrange(0, i as int), |item: Json| list_entry(item)),
        decreases n - i,
    {
        proof {
            lemma_filter_map_step(items@, i as int, |item: Json| list_entry(item));
        }
        match &items[i] {
            Json::Text(t) => {
                if t.as_str().unicode_len() > 0 {
                    let ghost before = texts(out@);
                    out.push(t.clone());
                    assert(texts(out@) =~= before.push(t@));
                }
            },
            _ => {},
        }
        i = i + 1;
    }
    proof {
        lemma_full_prefix(items@);
    }
    out
}

/// Reads a string-list field.
fn parse_string_list(v: Option<&Json>) -> (r: Vec<String>)
    ensures
        list_readable(crate::json::deref_opt(v)),
        texts(r@) == string_list_of(crate::json::deref_opt(v)),
    decreases (match crate::json::deref_opt(v) {
        Some(Json::Text(t)) => t@.len() + 1,
        _ => 0,
    }),
{
    match v {
        Some(Json::Array(items)) => {
            assert(crate::json::deref_opt(v) == Some(Json::Array(*items)));
            assert(string_list_of(Some(Json::Array(*items))) == filter_map_seq(
                items@,
                |item: Json| list_entry(item),
            ));
            let r = list_entries(items);
            assert(texts(r@) == string_list_of(crate::json::deref_opt(v)));
            r
        },
        Some(Json::Text(t)) => {
            if t.as_str().unicode_len() == 0 {
                let out: Vec<String> = Vec::new();
                assert(texts(out@) =~= Seq::<Seq<char>>::empty());
                return out;
            }
            let parsed = parse_json(t.as_str());
            assert(shrinks_on_parse(t@));
            match parsed {
                Some(p) => {
                    let r = parse_string_list(Some(&p));
                    assert(texts(r@) == string_list_of(crate::json::deref_opt(v)));
                    r
                },
                None => {
                    let mut out: Vec<String> = Vec::new();
                    out.push(t.clone());
                    assert(texts(out@) =~= seq![t@]);
                    assert(texts(out@) == string_list_of(crate::json::deref_opt(v)));
                    out
                },
            }
        },
        _ => {
            let out: Vec<String> = Vec::new();
            assert(texts(out@) =~= Seq::<Seq<char>>::empty());
            assert(texts(out@) == string_list_of(crate::json::deref_opt(v)));
            out
        },
    }
}

/// The text of a string, else of a second one, else the default.
pub open spec fn text_else(a: Option<Seq<char>>, b: Option<Seq<char>>, default: Seq<char>) -> Seq<char> {
    match or_text(a, b) {
        Some(x) => x,
        None => default,
    }
}

/// The first present number, else the default.
pub open spec fn u32_or(a: Option<u32>, b: Option<u32>, default: u32) -> u32 {
    match a {
        Some(x) => x,
        None => match b {
            Some(x) => x,
            None => default,
        },
    }
}

/// An event of the management API: a row with an id. Each field is read
/// from its key, with the older names and the nested `venue`, `category`
/// and `pricing` objects as fallbacks, and a default where none is there.
pub open spec fn managed_event_of(v: Json) -> Option<ManagedEventView> {
    let pricing = get(v, "pricing"@);
    let venue = get(v, "venue"@);
    let category = get(v, "category"@);
    match json_id_spec(get(v, "id"@)) {
        Some(id) => Some(
            ManagedEventView {
                id,
                title: text_else(json_text(get(v, "title"@)), json_text(get(v, "name"@)), Seq::empty()),
                slug: view_or_empty(json_text(get(v, "slug"@))),
                description: view_or_empty(json_text(get(v, "description"@))),
                detailed_description: view_or_empty(json_text(get(v, "detailed_description"@))),
                category_id: text_else(
                    json_id_spec(get(v, "category_id"@)),
                    json_id_spec(get_in(category, "id"@)),
                    Seq::empty(),
                ),
                venue_id: text_else(
                    json_id_spec(get(v, "venue_id"@)),
                    json_id_spec(get_in(venue, "id"@)),
                    Seq::empty(),
                ),
                organizer_id: view_or_empty(json_id_spec(get(v, "organizer_id"@))),
                start_datetime: text_else(
                    json_text(get(v, "start_datetime"@)),
                    json_text(get(v, "dateTime"@)),
                    Seq::empty(),
                ),
                end_datetime: view_or_empty(json_text(get(v, "end_datetime"@))),
                timezone: text_else(json_text(get(v, "timezone"@)), None, DEFAULT_TIMEZONE@),
                capacity_min: u32_or(json_u32_spec(get(v, "capacity_min"@)), None, 1),
                capacity_max: u32_or(
                    json_u32_spec(get(v, "capacity_max"@)),
                    json_u32_spec(get(v, "capacity"@)),
                    0,
                ),
                current_registrations: u32_or(
                    json_u32_spec(get(v, "current_registrations"@)),
                    json_u32_spec(get(v, "currentAttendees"@)),
                    0,
                ),
                price_platinum: AmountInputView {
                    primary: amount_text(get(v, "price_platinum"@)),
                    fallback: amount_text(get_in(pricing, "vip"@)),
                },
                price_diamond: AmountInputView {
                    primary: amount_text(get(v, "price_diamond"@)),
                    fallback: amount_text(get_in(pricing, "vvip"@)),
                },
                price_black_card: AmountInputView {
                    primary: amount_text(get(v, "price_black_card"@)),
                    fallback: amount_text(get_in(pricing, "general"@)),
                },
                currency: text_else(
                    json_text(get(v, "currency"@)),
                    json_text(get_in(pricing, "currency"@)),
                    DEFAULT_CURRENCY@,
                ),
                status: view_or_empty(json_text(get(v, "status"@))),
                approval_status: view_or_empty(json_text(get(v, "approval_status"@))),
                required_membership_tiers: string_list_of(get(v, "required_membership_tiers"@)),
                required_verification: match json_bool_spec(get(v, "required_verification"@)) {
                    Some(b) => b,
                    None => true,
                },
                dress_code: text_else(
                    json_text(get(v, "dress_code"@)),
                    json_text(get(v, "dressCode"@)),
                    Seq::empty(),
                ),
                language: text_else(json_text(get(v, "language"@)), None, DEFAULT_LANGUAGE@),
                special_requirements: view_or_empty(json_text(get(v, "special_requirements"@))),
                inclusions: string_list_of(get(v, "inclusions"@)),
                exclusions: string_list_of(get(v, "exclusions"@)),
                registration_opens_at: view_or_empty(json_text(get(v, "registration_opens_at"@))),
                registration_closes_at: text_else(
                    json_text(get(v, "registration_closes_at"@)),
                    json_text(get(v, "registrationDeadline"@)),
                    Seq::empty(),
                ),
                cancellation_deadline: view_or_empty(json_text(get(v, "cancellation_deadline"@))),
                waitlist_enabled: match json_bool_spec(get(v, "waitlist_enabled"@)) {
                    Some(b) => b,
                    None => true,
                },
                auto_approval: match json_bool_spec(get(v, "auto_approval"@)) {
                    Some(b) => b,
                    None => false,
                },
                meta_title: view_or_empty(json_text(get(v, "meta_title"@))),
                meta_description: view_or_empty(json_text(get(v, "meta_description"@))),
                featured_image: view_or_empty(json_text(get(v, "featured_image"@))),
                internal_notes: view_or_empty(json_text(get(v, "internal_notes"@))),
                profit_margin: AmountInputView {
                    primary: amount_text(get(v, "profit_margin"@)),
                    fallback: None,
                },
                venue_name: text_else(
                    json_text(get(v, "venue_name"@)),
                    json_text(get_in(venue, "name"@)),
                    Seq::empty(),
                ),
                category_name: text_else(
                    json_text(get(v, "category_name"@)),
                    json_text(get_in(category, "name"@)),
                    Seq::empty(),
                ),
                category_slug: text_else(
                    json_text(get(v, "category_slug"@)),
                    json_text(get_in(category, "slug"@)),
                    Seq::empty(),
                ),
            },
        ),
        None => None,
    }
}

fn string_or(a: Option<String>, b: Option<String>, default: &str) -> (r: String)
    ensures
        r@ == text_else(crate::json::opt_view(a), crate::json::opt_view(b), default@),
{
    match a {
        Some(x) => x,
        None => match b {
            Some(x) => x,
            None => String::from_str(default),
        },
    }
}

fn u32_first(a: Option<u32>, b: Option<u32>, default: u32) -> (r: u32)
    ensures
        r == u32_or(a, b, default),
{
    match a {
        Some(x) => x,
        None => match b {
            Some(x) => x,
            None => default,
        },
    }
}

fn bool_or(a: Option<bool>, default: bool) -> (r: bool)
    ensures
        r == (match a {
            Some(b) => b,
            None => default,
        }),
{
    match a {
        Some(b) => b,
        None => default,
    }
}

/// Decodes one event row of the management API.
pub fn parse_managed_event(v: &Json) -> (r: Option<ManagedEvent>)
    ensures
        match r {
            Some(e) => managed_event_of(*v) == Some(e@),
            None => managed_event_of(*v).is_none(),
        },
{
    let id = match json_id(json_get(v, "id")) {
        Some(id) => id,
        None => return None,
    };
    let pricing = json_get(v, "pricing");
    let venue = json_get(v, "venue");
    let category = json_get(v, "category");
    let e = ManagedEvent {
        id,
        title: string_or(json_string(json_get(v, "title")), json_string(json_get(v, "name")), ""),
        slug: json_string_or_empty(json_get(v, "slug")),
        description: json_string_or_empty(json_get(v, "description")),
        detailed_description: json_string_or_empty(json_get(v, "detailed_description")),
        category_id: string_or(
            json_id(json_get(v, "category_id")),
            json_id(json_get_in(category, "id")),
            "",
        ),
        venue_id: string_or(json_id(json_get(v, "venue_id")), json_id(json_get_in(venue, "id")), ""),
        organizer_id: string_or(json_id(json_get(v, "organizer_id")), None, ""),
        start_datetime: string_or(
            json_string(json_get(v, "start_datetime")),
            json_string(json_get(v, "dateTime")),
            "",
        ),
        end_datetime: json_string_or_empty(json_get(v, "end_datetime")),
        timezone: string_or(json_string(json_get(v, "timezone")), None, DEFAULT_TIMEZONE),
        capacity_min: u32_first(json_u32(json_get(v, "capacity_min")), None, 1),
        capacity_max: u32_first(json_u32(json_get(v, "capacity_max")), json_u32(json_get(v, "capacity")), 0),
        current_registrations: u32_first(
            json_u32(json_get(v, "current_registrations")),
            json_u32(json_get(v, "currentAttendees")),
            0,
        ),
        price_platinum: AmountInput {
            primary: json_amount(json_get(v, "price_platinum")),
            fallback: json_amount(json_get_in(pricing, "vip")),
        },
        price_diamond: AmountInput {
            primary: json_amount(json_get(v, "price_diamond")),
            fallback: json_amount(json_get_in(pricing, "vvip")),
        },
        price_black_card: AmountInput {
            primary: json_amount(json_get(v, "price_black_card")),
            fallback: json_amount(json_get_in(pricing, "general")),
        },
        currency: string_or(
            json_string(json_get(v, "currency")),
            json_string(json_get_in(pricing, "currency")),
            DEFAULT_CURRENCY,
        ),
        status: json_string_or_empty(json_get(v, "status")),
        approval_status: json_string_or_empty(json_get(v, "approval_status")),
        required_membership_tiers: parse_string_list(json_get(v, "required_membership_tiers")),
        required_verification: bool_or(json_bool(json_get(v, "required_verification")), true),
        dress_code: string_or(json_string(json_get(v, "dress_code")), json_string(json_get(v, "dressCode")), ""),
        language: string_or(json_string(json_get(v, "language")), None, DEFAULT_LANGUAGE),
        special_requirements: json_string_or_empty(json_get(v, "special_requirements")),
        inclusions: parse_string_list(json_get(v, "inclusions")),
        exclusions: parse_string_list(json_get(v, "exclusions")),
        registration_opens_at: json_string_or_empty(json_get(v, "registration_opens_at")),
        registration_closes_at: string_or(
            json_string(json_get(v, "registration_closes_at")),
            json_string(json_get(v, "registrationDeadline")),
            "",
        ),
        cancellation_deadline: json_string_or_empty(json_get(v, "cancellation_deadline")),
        waitlist_enabled: bool_or(json_bool(json_get(v, "waitlist_enabled")), true),
        auto_approval: bool_or(json_bool(json_get(v, "auto_approval")), false),
        meta_title: json_string_or_empty(json_get(v, "meta_title")),
        meta_description: json_string_or_empty(json_get(v, "meta_description")),
        featured_image: json_string_or_empty(json_get(v, "featured_image")),
        internal_notes: json_string_or_empty(json_get(v, "internal_notes")),
        profit_margin: AmountInput { primary: json_amount(json_get(v, "profit_margin")), fallback: None },
        venue_name: string_or(json_string(json_get(v, "venue_name")), json_string(json_get_in(venue, "name")), ""),
        category_name: string_or(
            json_string(json_get(v, "category_name")),
            json_string(json_get_in(category, "name")),
            "",
        ),
        category_slug: string_or(
            json_string(json_get(v, "category_slug")),
            json_string(json_get_in(category, "slug")),
            "",
        ),
    };
    proof {
        reveal_strlit("");
        assert(""@ =~= Seq::<char>::empty());
    }
    assert(e@ == managed_event_of(*v).unwrap());
    Some(e)
}


/// The pagination block of a listing: each number read from its key, the
/// first page, the page size and zeros where it is missing; the defaults
/// throughout when there is no block.
pub open spec fn pagination_of(v: Option<Json>) -> EventsPagination {
    match v {
        Some(p) => EventsPagination {
            page: u32_or(json_u32_spec(get(p, "page"@)), None, 1),
            limit: u32_or(json_u32_spec(get(p, "limit"@)), None, PAGE_LIMIT),
            total: u32_or(json_u32_spec(get(p, "total"@)), None, 0),
            total_pages: u32_or(json_u32_spec(get(p, "totalPages"@)), None, 0),
        },
        None => EventsPagination { page: 1, limit: PAGE_LIMIT, total: 0, total_pages: 0 },
    }
}

fn parse_pagination(v: Option<&Json>) -> (r: EventsPagination)
    ensures
        r == pagination_of(crate::json::deref_opt(v)),
{
    match v {
        Some(p) => EventsPagination {
            page: u32_first(json_u32(json_get(p, "page")), None, 1),
            limit: u32_first(json_u32(json_get(p, "limit")), None, PAGE_LIMIT),
            total: u32_first(json_u32(json_get(p, "total")), None, 0),
            total_pages: u32_first(json_u32(json_get(p, "totalPages")), None, 0),
        },
        None => EventsPagination::default(),
    }
}

/// One page of the management listing.
#[derive(Clone, Debug, PartialEq, Eq)]
pub struct EventsPage {
    pub events: Vec<ManagedEvent>,
    pub pagination: EventsPagination,
}

pub struct EventsPageView {
    pub events: Seq<ManagedEventView>,
    pub pagination: EventsPagination,
}

impl View for EventsPage {
    type V = EventsPageView;

    open spec fn view(&self) -> EventsPageView {
        EventsPageView {
            events: self.events@.map_values(|e: ManagedEvent| e@),
            pagination: self.pagination,
        }
    }
}

impl Default for EventsPage {
    fn default() -> (p: Self)
        ensures
            p.events@.len() == 0,
            p.pagination == (EventsPagination { page: 1, limit: PAGE_LIMIT, total: 0, total_pages: 0 }),
    {
        EventsPage { events: Vec::new(), pagination: EventsPagination::default() }
    }
}

/// The listing answer: the event rows with an id, in order, and the
/// pagination block; an answer without a `data` array is the fetch error.
pub open spec fn events_page_result(status: u16, parsed: Option<Json>) -> Result<EventsPageView, Seq<char>> {
    match mgmt_root(status, parsed, EVENTS_FETCH_FALLBACK@) {
        Ok(v) => match get(v, "data"@) {
            Some(Json::Array(rows)) => Ok(
                EventsPageView {
                    events: filter_map_seq(rows@, |row: Json| managed_event_of(row)),
                    pagination: pagination_of(get(v, "pagination"@)),
                },
            ),
            _ => Err(EVENTS_FETCH_FALLBACK@),
        },
        Err(e) => Err(e),
    }
}

fn managed_events_of_rows(rows: &Vec<Json>) -> (r: Vec<ManagedEvent>)
    ensures
        r@.map_values(|e: ManagedEvent| e@) == filter_map_seq(rows@, |row: Json| managed_event_of(row)),
{
    let mut out: Vec<ManagedEvent> = Vec::new();
    let n = rows.len();
    let mut i: usize = 0;
    while i < n
        invariant
            n == rows@.len(),
            i <= n,
            out@.map_values(|e: ManagedEvent| e@) == filter_map_seq(
                rows@.subrange(0, i as int),
                |row: Json| managed_event_of(row),
            ),
        decreases n - i,
    {
        proof {
            lemma_filter_map_step(rows@, i as int, |row: Json| managed_event_of(row));
        }
        match parse_managed_event(&rows[i]) {
            Some(e) => {
                let ghost before = out@.map_values(|e: ManagedEvent| e@);
                out.push(e);
                assert(out@.map_values(|e: ManagedEvent| e@) =~= before.push(e@));
            },
            None => {},
        }
        i = i + 1;
    }
    proof {
        lemma_full_prefix(rows@);
    }
    out
}

/// Decodes a page of the management listing, given the answer's status and
/// its body as parsed.
pub fn events_page_from_json(status: u16, parsed: Option<Json>) -> (r: Result<EventsPage, String>)
    ensures
        crate::json::view_result(r) == events_page_result(status, parsed),
{
    match parse_success_root(status, parsed, EVENTS_FETCH_FALLBACK) {
        Ok(v) => match json_get(&v, "data") {
            Some(Json::Array(rows)) => {
                let events = managed_events_of_rows(rows);
                let pagination = parse_pagination(json_get(&v, "pagination"));
                Ok(EventsPage { events, pagination })
            },
            _ => Err(String::from_str(EVENTS_FETCH_FALLBACK)),
        },
        Err(e) => Err(e),
    }
}

pub fn parse_events_response(status: u16, body: &str) -> (r: Result<EventsPage, String>)
    ensures
        crate::json::view_result(r) == events_page_result(status, parsed_json(body@)),
{
    events_page_from_json(status, parse_json(body))
}

/// The answer for one event: its `data`, decoded; the fetch error where
/// there is none or it has no id.
pub open spec fn event_result(status: u16, parsed: Option<Json>) -> Result<ManagedEventView, Seq<char>> {
    match mgmt_data(status, parsed, EVENT_FETCH_FALLBACK@) {
        Ok(d) => match managed_event_of(d) {
            Some(e) => Ok(e),
            None => Err(EVENT_FETCH_FALLBACK@),
        },
        Err(e) => Err(e),
    }
}

/// Decodes the answer for one event, given its status and its body as
/// parsed.
pub fn event_from_json(status: u16, parsed: Option<Json>) -> (r: Result<ManagedEvent, String>)
    ensures
        crate::json::view_result(r) == event_result(status, parsed),
{
    match parse_success_root(status, parsed, EVENT_FETCH_FALLBACK) {
        Ok(v) => match json_get(&v, "data") {
            Some(Json::Null) | None => Err(String::from_str(EVENT_FETCH_FALLBACK)),
            Some(d) => match parse_managed_event(d) {
                Some(e) => Ok(e),
                None => Err(String::from_str(EVENT_FETCH_FALLBACK)),
            },
        },
        Err(e) => Err(e),
    }
}

pub fn parse_event_response(status: u16, body: &str) -> (r: Result<ManagedEvent, String>)
    ensures
        crate::json::view_result(r) == event_result(status, parsed_json(body@)),
{
    event_from_json(status, parse_json(body))
}


/// The event form, but for its monetary amounts, which the caller keeps.
#[derive(Clone, Debug, PartialEq, Eq)]
pub struct EventFormData {
    pub title: String,
    pub description: String,
    pub detailed_description: String,
    pub category_id: String,
    pub venue_id: String,
    pub start_datetime: String,
    pub end_datetime: String,
    pub timezone: String,
    pub capacity_min: u32,
    pub capacity_max: u32,
    pub currency: String,
    pub required_membership_tiers: Vec<String>,
    pub required_verification: bool,
    pub dress_code: String,
    pub language: String,
    pub special_requirements: String,
    pub inclusions: Vec<String>,
    pub exclusions: Vec<String>,
    pub registration_opens_at: String,
    pub registration_closes_at: String,
    pub cancellation_deadline: String,
    pub waitlist_enabled: bool,
    pub auto_approval: bool,
    pub meta_title: String,
    pub meta_description: String,
    pub featured_image: String,
    pub internal_notes: String,
}

/// The form of a new event: every text empty and every list empty but for
/// the default time zone, currency and language; capacity one to twenty;
/// verification required, waitlist on, automatic approval off.
/// The event form, its texts and lists taken by view.
pub struct EventFormDataView {
    pub title: Seq<char>,
    pub description: Seq<char>,
    pub detailed_description: Seq<char>,
    pub category_id: Seq<char>,
    pub venue_id: Seq<char>,
    pub start_datetime: Seq<char>,
    pub end_datetime: Seq<char>,
    pub timezone: Seq<char>,
    pub capacity_min: u32,
    pub capacity_max: u32,
    pub currency: Seq<char>,
    pub required_membership_tiers: Seq<Seq<char>>,
    pub required_verification: bool,
    pub dress_code: Seq<char>,
    pub language: Seq<char>,
    pub special_requirements: Seq<char>,
    pub inclusions: Seq<Seq<char>>,
    pub exclusions: Seq<Seq<char>>,
    pub registration_opens_at: Seq<char>,
    pub registration_closes_at: Seq<char>,
    pub cancellation_deadline: Seq<char>,
    pub waitlist_enabled: bool,
    pub auto_approval: bool,
    pub meta_title: Seq<char>,
    pub meta_description: Seq<char>,
    pub featured_image: Seq<char>,
    pub internal_notes: Seq<char>,
}

impl View for EventFormData {
    type V = EventFormDataView;

    open spec fn view(&self) -> EventFormDataView {
        EventFormDataView {
            title: self.title@,
            description: self.description@,
            detailed_description: self.detailed_description@,
            category_id: self.category_id@,
            venue_id: self.venue_id@,
            start_datetime: self.start_datetime@,
            end_datetime: self.end_datetime@,
            timezone: self.timezone@,
            capacity_min: self.capacity_min,
            capacity_max: self.capacity_max,
            currency: self.currency@,
            required_membership_tiers: texts(self.required_membership_tiers@),
            required_verification: self.required_verification,
            dress_code: self.dress_code@,
            language: self.language@,
            special_requirements: self.special_requirements@,
            inclusions: texts(self.inclusions@),
            exclusions: texts(self.exclusions@),
            registration_opens_at: self.registration_opens_at@,
            registration_closes_at: self.registration_closes_at@,
            cancellation_deadline: self.cancellation_deadline@,
            waitlist_enabled: self.waitlist_enabled,
            auto_approval: self.auto_approval,
            meta_title: self.meta_title@,
            meta_description: self.meta_description@,
            featured_image: self.featured_image@,
            internal_notes: self.internal_notes@,
        }
    }
}

/// The form of a new event (`empty_form`), by view.
pub open spec fn blank_form() -> EventFormDataView {
    EventFormDataView {
        title: Seq::empty(),
        description: Seq::empty(),
        detailed_description: Seq::empty(),
        category_id: Seq::empty(),
        venue_id: Seq::empty(),
        start_datetime: Seq::empty(),
        end_datetime: Seq::empty(),
        timezone: DEFAULT_TIMEZONE@,
        capacity_min: 1,
        capacity_max: 20,
        currency: DEFAULT_CURRENCY@,
        required_membership_tiers: Seq::empty(),
        required_verification: true,
        dress_code: Seq::empty(),
        language: DEFAULT_LANGUAGE@,
        special_requirements: Seq::empty(),
        inclusions: Seq::empty(),
        exclusions: Seq::empty(),
        registration_opens_at: Seq::empty(),
        registration_closes_at: Seq::empty(),
        cancellation_deadline: Seq::empty(),
        waitlist_enabled: true,
        auto_approval: false,
        meta_title: Seq::empty(),
        meta_description: Seq::empty(),
        featured_image: Seq::empty(),
        internal_notes: Seq::empty(),
    }
}

/// The form filled from a stored event (`form_from_event`), by view.
pub open spec fn form_of_event(e: ManagedEventView) -> EventFormDataView {
    EventFormDataView {
        title: e.title,
        description: e.description,
        detailed_description: e.detailed_description,
        category_id: e.category_id,
        venue_id: e.venue_id,
        start_datetime: local_value(e.start_datetime),
        end_datetime: local_value(e.end_datetime),
        timezone: or_default(e.timezone, DEFAULT_TIMEZONE@),
        capacity_min: e.capacity_min,
        capacity_max: e.capacity_max,
        currency: or_default(e.currency, DEFAULT_CURRENCY@),
        required_membership_tiers: e.required_membership_tiers,
        required_verification: e.required_verification,
        dress_code: e.dress_code,
        language: or_default(e.language, DEFAULT_LANGUAGE@),
        special_requirements: e.special_requirements,
        inclusions: e.inclusions,
        exclusions: e.exclusions,
        registration_opens_at: local_value(e.registration_opens_at),
        registration_closes_at: local_value(e.registration_closes_at),
        cancellation_deadline: local_value(e.cancellation_deadline),
        waitlist_enabled: e.waitlist_enabled,
        auto_approval: e.auto_approval,
        meta_title: e.meta_title,
        meta_description: e.meta_description,
        featured_image: e.featured_image,
        internal_notes: e.internal_notes,
    }
}

pub open spec fn is_empty_form(f: EventFormData) -> bool {
    &&& f.title@.len() == 0
    &&& f.description@.len() == 0
    &&& f.detailed_description@.len() == 0
    &&& f.category_id@.len() == 0
    &&& f.venue_id@.len() == 0
    &&& f.start_datetime@.len() == 0
    &&& f.end_datetime@.len() == 0
    &&& f.timezone@ == DEFAULT_TIMEZONE@
    &&& f.capacity_min == 1
    &&& f.capacity_max == 20
    &&& f.currency@ == DEFAULT_CURRENCY@
    &&& f.required_membership_tiers@.len() == 0
    &&& f.required_verification
    &&& f.dress_code@.len() == 0
    &&& f.language@ == DEFAULT_LANGUAGE@
    &&& f.special_requirements@.len() == 0
    &&& f.inclusions@.len() == 0
    &&& f.exclusions@.len() == 0
    &&& f.registration_opens_at@.len() == 0
    &&& f.registration_closes_at@.len() == 0
    &&& f.cancellation_deadline@.len() == 0
    &&& f.waitlist_enabled
    &&& !f.auto_approval
    &&& f.meta_title@.len() == 0
    &&& f.meta_description@.len() == 0
    &&& f.featured_image@.len() == 0
    &&& f.internal_notes@.len() == 0
}

impl Default for EventFormData {
    fn default() -> (f: Self)
        ensures
            is_empty_form(f),
    {
        EventFormData {
            title: String::new(),
            description: String::new(),
            detailed_description: String::new(),
            category_id: String::new(),
            venue_id: String::new(),
            start_datetime: String::new(),
            end_datetime: String::new(),
            timezone: String::from_str(DEFAULT_TIMEZONE),
            capacity_min: 1,
            capacity_max: 20,
            currency: String::from_str(DEFAULT_CURRENCY),
            required_membership_tiers: Vec::new(),
            required_verification: true,
            dress_code: String::new(),
            language: String::from_str(DEFAULT_LANGUAGE),
            special_requirements: String::new(),
            inclusions: Vec::new(),
            exclusions: Vec::new(),
            registration_opens_at: String::new(),
            registration_closes_at: String::new(),
            cancellation_deadline: String::new(),
            waitlist_enabled: true,
            auto_approval: false,
            meta_title: String::new(),
            meta_description: String::new(),
            featured_image: String::new(),
            internal_notes: String::new(),
        }
    }
}

pub fn empty_form() -> (f: EventFormData)
    ensures
        is_empty_form(f),
        f@ == blank_form(),
{
    let f = EventFormData::default();
    assert(f@ =~= blank_form()) by {
        assert(f.title@ =~= Seq::<char>::empty());
        assert(f.description@ =~= Seq::<char>::empty());
        assert(f.detailed_description@ =~= Seq::<char>::empty());
        assert(f.category_id@ =~= Seq::<char>::empty());
        assert(f.venue_id@ =~= Seq::<char>::empty());
        assert(f.start_datetime@ =~= Seq::<char>::empty());
        assert(f.end_datetime@ =~= Seq::<char>::empty());
        assert(texts(f.required_membership_tiers@) =~= Seq::<Seq<char>>::empty());
        assert(f.dress_code@ =~= Seq::<char>::empty());
        assert(f.special_requirements@ =~= Seq::<char>::empty());
        assert(texts(f.inclusions@) =~= Seq::<Seq<char>>::empty());
        assert(texts(f.exclusions@) =~= Seq::<Seq<char>>::empty());
        assert(f.registration_opens_at@ =~= Seq::<char>::empty());
        assert(f.registration_closes_at@ =~= Seq::<char>::empty());
        assert(f.cancellation_deadline@ =~= Seq::<char>::empty());
        assert(f.meta_title@ =~= Seq::<char>::empty());
        assert(f.meta_description@ =~= Seq::<char>::empty());
        assert(f.featured_image@ =~= Seq::<char>::empty());
        assert(f.internal_notes@ =~= Seq::<char>::empty());
    }
    f
}

/// A timestamp that can be cut to its first sixteen bytes: shorter, or
/// with a character boundary there.
pub open spec fn local_cut_ok(t: Seq<char>) -> bool {
    encode_utf8(t).len() >= 16 ==> is_char_boundary(encode_utf8(t), 16)
}

/// The value a `datetime-local` input shows for a timestamp.
pub open spec fn local_value(t: Seq<char>) -> Seq<char> {
    if encode_utf8(t).len() >= 16 {
        decode_utf8(encode_utf8(t).subrange(0, 16))
    } else {
        t
    }
}

/// The text, or the default when it is empty.
pub open spec fn or_default(t: Seq<char>, default: Seq<char>) -> Seq<char> {
    if t.len() == 0 {
        default
    } else {
        t
    }
}

fn clone_or_default(t: &String, default: &str) -> (r: String)
    ensures
        r@ == or_default(t@, default@),
{
    if t.as_str().unicode_len() == 0 {
        String::from_str(default)
    } else {
        t.clone()
    }
}

/// A copy of the form, equal to it by view.
pub fn copy_form(d: &EventFormData) -> (r: EventFormData)
    ensures
        r@ == d@,
{
    let r = EventFormData {
        title: d.title.clone(),
        description: d.description.clone(),
        detailed_description: d.detailed_description.clone(),
        category_id: d.category_id.clone(),
        venue_id: d.venue_id.clone(),
        start_datetime: d.start_datetime.clone(),
        end_datetime: d.end_datetime.clone(),
        timezone: d.timezone.clone(),
        capacity_min: d.capacity_min,
        capacity_max: d.capacity_max,
        currency: d.currency.clone(),
        required_membership_tiers: clone_list(&d.required_membership_tiers),
        required_verification: d.required_verification,
        dress_code: d.dress_code.clone(),
        language: d.language.clone(),
        special_requirements: d.special_requirements.clone(),
        inclusions: clone_list(&d.inclusions),
        exclusions: clone_list(&d.exclusions),
        registration_opens_at: d.registration_opens_at.clone(),
        registration_closes_at: d.registration_closes_at.clone(),
        cancellation_deadline: d.cancellation_deadline.clone(),
        waitlist_enabled: d.waitlist_enabled,
        auto_approval: d.auto_approval,
        meta_title: d.meta_title.clone(),
        meta_description: d.meta_description.clone(),
        featured_image: d.featured_image.clone(),
        internal_notes: d.internal_notes.clone(),
    };
    assert(r@ =~= d@);
    r
}

/// A copy of the filters, equal to them by view.
pub fn copy_filters(f: &EventMgmtFilters) -> (r: EventMgmtFilters)
    ensures
        r@ == f@,
{
    EventMgmtFilters {
        page: f.page,
        limit: f.limit,
        search: f.search.clone(),
        status: f.status.clone(),
        category: f.category.clone(),
        venue: f.venue.clone(),
    }
}

fn clone_list(items: &Vec<String>) -> (r: Vec<String>)
    ensures
        texts(r@) == texts(items@),
{
    let mut out: Vec<String> = Vec::new();
    let n = items.len();
    let mut i: usize = 0;
    while i < n
        invariant
            n == items@.len(),
            i <= n,
            texts(out@) == texts(items@.subrange(0, i as int)),
        decreases n - i,
    {
        let ghost before = texts(out@);
        out.push(items[i].clone());
        assert(texts(out@) =~= before.push(items@[i as int]@));
        assert(texts(items@.subrange(0, i + 1)) =~= texts(items@.subrange(0, i as int)).push(
            items@[i as int]@,
        ));
        i = i + 1;
    }
    assert(items@.subrange(0, n as int) =~= items@);
    out
}

/// Fills the form from a stored event: the texts and settings as they are,
/// the timestamps cut for `datetime-local` inputs, and the default time
/// zone, currency and language where the event has none.
pub fn form_from_event(event: &ManagedEvent) -> (f: EventFormData)
    requires
        local_cut_ok(event.start_datetime@),
        local_cut_ok(event.end_datetime@),
        local_cut_ok(event.registration_opens_at@),
        local_cut_ok(event.registration_closes_at@),
        local_cut_ok(event.cancellation_deadline@),
    ensures
        f.title@ == event.title@,
        f.description@ == event.description@,
        f.detailed_description@ == event.detailed_description@,
        f.category_id@ == event.category_id@,
        f.venue_id@ == event.venue_id@,
        f.start_datetime@ == local_value(event.start_datetime@),
        f.end_datetime@ == local_value(event.end_datetime@),
        f.timezone@ == or_default(event.timezone@, DEFAULT_TIMEZONE@),
        f.capacity_min == event.capacity_min,
        f.capacity_max == event.capacity_max,
        f.currency@ == or_default(event.currency@, DEFAULT_CURRENCY@),
        texts(f.required_membership_tiers@) == texts(event.required_membership_tiers@),
        f.required_verification == event.required_verification,
        f.dress_code@ == event.dress_code@,
        f.language@ == or_default(event.language@, DEFAULT_LANGUAGE@),
        f.special_requirements@ == event.special_requirements@,
        texts(f.inclusions@) == texts(event.inclusions@),
        texts(f.exclusions@) == texts(event.exclusions@),
        f.registration_opens_at@ == local_value(event.registration_opens_at@),
        f.registration_closes_at@ == local_value(event.registration_closes_at@),
        f.cancellation_deadline@ == local_value(event.cancellation_deadline@),
        f.waitlist_enabled == event.waitlist_enabled,
        f.auto_approval == event.auto_approval,
        f.meta_title@ == event.meta_title@,
        f.meta_description@ == event.meta_description@,
        f.featured_image@ == event.featured_image@,
        f.internal_notes@ == event.internal_notes@,
        f@ == form_of_event(event@),
{
    let f = EventFormData {
        title: event.title.clone(),
        description: event.description.clone(),
        detailed_description: event.detailed_description.clone(),
        category_id: event.category_id.clone(),
        venue_id: event.venue_id.clone(),
        start_datetime: datetime_local_value(event.start_datetime.as_str()),
        end_datetime: datetime_local_value(event.end_datetime.as_str()),
        timezone: clone_or_default(&event.timezone, DEFAULT_TIMEZONE),
        capacity_min: event.capacity_min,
        capacity_max: event.capacity_max,
        currency: clone_or_default(&event.currency, DEFAULT_CURRENCY),
        required_membership_tiers: clone_list(&event.required_membership_tiers),
        required_verification: event.required_verification,
        dress_code: event.dress_code.clone(),
        language: clone_or_default(&event.language, DEFAULT_LANGUAGE),
        special_requirements: event.special_requirements.clone(),
        inclusions: clone_list(&event.inclusions),
        exclusions: clone_list(&event.exclusions),
        registration_opens_at: datetime_local_value(event.registration_opens_at.as_str()),
        registration_closes_at: datetime_local_value(event.registration_closes_at.as_str()),
        cancellation_deadline: datetime_local_value(event.cancellation_deadline.as_str()),
        waitlist_enabled: event.waitlist_enabled,
        auto_approval: event.auto_approval,
        meta_title: event.meta_title.clone(),
        meta_description: event.meta_description.clone(),
        featured_image: event.featured_image.clone(),
        internal_notes: event.internal_notes.clone(),
    };
    assert(f@ =~= form_of_event(event@));
    f
}

/// The first rule the form breaks, in the order the form checks them:
/// title, description, category, venue, start and end present, the end
/// after the start, a positive maximum capacity not below the minimum.
pub open spec fn form_error(d: EventFormDataView) -> Option<Seq<char>> {
    if trim(d.title).len() == 0 {
        Some(TITLE_REQUIRED@)
    } else if trim(d.description).len() == 0 {
        Some(DESCRIPTION_REQUIRED@)
    } else if d.category_id.len() == 0 {
        Some(CATEGORY_REQUIRED@)
    } else if d.venue_id.len() == 0 {
        Some(VENUE_REQUIRED@)
    } else if d.start_datetime.len() == 0 {
        Some(START_REQUIRED@)
    } else if d.end_datetime.len() == 0 {
        Some(END_REQUIRED@)
    } else if !text_lt(d.start_datetime, d.end_datetime) {
        Some(END_AFTER_START@)
    } else if d.capacity_max == 0 {
        Some(CAPACITY_MAX_POSITIVE@)
    } else if d.capacity_min > d.capacity_max {
        Some(CAPACITY_MIN_EXCEEDS_MAX@)
    } else {
        None
    }
}

pub fn validate_event_form(data: &EventFormData) -> (r: Result<(), String>)
    ensures
        unit_result(r) == form_error(data@),
{
    if blank(data.title.as_str()) {
        return Err(String::from_str(TITLE_REQUIRED));
    }
    if blank(data.description.as_str()) {
        return Err(String::from_str(DESCRIPTION_REQUIRED));
    }
    if data.category_id.as_str().unicode_len() == 0 {
        return Err(String::from_str(CATEGORY_REQUIRED));
    }
    if data.venue_id.as_str().unicode_len() == 0 {
        return Err(String::from_str(VENUE_REQUIRED));
    }
    if data.start_datetime.as_str().unicode_len() == 0 {
        return Err(String::from_str(START_REQUIRED));
    }
    if data.end_datetime.as_str().unicode_len() == 0 {
        return Err(String::from_str(END_REQUIRED));
    }
    if !str_less(data.start_datetime.as_str(), data.end_datetime.as_str()) {
        return Err(String::from_str(END_AFTER_START));
    }
    if data.capacity_max == 0 {
        return Err(String::from_str(CAPACITY_MAX_POSITIVE));
    }
    if data.capacity_min > data.capacity_max {
        return Err(String::from_str(CAPACITY_MIN_EXCEEDS_MAX));
    }
    Ok(())
}


/// The four monetary amounts of an event payload, as the JSON numbers (or
/// nulls) that the caller made of them.
pub struct EventAmounts {
    pub price_platinum: Json,
    pub price_diamond: Json,
    pub price_black_card: Json,
    pub profit_margin: Json,
}

/// What a member of the event payload holds.
pub enum PayloadValue {
    Text(Seq<char>),
    Flag(bool),
    Count(u32),
    Amount(Json),
    List(Seq<Seq<char>>),
}

/// A JSON value holds what the payload says: the text, the boolean, the
/// count as an integer number, the amount as given, or the list of texts.
pub open spec fn value_is(v: Json, e: PayloadValue) -> bool {
    match e {
        PayloadValue::Text(t) => v matches Json::Text(s) && s@ == t,
        PayloadValue::Flag(b) => v == Json::Bool(b),
        PayloadValue::Count(c) => v matches Json::Number(n) && n.text@ == decimal(c as nat) && n.as_i64
            == Some(c as i64) && n.as_u64 == Some(c as u64) && n.as_f64_as_i64 == Some(c as i64),
        PayloadValue::Amount(j) => v == j,
        PayloadValue::List(ts) => v matches Json::Array(items) && items@.len() == ts.len() && forall|
            i: int,
        |
            0 <= i < ts.len() ==> (#[trigger] items@[i] matches Json::Text(s) && s@ == ts[i]),
    }
}

/// The members of an object, in order, with the keys and values listed.
#[verifier::opaque]
pub open spec fn payload_matches(ms: Seq<JsonMember>, ex: Seq<(Seq<char>, PayloadValue)>) -> bool {
    &&& ms.len() == ex.len()
    &&& forall|i: int|
        0 <= i < ms.len() ==> (#[trigger] ms[i]).key@ == ex[i].0 && value_is(ms[i].value, ex[i].1)
}

/// A member added when its text is not empty.
pub open spec fn with_optional(
    ex: Seq<(Seq<char>, PayloadValue)>,
    key: Seq<char>,
    t: Seq<char>,
) -> Seq<(Seq<char>, PayloadValue)> {
    if t.len() == 0 {
        ex
    } else {
        ex.push((key, PayloadValue::Text(t)))
    }
}

/// A date-time member added, in ISO form, when the field is not empty.
pub open spec fn with_optional_iso(
    ex: Seq<(Seq<char>, PayloadValue)>,
    key: Seq<char>,
    t: Seq<char>,
) -> Seq<(Seq<char>, PayloadValue)> {
    if t.len() == 0 {
        ex
    } else {
        ex.push((key, PayloadValue::Text(iso_text(t))))
    }
}

/// The body sent to create or update an event: the form's fields under the
/// API's names, the date-times in ISO form, the optional texts only when
/// filled in, and the amounts as given.
pub open spec fn event_payload(d: EventFormData, a: EventAmounts) -> Seq<(Seq<char>, PayloadValue)> {
    let e = Seq::empty().push(("title"@, PayloadValue::Text(d.title@))).push(
        ("description"@, PayloadValue::Text(d.description@)),
    );
    let e = with_optional(e, "detailedDescription"@, d.detailed_description@);
    let e = e.push(("categoryId"@, PayloadValue::Text(d.category_id@))).push(
        ("venueId"@, PayloadValue::Text(d.venue_id@)),
    ).push(("startDatetime"@, PayloadValue::Text(iso_text(d.start_datetime@)))).push(
        ("endDatetime"@, PayloadValue::Text(iso_text(d.end_datetime@))),
    ).push(("timezone"@, PayloadValue::Text(d.timezone@))).push(
        ("capacityMin"@, PayloadValue::Count(d.capacity_min)),
    ).push(("capacityMax"@, PayloadValue::Count(d.capacity_max))).push(
        ("pricePlatinum"@, PayloadValue::Amount(a.price_platinum)),
    ).push(("priceDiamond"@, PayloadValue::Amount(a.price_diamond))).push(
        ("priceBlackCard"@, PayloadValue::Amount(a.price_black_card)),
    ).push(("currency"@, PayloadValue::Text(d.currency@))).push(
        ("requiredMembershipTiers"@, PayloadValue::List(texts(d.required_membership_tiers@))),
    ).push(("requiredVerification"@, PayloadValue::Flag(d.required_verification)));
    let e = with_optional(e, "dressCode"@, d.dress_code@);
    let e = e.push(("language"@, PayloadValue::Text(d.language@)));
    let e = with_optional(e, "specialRequirements"@, d.special_requirements@);
    let e = e.push(("inclusions"@, PayloadValue::List(texts(d.inclusions@)))).push(
        ("exclusions"@, PayloadValue::List(texts(d.exclusions@))),
    );
    let e = with_optional_iso(e, "registrationOpensAt"@, d.registration_opens_at@);
    let e = with_optional_iso(e, "registrationClosesAt"@, d.registration_closes_at@);
    let e = with_optional_iso(e, "cancellationDeadline"@, d.cancellation_deadline@);
    let e = e.push(("waitlistEnabled"@, PayloadValue::Flag(d.waitlist_enabled))).push(
        ("autoApproval"@, PayloadValue::Flag(d.auto_approval)),
    );
    let e = with_optional(e, "metaTitle"@, d.meta_title@);
    let e = with_optional(e, "metaDescription"@, d.meta_description@);
    let e = with_optional(e, "featuredImage"@, d.featured_image@);
    let e = with_optional(e, "internalNotes"@, d.internal_notes@);
    e.push(("profitMargin"@, PayloadValue::Amount(a.profit_margin)))
}

proof fn lemma_matches_push(
    ms: Seq<JsonMember>,
    ex: Seq<(Seq<char>, PayloadValue)>,
    m: JsonMember,
    e: (Seq<char>, PayloadValue),
)
    requires
        payload_matches(ms, ex),
        m.key@ == e.0,
        value_is(m.value, e.1),
    ensures
        payload_matches(ms.push(m), ex.push(e)),
{
    reveal(payload_matches);
    assert forall|i: int| 0 <= i < ms.push(m).len() implies (#[trigger] ms.push(m)[i]).key@ == ex.push(
        e,
    )[i].0 && value_is(ms.push(m)[i].value, ex.push(e)[i].1) by {
        if i < ms.len() {
            assert(ms.push(m)[i] == ms[i]);
            assert(ex.push(e)[i] == ex[i]);
        }
    }
}

fn push_text(ms: &mut Vec<JsonMember>, key: &str, t: String, Ghost(ex): Ghost<Seq<(Seq<char>, PayloadValue)>>)
    requires
        payload_matches(old(ms)@, ex),
    ensures
        payload_matches(final(ms)@, ex.push((key@, PayloadValue::Text(t@)))),
{
    let m = JsonMember { key: String::from_str(key), value: Json::Text(t) };
    proof {
        lemma_matches_push(old(ms)@, ex, m, (key@, PayloadValue::Text(t@)));
    }
    ms.push(m);
}

fn push_optional(
    ms: &mut Vec<JsonMember>,
    key: &str,
    t: &String,
    Ghost(ex): Ghost<Seq<(Seq<char>, PayloadValue)>>,
)
    requires
        payload_matches(old(ms)@, ex),
    ensures
        payload_matches(final(ms)@, with_optional(ex, key@, t@)),
{
    if t.as_str().unicode_len() > 0 {
        push_text(ms, key, t.clone(), Ghost(ex));
    }
}

fn push_optional_iso(
    ms: &mut Vec<JsonMember>,
    key: &str,
    t: &String,
    Ghost(ex): Ghost<Seq<(Seq<char>, PayloadValue)>>,
)
    requires
        payload_matches(old(ms)@, ex),
    ensures
        payload_matches(final(ms)@, with_optional_iso(ex, key@, t@)),
{
    if t.as_str().unicode_len() > 0 {
        push_text(ms, key, datetime_to_iso(t.as_str()), Ghost(ex));
    }
}

fn push_flag(ms: &mut Vec<JsonMember>, key: &str, b: bool, Ghost(ex): Ghost<Seq<(Seq<char>, PayloadValue)>>)
    requires
        payload_matches(old(ms)@, ex),
    ensures
        payload_matches(final(ms)@, ex.push((key@, PayloadValue::Flag(b)))),
{
    let m = JsonMember { key: String::from_str(key), value: Json::Bool(b) };
    proof {
        lemma_matches_push(old(ms)@, ex, m, (key@, PayloadValue::Flag(b)));
    }
    ms.push(m);
}

fn push_count(ms: &mut Vec<JsonMember>, key: &str, c: u32, Ghost(ex): Ghost<Seq<(Seq<char>, PayloadValue)>>)
    requires
        payload_matches(old(ms)@, ex),
    ensures
        payload_matches(final(ms)@, ex.push((key@, PayloadValue::Count(c)))),
{
    let n = JsonNumber {
        text: u64_to_decimal(c as u64),
        as_i64: Some(c as i64),
        as_u64: Some(c as u64),
        as_f64_as_i64: Some(c as i64),
    };
    let m = JsonMember { key: String::from_str(key), value: Json::Number(n) };
    proof {
        lemma_matches_push(old(ms)@, ex, m, (key@, PayloadValue::Count(c)));
    }
    ms.push(m);
}

fn push_amount(ms: &mut Vec<JsonMember>, key: &str, j: Json, Ghost(ex): Ghost<Seq<(Seq<char>, PayloadValue)>>)
    requires
        payload_matches(old(ms)@, ex),
    ensures
        payload_matches(final(ms)@, ex.push((key@, PayloadValue::Amount(j)))),
{
    let ghost gj = j;
    let m = JsonMember { key: String::from_str(key), value: j };
    proof {
        lemma_matches_push(old(ms)@, ex, m, (key@, PayloadValue::Amount(gj)));
    }
    ms.push(m);
}

fn push_list(
    ms: &mut Vec<JsonMember>,
    key: &str,
    items: &Vec<String>,
    Ghost(ex): Ghost<Seq<(Seq<char>, PayloadValue)>>,
)
    requires
        payload_matches(old(ms)@, ex),
    ensures
        payload_matches(final(ms)@, ex.push((key@, PayloadValue::List(texts(items@))))),
{
    let mut out: Vec<Json> = Vec::new();
    let n = items.len();
    let mut i: usize = 0;
    while i < n
        invariant
            n == items@.len(),
            i <= n,
            out@.len() == i,
            forall|k: int| 0 <= k < i ==> (#[trigger] out@[k] matches Json::Text(s) && s@ == items@[k]@),
        decreases n - i,
    {
        out.push(Json::Text(items[i].clone()));
        i = i + 1;
    }
    let ghost gl = out@;
    let m = JsonMember { key: String::from_str(key), value: Json::Array(out) };
    proof {
        assert(value_is(m.value, PayloadValue::List(texts(items@)))) by {
            assert forall|k: int| 0 <= k < texts(items@).len() implies (#[trigger] gl[k] matches Json::Text(
                s,
            ) && s@ == texts(items@)[k]) by {
                assert(texts(items@)[k] == items@[k]@);
            }
        }
        lemma_matches_push(old(ms)@, ex, m, (key@, PayloadValue::List(texts(items@))));
    }
    ms.push(m);
}

/// Builds the body sent to create or update an event from the form and
/// the amounts the caller made JSON numbers of.
pub fn event_form_payload(data: &EventFormData, amounts: EventAmounts) -> (j: Json)
    ensures
        j matches Json::Object(ms) && payload_matches(ms@, event_payload(*data, amounts)),
{
    let ghost a = amounts;
    let ghost d = *data;
    let mut ms: Vec<JsonMember> = Vec::new();
    let ghost ex: Seq<(Seq<char>, PayloadValue)> = Seq::empty();
    assert(payload_matches(ms@, ex)) by {
        reveal(payload_matches);
    }
    push_text(&mut ms, "title", data.title.clone(), Ghost(ex));
    proof { ex = ex.push(("title"@, PayloadValue::Text(d.title@))); }
    push_text(&mut ms, "description", data.description.clone(), Ghost(ex));
    proof { ex = ex.push(("description"@, PayloadValue::Text(d.description@))); }
    push_optional(&mut ms, "detailedDescription", &data.detailed_description, Ghost(ex));
    proof { ex = with_optional(ex, "detailedDescription"@, d.detailed_description@); }
    push_text(&mut ms, "categoryId", data.category_id.clone(), Ghost(ex));
    proof { ex = ex.push(("categoryId"@, PayloadValue::Text(d.category_id@))); }
    push_text(&mut ms, "venueId", data.venue_id.clone(), Ghost(ex));
    proof { ex = ex.push(("venueId"@, PayloadValue::Text(d.venue_id@))); }
    push_text(&mut ms, "startDatetime", datetime_to_iso(data.start_datetime.as_str()), Ghost(ex));
    proof { ex = ex.push(("startDatetime"@, PayloadValue::Text(iso_text(d.start_datetime@)))); }
    push_text(&mut ms, "endDatetime", datetime_to_iso(data.end_datetime.as_str()), Ghost(ex));
    proof { ex = ex.push(("endDatetime"@, PayloadValue::Text(iso_text(d.end_datetime@)))); }
    push_text(&mut ms, "timezone", data.timezone.clone(), Ghost(ex));
    proof { ex = ex.push(("timezone"@, PayloadValue::Text(d.timezone@))); }
    push_count(&mut ms, "capacityMin", data.capacity_min, Ghost(ex));
    proof { ex = ex.push(("capacityMin"@, PayloadValue::Count(d.capacity_min))); }
    push_count(&mut ms, "capacityMax", data.capacity_max, Ghost(ex));
    proof { ex = ex.push(("capacityMax"@, PayloadValue::Count(d.capacity_max))); }
    let EventAmounts { price_platinum, price_diamond, price_black_card, profit_margin } = amounts;
    push_amount(&mut ms, "pricePlatinum", price_platinum, Ghost(ex));
    proof { ex = ex.push(("pricePlatinum"@, PayloadValue::Amount(a.price_platinum))); }
    push_amount(&mut ms, "priceDiamond", price_diamond, Ghost(ex));
    proof { ex = ex.push(("priceDiamond"@, PayloadValue::Amount(a.price_diamond))); }
    push_amount(&mut ms, "priceBlackCard", price_black_card, Ghost(ex));
    proof { ex = ex.push(("priceBlackCard"@, PayloadValue::Amount(a.price_black_card))); }
    push_text(&mut ms, "currency", data.currency.clone(), Ghost(ex));
    proof { ex = ex.push(("currency"@, PayloadValue::Text(d.currency@))); }
    push_list(&mut ms, "requiredMembershipTiers", &data.required_membership_tiers, Ghost(ex));
    proof {
        ex = ex.push(("requiredMembershipTiers"@, PayloadValue::List(texts(d.required_membership_tiers@))));
    }
    push_flag(&mut ms, "requiredVerification", data.required_verification, Ghost(ex));
    proof { ex = ex.push(("requiredVerification"@, PayloadValue::Flag(d.required_verification))); }
    push_optional(&mut ms, "dressCode", &data.dress_code, Ghost(ex));
    proof { ex = with_optional(ex, "dressCode"@, d.dress_code@); }
    push_text(&mut ms, "language", data.language.clone(), Ghost(ex));
    proof { ex = ex.push(("language"@, PayloadValue::Text(d.language@))); }
    push_optional(&mut ms, "specialRequirements", &data.special_requirements, Ghost(ex));
    proof { ex = with_optional(ex, "specialRequirements"@, d.special_requirements@); }
    push_list(&mut ms, "inclusions", &data.inclusions, Ghost(ex));
    proof { ex = ex.push(("inclusions"@, PayloadValue::List(texts(d.inclusions@)))); }
    push_list(&mut ms, "exclusions", &data.exclusions, Ghost(ex));
    proof { ex = ex.push(("exclusions"@, PayloadValue::List(texts(d.exclusions@)))); }
    push_optional_iso(&mut ms, "registrationOpensAt", &data.registration_opens_at, Ghost(ex));
    proof { ex = with_optional_iso(ex, "registrationOpensAt"@, d.registration_opens_at@); }
    push_optional_iso(&mut ms, "registrationClosesAt", &data.registration_closes_at, Ghost(ex));
    proof { ex = with_optional_iso(ex, "registrationClosesAt"@, d.registration_closes_at@); }
    push_optional_iso(&mut ms, "cancellationDeadline", &data.cancellation_deadline, Ghost(ex));
    proof { ex = with_optional_iso(ex, "cancellationDeadline"@, d.cancellation_deadline@); }
    push_flag(&mut ms, "waitlistEnabled", data.waitlist_enabled, Ghost(ex));
    proof { ex = ex.push(("waitlistEnabled"@, PayloadValue::Flag(d.waitlist_enabled))); }
    push_flag(&mut ms, "autoApproval", data.auto_approval, Ghost(ex));
    proof { ex = ex.push(("autoApproval"@, PayloadValue::Flag(d.auto_approval))); }
    push_optional(&mut ms, "metaTitle", &data.meta_title, Ghost(ex));
    proof { ex = with_optional(ex, "metaTitle"@, d.meta_title@); }
    push_optional(&mut ms, "metaDescription", &data.meta_description, Ghost(ex));
    proof { ex = with_optional(ex, "metaDescription"@, d.meta_description@); }
    push_optional(&mut ms, "featuredImage", &data.featured_image, Ghost(ex));
    proof { ex = with_optional(ex, "featuredImage"@, d.featured_image@); }
    push_optional(&mut ms, "internalNotes", &data.internal_notes, Ghost(ex));
    proof { ex = with_optional(ex, "internalNotes"@, d.internal_notes@); }
    push_amount(&mut ms, "profitMargin", profit_margin, Ghost(ex));
    proof {
        ex = ex.push(("profitMargin"@, PayloadValue::Amount(a.profit_margin)));
        assert(ex == event_payload(d, a));
    }
    Json::Object(ms)
}


/// After a decision an event awaits no further decision unless it is still
/// a draft or under review; an approved event may then be published unless
/// it is already published, cancelled, archived or completed, and a
/// rejected one may not.
pub proof fn lemma_decision_settles_workflow(status: Seq<char>, approved: bool)
    ensures
        approvable(status, approval_after(approved)) <==> (status == "pending_review"@ || status
            == "draft"@),
        publishable(status, approval_after(approved)) <==> (approved && status != "published"@
            && status != "cancelled"@ && status != "archived"@ && status != "completed"@),
{
    reveal_strlit("approved");
    reveal_strlit("rejected");
    reveal_strlit("pending");
    assert("approved"@.len() != "pending"@.len());
    assert("rejected"@ != "pending"@) by {
        assert("rejected"@[0] != "pending"@[0]);
    }
    assert("rejected"@ != "approved"@) by {
        assert("rejected"@[0] != "approved"@[0]);
    }
}

/// The body of an upload grows by one part per file, in order: with no
/// files it is the closing separator alone; adding a file keeps everything
/// before the closing separator, then adds that file's part (separator,
/// headers naming the field, the file's name and type, a blank line, the
/// file's bytes, a line end), then the closing separator again.
pub proof fn lemma_multipart_one_part_per_file(field: Seq<char>, fs: Seq<UploadBytes>, f: UploadBytes)
    ensures
        multipart_body(field, Seq::empty()) == encode_utf8("--"@ + MULTIPART_BOUNDARY@) + encode_utf8(
            "--\r\n"@,
        ),
        ({
            let closing = encode_utf8("--"@ + MULTIPART_BOUNDARY@) + encode_utf8("--\r\n"@);
            let before = multipart_body(field, fs);
            &&& before.len() >= closing.len()
            &&& before.subrange(before.len() - closing.len(), before.len() as int) == closing
            &&& multipart_body(field, fs.push(f)) == before.subrange(0, before.len() - closing.len())
                + encode_utf8("--"@ + MULTIPART_BOUNDARY@) + encode_utf8("\r\n"@) + encode_utf8(
                "Content-Disposition: form-data; name=\""@ + field + "\"; filename=\""@
                    + f.filename@ + "\"\r\nContent-Type: "@ + f.mime_type@ + "\r\n\r\n"@,
            ) + f.bytes@ + encode_utf8("\r\n"@) + closing
        }),
{
    let closing = encode_utf8("--"@ + MULTIPART_BOUNDARY@) + encode_utf8("--\r\n"@);
    assert(parts_bytes(field, Seq::<UploadBytes>::empty()) =~= Seq::<u8>::empty());
    assert(multipart_body(field, Seq::empty()) =~= closing);
    let before = multipart_body(field, fs);
    let p = parts_bytes(field, fs);
    assert(before =~= p + closing);
    assert(before.subrange(0, before.len() - closing.len()) =~= p);
    assert(before.subrange(before.len() - closing.len(), before.len() as int) =~= closing);
    assert(fs.push(f).drop_last() =~= fs);
    assert(fs.push(f).last() == f);
    assert(parts_bytes(field, fs.push(f)) == p + part_bytes(field, f));
    assert(multipart_body(field, fs.push(f)) =~= p + part_bytes(field, f) + closing);
}

/// The uploader takes exactly these types: JPEG, PNG, WebP and GIF images,
/// and PDF, Word and Excel documents. A file of one of them within the size
/// limit passes; a file of any other type within the limit is refused as
/// unsupported; a file over the limit is refused for its size.
pub proof fn lemma_accepted_file_types(c: FileCandidate, max_size_mb: u32)
    ensures
        c.size <= (max_size_mb as nat) * 1024 * 1024 ==> (file_error(c, max_size_mb) is None <==> {
            ||| c.mime@ == "image/jpeg"@
            ||| c.mime@ == "image/png"@
            ||| c.mime@ == "image/webp"@
            ||| c.mime@ == "image/gif"@
            ||| c.mime@ == "application/pdf"@
            ||| c.mime@ == "application/msword"@
            ||| c.mime@ == "application/vnd.openxmlformats-officedocument.wordprocessingml.document"@
            ||| c.mime@ == "application/vnd.ms-excel"@
            ||| c.mime@ == "application/vnd.openxmlformats-officedocument.spreadsheetml.sheet"@
        }),
        c.size <= (max_size_mb as nat) * 1024 * 1024 && file_error(c, max_size_mb) is Some
            ==> file_error(c, max_size_mb) == Some(UNSUPPORTED_FILE_TYPE@),
        c.size > (max_size_mb as nat) * 1024 * 1024 ==> file_error(c, max_size_mb) == Some(
            file_size_message(max_size_mb),
        ),
{
}

/// An event of the management API is any row with an id; its id is that
/// id, a string as it is or a number as written.
pub proof fn lemma_managed_event_identity(v: Json)
    ensures
        managed_event_of(v) is Some <==> json_id_spec(get(v, "id"@)) is Some,
        managed_event_of(v) is Some ==> match get(v, "id"@) {
            Some(Json::Text(t)) => managed_event_of(v).unwrap().id == t@,
            Some(Json::Number(n)) => managed_event_of(v).unwrap().id == n.text@,
            _ => false,
        },
{
}

/// The answer for one event keeps its workflow state: when the answer is
/// accepted and its `data` has an id, the event comes back, and its status
/// and approval status are the strings under `"status"` and
/// `"approval_status"` (empty when there are none), so whether it may be
/// published or approved is decided on the server's own values.
pub proof fn lemma_event_answer_keeps_workflow(status: u16, parsed: Option<Json>)
    ensures
        match mgmt_data(status, parsed, EVENT_FETCH_FALLBACK@) {
            Ok(d) => json_id_spec(get(d, "id"@)) is Some ==> {
                &&& event_result(status, parsed) is Ok
                &&& match get(d, "status"@) {
                    Some(Json::Text(t)) => event_result(status, parsed)->Ok_0.status == t@,
                    _ => event_result(status, parsed)->Ok_0.status.len() == 0,
                }
                &&& match get(d, "approval_status"@) {
                    Some(Json::Text(t)) => event_result(status, parsed)->Ok_0.approval_status == t@,
                    _ => event_result(status, parsed)->Ok_0.approval_status.len() == 0,
                }
            },
            Err(e) => event_result(status, parsed) == Err::<ManagedEventView, Seq<char>>(e),
        },
{
    match mgmt_data(status, parsed, EVENT_FETCH_FALLBACK@) {
        Ok(d) => {
            if json_id_spec(get(d, "id"@)) is Some {
                lemma_managed_event_of_reads_keys(d);
            }
        },
        Err(_) => {},
    }
}

/// Each field of `category_of` is read from its own key of the API row: `name` from `"name"`,
/// `slug` from `"slug"`.
pub proof fn lemma_category_of_reads_keys(row: Json)
    requires
        category_of(row) is Some,
    ensures
        match get(row, "name"@) { Some(Json::Text(t)) => category_of(row).unwrap().name == t@, _ => category_of(row).unwrap().name.len() == 0 },
        match get(row, "slug"@) { Some(Json::Text(t)) => category_of(row).unwrap().slug == t@, _ => category_of(row).unwrap().slug.len() == 0 },
{
}

/// Each field of `venue_of` is read from its own key of the API row: `name` from `"name"`,
/// `city` from `"city"`.
pub proof fn lemma_venue_of_reads_keys(row: Json)
    requires
        venue_of(row) is Some,
    ensures
        match get(row, "name"@) { Some(Json::Text(t)) => venue_of(row).unwrap().name == t@, _ => venue_of(row).unwrap().name.len() == 0 },
        match get(row, "city"@) { Some(Json::Text(t)) => venue_of(row).unwrap().city == t@, _ => venue_of(row).unwrap().city.len() == 0 },
{
}

/// Each field of `media_asset_of` is read from its own key of the API row: `uploaded_by` from
/// `"uploadedBy"`, `created_at` from `"createdAt"`.
pub proof fn lemma_media_asset_of_reads_keys(row: Json)
    requires
        media_asset_of(row) is Some,
    ensures
        match get(row, "uploadedBy"@) { Some(Json::Text(t)) => media_asset_of(row).unwrap().uploaded_by == t@, _ => true },
        match get(row, "createdAt"@) { Some(Json::Text(t)) => media_asset_of(row).unwrap().created_at == t@, _ => true },
{
}

/// Each field of `managed_event_of` is read from its own key of the API row: `title` from
/// `"title"`, `slug` from `"slug"`, `description` from `"description"`, `detailed_description`
/// from `"detailed_description"`, `organizer_id` from `"organizer_id"`, `start_datetime` from
/// `"start_datetime"`, `end_datetime` from `"end_datetime"`, `timezone` from `"timezone"`,
/// `capacity_min` from `"capacity_min"`, `price_platinum.primary` from `"price_platinum"`,
/// `price_diamond.primary` from `"price_diamond"`, `price_black_card.primary` from
/// `"price_black_card"`, `currency` from `"currency"`, `status` from `"status"`,
/// `approval_status` from `"approval_status"`, `required_verification` from
/// `"required_verification"`, `dress_code` from `"dress_code"`, `language` from `"language"`,
/// `special_requirements` from `"special_requirements"`, `registration_opens_at` from
/// `"registration_opens_at"`, `registration_closes_at` from `"registration_closes_at"`,
/// `cancellation_deadline` from `"cancellation_deadline"`, `waitlist_enabled` from
/// `"waitlist_enabled"`, `auto_approval` from `"auto_approval"`, `meta_title` from
/// `"meta_title"`, `meta_description` from `"meta_description"`, `featured_image` from
/// `"featured_image"`, `internal_notes` from `"internal_notes"`, `profit_margin.primary` from
/// `"profit_margin"`, `venue_name` from `"venue_name"`, `category_name` from `"category_name"`,
/// `category_slug` from `"category_slug"`.
pub proof fn lemma_managed_event_of_reads_keys(v: Json)
    requires
        managed_event_of(v) is Some,
    ensures
        match get(v, "title"@) { Some(Json::Text(t)) => managed_event_of(v).unwrap().title == t@, _ => true },
        match get(v, "slug"@) { Some(Json::Text(t)) => managed_event_of(v).unwrap().slug == t@, _ => managed_event_of(v).unwrap().slug.len() == 0 },
        match get(v, "description"@) { Some(Json::Text(t)) => managed_event_of(v).unwrap().description == t@, _ => managed_event_of(v).unwrap().description.len() == 0 },
        match get(v, "detailed_description"@) { Some(Json::Text(t)) => managed_event_of(v).unwrap().detailed_description == t@, _ => managed_event_of(v).unwrap().detailed_description.len() == 0 },
        match get(v, "organizer_id"@) { Some(Json::Text(t)) => managed_event_of(v).unwrap().organizer_id == t@, Some(Json::Number(n)) => managed_event_of(v).unwrap().organizer_id == n.text@, _ => managed_event_of(v).unwrap().organizer_id.len() == 0 },
        match get(v, "start_datetime"@) { Some(Json::Text(t)) => managed_event_of(v).unwrap().start_datetime == t@, _ => true },
        match get(v, "end_datetime"@) { Some(Json::Text(t)) => managed_event_of(v).unwrap().end_datetime == t@, _ => managed_event_of(v).unwrap().end_datetime.len() == 0 },
        match get(v, "timezone"@) { Some(Json::Text(t)) => managed_event_of(v).unwrap().timezone == t@, _ => true },
        match get(v, "capacity_min"@) { Some(Json::Number(n)) => (n.as_u64 is Some && n.as_u64.unwrap() <= u32::MAX) ==> managed_event_of(v).unwrap().capacity_min == n.as_u64.unwrap(), _ => true },
        match get(v, "price_platinum"@) { Some(Json::Text(t)) => managed_event_of(v).unwrap().price_platinum.primary == Some(t@), Some(Json::Number(n)) => managed_event_of(v).unwrap().price_platinum.primary == Some(n.text@), _ => managed_event_of(v).unwrap().price_platinum.primary is None },
        match get(v, "price_diamond"@) { Some(Json::Text(t)) => managed_event_of(v).unwrap().price_diamond.primary == Some(t@), Some(Json::Number(n)) => managed_event_of(v).unwrap().price_diamond.primary == Some(n.text@), _ => managed_event_of(v).unwrap().price_diamond.primary is None },
        match get(v, "price_black_card"@) { Some(Json::Text(t)) => managed_event_of(v).unwrap().price_black_card.primary == Some(t@), Some(Json::Number(n)) => managed_event_of(v).unwrap().price_black_card.primary == Some(n.text@), _ => managed_event_of(v).unwrap().price_black_card.primary is None },
        match get(v, "currency"@) { Some(Json::Text(t)) => managed_event_of(v).unwrap().currency == t@, _ => true },
        match get(v, "status"@) { Some(Json::Text(t)) => managed_event_of(v).unwrap().status == t@, _ => managed_event_of(v).unwrap().status.len() == 0 },
        match get(v, "approval_status"@) { Some(Json::Text(t)) => managed_event_of(v).unwrap().approval_status == t@, _ => managed_event_of(v).unwrap().approval_status.len() == 0 },
        match get(v, "required_verification"@) { Some(Json::Bool(b)) => managed_event_of(v).unwrap().required_verification == b, _ => true },
        match get(v, "dress_code"@) { Some(Json::Text(t)) => managed_event_of(v).unwrap().dress_code == t@, _ => true },
        match get(v, "language"@) { Some(Json::Text(t)) => managed_event_of(v).unwrap().language == t@, _ => true },
        match get(v, "special_requirements"@) { Some(Json::Text(t)) => managed_event_of(v).unwrap().special_requirements == t@, _ => managed_event_of(v).unwrap().special_requirements.len() == 0 },
        match get(v, "registration_opens_at"@) { Some(Json::Text(t)) => managed_event_of(v).unwrap().registration_opens_at == t@, _ => managed_event_of(v).unwrap().registration_opens_at.len() == 0 },
        match get(v, "registration_closes_at"@) { Some(Json::Text(t)) => managed_event_of(v).unwrap().registration_closes_at == t@, _ => true },
        match get(v, "cancellation_deadline"@) { Some(Json::Text(t)) => managed_event_of(v).unwrap().cancellation_deadline == t@, _ => managed_event_of(v).unwrap().cancellation_deadline.len() == 0 },
        match get(v, "waitlist_enabled"@) { Some(Json::Bool(b)) => managed_event_of(v).unwrap().waitlist_enabled == b, _ => true },
        match get(v, "auto_approval"@) { Some(Json::Bool(b)) => managed_event_of(v).unwrap().auto_approval == b, _ => true },
        match get(v, "meta_title"@) { Some(Json::Text(t)) => managed_event_of(v).unwrap().meta_title == t@, _ => managed_event_of(v).unwrap().meta_title.len() == 0 },
        match get(v, "meta_description"@) { Some(Json::Text(t)) => managed_event_of(v).unwrap().meta_description == t@, _ => managed_event_of(v).unwrap().meta_description.len() == 0 },
        match get(v, "featured_image"@) { Some(Json::Text(t)) => managed_event_of(v).unwrap().featured_image == t@, _ => managed_event_of(v).unwrap().featured_image.len() == 0 },
        match get(v, "internal_notes"@) { Some(Json::Text(t)) => managed_event_of(v).unwrap().internal_notes == t@, _ => managed_event_of(v).unwrap().internal_notes.len() == 0 },
        match get(v, "profit_margin"@) { Some(Json::Text(t)) => managed_event_of(v).unwrap().profit_margin.primary == Some(t@), Some(Json::Number(n)) => managed_event_of(v).unwrap().profit_margin.primary == Some(n.text@), _ => managed_event_of(v).unwrap().profit_margin.primary is None },
        match get(v, "venue_name"@) { Some(Json::Text(t)) => managed_event_of(v).unwrap().venue_name == t@, _ => true },
        match get(v, "category_name"@) { Some(Json::Text(t)) => managed_event_of(v).unwrap().category_name == t@, _ => true },
        match get(v, "category_slug"@) { Some(Json::Text(t)) => managed_event_of(v).unwrap().category_slug == t@, _ => true },
{
}

/// Each field of `pagination_of` is read from its own key of the API row: `page` from `"page"`,
/// `limit` from `"limit"`, `total` from `"total"`, `total_pages` from `"totalPages"`.
pub proof fn lemma_pagination_of_reads_keys(v: Option<Json>)
    ensures
        match v { Some(p) => match get(p, "page"@) { Some(Json::Number(n)) => (n.as_u64 is Some && n.as_u64.unwrap() <= u32::MAX) ==> pagination_of(v).page == n.as_u64.unwrap(), _ => true }, _ => true },
        match v { Some(p) => match get(p, "limit"@) { Some(Json::Number(n)) => (n.as_u64 is Some && n.as_u64.unwrap() <= u32::MAX) ==> pagination_of(v).limit == n.as_u64.unwrap(), _ => true }, _ => true },
        match v { Some(p) => match get(p, "total"@) { Some(Json::Number(n)) => (n.as_u64 is Some && n.as_u64.unwrap() <= u32::MAX) ==> pagination_of(v).total == n.as_u64.unwrap(), _ => true }, _ => true },
        match v { Some(p) => match get(p, "totalPages"@) { Some(Json::Number(n)) => (n.as_u64 is Some && n.as_u64.unwrap() <= u32::MAX) ==> pagination_of(v).total_pages == n.as_u64.unwrap(), _ => true }, _ => true },
{
}

} // verus!
