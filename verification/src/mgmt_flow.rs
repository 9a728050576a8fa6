//! The event-management page's decisions: what each click, and each answer
//! to a request the page made, does to the page's state, and which request
//! it starts next. The requests themselves are made by the caller.
use vstd::prelude::*;
use crate::adminanalytics::opt_record;
use crate::json::opt_view;
use crate::eventmgmt::{
    approve_action_key, blank_form, copy_filters, copy_form, empty_form, form_error,
    form_from_event, form_of_event, local_cut_ok, publish_action_key, validate_event_form,
    EventCategory, EventCategoryView, EventFormData, EventFormDataView, EventMgmtFilters,
    EventMgmtFiltersView, EventMgmtModal, EventVenue, EventVenueView, EventsPage,
    EventsPagination, ManagedEvent, ManagedEventView, APPROVE_ACTION, CREATE_ACTION,
    DELETE_ACTION, EDIT_ACTION, PAGE_LIMIT, PUBLISH_ACTION,
};
use crate::text::{decimal, u64_to_decimal};

verus! {

/// Everything the management page holds between two steps.
pub struct MgmtState {
    pub modal: EventMgmtModal,
    pub selected: Option<ManagedEvent>,
    pub form: EventFormData,
    pub action_loading: Option<String>,
    pub error: Option<String>,
    pub filters: EventMgmtFilters,
    pub loading: bool,
    pub events: Vec<ManagedEvent>,
    pub pagination: EventsPagination,
    pub categories: Vec<EventCategory>,
    pub venues: Vec<EventVenue>,
    /// The number of the latest listing request; older answers are dropped.
    pub fetch_gen: u32,
}

pub struct MgmtStateView {
    pub modal: EventMgmtModal,
    pub selected: Option<ManagedEventView>,
    pub form: EventFormDataView,
    pub action_loading: Option<Seq<char>>,
    pub error: Option<Seq<char>>,
    pub filters: EventMgmtFiltersView,
    pub loading: bool,
    pub events: Seq<ManagedEventView>,
    pub pagination: EventsPagination,
    pub categories: Seq<EventCategoryView>,
    pub venues: Seq<EventVenueView>,
    pub fetch_gen: u32,
}

impl View for MgmtState {
    type V = MgmtStateView;

    open spec fn view(&self) -> MgmtStateView {
        MgmtStateView {
            modal: self.modal,
            selected: opt_record(self.selected),
            form: self.form@,
            action_loading: opt_view(self.action_loading),
            error: opt_view(self.error),
            filters: self.filters@,
            loading: self.loading,
            events: self.events@.map_values(|e: ManagedEvent| e@),
            pagination: self.pagination,
            categories: self.categories@.map_values(|c: EventCategory| c@),
            venues: self.venues@.map_values(|v: EventVenue| v@),
            fetch_gen: self.fetch_gen,
        }
    }
}

/// The filter a drop-down or the search box sets.
#[derive(Clone, Copy, Debug, PartialEq, Eq)]
pub enum FilterField {
    Search,
    Status,
    Category,
    Venue,
}

/// The kind of request whose answer came back. A status change carries
/// the filters the page showed when it was clicked: the listing is loaded
/// again with those.
#[derive(Clone, Debug, PartialEq, Eq)]
pub enum MgmtJob {
    Save,
    Delete,
    StatusChange(EventMgmtFilters),
}

/// What happens on the page: a click, an edit, or the answer to a request.
pub enum MgmtInput {
    OpenCreate,
    OpenEdit(ManagedEvent),
    OpenDelete(ManagedEvent),
    CloseForm,
    CloseDelete,
    EditForm(EventFormData),
    Save,
    ConfirmDelete,
    Publish(String),
    Approve(String),
    Reject(String),
    Filter(FilterField, String),
    Page(u32),
    Finished(MgmtJob, Result<(), String>),
    EventsLoaded(u32, Result<EventsPage, String>),
    CategoriesLoaded(Result<Vec<EventCategory>, String>),
    VenuesLoaded(Result<Vec<EventVenue>, String>),
}

/// The request a step starts, if any.
pub enum MgmtEffect {
    Nothing,
    /// Load the listing with the given number and filters, and the
    /// categories and venues with it.
    Load(u32, EventMgmtFilters),
    /// Load the listing again with the given number and filters.
    Refetch(u32, EventMgmtFilters),
    Create(EventFormData),
    Update(String, EventFormData),
    Delete(String),
    /// Publish the event; the filters go back with the answer.
    Publish(String, EventMgmtFilters),
    /// Approve (`true`) or reject (`false`) the event; the filters go back
    /// with the answer.
    Decide(String, bool, EventMgmtFilters),
}

pub enum MgmtEffectView {
    Nothing,
    Load(u32, EventMgmtFiltersView),
    Refetch(u32, EventMgmtFiltersView),
    Create(EventFormDataView),
    Update(Seq<char>, EventFormDataView),
    Delete(Seq<char>),
    Publish(Seq<char>, EventMgmtFiltersView),
    Decide(Seq<char>, bool, EventMgmtFiltersView),
}

impl View for MgmtEffect {
    type V = MgmtEffectView;

    open spec fn view(&self) -> MgmtEffectView {
        match self {
            MgmtEffect::Nothing => MgmtEffectView::Nothing,
            MgmtEffect::Load(g, f) => MgmtEffectView::Load(*g, f@),
            MgmtEffect::Refetch(g, f) => MgmtEffectView::Refetch(*g, f@),
            MgmtEffect::Create(d) => MgmtEffectView::Create(d@),
            MgmtEffect::Update(id, d) => MgmtEffectView::Update(id@, d@),
            MgmtEffect::Delete(id) => MgmtEffectView::Delete(id@),
            MgmtEffect::Publish(id, f) => MgmtEffectView::Publish(id@, f@),
            MgmtEffect::Decide(id, b, f) => MgmtEffectView::Decide(id@, *b, f@),
        }
    }
}

/// The number after `g`, wrapping round at the top.
pub open spec fn next_gen(g: u32) -> u32 {
    if g == u32::MAX {
        0
    } else {
        (g + 1) as u32
    }
}

/// The page as it opens: no dialog, an empty form, the first page of the
/// listing loading.
pub open spec fn mgmt_opening() -> MgmtStateView {
    MgmtStateView {
        modal: EventMgmtModal::Closed,
        selected: None,
        form: blank_form(),
        action_loading: None,
        error: None,
        filters: EventMgmtFiltersView {
            page: 1,
            limit: PAGE_LIMIT,
            search: Seq::empty(),
            status: Seq::empty(),
            category: Seq::empty(),
            venue: Seq::empty(),
        },
        loading: true,
        events: Seq::empty(),
        pagination: EventsPagination { page: 1, limit: PAGE_LIMIT, total: 0, total_pages: 0 },
        categories: Seq::empty(),
        venues: Seq::empty(),
        fetch_gen: 1,
    }
}

/// Starts a listing request: a new number, loading, the error cleared.
pub open spec fn start_listing(s: MgmtStateView) -> MgmtStateView {
    MgmtStateView { fetch_gen: next_gen(s.fetch_gen), loading: true, error: None, ..s }
}

/// The filters with one field set and the page back to the first.
pub open spec fn filters_with(f: EventMgmtFiltersView, field: FilterField, v: Seq<char>) -> EventMgmtFiltersView {
    match field {
        FilterField::Search => EventMgmtFiltersView { search: v, page: 1, ..f },
        FilterField::Status => EventMgmtFiltersView { status: v, page: 1, ..f },
        FilterField::Category => EventMgmtFiltersView { category: v, page: 1, ..f },
        FilterField::Venue => EventMgmtFiltersView { venue: v, page: 1, ..f },
    }
}

/// Whether the action with the given key is in flight.
pub open spec fn busy_with(s: MgmtStateView, key: Seq<char>) -> bool {
    s.action_loading == Some(key)
}

/// The new filters take effect: the listing, categories and venues load again.
pub open spec fn reload_with(s: MgmtStateView, f: EventMgmtFiltersView) -> (MgmtStateView, MgmtEffectView) {
    let t = start_listing(MgmtStateView { filters: f, ..s });
    (t, MgmtEffectView::Load(t.fetch_gen, f))
}

/// Starts a status action under `key` unless one with that key is in flight.
pub open spec fn status_action(s: MgmtStateView, key: Seq<char>, e: MgmtEffectView) -> (MgmtStateView, MgmtEffectView) {
    if busy_with(s, key) {
        (s, MgmtEffectView::Nothing)
    } else {
        (MgmtStateView { action_loading: Some(key), ..s }, e)
    }
}

/// The key a save runs under: editing when an event is selected, creating
/// otherwise.
pub open spec fn save_key(s: MgmtStateView) -> Seq<char> {
    if s.selected is Some {
        EDIT_ACTION@
    } else {
        CREATE_ACTION@
    }
}

/// The events a listing answer holds, by view.
pub open spec fn page_events(p: EventsPage) -> Seq<ManagedEventView> {
    p.events@.map_values(|e: ManagedEvent| e@)
}

/// What one step does to the page, and the request it starts.
pub open spec fn mgmt_transition(s: MgmtStateView, input: MgmtInput) -> (MgmtStateView, MgmtEffectView) {
    match input {
        MgmtInput::OpenCreate => (
            MgmtStateView { selected: None, form: blank_form(), modal: EventMgmtModal::Form, ..s },
            MgmtEffectView::Nothing,
        ),
        MgmtInput::OpenEdit(e) => (
            MgmtStateView {
                selected: Some(e@),
                form: form_of_event(e@),
                modal: EventMgmtModal::Form,
                ..s
            },
            MgmtEffectView::Nothing,
        ),
        MgmtInput::OpenDelete(e) => (
            MgmtStateView { selected: Some(e@), modal: EventMgmtModal::Delete, ..s },
            MgmtEffectView::Nothing,
        ),
        MgmtInput::CloseForm => (
            MgmtStateView { modal: EventMgmtModal::Closed, selected: None, form: blank_form(), ..s },
            MgmtEffectView::Nothing,
        ),
        MgmtInput::CloseDelete => (
            MgmtStateView { modal: EventMgmtModal::Closed, selected: None, ..s },
            MgmtEffectView::Nothing,
        ),
        MgmtInput::EditForm(d) => (MgmtStateView { form: d@, ..s }, MgmtEffectView::Nothing),
        MgmtInput::Save => match form_error(s.form) {
            Some(m) => (MgmtStateView { error: Some(m), ..s }, MgmtEffectView::Nothing),
            None => status_action(
                s,
                save_key(s),
                match s.selected {
                    Some(e) => MgmtEffectView::Update(e.id, s.form),
                    None => MgmtEffectView::Create(s.form),
                },
            ),
        },
        MgmtInput::ConfirmDelete => match s.selected {
            Some(e) => status_action(s, DELETE_ACTION@, MgmtEffectView::Delete(e.id)),
            None => (s, MgmtEffectView::Nothing),
        },
        MgmtInput::Publish(id) => status_action(
            s,
            PUBLISH_ACTION@ + "-"@ + id@,
            MgmtEffectView::Publish(id@, s.filters),
        ),
        MgmtInput::Approve(id) => status_action(
            s,
            APPROVE_ACTION@ + "-"@ + id@,
            MgmtEffectView::Decide(id@, true, s.filters),
        ),
        MgmtInput::Reject(id) => status_action(
            s,
            APPROVE_ACTION@ + "-"@ + id@,
            MgmtEffectView::Decide(id@, false, s.filters),
        ),
        MgmtInput::Filter(field, v) => reload_with(s, filters_with(s.filters, field, v@)),
        MgmtInput::Page(p) => if s.loading || !(0 < p <= s.pagination.total_pages) {
            (s, MgmtEffectView::Nothing)
        } else {
            reload_with(s, EventMgmtFiltersView { page: p, ..s.filters })
        },
        MgmtInput::Finished(job, res) => {
            let idle = MgmtStateView { action_loading: None, ..s };
            match res {
                Err(m) => (MgmtStateView { error: Some(m@), ..idle }, MgmtEffectView::Nothing),
                Ok(_) => {
                    let closed = match job {
                        MgmtJob::Save => MgmtStateView {
                            modal: EventMgmtModal::Closed,
                            selected: None,
                            form: blank_form(),
                            ..idle
                        },
                        MgmtJob::Delete => MgmtStateView {
                            modal: EventMgmtModal::Closed,
                            selected: None,
                            ..idle
                        },
                        MgmtJob::StatusChange(_) => idle,
                    };
                    let t = start_listing(closed);
                    let f = match job {
                        MgmtJob::StatusChange(clicked) => clicked@,
                        _ => t.filters,
                    };
                    (t, MgmtEffectView::Refetch(t.fetch_gen, f))
                },
            }
        },
        MgmtInput::EventsLoaded(g, res) => if g != s.fetch_gen {
            (s, MgmtEffectView::Nothing)
        } else {
            match res {
                Ok(p) => (
                    MgmtStateView {
                        events: page_events(p),
                        pagination: p.pagination,
                        loading: false,
                        ..s
                    },
                    MgmtEffectView::Nothing,
                ),
                Err(m) => (
                    MgmtStateView { error: Some(m@), loading: false, ..s },
                    MgmtEffectView::Nothing,
                ),
            }
        },
        MgmtInput::CategoriesLoaded(res) => match res {
            Ok(c) => (
                MgmtStateView { categories: c@.map_values(|x: EventCategory| x@), ..s },
                MgmtEffectView::Nothing,
            ),
            Err(m) => if s.error is None {
                (MgmtStateView { error: Some(m@), ..s }, MgmtEffectView::Nothing)
            } else {
                (s, MgmtEffectView::Nothing)
            },
        },
        MgmtInput::VenuesLoaded(res) => match res {
            Ok(v) => (
                MgmtStateView { venues: v@.map_values(|x: EventVenue| x@), ..s },
                MgmtEffectView::Nothing,
            ),
            Err(m) => if s.error is None {
                (MgmtStateView { error: Some(m@), ..s }, MgmtEffectView::Nothing)
            } else {
                (s, MgmtEffectView::Nothing)
            },
        },
    }
}

/// An event's timestamps can all be cut for the form's date inputs.
pub open spec fn editable(e: ManagedEvent) -> bool {
    &&& local_cut_ok(e.start_datetime@)
    &&& local_cut_ok(e.end_datetime@)
    &&& local_cut_ok(e.registration_opens_at@)
    &&& local_cut_ok(e.registration_closes_at@)
    &&& local_cut_ok(e.cancellation_deadline@)
}

/// The page as it opens, and the request that loads it.
pub fn mgmt_start() -> (r: (MgmtState, MgmtEffect))
    ensures
        r.0@ == mgmt_opening(),
        r.1@ == MgmtEffectView::Load(1, mgmt_opening().filters),
{
    let filters = EventMgmtFilters::list_default();
    let effect_filters = copy_filters(&filters);
    let s = MgmtState {
        modal: EventMgmtModal::Closed,
        selected: None,
        form: empty_form(),
        action_loading: None,
        error: None,
        filters,
        loading: true,
        events: Vec::new(),
        pagination: EventsPagination { page: 1, limit: PAGE_LIMIT, total: 0, total_pages: 0 },
        categories: Vec::new(),
        venues: Vec::new(),
        fetch_gen: 1,
    };
    assert(s@ =~= mgmt_opening()) by {
        assert(s@.events =~= Seq::<ManagedEventView>::empty());
        assert(s@.categories =~= Seq::<EventCategoryView>::empty());
        assert(s@.venues =~= Seq::<EventVenueView>::empty());
    }
    (s, MgmtEffect::Load(1, effect_filters))
}

fn in_flight(a: &Option<String>, key: &String) -> (b: bool)
    ensures
        b == (opt_view(*a) == Some(key@)),
{
    match a {
        Some(x) => crate::text::str_eq(x.as_str(), key.as_str()),
        None => false,
    }
}

fn begin_listing(s: &mut MgmtState)
    ensures
        final(s)@ == start_listing(old(s)@),
{
    s.fetch_gen = if s.fetch_gen == u32::MAX {
        0
    } else {
        s.fetch_gen + 1
    };
    s.loading = true;
    s.error = None;
}

fn begin_action(s: MgmtState, key: String, effect: MgmtEffect) -> (r: (MgmtState, MgmtEffect))
    ensures
        r.0@ == status_action(s@, key@, effect@).0,
        r.1@ == status_action(s@, key@, effect@).1,
{
    if in_flight(&s.action_loading, &key) {
        (s, MgmtEffect::Nothing)
    } else {
        let mut s = s;
        s.action_loading = Some(key);
        (s, effect)
    }
}

fn reload(s: MgmtState) -> (r: (MgmtState, MgmtEffect))
    ensures
        r.0@ == reload_with(s@, s@.filters).0,
        r.1@ == reload_with(s@, s@.filters).1,
{
    let mut s = s;
    begin_listing(&mut s);
    let f = copy_filters(&s.filters);
    let g = s.fetch_gen;
    (s, MgmtEffect::Load(g, f))
}

/// One step of the page: the state after `input` and the request to make.
pub fn mgmt_step(state: MgmtState, input: MgmtInput) -> (r: (MgmtState, MgmtEffect))
    requires
        input matches MgmtInput::OpenEdit(e) ==> editable(e),
    ensures
        r.0@ == mgmt_transition(state@, input).0,
        r.1@ == mgmt_transition(state@, input).1,
{
    let mut s = state;
    match input {
        MgmtInput::OpenCreate => {
            s.selected = None;
            s.form = empty_form();
            s.modal = EventMgmtModal::Form;
            (s, MgmtEffect::Nothing)
        },
        MgmtInput::OpenEdit(e) => {
            s.form = form_from_event(&e);
            s.selected = Some(e);
            s.modal = EventMgmtModal::Form;
            (s, MgmtEffect::Nothing)
        },
        MgmtInput::OpenDelete(e) => {
            s.selected = Some(e);
            s.modal = EventMgmtModal::Delete;
            (s, MgmtEffect::Nothing)
        },
        MgmtInput::CloseForm => {
            s.modal = EventMgmtModal::Closed;
            s.selected = None;
            s.form = empty_form();
            (s, MgmtEffect::Nothing)
        },
        MgmtInput::CloseDelete => {
            s.modal = EventMgmtModal::Closed;
            s.selected = None;
            (s, MgmtEffect::Nothing)
        },
        MgmtInput::EditForm(d) => {
            s.form = d;
            (s, MgmtEffect::Nothing)
        },
        MgmtInput::Save => {
            match validate_event_form(&s.form) {
                Err(m) => {
                    s.error = Some(m);
                    (s, MgmtEffect::Nothing)
                },
                Ok(()) => {
                    let data = copy_form(&s.form);
                    match &s.selected {
                        Some(e) => {
                            let id = e.id.clone();
                            begin_action(s, String::from_str(EDIT_ACTION), MgmtEffect::Update(id, data))
                        },
                        None => begin_action(s, String::from_str(CREATE_ACTION), MgmtEffect::Create(data)),
                    }
                },
            }
        },
        MgmtInput::ConfirmDelete => {
            match &s.selected {
                Some(e) => {
                    let id = e.id.clone();
                    begin_action(s, String::from_str(DELETE_ACTION), MgmtEffect::Delete(id))
                },
                None => (s, MgmtEffect::Nothing),
            }
        },
        MgmtInput::Publish(id) => {
            let key = publish_action_key(id.as_str());
            let f = copy_filters(&s.filters);
            begin_action(s, key, MgmtEffect::Publish(id, f))
        },
        MgmtInput::Approve(id) => {
            let key = approve_action_key(id.as_str());
            let f = copy_filters(&s.filters);
            begin_action(s, key, MgmtEffect::Decide(id, true, f))
        },
        MgmtInput::Reject(id) => {
            let key = approve_action_key(id.as_str());
            let f = copy_filters(&s.filters);
            begin_action(s, key, MgmtEffect::Decide(id, false, f))
        },
        MgmtInput::Filter(field, v) => {
            match field {
                FilterField::Search => s.filters.search = v,
                FilterField::Status => s.filters.status = v,
                FilterField::Category => s.filters.category = v,
                FilterField::Venue => s.filters.venue = v,
            }
            s.filters.page = crate::eventmgmt::page_after_filter_change(s.filters.page);
            reload(s)
        },
        MgmtInput::Page(p) => {
            if s.loading || !crate::eventmgmt::page_in_range(p, s.pagination.total_pages) {
                (s, MgmtEffect::Nothing)
            } else {
                s.filters.page = p;
                reload(s)
            }
        },
        MgmtInput::Finished(job, res) => {
            s.action_loading = None;
            match res {
                Err(m) => {
                    s.error = Some(m);
                    (s, MgmtEffect::Nothing)
                },
                Ok(()) => {
                    let clicked = match job {
                        MgmtJob::Save => {
                            s.modal = EventMgmtModal::Closed;
                            s.selected = None;
                            s.form = empty_form();
                            None
                        },
                        MgmtJob::Delete => {
                            s.modal = EventMgmtModal::Closed;
                            s.selected = None;
                            None
                        },
                        MgmtJob::StatusChange(f) => Some(f),
                    };
                    begin_listing(&mut s);
                    let f = match clicked {
                        Some(f) => f,
                        None => copy_filters(&s.filters),
                    };
                    let g = s.fetch_gen;
                    (s, MgmtEffect::Refetch(g, f))
                },
            }
        },
        MgmtInput::EventsLoaded(g, res) => {
            if g != s.fetch_gen {
                (s, MgmtEffect::Nothing)
            } else {
                match res {
                    Ok(p) => {
                        s.events = p.events;
                        s.pagination = p.pagination;
                        s.loading = false;
                        (s, MgmtEffect::Nothing)
                    },
                    Err(m) => {
                        s.error = Some(m);
                        s.loading = false;
                        (s, MgmtEffect::Nothing)
                    },
                }
            }
        },
        MgmtInput::CategoriesLoaded(res) => {
            match res {
                Ok(c) => {
                    s.categories = c;
                },
                Err(m) => {
                    if s.error.is_none() {
                        s.error = Some(m);
                    }
                },
            }
            (s, MgmtEffect::Nothing)
        },
        MgmtInput::VenuesLoaded(res) => {
            match res {
                Ok(v) => {
                    s.venues = v;
                },
                Err(m) => {
                    if s.error.is_none() {
                        s.error = Some(m);
                    }
                },
            }
            (s, MgmtEffect::Nothing)
        },
    }
}

pub const EDIT_FORM_TITLE: &'static str = "Edit Event";
pub const CREATE_FORM_TITLE: &'static str = "Create New Event";
pub const SAVING_LABEL: &'static str = "Saving...";
pub const UPDATE_LABEL: &'static str = "Update Event";
pub const CREATE_LABEL: &'static str = "Create Event";

/// What the management screen shows that it reads off the page's state.
pub struct MgmtScreen {
    /// The page links show when there is more than one page.
    pub show_pagination: bool,
    /// The "no events" notice: loaded, and nothing to list.
    pub empty: bool,
    pub page_copy: String,
    pub prev_disabled: bool,
    pub next_disabled: bool,
    /// A create or an edit is in flight.
    pub save_busy: bool,
    pub delete_busy: bool,
    /// The form dialog is open on a selected event.
    pub editing: bool,
    pub form_title: &'static str,
    pub save_label: &'static str,
}

/// "Page p of n".
pub open spec fn page_copy_text(p: EventsPagination) -> Seq<char> {
    "Page "@ + decimal(p.page as nat) + " of "@ + decimal(p.total_pages as nat)
}

pub open spec fn editing_of(s: MgmtStateView) -> bool {
    s.selected is Some && s.modal == EventMgmtModal::Form
}

pub open spec fn save_busy_of(s: MgmtStateView) -> bool {
    busy_with(s, CREATE_ACTION@) || busy_with(s, EDIT_ACTION@)
}

/// The save button's text: saving while a save is in flight, else update
/// or create.
pub open spec fn save_label_text(busy: bool, editing: bool) -> Seq<char> {
    if busy {
        SAVING_LABEL@
    } else if editing {
        UPDATE_LABEL@
    } else {
        CREATE_LABEL@
    }
}

/// Reads the screen's flags and texts off the page's state.
pub fn mgmt_screen(s: &MgmtState) -> (v: MgmtScreen)
    ensures
        v.show_pagination == (s.pagination.total_pages > 1),
        v.empty == (!s.loading && s.events@.len() == 0),
        v.page_copy@ == page_copy_text(s.pagination),
        v.prev_disabled == (s.pagination.page <= 1),
        v.next_disabled == (s.pagination.page >= s.pagination.total_pages),
        v.save_busy == save_busy_of(s@),
        v.delete_busy == busy_with(s@, DELETE_ACTION@),
        v.editing == editing_of(s@),
        v.form_title@ == (if editing_of(s@) { EDIT_FORM_TITLE@ } else { CREATE_FORM_TITLE@ }),
        v.save_label@ == save_label_text(save_busy_of(s@), editing_of(s@)),
{
    let mut page_copy = String::from_str("Page ");
    let page = u64_to_decimal(s.pagination.page as u64);
    page_copy.append(page.as_str());
    page_copy.append(" of ");
    let total = u64_to_decimal(s.pagination.total_pages as u64);
    page_copy.append(total.as_str());
    let save_busy = in_flight(&s.action_loading, &String::from_str(CREATE_ACTION))
        || in_flight(&s.action_loading, &String::from_str(EDIT_ACTION));
    let delete_busy = in_flight(&s.action_loading, &String::from_str(DELETE_ACTION));
    let form_open = match s.modal {
        EventMgmtModal::Form => true,
        _ => false,
    };
    let editing = s.selected.is_some() && form_open;
    let form_title = if editing {
        EDIT_FORM_TITLE
    } else {
        CREATE_FORM_TITLE
    };
    let save_label = if save_busy {
        SAVING_LABEL
    } else if editing {
        UPDATE_LABEL
    } else {
        CREATE_LABEL
    };
    MgmtScreen {
        show_pagination: s.pagination.total_pages > 1,
        empty: !s.loading && s.events.len() == 0,
        page_copy,
        prev_disabled: s.pagination.page <= 1,
        next_disabled: s.pagination.page >= s.pagination.total_pages,
        save_busy,
        delete_busy,
        editing,
        form_title,
        save_label,
    }
}

/// Whether a step's request changes an event (save, delete, publish or a
/// decision).
pub open spec fn changes_event(e: MgmtEffectView) -> bool {
    ||| e is Create
    ||| e is Update
    ||| e is Delete
    ||| e is Publish
    ||| e is Decide
}

/// No action runs twice at once: a click that starts a change marks its key
/// as in flight, and the same click again, before the answer, starts
/// nothing and changes nothing.
pub proof fn lemma_no_second_request(s: MgmtStateView, input: MgmtInput)
    ensures
        changes_event(mgmt_transition(s, input).1) ==> {
            let t = mgmt_transition(s, input).0;
            &&& t.action_loading is Some
            &&& t.action_loading != s.action_loading
            &&& mgmt_transition(t, input) == (t, MgmtEffectView::Nothing)
        },
{
}

/// A form that breaks a rule is never sent: saving it shows the first rule
/// it breaks and starts nothing.
pub proof fn lemma_invalid_form_not_sent(s: MgmtStateView)
    requires
        form_error(s.form) is Some,
    ensures
        mgmt_transition(s, MgmtInput::Save) == (
            MgmtStateView { error: form_error(s.form), ..s },
            MgmtEffectView::Nothing,
        ),
{
}

/// An answer to a listing request that is no longer the latest changes
/// nothing.
pub proof fn lemma_stale_listing_ignored(s: MgmtStateView, g: u32, res: Result<EventsPage, String>)
    requires
        g != s.fetch_gen,
    ensures
        mgmt_transition(s, MgmtInput::EventsLoaded(g, res)) == (s, MgmtEffectView::Nothing),
{
}

/// Every listing request a step starts carries a new number, so the answer
/// to any earlier request is then ignored. A reload of the whole page asks
/// with the filters the page now shows; the reload after a status change
/// asks with the filters shown when the change was clicked.
pub proof fn lemma_new_listing_supersedes(s: MgmtStateView, input: MgmtInput)
    ensures
        match mgmt_transition(s, input).1 {
            MgmtEffectView::Load(g, f) => g == next_gen(s.fetch_gen) && g != s.fetch_gen
                && f == mgmt_transition(s, input).0.filters && mgmt_transition(s, input).0.fetch_gen == g,
            MgmtEffectView::Refetch(g, f) => g == next_gen(s.fetch_gen) && g != s.fetch_gen
                && mgmt_transition(s, input).0.fetch_gen == g && (match input {
                    MgmtInput::Finished(MgmtJob::StatusChange(clicked), _) => f == clicked@,
                    _ => f == mgmt_transition(s, input).0.filters,
                }),
            _ => true,
        },
{
}

} // verus!
