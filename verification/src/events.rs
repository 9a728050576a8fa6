//! The public event listing: its filters and query string, paging, and how
//! an event's exclusivity level and images are shown.
use vstd::prelude::*;
use crate::text::{decimal, str_eq, u64_to_decimal};
use crate::url::{push_param, with_param};
use crate::json::{
    amount_text, deref_opt, get, is_success, json_amount, json_get, json_id, json_id_spec, json_string,
    json_string_or_empty, json_text, json_u32, json_u32_spec, opt_view, or_text, parse_json, parsed_json,
    success_flag, view_or_empty, Json,
};
use crate::seqs::{filter_map_seq, lemma_filter_map_member, lemma_filter_map_step, lemma_full_prefix};
use crate::eventmgmt::texts;

verus! {

pub const EVENTS_API_PATH: &'static str = "/api/events";
pub const PAGE_LIMIT: u32 = 9;
pub const PLACEHOLDER_IMAGE: &'static str = "/api/placeholder/400/300";

/// One choice of a filter drop-down.
#[derive(Debug, Clone, Copy, PartialEq, Eq)]
pub struct FilterOption {
    pub id: &'static str,
    pub name: &'static str,
}

#[derive(Debug, Clone, PartialEq, Eq)]
pub struct EventFilters {
    pub page: u32,
    pub limit: u32,
    pub search: String,
    pub category: String,
    pub exclusivity_level: String,
}

#[derive(Debug, Clone, Copy, PartialEq, Eq)]
pub struct Pagination {
    pub page: u32,
    pub limit: u32,
    pub total: u32,
    pub total_pages: u32,
}

/// A filter value that narrows the listing: neither empty nor `all`.
pub open spec fn narrows(v: Seq<char>) -> bool {
    v != "all"@ && v.len() > 0
}

/// The listing's query: page and limit always, then the search text, the
/// category and the exclusivity level when they narrow the listing.
pub open spec fn listing_query(
    page: u32,
    limit: u32,
    search: Seq<char>,
    category: Seq<char>,
    level: Seq<char>,
) -> Seq<char> {
    let q = with_param(with_param(Seq::empty(), "page"@, decimal(page as nat)), "limit"@, decimal(limit as nat));
    let q = if search.len() > 0 {
        with_param(q, "search"@, search)
    } else {
        q
    };
    let q = if narrows(category) {
        with_param(q, "category"@, category)
    } else {
        q
    };
    if narrows(level) {
        with_param(q, "exclusivityLevel"@, level)
    } else {
        q
    }
}

pub fn events_query_string(filters: &EventFilters) -> (q: String)
    ensures
        q@ == listing_query(
            filters.page,
            filters.limit,
            filters.search@,
            filters.category@,
            filters.exclusivity_level@,
        ),
{
    let mut out = String::new();
    let page = u64_to_decimal(filters.page as u64);
    push_param(&mut out, "page", page.as_str());
    let limit = u64_to_decimal(filters.limit as u64);
    push_param(&mut out, "limit", limit.as_str());
    if filters.search.as_str().unicode_len() > 0 {
        push_param(&mut out, "search", filters.search.as_str());
    }
    if !str_eq(filters.category.as_str(), "all") && filters.category.as_str().unicode_len() > 0 {
        push_param(&mut out, "category", filters.category.as_str());
    }
    if !str_eq(filters.exclusivity_level.as_str(), "all")
        && filters.exclusivity_level.as_str().unicode_len() > 0 {
        push_param(&mut out, "exclusivityLevel", filters.exclusivity_level.as_str());
    }
    out
}

/// Changing a filter always goes back to the first page.
pub fn page_after_filter_change(_current_page: u32) -> (p: u32)
    ensures
        p == 1,
{
    1
}

/// A page number the pager may move to.
pub fn page_in_range(new_page: u32, total_pages: u32) -> (b: bool)
    ensures
        b == (1 <= new_page <= total_pages),
{
    new_page >= 1 && new_page <= total_pages
}

/// The paging shown when the listing could not be loaded: the requested
/// page and limit, nothing found, one page.
pub fn collapse_on_error(requested_page: u32, limit: u32) -> (p: Pagination)
    ensures
        p == (Pagination { page: requested_page, limit, total: 0, total_pages: 1 }),
{
    Pagination { page: requested_page, limit, total: 0, total_pages: 1 }
}

/// The badge colours of an exclusivity level.
pub open spec fn exclusivity_color_text(level: Option<Seq<char>>) -> Seq<char> {
    match level {
        Some(l) => if l == "VIP"@ {
            "bg-blue-500/20 text-blue-400 border-blue-500/30"@
        } else if l == "VVIP"@ {
            "bg-luxury-gold/20 text-luxury-gold border-luxury-gold/30"@
        } else if l == "僅限邀請"@ {
            "bg-purple-500/20 text-purple-400 border-purple-500/30"@
        } else {
            "bg-gray-500/20 text-gray-400 border-gray-500/30"@
        },
        None => "bg-gray-500/20 text-gray-400 border-gray-500/30"@,
    }
}

/// The characters of an optional string slice.
pub open spec fn opt_str_view(s: Option<&str>) -> Option<Seq<char>> {
    match s {
        Some(x) => Some(x@),
        None => None,
    }
}

pub fn exclusivity_color(level: Option<&str>) -> (s: &'static str)
    ensures
        s@ == exclusivity_color_text(opt_str_view(level)),
{
    match level {
        Some(l) => {
            if str_eq(l, "VIP") {
                "bg-blue-500/20 text-blue-400 border-blue-500/30"
            } else if str_eq(l, "VVIP") {
                "bg-luxury-gold/20 text-luxury-gold border-luxury-gold/30"
            } else if str_eq(l, "僅限邀請") {
                "bg-purple-500/20 text-purple-400 border-purple-500/30"
            } else {
                "bg-gray-500/20 text-gray-400 border-gray-500/30"
            }
        },
        None => "bg-gray-500/20 text-gray-400 border-gray-500/30",
    }
}

/// The level as shown; nothing when there is none.
pub fn exclusivity_label(level: Option<&str>) -> (s: String)
    ensures
        s@ == (match level {
            Some(l) => l@,
            None => Seq::<char>::empty(),
        }),
{
    match level {
        Some(l) => String::from_str(l),
        None => String::new(),
    }
}

/// The number of stars of a level: two for VIP, three for VVIP and for
/// invitation-only events, none otherwise.
pub open spec fn star_count_of(level: Option<Seq<char>>) -> u32 {
    match level {
        Some(l) => if l == "VIP"@ {
            2
        } else if l == "VVIP"@ || l == "Invitation Only"@ {
            3
        } else {
            0
        },
        None => 0,
    }
}

pub fn star_count(level: Option<&str>) -> (n: u32)
    ensures
        n == star_count_of(opt_str_view(level)),
{
    match level {
        Some(l) => {
            if str_eq(l, "VIP") {
                2
            } else if str_eq(l, "VVIP") || str_eq(l, "Invitation Only") {
                3
            } else {
                0
            }
        },
        None => 0,
    }
}

/// Invitation-only events carry a diamond.
pub fn shows_diamond(level: Option<&str>) -> (b: bool)
    ensures
        b == (opt_str_view(level) == Some("Invitation Only"@)),
{
    match level {
        Some(l) => str_eq(l, "Invitation Only"),
        None => false,
    }
}

/// The picture of an event card: its first image when that is not empty,
/// the placeholder otherwise.
pub open spec fn first_image_text(images: Option<Seq<String>>) -> Seq<char> {
    match images {
        Some(list) => if list.len() > 0 && list[0]@.len() > 0 {
            list[0]@
        } else {
            PLACEHOLDER_IMAGE@
        },
        None => PLACEHOLDER_IMAGE@,
    }
}

pub fn first_image(images: Option<&[String]>) -> (s: String)
    ensures
        s@ == first_image_text(
            match images {
                Some(l) => Some(l@),
                None => None,
            },
        ),
{
    match images {
        Some(list) => {
            if list.len() > 0 && list[0].as_str().unicode_len() > 0 {
                list[0].clone()
            } else {
                String::from_str(PLACEHOLDER_IMAGE)
            }
        },
        None => String::from_str(PLACEHOLDER_IMAGE),
    }
}

/// Without a browser date formatter an event's date is shown as given.
pub fn format_event_datetime(iso: &str) -> (s: String)
    ensures
        s@ == iso@,
{
    String::from_str(iso)
}


/// Where an event is held. Its rating is the text the API sent (a number's
/// printed form, or a string); reading it as a number, zero where it is
/// not one, is left to the caller.
#[derive(Debug, Clone, PartialEq, Eq)]
pub struct Venue {
    pub name: String,
    pub address: String,
    pub rating: Option<String>,
}

pub struct VenueView {
    pub name: Seq<char>,
    pub address: Seq<char>,
    pub rating: Option<Seq<char>>,
}

impl View for Venue {
    type V = VenueView;

    open spec fn view(&self) -> VenueView {
        VenueView { name: self.name@, address: self.address@, rating: opt_view(self.rating) }
    }
}

/// An event's prices, each the text the API sent; reading them as numbers
/// (none where a text is not one) is left to the caller.
#[derive(Debug, Clone, PartialEq, Eq)]
pub struct Pricing {
    pub vvip: Option<String>,
    pub vip: Option<String>,
    pub currency: String,
}

pub struct PricingView {
    pub vvip: Option<Seq<char>>,
    pub vip: Option<Seq<char>>,
    pub currency: Seq<char>,
}

impl View for Pricing {
    type V = PricingView;

    open spec fn view(&self) -> PricingView {
        PricingView { vvip: opt_view(self.vvip), vip: opt_view(self.vip), currency: self.currency@ }
    }
}

/// An event of the public listing.
#[derive(Debug, Clone, PartialEq, Eq)]
pub struct Event {
    pub id: String,
    pub name: String,
    pub description: String,
    pub date_time: String,
    pub venue: Option<Venue>,
    pub exclusivity_level: Option<String>,
    pub pricing: Pricing,
    pub current_attendees: u32,
    pub capacity: u32,
    pub images: Option<Vec<String>>,
}

pub struct EventView {
    pub id: Seq<char>,
    pub name: Seq<char>,
    pub description: Seq<char>,
    pub date_time: Seq<char>,
    pub venue: Option<VenueView>,
    pub exclusivity_level: Option<Seq<char>>,
    pub pricing: PricingView,
    pub current_attendees: u32,
    pub capacity: u32,
    pub images: Option<Seq<Seq<char>>>,
}

impl View for Event {
    type V = EventView;

    open spec fn view(&self) -> EventView {
        EventView {
            id: self.id@,
            name: self.name@,
            description: self.description@,
            date_time: self.date_time@,
            venue: match self.venue {
                Some(v) => Some(v@),
                None => None,
            },
            exclusivity_level: opt_view(self.exclusivity_level),
            pricing: self.pricing@,
            current_attendees: self.current_attendees,
            capacity: self.capacity,
            images: match self.images {
                Some(l) => Some(texts(l@)),
                None => None,
            },
        }
    }
}

/// One page of the public listing.
#[derive(Debug, Clone, PartialEq, Eq)]
pub struct EventsView {
    pub events: Vec<Event>,
    pub pagination: Pagination,
}

pub struct EventsViewView {
    pub events: Seq<EventView>,
    pub pagination: Pagination,
}

impl View for EventsView {
    type V = EventsViewView;

    open spec fn view(&self) -> EventsViewView {
        EventsViewView { events: self.events@.map_values(|e: Event| e@), pagination: self.pagination }
    }
}

/// The venue of an event: none where it is missing or null; else its name
/// and address (empty where missing) and its rating's text.
pub open spec fn venue_of(v: Option<Json>) -> Option<VenueView> {
    match v {
        None => None,
        Some(Json::Null) => None,
        Some(x) => Some(
            VenueView {
                name: view_or_empty(json_text(get(x, "name"@))),
                address: view_or_empty(json_text(get(x, "address"@))),
                rating: amount_text(get(x, "rating"@)),
            },
        ),
    }
}

/// The prices of an event: the `vvip` and `vip` texts and the currency of
/// the `pricing` object; nothing and an empty currency without one.
pub open spec fn pricing_of(v: Option<Json>) -> PricingView {
    match v {
        Some(x) => PricingView {
            vvip: amount_text(get(x, "vvip"@)),
            vip: amount_text(get(x, "vip"@)),
            currency: view_or_empty(json_text(get(x, "currency"@))),
        },
        None => PricingView { vvip: None, vip: None, currency: Seq::empty() },
    }
}

/// The image list of an event: the string items of an array, in order;
/// none for anything but an array.
pub open spec fn images_of(v: Option<Json>) -> Option<Seq<Seq<char>>> {
    match v {
        Some(Json::Array(items)) => Some(filter_map_seq(items@, |item: Json| json_text(Some(item)))),
        _ => None,
    }
}

/// An event row of the listing: one with an id and a non-empty name.
pub open spec fn event_of(v: Json) -> Option<EventView> {
    match (json_id_spec(get(v, "id"@)), json_text(get(v, "name"@))) {
        (Some(id), Some(name)) => if name.len() > 0 {
            Some(
                EventView {
                    id,
                    name,
                    description: view_or_empty(json_text(get(v, "description"@))),
                    date_time: view_or_empty(
                        or_text(json_text(get(v, "dateTime"@)), json_text(get(v, "date_time"@))),
                    ),
                    venue: venue_of(get(v, "venue"@)),
                    exclusivity_level: json_text(get(v, "exclusivityLevel"@)),
                    pricing: pricing_of(get(v, "pricing"@)),
                    current_attendees: match json_u32_spec(get(v, "currentAttendees"@)) {
                        Some(n) => n,
                        None => 0,
                    },
                    capacity: match json_u32_spec(get(v, "capacity"@)) {
                        Some(n) => n,
                        None => 0,
                    },
                    images: images_of(get(v, "images"@)),
                },
            )
        } else {
            None
        },
        _ => None,
    }
}

fn parse_venue(v: Option<&Json>) -> (r: Option<Venue>)
    ensures
        match r {
            Some(x) => venue_of(deref_opt(v)) == Some(x@),
            None => venue_of(deref_opt(v)).is_none(),
        },
{
    match v {
        None => None,
        Some(Json::Null) => None,
        Some(x) => Some(
            Venue {
                name: json_string_or_empty(json_get(x, "name")),
                address: json_string_or_empty(json_get(x, "address")),
                rating: json_amount(json_get(x, "rating")),
            },
        ),
    }
}

fn parse_pricing(v: Option<&Json>) -> (r: Pricing)
    ensures
        r@ == pricing_of(deref_opt(v)),
{
    match v {
        Some(x) => Pricing {
            vvip: json_amount(json_get(x, "vvip")),
            vip: json_amount(json_get(x, "vip")),
            currency: json_string_or_empty(json_get(x, "currency")),
        },
        None => Pricing { vvip: None, vip: None, currency: String::new() },
    }
}

fn parse_images(v: Option<&Json>) -> (r: Option<Vec<String>>)
    ensures
        match r {
            Some(l) => images_of(deref_opt(v)) == Some(texts(l@)),
            None => images_of(deref_opt(v)).is_none(),
        },
{
    match v {
        Some(Json::Array(items)) => {
            let mut out: Vec<String> = Vec::new();
            let n = items.len();
            let mut i: usize = 0;
            while i < n
                invariant
                    n == items@.len(),
                    i <= n,
                    texts(out@) == filter_map_seq(
                        items@.subrange(0, i as int),
                        |item: Json| json_text(Some(item)),
                    ),
                decreases n - i,
            {
                proof {
                    lemma_filter_map_step(items@, i as int, |item: Json| json_text(Some(item)));
                }
                match &items[i] {
                    Json::Text(t) => {
                        let ghost before = texts(out@);
                        out.push(t.clone());
                        assert(texts(out@) =~= before.push(t@));
                    },
                    _ => {},
                }
                i = i + 1;
            }
            proof {
                lemma_full_prefix(items@);
            }
            Some(out)
        },
        _ => None,
    }
}

fn parse_event(v: &Json) -> (r: Option<Event>)
    ensures
        match r {
            Some(e) => event_of(*v) == Some(e@),
            None => event_of(*v).is_none(),
        },
{
    let id = match json_id(json_get(v, "id")) {
        Some(id) => id,
        None => return None,
    };
    let name = match json_string(json_get(v, "name")) {
        Some(n) => n,
        None => return None,
    };
    if name.as_str().unicode_len() == 0 {
        return None;
    }
    let date_time = match json_string(json_get(v, "dateTime")) {
        Some(d) => d,
        None => json_string_or_empty(json_get(v, "date_time")),
    };
    let current_attendees = match json_u32(json_get(v, "currentAttendees")) {
        Some(n) => n,
        None => 0,
    };
    let capacity = match json_u32(json_get(v, "capacity")) {
        Some(n) => n,
        None => 0,
    };
    let e = Event {
        id,
        name,
        description: json_string_or_empty(json_get(v, "description")),
        date_time,
        venue: parse_venue(json_get(v, "venue")),
        exclusivity_level: json_string(json_get(v, "exclusivityLevel")),
        pricing: parse_pricing(json_get(v, "pricing")),
        current_attendees,
        capacity,
        images: parse_images(json_get(v, "images")),
    };
    assert(e@ == event_of(*v).unwrap());
    Some(e)
}

/// The listing answer: the collapsed first view for an unparsable or
/// unsuccessful answer; else the event rows with an id and a name, in
/// order (none without a `data` array), and the pagination block read with
/// the requested page and size, no total and one page as defaults (the
/// collapsed pagination without a block).
pub open spec fn events_view_of(parsed: Option<Json>, requested_page: u32, limit: u32) -> EventsViewView {
    let collapsed = Pagination { page: requested_page, limit, total: 0, total_pages: 1 };
    match parsed {
        Some(v) => if is_success(v) {
            EventsViewView {
                events: match get(v, "data"@) {
                    Some(Json::Array(rows)) => filter_map_seq(rows@, |row: Json| event_of(row)),
                    _ => Seq::empty(),
                },
                pagination: match get(v, "pagination"@) {
                    Some(p) => Pagination {
                        page: match json_u32_spec(get(p, "page"@)) {
                            Some(n) => n,
                            None => requested_page,
                        },
                        limit: match json_u32_spec(get(p, "limit"@)) {
                            Some(n) => n,
                            None => limit,
                        },
                        total: match json_u32_spec(get(p, "total"@)) {
                            Some(n) => n,
                            None => 0,
                        },
                        total_pages: match json_u32_spec(get(p, "totalPages"@)) {
                            Some(n) => n,
                            None => 1,
                        },
                    },
                    None => collapsed,
                },
            }
        } else {
            EventsViewView { events: Seq::empty(), pagination: collapsed }
        },
        None => EventsViewView { events: Seq::empty(), pagination: collapsed },
    }
}

fn events_of_rows(rows: &Vec<Json>) -> (r: Vec<Event>)
    ensures
        r@.map_values(|e: Event| e@) == filter_map_seq(rows@, |row: Json| event_of(row)),
{
    let mut out: Vec<Event> = Vec::new();
    let n = rows.len();
    let mut i: usize = 0;
    while i < n
        invariant
            n == rows@.len(),
            i <= n,
            out@.map_values(|e: Event| e@) == filter_map_seq(
                rows@.subrange(0, i as int),
                |row: Json| event_of(row),
            ),
        decreases n - i,
    {
        proof {
            lemma_filter_map_step(rows@, i as int, |row: Json| event_of(row));
        }
        match parse_event(&rows[i]) {
            Some(e) => {
                let ghost before = out@.map_values(|e: Event| e@);
                out.push(e);
                assert(out@.map_values(|e: Event| e@) =~= before.push(e@));
            },
            None => {},
        }
        i = i + 1;
    }
    proof {
        lemma_full_prefix(rows@);
    }
    out
}

fn u32_else(a: Option<u32>, default: u32) -> (r: u32)
    ensures
        r == (match a {
            Some(n) => n,
            None => default,
        }),
{
    match a {
        Some(n) => n,
        None => default,
    }
}

/// Decodes a page of the public listing, given the answer's body as
/// parsed and the page and size that were asked for.
pub fn events_view_from_json(parsed: Option<Json>, requested_page: u32, limit: u32) -> (r: EventsView)
    ensures
        r@ == events_view_of(parsed, requested_page, limit),
{
    let collapsed = collapse_on_error(requested_page, limit);
    let v = match parsed {
        Some(v) => v,
        None => {
            let r = EventsView { events: Vec::new(), pagination: collapsed };
            assert(r@.events =~= Seq::<EventView>::empty());
            return r;
        },
    };
    if !success_flag(&v) {
        let r = EventsView { events: Vec::new(), pagination: collapsed };
        assert(r@.events =~= Seq::<EventView>::empty());
        return r;
    }
    let events = match json_get(&v, "data") {
        Some(Json::Array(rows)) => events_of_rows(rows),
        _ => {
            let out: Vec<Event> = Vec::new();
            assert(out@.map_values(|e: Event| e@) =~= Seq::<EventView>::empty());
            out
        },
    };
    let pagination = match json_get(&v, "pagination") {
        Some(p) => Pagination {
            page: u32_else(json_u32(json_get(p, "page")), requested_page),
            limit: u32_else(json_u32(json_get(p, "limit")), limit),
            total: u32_else(json_u32(json_get(p, "total")), 0),
            total_pages: u32_else(json_u32(json_get(p, "totalPages")), 1),
        },
        None => collapsed,
    };
    EventsView { events, pagination }
}

pub fn parse_events_response(body: &str, requested_page: u32, limit: u32) -> (r: EventsView)
    ensures
        r@ == events_view_of(parsed_json(body@), requested_page, limit),
{
    events_view_from_json(parse_json(body), requested_page, limit)
}

/// The view shown before or instead of a listing: no events, the
/// collapsed pagination of the filters' page and size.
pub fn empty_view(filters: &EventFilters) -> (r: EventsView)
    ensures
        r@.events.len() == 0,
        r.pagination == (Pagination { page: filters.page, limit: filters.limit, total: 0, total_pages: 1 }),
{
    EventsView { events: Vec::new(), pagination: collapse_on_error(filters.page, filters.limit) }
}


/// The address of the public listing for the filters.
pub fn events_url(filters: &EventFilters) -> (s: String)
    ensures
        s@ == EVENTS_API_PATH@ + "?"@ + listing_query(
            filters.page,
            filters.limit,
            filters.search@,
            filters.category@,
            filters.exclusivity_level@,
        ),
{
    let mut s = String::from_str(EVENTS_API_PATH);
    s.append("?");
    let q = events_query_string(filters);
    s.append(q.as_str());
    s
}

/// What the listing shows for the answer to its request: the answer's
/// events when it came with a success status, else the empty view (no
/// answer at all, or any other status).
pub fn events_view_from_answer(filters: &EventFilters, answer: Option<(u16, String)>) -> (r: EventsView)
    ensures
        match answer {
            Some((status, body)) => if 200 <= status < 300 {
                r@ == events_view_of(parsed_json(body@), filters.page, filters.limit)
            } else {
                r@.events.len() == 0 && r.pagination == (Pagination {
                    page: filters.page,
                    limit: filters.limit,
                    total: 0,
                    total_pages: 1,
                })
            },
            None => r@.events.len() == 0 && r.pagination == (Pagination {
                page: filters.page,
                limit: filters.limit,
                total: 0,
                total_pages: 1,
            }),
        },
{
    match answer {
        Some((status, body)) => {
            if 200 <= status && status < 300 {
                parse_events_response(body.as_str(), filters.page, filters.limit)
            } else {
                empty_view(filters)
            }
        },
        None => empty_view(filters),
    }
}

/// Every event a listing shows has a non-empty name.
pub proof fn lemma_listed_events_are_named(parsed: Option<Json>, requested_page: u32, limit: u32)
    ensures
        forall|i: int|
            0 <= i < events_view_of(parsed, requested_page, limit).events.len() ==> (#[trigger] events_view_of(
                parsed,
                requested_page,
                limit,
            ).events[i]).name.len() > 0,
{
    let events = events_view_of(parsed, requested_page, limit).events;
    assert forall|i: int| 0 <= i < events.len() implies (#[trigger] events[i]).name.len() > 0 by {
        match parsed {
            Some(v) => {
                match get(v, "data"@) {
                    Some(Json::Array(rows)) => {
                        if is_success(v) {
                            let f = |row: Json| event_of(row);
                            assert(filter_map_seq(rows@, f).contains(events[i]));
                            lemma_filter_map_member(rows@, f, events[i]);
                        }
                    },
                    _ => {},
                }
            },
            None => {},
        }
    }
}

/// A listing row becomes an event exactly when it has an id and a
/// non-empty string name; the event's id and name are those.
pub proof fn lemma_event_identity(v: Json)
    ensures
        event_of(v) is Some <==> (json_id_spec(get(v, "id"@)) is Some && (get(v, "name"@) matches Some(
            Json::Text(n),
        ) && n@.len() > 0)),
        event_of(v) is Some ==> match (get(v, "id"@), get(v, "name"@)) {
            (Some(Json::Text(i)), Some(Json::Text(n))) => event_of(v).unwrap().id == i@
                && event_of(v).unwrap().name == n@,
            (Some(Json::Number(i)), Some(Json::Text(n))) => event_of(v).unwrap().id == i.text@
                && event_of(v).unwrap().name == n@,
            _ => false,
        },
{
}

/// Each field of `venue_of` is read from its own key of the API row: `name` from `"name"`,
/// `address` from `"address"`, `rating` from `"rating"`.
pub proof fn lemma_venue_of_reads_keys(v: Option<Json>)
    requires
        venue_of(v) is Some,
    ensures
        match v { Some(x) => match get(x, "name"@) { Some(Json::Text(t)) => venue_of(v).unwrap().name == t@, _ => venue_of(v).unwrap().name.len() == 0 }, _ => true },
        match v { Some(x) => match get(x, "address"@) { Some(Json::Text(t)) => venue_of(v).unwrap().address == t@, _ => venue_of(v).unwrap().address.len() == 0 }, _ => true },
        match v { Some(x) => match get(x, "rating"@) { Some(Json::Text(t)) => venue_of(v).unwrap().rating == Some(t@), Some(Json::Number(n)) => venue_of(v).unwrap().rating == Some(n.text@), _ => venue_of(v).unwrap().rating is None }, _ => true },
{
}

/// Each field of `pricing_of` is read from its own key of the API row: `vvip` from `"vvip"`,
/// `vip` from `"vip"`, `currency` from `"currency"`.
pub proof fn lemma_pricing_of_reads_keys(v: Option<Json>)
    ensures
        match v { Some(x) => match get(x, "vvip"@) { Some(Json::Text(t)) => pricing_of(v).vvip == Some(t@), Some(Json::Number(n)) => pricing_of(v).vvip == Some(n.text@), _ => pricing_of(v).vvip is None }, _ => true },
        match v { Some(x) => match get(x, "vip"@) { Some(Json::Text(t)) => pricing_of(v).vip == Some(t@), Some(Json::Number(n)) => pricing_of(v).vip == Some(n.text@), _ => pricing_of(v).vip is None }, _ => true },
        match v { Some(x) => match get(x, "currency"@) { Some(Json::Text(t)) => pricing_of(v).currency == t@, _ => pricing_of(v).currency.len() == 0 }, _ => true },
{
}

/// Each field of `event_of` is read from its own key of the API row: `description` from
/// `"description"`, `date_time` from `"dateTime"`, `exclusivity_level` from
/// `"exclusivityLevel"`, `current_attendees` from `"currentAttendees"`, `capacity` from
/// `"capacity"`.
pub proof fn lemma_event_of_reads_keys(v: Json)
    requires
        event_of(v) is Some,
    ensures
        match get(v, "description"@) { Some(Json::Text(t)) => event_of(v).unwrap().description == t@, _ => event_of(v).unwrap().description.len() == 0 },
        match get(v, "dateTime"@) { Some(Json::Text(t)) => event_of(v).unwrap().date_time == t@, _ => true },
        match get(v, "exclusivityLevel"@) { Some(Json::Text(t)) => event_of(v).unwrap().exclusivity_level == Some(t@), _ => event_of(v).unwrap().exclusivity_level is None },
        match get(v, "currentAttendees"@) { Some(Json::Number(n)) => (n.as_u64 is Some && n.as_u64.unwrap() <= u32::MAX) ==> event_of(v).unwrap().current_attendees == n.as_u64.unwrap(), _ => true },
        match get(v, "capacity"@) { Some(Json::Number(n)) => (n.as_u64 is Some && n.as_u64.unwrap() <= u32::MAX) ==> event_of(v).unwrap().capacity == n.as_u64.unwrap(), _ => true },
{
}

} // verus!
