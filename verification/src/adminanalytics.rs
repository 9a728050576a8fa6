//! The analytics dashboard: who may see it, its tabs and date windows, the
//! analytics endpoints, and the number and month formats it shows.
use vstd::prelude::*;
use crate::numtext::{all_digits, digits_to_u64, digits_value, is_digit, lemma_decimal_digits};
use crate::permissions::{guard_matches, Permissions, RouteGuard};
use crate::json::{
    amount_text, array_items, deref_opt, display_text, error_from_body, error_from_parsed,
    error_message, get, get_in, is_success, json_amount, json_display, json_error_message,
    json_get, json_get_in, json_id, json_id_spec, json_result, json_string, json_string_or_empty,
    json_text, json_u32, json_u32_spec, opt_view, or_text, parse_json, parsed_json, success_flag,
    view_or_empty, view_result, Json,
};
use crate::text::{blank, is_blank};
use crate::text::{
    chars_of, decimal, lemma_trim_fixed, push_char, str_eq, string_of_range, trim, trim_bounds,
    u64_to_decimal,
};

verus! {

pub const EVENTS_OVERVIEW_PATH: &'static str = "/api/analytics/events/overview";
pub const EVENTS_PERFORMANCE_PATH: &'static str = "/api/analytics/events/performance";
pub const EVENTS_ENGAGEMENT_PATH: &'static str = "/api/analytics/events/engagement";
pub const REVENUE_EVENTS_PATH: &'static str = "/api/analytics/revenue/events";
pub const MEMBERS_ENGAGEMENT_PATH: &'static str = "/api/analytics/engagement/members";
pub const VISITORS_PATH: &'static str = "/api/analytics/visitors";
pub const VISITORS_DAILY_PATH: &'static str = "/api/analytics/visitors/daily";
pub const POPULAR_PAGES_PATH: &'static str = "/api/analytics/pages/popular";
pub const CONVERSION_PATH: &'static str = "/api/analytics/conversion";

pub const NETWORK_ERROR: &'static str = "Network error occurred";
pub const UNAUTHORIZED: &'static str = "Access token required";
pub const OVERVIEW_FALLBACK: &'static str = "Failed to retrieve event analytics overview";
pub const PERFORMANCE_FALLBACK: &'static str = "Failed to retrieve event performance analytics";
pub const EVENT_DETAIL_FALLBACK: &'static str = "Failed to fetch event performance data";
pub const REVENUE_FALLBACK: &'static str = "Failed to fetch revenue analytics";
pub const MEMBERS_FALLBACK: &'static str = "Failed to fetch member engagement data";
pub const VISITORS_FALLBACK: &'static str = "Failed to retrieve visitor analytics";
pub const VISITORS_DAILY_FALLBACK: &'static str = "Failed to retrieve daily analytics";
pub const POPULAR_PAGES_FALLBACK: &'static str = "Failed to retrieve page analytics";
pub const CONVERSION_FALLBACK: &'static str = "Failed to retrieve conversion analytics";
pub const EVENTS_ENGAGEMENT_FALLBACK: &'static str = "Failed to retrieve event engagement analytics";
pub const ADMIN_ROUTE_FALLBACK: &'static str = "/login";
pub const DEFAULT_DATE_WINDOW_DAYS: u32 = 30;
pub const POPULAR_PAGES_LIMIT: u32 = 20;
pub const EMPTY_CHART_LABEL: &'static str = "目前沒有資料";
pub const EVENT_NOT_FOUND: &'static str = "Event not found";

/// A choice of reporting period.
#[derive(Clone, Copy, Debug, PartialEq, Eq)]
pub struct DateWindow {
    pub days: u32,
    pub label: &'static str,
}

#[derive(Clone, Copy, Debug, PartialEq, Eq, Default)]
pub enum AnalyticsTab {
    #[default]
    Overview,
    Revenue,
    Engagement,
}

/// The key of a tab.
pub open spec fn tab_key(tab: AnalyticsTab) -> Seq<char> {
    match tab {
        AnalyticsTab::Overview => "overview"@,
        AnalyticsTab::Revenue => "revenue"@,
        AnalyticsTab::Engagement => "engagement"@,
    }
}

/// The tab a key selects; any unknown key selects the overview.
pub open spec fn tab_of_key(key: Seq<char>) -> AnalyticsTab {
    if key == "revenue"@ {
        AnalyticsTab::Revenue
    } else if key == "engagement"@ {
        AnalyticsTab::Engagement
    } else {
        AnalyticsTab::Overview
    }
}

impl AnalyticsTab {
    pub fn key(self) -> (s: &'static str)
        ensures
            s@ == tab_key(self),
    {
        match self {
            AnalyticsTab::Overview => "overview",
            AnalyticsTab::Revenue => "revenue",
            AnalyticsTab::Engagement => "engagement",
        }
    }

    pub fn label(self) -> (s: &'static str)
        ensures
            s@ == (match self {
                AnalyticsTab::Overview => "總覽"@,
                AnalyticsTab::Revenue => "營收分析"@,
                AnalyticsTab::Engagement => "會員參與"@,
            }),
    {
        match self {
            AnalyticsTab::Overview => "總覽",
            AnalyticsTab::Revenue => "營收分析",
            AnalyticsTab::Engagement => "會員參與",
        }
    }

    pub fn from_key(key: &str) -> (t: Self)
        ensures
            t == tab_of_key(key@),
    {
        if str_eq(key, "revenue") {
            AnalyticsTab::Revenue
        } else if str_eq(key, "engagement") {
            AnalyticsTab::Engagement
        } else {
            AnalyticsTab::Overview
        }
    }
}

/// Every tab is found again from its key.
pub proof fn lemma_tab_key_round_trip(tab: AnalyticsTab)
    ensures
        tab_of_key(tab_key(tab)) == tab,
{
    reveal_strlit("overview");
    reveal_strlit("revenue");
    reveal_strlit("engagement");
    assert("overview"@.len() == 8 && "revenue"@.len() == 7 && "engagement"@.len() == 10);
}

#[derive(Clone, Debug, PartialEq, Eq)]
pub enum AnalyticsPhase {
    Loading,
    Error(String),
    Ready,
}

/// The analytics pages admit sessions that may view the admin area; the
/// others go to the login page.
pub fn admin_route_guard(restoring: bool, permissions: &Permissions) -> (g: RouteGuard)
    ensures
        guard_matches(g, restoring, permissions.view_admin, ADMIN_ROUTE_FALLBACK@),
{
    if restoring {
        RouteGuard::Loading
    } else if !permissions.view_admin {
        RouteGuard::Redirect(ADMIN_ROUTE_FALLBACK)
    } else {
        RouteGuard::Allow
    }
}

/// The digits a text begins with.
pub open spec fn leading_digits(s: Seq<char>) -> Seq<char>
    decreases s.len(),
{
    if s.len() > 0 && is_digit(s[0]) {
        seq![s[0]] + leading_digits(s.drop_first())
    } else {
        Seq::empty()
    }
}

/// The signed number a text begins with: an optional `-` or `+`, then the
/// leading digits, when there are some and they fit an `i64`.
pub open spec fn leading_number(t: Seq<char>) -> Option<int> {
    let neg = t.len() > 0 && t[0] == '-';
    let rest = if t.len() > 0 && (t[0] == '-' || t[0] == '+') {
        t.drop_first()
    } else {
        t
    };
    let d = leading_digits(rest);
    if d.len() > 0 && digits_value(d) <= i64::MAX {
        Some(
            if neg {
                -(digits_value(d) as int)
            } else {
                digits_value(d) as int
            },
        )
    } else {
        None
    }
}

/// The reporting period asked for: the number the trimmed text begins with
/// when it is not zero, else the fallback; then brought into `1..=u32::MAX`.
pub open spec fn period_of(raw: Option<Seq<char>>, fallback: u32) -> u32 {
    let v: int = match raw {
        Some(r) => match leading_number(trim(r)) {
            Some(x) => if x != 0 {
                x
            } else {
                fallback as int
            },
            None => fallback as int,
        },
        None => fallback as int,
    };
    if v < 1 {
        1
    } else if v > u32::MAX {
        u32::MAX
    } else {
        v as u32
    }
}

proof fn lemma_leading_digits_scan(s: Seq<char>, lo: int, i: int)
    requires
        0 <= lo <= i <= s.len(),
        forall|k: int| lo <= k < i ==> is_digit(#[trigger] s[k]),
    ensures
        leading_digits(s.subrange(lo, s.len() as int)) == s.subrange(lo, i) + leading_digits(
            s.subrange(i, s.len() as int),
        ),
    decreases i - lo,
{
    if lo == i {
        assert(s.subrange(lo, i) + leading_digits(s.subrange(i, s.len() as int)) =~= leading_digits(
            s.subrange(i, s.len() as int),
        ));
    } else {
        lemma_leading_digits_scan(s, lo + 1, i);
        let sub = s.subrange(lo, s.len() as int);
        assert(sub.drop_first() =~= s.subrange(lo + 1, s.len() as int));
        assert(sub[0] == s[lo]);
        assert(seq![s[lo]] + s.subrange(lo + 1, i) =~= s.subrange(lo, i));
        assert(seq![s[lo]] + (s.subrange(lo + 1, i) + leading_digits(s.subrange(i, s.len() as int)))
            =~= s.subrange(lo, i) + leading_digits(s.subrange(i, s.len() as int)));
    }
}

pub fn period_days(raw: Option<&str>, fallback: u32) -> (d: u32)
    ensures
        d == period_of(
            match raw {
                Some(r) => Some(r@),
                None => None,
            },
            fallback,
        ),
{
    let v: i64 = match raw {
        None => fallback as i64,
        Some(r) => {
            let cs = chars_of(r);
            let (a, b) = trim_bounds(&cs);
            let ghost t = cs@.subrange(a as int, b as int);
            let neg = a < b && cs[a] == '-';
            let start: usize = if a < b && (cs[a] == '-' || cs[a] == '+') {
                a + 1
            } else {
                a
            };
            let ghost rest = cs@.subrange(start as int, b as int);
            assert(rest == (if t.len() > 0 && (t[0] == '-' || t[0] == '+') {
                t.drop_first()
            } else {
                t
            }));
            let mut e = start;
            while e < b && cs[e] as u32 >= 48 && cs[e] as u32 <= 57
                invariant
                    start <= e <= b <= cs@.len(),
                    forall|k: int| start <= k < e ==> is_digit(#[trigger] cs@[k]),
                decreases b - e,
            {
                e = e + 1;
            }
            proof {
                let sb = cs@.subrange(0, b as int);
                lemma_leading_digits_scan(sb, start as int, e as int);
                assert(sb.subrange(start as int, b as int) =~= rest);
                assert(sb.subrange(start as int, e as int) =~= cs@.subrange(start as int, e as int));
                let tail = sb.subrange(e as int, b as int);
                if tail.len() > 0 {
                    assert(tail[0] == cs@[e as int]);
                    assert(!is_digit(tail[0]));
                }
                assert(leading_digits(tail) =~= Seq::<char>::empty());
                assert(leading_digits(rest) =~= cs@.subrange(start as int, e as int));
                assert(all_digits(cs@.subrange(start as int, e as int)));
            }
            if e == start {
                fallback as i64
            } else {
                match digits_to_u64(&cs, start, e) {
                    Some(n) => {
                        if n > 0x7FFF_FFFF_FFFF_FFFF {
                            fallback as i64
                        } else if n == 0 {
                            fallback as i64
                        } else if neg {
                            -(n as i64)
                        } else {
                            n as i64
                        }
                    },
                    None => fallback as i64,
                }
            }
        },
    };
    if v < 1 {
        1
    } else if v > 0xFFFF_FFFF {
        0xFFFF_FFFF
    } else {
        v as u32
    }
}

/// The period selected by the page's `days` parameter, thirty days when it
/// says nothing usable.
pub fn select_date_window(raw: Option<&str>) -> (d: u32)
    ensures
        d == period_of(
            match raw {
                Some(r) => Some(r@),
                None => None,
            },
            DEFAULT_DATE_WINDOW_DAYS,
        ),
{
    period_days(raw, DEFAULT_DATE_WINDOW_DAYS)
}

pub fn is_active_date_window(selected: u32, window: u32) -> (b: bool)
    ensures
        b == (selected == window),
{
    selected == window
}

pub fn days_query(days: u32) -> (s: String)
    ensures
        s@ == "days="@ + decimal(days as nat),
{
    let mut s = String::from_str("days=");
    let d = u64_to_decimal(days as u64);
    s.append(d.as_str());
    s
}

fn path_with_days(path: &str, days: u32) -> (s: String)
    ensures
        s@ == path@ + "?"@ + "days="@ + decimal(days as nat),
{
    let mut s = String::from_str(path);
    s.append("?");
    let q = days_query(days);
    s.append(q.as_str());
    s
}

pub fn events_overview_url(days: u32) -> (s: String)
    ensures
        s@ == EVENTS_OVERVIEW_PATH@ + "?"@ + "days="@ + decimal(days as nat),
{
    path_with_days(EVENTS_OVERVIEW_PATH, days)
}

pub fn events_performance_url(days: u32) -> (s: String)
    ensures
        s@ == EVENTS_PERFORMANCE_PATH@ + "?"@ + "days="@ + decimal(days as nat),
{
    path_with_days(EVENTS_PERFORMANCE_PATH, days)
}

pub fn events_engagement_url(days: u32) -> (s: String)
    ensures
        s@ == EVENTS_ENGAGEMENT_PATH@ + "?"@ + "days="@ + decimal(days as nat),
{
    path_with_days(EVENTS_ENGAGEMENT_PATH, days)
}

pub fn event_performance_url(id: &str) -> (s: String)
    ensures
        s@ == "/api/analytics/events/"@ + id@ + "/performance"@,
{
    let mut s = String::from_str("/api/analytics/events/");
    s.append(id);
    s.append("/performance");
    s
}

pub fn visitors_url(days: u32) -> (s: String)
    ensures
        s@ == VISITORS_PATH@ + "?"@ + "days="@ + decimal(days as nat),
{
    path_with_days(VISITORS_PATH, days)
}

pub fn visitors_daily_url(days: u32) -> (s: String)
    ensures
        s@ == VISITORS_DAILY_PATH@ + "?"@ + "days="@ + decimal(days as nat),
{
    path_with_days(VISITORS_DAILY_PATH, days)
}

pub fn popular_pages_url(limit: u32) -> (s: String)
    ensures
        s@ == POPULAR_PAGES_PATH@ + "?limit="@ + decimal(limit as nat),
{
    let mut s = String::from_str(POPULAR_PAGES_PATH);
    s.append("?limit=");
    let d = u64_to_decimal(limit as u64);
    s.append(d.as_str());
    s
}

pub fn conversion_url(days: u32) -> (s: String)
    ensures
        s@ == CONVERSION_PATH@ + "?"@ + "days="@ + decimal(days as nat),
{
    path_with_days(CONVERSION_PATH, days)
}

/// The API offers no export yet.
pub fn export_endpoint_available() -> (b: bool)
    ensures
        !b,
{
    false
}

/// The digits of a text, in order.
pub open spec fn digits_in(s: Seq<char>) -> Seq<char>
    decreases s.len(),
{
    if s.len() == 0 {
        Seq::empty()
    } else if is_digit(s.last()) {
        digits_in(s.drop_last()).push(s.last())
    } else {
        digits_in(s.drop_last())
    }
}

/// A year-month key shown as `2025年3月`: the first four digits are the
/// year, the next two the month; a text with fewer than six digits or a
/// month outside 1 to 12 is shown as it is.
pub open spec fn year_month_text(value: Seq<char>) -> Seq<char> {
    let d = digits_in(value);
    if d.len() < 6 {
        value
    } else {
        let m = digits_value(d.subrange(4, 6));
        if 1 <= m <= 12 {
            d.subrange(0, 4) + "年"@ + decimal(m) + "月"@
        } else {
            value
        }
    }
}

pub fn format_year_month(value: &str) -> (s: String)
    ensures
        s@ == year_month_text(value@),
{
    let cs = chars_of(value);
    let n = cs.len();
    let mut digits: Vec<char> = Vec::new();
    let mut i: usize = 0;
    while i < n
        invariant
            n == cs@.len(),
            cs@ == value@,
            i <= n,
            digits@ == digits_in(cs@.subrange(0, i as int)),
        decreases n - i,
    {
        proof {
            assert(cs@.subrange(0, i + 1).drop_last() =~= cs@.subrange(0, i as int));
            assert(cs@.subrange(0, i + 1).last() == cs@[i as int]);
        }
        let c = cs[i];
        if c as u32 >= 48 && c as u32 <= 57 {
            digits.push(c);
        }
        i = i + 1;
    }
    assert(cs@.subrange(0, n as int) =~= value@);
    if digits.len() < 6 {
        return String::from_str(value);
    }
    proof {
        assert forall|k: int| 0 <= k < digits@.len() implies is_digit(#[trigger] digits@[k]) by {
            lemma_digits_in_are_digits(value@, k);
        }
        assert(all_digits(digits@.subrange(4, 6)));
    }
    let month = match digits_to_u64(&digits, 4, 6) {
        Some(m) => m,
        None => 0,
    };
    if month < 1 || month > 12 {
        return String::from_str(value);
    }
    let mut s = string_of_range(&digits, 0, 4);
    s.append("年");
    let m = u64_to_decimal(month);
    s.append(m.as_str());
    s.append("月");
    s
}

proof fn lemma_digits_in_are_digits(s: Seq<char>, k: int)
    requires
        0 <= k < digits_in(s).len(),
    ensures
        is_digit(digits_in(s)[k]),
    decreases s.len(),
{
    if s.len() > 0 {
        if is_digit(s.last()) {
            if k < digits_in(s.drop_last()).len() {
                lemma_digits_in_are_digits(s.drop_last(), k);
            }
        } else {
            lemma_digits_in_are_digits(s.drop_last(), k);
        }
    }
}

/// The colour of a membership tier's dot.
pub fn membership_tier_dot_class(tier: &str) -> (s: &'static str)
    ensures
        s@ == (if tier@ == "Black Card"@ {
            "bg-luxury-gold"@
        } else if tier@ == "Diamond"@ {
            "bg-blue-400"@
        } else {
            "bg-gray-400"@
        }),
{
    if str_eq(tier, "Black Card") {
        "bg-luxury-gold"
    } else if str_eq(tier, "Diamond") {
        "bg-blue-400"
    } else {
        "bg-gray-400"
    }
}

/// The colour of the donut slice at a position: six colours, repeating.
pub open spec fn donut_color_text(index: usize) -> Seq<char> {
    let i = index % 6;
    if i == 0 {
        "#d4af37"@
    } else if i == 1 {
        "#60a5fa"@
    } else if i == 2 {
        "#c084fc"@
    } else if i == 3 {
        "#4ade80"@
    } else if i == 4 {
        "#f97316"@
    } else {
        "#e5e4e2"@
    }
}

pub fn donut_color(index: usize) -> (s: &'static str)
    ensures
        s@ == donut_color_text(index),
{
    let i = index % 6;
    if i == 0 {
        "#d4af37"
    } else if i == 1 {
        "#60a5fa"
    } else if i == 2 {
        "#c084fc"
    } else if i == 3 {
        "#4ade80"
    } else if i == 4 {
        "#f97316"
    } else {
        "#e5e4e2"
    }
}

/// A numeral with a comma before each group of three digits from the right.
pub open spec fn grouped(d: Seq<char>) -> Seq<char>
    decreases d.len(),
{
    if d.len() <= 3 {
        d
    } else {
        grouped(d.subrange(0, d.len() - 3)) + seq![','] + d.subrange(d.len() - 3, d.len() as int)
    }
}

fn group_prefix(cs: &Vec<char>, hi: usize) -> (s: String)
    requires
        hi <= cs@.len(),
    ensures
        s@ == grouped(cs@.subrange(0, hi as int)),
    decreases hi,
{
    if hi <= 3 {
        string_of_range(cs, 0, hi)
    } else {
        let mut s = group_prefix(cs, hi - 3);
        push_char(&mut s, ',');
        let tail = string_of_range(cs, hi - 3, hi);
        s.append(tail.as_str());
        proof {
            let d = cs@.subrange(0, hi as int);
            assert(d.subrange(0, d.len() - 3) =~= cs@.subrange(0, hi - 3));
            assert(d.subrange(d.len() - 3, d.len() as int) =~= cs@.subrange(hi - 3, hi as int));
        }
        s
    }
}

/// A count with thousands separators (`1,234,567`).
pub fn format_thousands(value: u64) -> (s: String)
    ensures
        s@ == grouped(decimal(value as nat)),
{
    let d = u64_to_decimal(value);
    let cs = chars_of(d.as_str());
    assert(cs@.subrange(0, cs@.len() as int) =~= cs@);
    group_prefix(&cs, cs.len())
}


proof fn lemma_leading_digits_all(s: Seq<char>)
    requires
        all_digits(s),
    ensures
        leading_digits(s) == s,
    decreases s.len(),
{
    if s.len() > 0 {
        assert(all_digits(s.drop_first())) by {
            assert forall|i: int| 0 <= i < s.drop_first().len() implies is_digit(
                #[trigger] s.drop_first()[i],
            ) by {
                assert(s.drop_first()[i] == s[i + 1]);
            }
        }
        lemma_leading_digits_all(s.drop_first());
        assert(is_digit(s[0]));
        assert(seq![s[0]] + s.drop_first() =~= s);
    }
}

/// A date window asked for by its own day count, written in decimal, is
/// that window.
pub proof fn lemma_period_of_decimal(n: u32, fallback: u32)
    requires
        n >= 1,
    ensures
        period_of(Some(decimal(n as nat)), fallback) == n,
{
    let d = decimal(n as nat);
    lemma_decimal_digits(n as nat);
    assert(is_digit(d[0]) && is_digit(d.last()));
    lemma_trim_fixed(d);
    lemma_leading_digits_all(d);
}


/// The message of the analytics page: loading while loading; the error,
/// trimmed, when nothing at all arrived and the error is not blank; ready
/// otherwise.
pub open spec fn phase_of(loading: bool, has_payload: bool, error: Option<Seq<char>>) -> Option<Option<Seq<char>>> {
    if loading {
        None
    } else if !has_payload && (error matches Some(e) && trim(e).len() > 0) {
        Some(Some(trim(error.unwrap())))
    } else {
        Some(None)
    }
}

/// The phase of the analytics page, given whether it is loading, whether
/// any part of the dashboard arrived, and the dashboard's error.
pub fn analytics_phase(loading: bool, has_payload: bool, error: Option<&str>) -> (p: AnalyticsPhase)
    ensures
        phase_of(
            loading,
            has_payload,
            match error {
                Some(e) => Some(e@),
                None => None,
            },
        ) == (match p {
            AnalyticsPhase::Loading => None,
            AnalyticsPhase::Error(e) => Some(Some(e@)),
            AnalyticsPhase::Ready => Some(None),
        }),
{
    if loading {
        return AnalyticsPhase::Loading;
    }
    if !has_payload {
        match error {
            Some(e) => {
                let t = crate::text::trim_str(e);
                if t.as_str().unicode_len() > 0 {
                    return AnalyticsPhase::Error(t);
                }
            },
            None => {},
        }
    }
    AnalyticsPhase::Ready
}

/// The analytics API's reading of a response: `401` is answered with the
/// body's error or "Access token required"; a blank or unparsable body with
/// the fallback; a status outside 2xx, or a body whose `success` is not
/// `true`, with the body's error or the fallback. What remains is the
/// parsed body.
pub open spec fn analytics_root(status: u16, body_blank: bool, parsed: Option<Json>, fallback: Seq<char>) -> Result<Json, Seq<char>> {
    if status == 401 {
        Err(error_from_parsed(parsed, UNAUTHORIZED@))
    } else if body_blank {
        Err(fallback)
    } else {
        match parsed {
            None => Err(fallback),
            Some(v) => if !(200 <= status < 300) {
                Err(error_message(v, fallback))
            } else if is_success(v) {
                Ok(v)
            } else {
                Err(error_message(v, fallback))
            },
        }
    }
}

/// The `data` member of an accepted body; a missing or `null` one is the
/// fallback error.
pub open spec fn analytics_data(status: u16, body_blank: bool, parsed: Option<Json>, fallback: Seq<char>) -> Result<Json, Seq<char>> {
    match analytics_root(status, body_blank, parsed, fallback) {
        Ok(v) => match get(v, "data"@) {
            Some(Json::Null) => Err(fallback),
            Some(d) => Ok(d),
            None => Err(fallback),
        },
        Err(e) => Err(e),
    }
}

fn take_data(v: Json) -> (r: Option<Json>)
    ensures
        r == get(v, "data"@),
{
    crate::json::take_member(v, "data")
}

/// Reads an analytics answer down to its `data` member, given its status,
/// whether its body is blank, and the body as parsed.
pub fn success_data_from_json(status: u16, body_blank: bool, parsed: Option<Json>, fallback: &str) -> (r: Result<Json, String>)
    ensures
        json_result(r) == analytics_data(status, body_blank, parsed, fallback@),
{
    if status == 401 {
        return Err(error_from_body(&parsed, UNAUTHORIZED));
    }
    if body_blank {
        return Err(String::from_str(fallback));
    }
    let v = match parsed {
        Some(v) => v,
        None => return Err(String::from_str(fallback)),
    };
    if !(200 <= status && status < 300) || !success_flag(&v) {
        return Err(json_error_message(&v, fallback));
    }
    match take_data(v) {
        Some(Json::Null) => Err(String::from_str(fallback)),
        Some(d) => Ok(d),
        None => Err(String::from_str(fallback)),
    }
}

/// `parse_success_data`: an analytics answer read down to its `data`.
pub fn parse_success_data(status: u16, body: &str, fallback: &str) -> (r: Result<Json, String>)
    ensures
        json_result(r) == analytics_data(status, is_blank(body@), parsed_json(body@), fallback@),
{
    success_data_from_json(status, blank(body), parse_json(body), fallback)
}

/// The items of an analytics answer whose `data` is an array; any other
/// `data` is the fallback error.
pub open spec fn analytics_array(status: u16, body_blank: bool, parsed: Option<Json>, fallback: Seq<char>) -> Result<Seq<Json>, Seq<char>> {
    match analytics_data(status, body_blank, parsed, fallback) {
        Ok(Json::Array(items)) => Ok(items@),
        Ok(_) => Err(fallback),
        Err(e) => Err(e),
    }
}

/// `parse_success_array`: an analytics answer read down to the items of
/// its `data` array.
pub fn parse_success_array(status: u16, body: &str, fallback: &str) -> (r: Result<Vec<Json>, String>)
    ensures
        match r {
            Ok(items) => analytics_array(status, is_blank(body@), parsed_json(body@), fallback@) == Ok::<
                Seq<Json>,
                Seq<char>,
            >(items@),
            Err(e) => analytics_array(status, is_blank(body@), parsed_json(body@), fallback@) == Err::<
                Seq<Json>,
                Seq<char>,
            >(e@),
        },
{
    match parse_success_data(status, body, fallback) {
        Ok(Json::Array(items)) => Ok(items),
        Ok(_) => Err(String::from_str(fallback)),
        Err(e) => Err(e),
    }
}

/// The answer for one event's performance: a `404` is answered with the
/// body's error or "Event not found"; otherwise the `data` member, which
/// must hold an `event`.
pub open spec fn event_detail_data(status: u16, body_blank: bool, parsed: Option<Json>) -> Result<Json, Seq<char>> {
    if status == 404 {
        Err(error_from_parsed(parsed, EVENT_NOT_FOUND@))
    } else {
        match analytics_data(status, body_blank, parsed, EVENT_DETAIL_FALLBACK@) {
            Ok(d) => if get(d, "event"@).is_some() {
                Ok(d)
            } else {
                Err(EVENT_DETAIL_FALLBACK@)
            },
            Err(e) => Err(e),
        }
    }
}

/// Reads the answer for one event's performance down to its `data`.
pub fn event_performance_detail_data(status: u16, body: &str) -> (r: Result<Json, String>)
    ensures
        json_result(r) == event_detail_data(status, is_blank(body@), parsed_json(body@)),
{
    if status == 404 {
        let parsed = parse_json(body);
        return Err(error_from_body(&parsed, EVENT_NOT_FOUND));
    }
    match parse_success_data(status, body, EVENT_DETAIL_FALLBACK) {
        Ok(d) => {
            if json_get(&d, "event").is_some() {
                Ok(d)
            } else {
                Err(String::from_str(EVENT_DETAIL_FALLBACK))
            }
        },
        Err(e) => Err(e),
    }
}


/// The parts of the analytics dashboard, each loaded by one request.
#[derive(Clone, Copy, Debug, PartialEq, Eq)]
pub enum DashboardPart {
    Overview,
    Performance,
    Revenue,
    Members,
    Visitors,
    VisitorsDaily,
    PopularPages,
    Conversion,
    EventsEngagement,
}

/// The parts in the order the dashboard requests them.
pub open spec fn dashboard_order() -> Seq<DashboardPart> {
    seq![
        DashboardPart::Overview,
        DashboardPart::Performance,
        DashboardPart::Revenue,
        DashboardPart::Members,
        DashboardPart::Visitors,
        DashboardPart::VisitorsDaily,
        DashboardPart::PopularPages,
        DashboardPart::Conversion,
        DashboardPart::EventsEngagement,
    ]
}

/// The address a part is loaded from, for a window of days: the windowed
/// endpoints take the days, revenue and members take none, popular pages
/// take the page limit.
pub open spec fn part_url(part: DashboardPart, days: u32) -> Seq<char> {
    let windowed = |path: Seq<char>| path + "?"@ + "days="@ + decimal(days as nat);
    match part {
        DashboardPart::Overview => windowed(EVENTS_OVERVIEW_PATH@),
        DashboardPart::Performance => windowed(EVENTS_PERFORMANCE_PATH@),
        DashboardPart::Revenue => REVENUE_EVENTS_PATH@,
        DashboardPart::Members => MEMBERS_ENGAGEMENT_PATH@,
        DashboardPart::Visitors => windowed(VISITORS_PATH@),
        DashboardPart::VisitorsDaily => windowed(VISITORS_DAILY_PATH@),
        DashboardPart::PopularPages => POPULAR_PAGES_PATH@ + "?limit="@ + decimal(
            POPULAR_PAGES_LIMIT as nat,
        ),
        DashboardPart::Conversion => windowed(CONVERSION_PATH@),
        DashboardPart::EventsEngagement => windowed(EVENTS_ENGAGEMENT_PATH@),
    }
}

/// The address of one part of the dashboard.
pub fn dashboard_part_url(part: DashboardPart, days: u32) -> (s: String)
    ensures
        s@ == part_url(part, days),
{
    match part {
        DashboardPart::Overview => events_overview_url(days),
        DashboardPart::Performance => events_performance_url(days),
        DashboardPart::Revenue => String::from_str(REVENUE_EVENTS_PATH),
        DashboardPart::Members => String::from_str(MEMBERS_ENGAGEMENT_PATH),
        DashboardPart::Visitors => visitors_url(days),
        DashboardPart::VisitorsDaily => visitors_daily_url(days),
        DashboardPart::PopularPages => popular_pages_url(POPULAR_PAGES_LIMIT),
        DashboardPart::Conversion => conversion_url(days),
        DashboardPart::EventsEngagement => events_engagement_url(days),
    }
}

/// The requests that load the dashboard, in order: each part once, with its
/// address.
pub fn dashboard_requests(days: u32) -> (r: Vec<(DashboardPart, String)>)
    ensures
        r@.len() == dashboard_order().len(),
        forall|i: int|
            0 <= i < r@.len() ==> (#[trigger] r@[i]).0 == dashboard_order()[i] && r@[i].1@
                == part_url(dashboard_order()[i], days),
{
    let parts = [
        DashboardPart::Overview,
        DashboardPart::Performance,
        DashboardPart::Revenue,
        DashboardPart::Members,
        DashboardPart::Visitors,
        DashboardPart::VisitorsDaily,
        DashboardPart::PopularPages,
        DashboardPart::Conversion,
        DashboardPart::EventsEngagement,
    ];
    assert(parts@ =~= dashboard_order());
    let mut out: Vec<(DashboardPart, String)> = Vec::new();
    let mut i: usize = 0;
    while i < 9
        invariant
            parts@ == dashboard_order(),
            i <= 9,
            out@.len() == i,
            forall|k: int|
                0 <= k < i ==> (#[trigger] out@[k]).0 == dashboard_order()[k] && out@[k].1@ == part_url(
                    dashboard_order()[k],
                    days,
                ),
        decreases 9 - i,
    {
        let part = parts[i];
        out.push((part, dashboard_part_url(part, days)));
        i = i + 1;
    }
    out
}

/// The session token the dashboard is loaded with: a non-empty one, else
/// the "Access token required" error.
pub fn dashboard_token(token: Option<&str>) -> (r: Result<&str, &'static str>)
    ensures
        match token {
            Some(t) => if t@.len() > 0 {
                r == Ok::<&str, &'static str>(t)
            } else {
                r matches Err(e) && e@ == UNAUTHORIZED@
            },
            None => r matches Err(e) && e@ == UNAUTHORIZED@,
        },
{
    match token {
        Some(t) => {
            if t.unicode_len() > 0 {
                Ok(t)
            } else {
                Err(UNAUTHORIZED)
            }
        },
        None => Err(UNAUTHORIZED),
    }
}

/// The event counts of the period.
#[derive(Clone, Debug, PartialEq, Eq, Default)]
pub struct EventStats {
    pub total_events: Option<String>,
    pub recent_events: Option<String>,
    pub upcoming_events: Option<String>,
    pub past_events: Option<String>,
    pub avg_occupancy_rate: Option<String>,
}

pub struct EventStatsView {
    pub total_events: Option<Seq<char>>,
    pub recent_events: Option<Seq<char>>,
    pub upcoming_events: Option<Seq<char>>,
    pub past_events: Option<Seq<char>>,
    pub avg_occupancy_rate: Option<Seq<char>>,
}

impl View for EventStats {
    type V = EventStatsView;

    open spec fn view(&self) -> EventStatsView {
        EventStatsView {
            total_events: opt_view(self.total_events),
            recent_events: opt_view(self.recent_events),
            upcoming_events: opt_view(self.upcoming_events),
            past_events: opt_view(self.past_events),
            avg_occupancy_rate: opt_view(self.avg_occupancy_rate),
        }
    }
}

/// The `EventStats` read from a value: each text or figure from its key.
pub open spec fn event_stats_of(v: Option<Json>) -> EventStatsView {
    EventStatsView {
        total_events: amount_text(get_in(v, "total_events"@)),
        recent_events: amount_text(get_in(v, "recent_events"@)),
        upcoming_events: amount_text(get_in(v, "upcoming_events"@)),
        past_events: amount_text(get_in(v, "past_events"@)),
        avg_occupancy_rate: amount_text(get_in(v, "avg_occupancy_rate"@)),
    }
}

fn parse_event_stats(v: Option<&Json>) -> (r: EventStats)
    ensures
        r@ == event_stats_of(deref_opt(v)),
{
    EventStats {
        total_events: json_amount(json_get_in(v, "total_events")),
        recent_events: json_amount(json_get_in(v, "recent_events")),
        upcoming_events: json_amount(json_get_in(v, "upcoming_events")),
        past_events: json_amount(json_get_in(v, "past_events")),
        avg_occupancy_rate: json_amount(json_get_in(v, "avg_occupancy_rate")),
    }
}

/// The registration counts of the period.
#[derive(Clone, Debug, PartialEq, Eq, Default)]
pub struct RegistrationStats {
    pub total_registrations: Option<String>,
    pub recent_registrations: Option<String>,
    pub unique_attendees: Option<String>,
}

pub struct RegistrationStatsView {
    pub total_registrations: Option<Seq<char>>,
    pub recent_registrations: Option<Seq<char>>,
    pub unique_attendees: Option<Seq<char>>,
}

impl View for RegistrationStats {
    type V = RegistrationStatsView;

    open spec fn view(&self) -> RegistrationStatsView {
        RegistrationStatsView {
            total_registrations: opt_view(self.total_registrations),
            recent_registrations: opt_view(self.recent_registrations),
            unique_attendees: opt_view(self.unique_attendees),
        }
    }
}

/// The `RegistrationStats` read from a value: each text or figure from its key.
pub open spec fn registration_stats_of(v: Option<Json>) -> RegistrationStatsView {
    RegistrationStatsView {
        total_registrations: amount_text(get_in(v, "total_registrations"@)),
        recent_registrations: amount_text(get_in(v, "recent_registrations"@)),
        unique_attendees: amount_text(get_in(v, "unique_attendees"@)),
    }
}

fn parse_registration_stats(v: Option<&Json>) -> (r: RegistrationStats)
    ensures
        r@ == registration_stats_of(deref_opt(v)),
{
    RegistrationStats {
        total_registrations: json_amount(json_get_in(v, "total_registrations")),
        recent_registrations: json_amount(json_get_in(v, "recent_registrations")),
        unique_attendees: json_amount(json_get_in(v, "unique_attendees")),
    }
}

/// One event's sales figures.
#[derive(Clone, Debug, PartialEq, Eq, Default)]
pub struct PerformanceEventDetail {
    pub id: String,
    pub title: String,
    pub fill_rate: Option<String>,
    pub current_revenue: Option<String>,
    pub potential_revenue: Option<String>,
    pub category_name: String,
    pub venue_name: String,
    pub current_registrations: Option<String>,
    pub capacity_max: Option<String>,
}

pub struct PerformanceEventDetailView {
    pub id: Seq<char>,
    pub title: Seq<char>,
    pub fill_rate: Option<Seq<char>>,
    pub current_revenue: Option<Seq<char>>,
    pub potential_revenue: Option<Seq<char>>,
    pub category_name: Seq<char>,
    pub venue_name: Seq<char>,
    pub current_registrations: Option<Seq<char>>,
    pub capacity_max: Option<Seq<char>>,
}

impl View for PerformanceEventDetail {
    type V = PerformanceEventDetailView;

    open spec fn view(&self) -> PerformanceEventDetailView {
        PerformanceEventDetailView {
            id: self.id@,
            title: self.title@,
            fill_rate: opt_view(self.fill_rate),
            current_revenue: opt_view(self.current_revenue),
            potential_revenue: opt_view(self.potential_revenue),
            category_name: self.category_name@,
            venue_name: self.venue_name@,
            current_registrations: opt_view(self.current_registrations),
            capacity_max: opt_view(self.capacity_max),
        }
    }
}

/// The `PerformanceEventDetail` read from a value: each text or figure from its key.
pub open spec fn performance_event_detail_of(v: Option<Json>) -> PerformanceEventDetailView {
    PerformanceEventDetailView {
        id: view_or_empty(json_id_spec(get_in(v, "id"@))),
        title: view_or_empty(or_text(json_text(get_in(v, "title"@)), json_text(get_in(v, "name"@)))),
        fill_rate: amount_text(get_in(v, "fill_rate"@)),
        current_revenue: amount_text(get_in(v, "current_revenue"@)),
        potential_revenue: amount_text(get_in(v, "potential_revenue"@)),
        category_name: view_or_empty(json_text(get_in(v, "category_name"@))),
        venue_name: view_or_empty(json_text(get_in(v, "venue_name"@))),
        current_registrations: amount_text(get_in(v, "current_registrations"@)),
        capacity_max: amount_text(get_in(v, "capacity_max"@)),
    }
}

fn parse_performance_event_detail(v: Option<&Json>) -> (r: PerformanceEventDetail)
    ensures
        r@ == performance_event_detail_of(deref_opt(v)),
{
    PerformanceEventDetail {
        id: text_or_empty(json_id(json_get_in(v, "id"))),
        title: text_or_empty(first_text(json_string(json_get_in(v, "title")), json_string(json_get_in(v, "name")))),
        fill_rate: json_amount(json_get_in(v, "fill_rate")),
        current_revenue: json_amount(json_get_in(v, "current_revenue")),
        potential_revenue: json_amount(json_get_in(v, "potential_revenue")),
        category_name: json_string_or_empty(json_get_in(v, "category_name")),
        venue_name: json_string_or_empty(json_get_in(v, "venue_name")),
        current_registrations: json_amount(json_get_in(v, "current_registrations")),
        capacity_max: json_amount(json_get_in(v, "capacity_max")),
    }
}

/// One of the most booked events of the period.
#[derive(Clone, Debug, PartialEq, Eq, Default)]
pub struct PopularEvent {
    pub id: String,
    pub name: String,
    pub date_time: String,
    pub capacity: Option<String>,
    pub current_attendees: Option<String>,
    pub occupancy_rate: Option<String>,
}

pub struct PopularEventView {
    pub id: Seq<char>,
    pub name: Seq<char>,
    pub date_time: Seq<char>,
    pub capacity: Option<Seq<char>>,
    pub current_attendees: Option<Seq<char>>,
    pub occupancy_rate: Option<Seq<char>>,
}

impl View for PopularEvent {
    type V = PopularEventView;

    open spec fn view(&self) -> PopularEventView {
        PopularEventView {
            id: self.id@,
            name: self.name@,
            date_time: self.date_time@,
            capacity: opt_view(self.capacity),
            current_attendees: opt_view(self.current_attendees),
            occupancy_rate: opt_view(self.occupancy_rate),
        }
    }
}

/// The `PopularEvent` read from a value: each text or figure from its key.
pub open spec fn popular_event_of(v: Option<Json>) -> PopularEventView {
    PopularEventView {
        id: view_or_empty(json_id_spec(get_in(v, "id"@))),
        name: view_or_empty(json_text(get_in(v, "name"@))),
        date_time: view_or_empty(json_text(get_in(v, "date_time"@))),
        capacity: amount_text(get_in(v, "capacity"@)),
        current_attendees: amount_text(get_in(v, "current_attendees"@)),
        occupancy_rate: amount_text(get_in(v, "occupancy_rate"@)),
    }
}

fn parse_popular_event(v: Option<&Json>) -> (r: PopularEvent)
    ensures
        r@ == popular_event_of(deref_opt(v)),
{
    PopularEvent {
        id: text_or_empty(json_id(json_get_in(v, "id"))),
        name: json_string_or_empty(json_get_in(v, "name")),
        date_time: json_string_or_empty(json_get_in(v, "date_time")),
        capacity: json_amount(json_get_in(v, "capacity")),
        current_attendees: json_amount(json_get_in(v, "current_attendees")),
        occupancy_rate: json_amount(json_get_in(v, "occupancy_rate")),
    }
}

fn popular_event_rows(v: Option<&Json>) -> (r: Vec<PopularEvent>)
    ensures
        r@.map_values(|x: PopularEvent| x@) == array_items(deref_opt(v)).map_values(|j: Json| popular_event_of(Some(j))),
{
    let mut out: Vec<PopularEvent> = Vec::new();
    match v {
        Some(Json::Array(items)) => {
            let n = items.len();
            let mut i: usize = 0;
            while i < n
                invariant
                    n == items@.len(),
                    i <= n,
                    out@.map_values(|x: PopularEvent| x@) == items@.subrange(0, i as int).map_values(
                        |j: Json| popular_event_of(Some(j)),
                    ),
                decreases n - i,
            {
                let row = parse_popular_event(Some(&items[i]));
                let ghost before = out@.map_values(|x: PopularEvent| x@);
                out.push(row);
                proof {
                    assert(items@.subrange(0, i + 1).map_values(|j: Json| popular_event_of(Some(j)))
                        =~= items@.subrange(0, i as int).map_values(|j: Json| popular_event_of(Some(j))).push(
                        popular_event_of(Some(items@[i as int])),
                    ));
                    assert(out@.map_values(|x: PopularEvent| x@) =~= before.push(row@));
                }
                i = i + 1;
            }
            assert(items@.subrange(0, n as int) =~= items@);
            out
        },
        _ => {
            assert(out@.map_values(|x: PopularEvent| x@) =~= Seq::<PopularEventView>::empty());
            out
        },
    }
}

/// How one event of the period performed.
#[derive(Clone, Debug, PartialEq, Eq, Default)]
pub struct PerformanceEvent {
    pub id: String,
    pub name: String,
    pub date_time: String,
    pub capacity: Option<String>,
    pub current_attendees: Option<String>,
    pub pricing_vip: Option<String>,
    pub pricing_vvip: Option<String>,
    pub occupancy_rate: Option<String>,
    pub total_registrations: Option<String>,
    pub confirmed_registrations: Option<String>,
    pub pending_registrations: Option<String>,
    pub cancelled_registrations: Option<String>,
    pub avg_revenue_per_attendee: Option<String>,
}

pub struct PerformanceEventView {
    pub id: Seq<char>,
    pub name: Seq<char>,
    pub date_time: Seq<char>,
    pub capacity: Option<Seq<char>>,
    pub current_attendees: Option<Seq<char>>,
    pub pricing_vip: Option<Seq<char>>,
    pub pricing_vvip: Option<Seq<char>>,
    pub occupancy_rate: Option<Seq<char>>,
    pub total_registrations: Option<Seq<char>>,
    pub confirmed_registrations: Option<Seq<char>>,
    pub pending_registrations: Option<Seq<char>>,
    pub cancelled_registrations: Option<Seq<char>>,
    pub avg_revenue_per_attendee: Option<Seq<char>>,
}

impl View for PerformanceEvent {
    type V = PerformanceEventView;

    open spec fn view(&self) -> PerformanceEventView {
        PerformanceEventView {
            id: self.id@,
            name: self.name@,
            date_time: self.date_time@,
            capacity: opt_view(self.capacity),
            current_attendees: opt_view(self.current_attendees),
            pricing_vip: opt_view(self.pricing_vip),
            pricing_vvip: opt_view(self.pricing_vvip),
            occupancy_rate: opt_view(self.occupancy_rate),
            total_registrations: opt_view(self.total_registrations),
            confirmed_registrations: opt_view(self.confirmed_registrations),
            pending_registrations: opt_view(self.pending_registrations),
            cancelled_registrations: opt_view(self.cancelled_registrations),
            avg_revenue_per_attendee: opt_view(self.avg_revenue_per_attendee),
        }
    }
}

/// The `PerformanceEvent` read from a value: each text or figure from its key.
pub open spec fn performance_event_of(v: Option<Json>) -> PerformanceEventView {
    PerformanceEventView {
        id: view_or_empty(json_id_spec(get_in(v, "id"@))),
        name: view_or_empty(json_text(get_in(v, "name"@))),
        date_time: view_or_empty(json_text(get_in(v, "date_time"@))),
        capacity: amount_text(get_in(v, "capacity"@)),
        current_attendees: amount_text(get_in(v, "current_attendees"@)),
        pricing_vip: amount_text(get_in(v, "pricing_vip"@)),
        pricing_vvip: amount_text(get_in(v, "pricing_vvip"@)),
        occupancy_rate: amount_text(get_in(v, "occupancy_rate"@)),
        total_registrations: amount_text(get_in(v, "total_registrations"@)),
        confirmed_registrations: amount_text(get_in(v, "confirmed_registrations"@)),
        pending_registrations: amount_text(get_in(v, "pending_registrations"@)),
        cancelled_registrations: amount_text(get_in(v, "cancelled_registrations"@)),
        avg_revenue_per_attendee: amount_text(get_in(v, "avg_revenue_per_attendee"@)),
    }
}

fn parse_performance_event(v: Option<&Json>) -> (r: PerformanceEvent)
    ensures
        r@ == performance_event_of(deref_opt(v)),
{
    PerformanceEvent {
        id: text_or_empty(json_id(json_get_in(v, "id"))),
        name: json_string_or_empty(json_get_in(v, "name")),
        date_time: json_string_or_empty(json_get_in(v, "date_time")),
        capacity: json_amount(json_get_in(v, "capacity")),
        current_attendees: json_amount(json_get_in(v, "current_attendees")),
        pricing_vip: json_amount(json_get_in(v, "pricing_vip")),
        pricing_vvip: json_amount(json_get_in(v, "pricing_vvip")),
        occupancy_rate: json_amount(json_get_in(v, "occupancy_rate")),
        total_registrations: json_amount(json_get_in(v, "total_registrations")),
        confirmed_registrations: json_amount(json_get_in(v, "confirmed_registrations")),
        pending_registrations: json_amount(json_get_in(v, "pending_registrations")),
        cancelled_registrations: json_amount(json_get_in(v, "cancelled_registrations")),
        avg_revenue_per_attendee: json_amount(json_get_in(v, "avg_revenue_per_attendee")),
    }
}

fn performance_event_rows(v: Option<&Json>) -> (r: Vec<PerformanceEvent>)
    ensures
        r@.map_values(|x: PerformanceEvent| x@) == array_items(deref_opt(v)).map_values(|j: Json| performance_event_of(Some(j))),
{
    let mut out: Vec<PerformanceEvent> = Vec::new();
    match v {
        Some(Json::Array(items)) => {
            let n = items.len();
            let mut i: usize = 0;
            while i < n
                invariant
                    n == items@.len(),
                    i <= n,
                    out@.map_values(|x: PerformanceEvent| x@) == items@.subrange(0, i as int).map_values(
                        |j: Json| performance_event_of(Some(j)),
                    ),
                decreases n - i,
            {
                let row = parse_performance_event(Some(&items[i]));
                let ghost before = out@.map_values(|x: PerformanceEvent| x@);
                out.push(row);
                proof {
                    assert(items@.subrange(0, i + 1).map_values(|j: Json| performance_event_of(Some(j)))
                        =~= items@.subrange(0, i as int).map_values(|j: Json| performance_event_of(Some(j))).push(
                        performance_event_of(Some(items@[i as int])),
                    ));
                    assert(out@.map_values(|x: PerformanceEvent| x@) =~= before.push(row@));
                }
                i = i + 1;
            }
            assert(items@.subrange(0, n as int) =~= items@);
            out
        },
        _ => {
            assert(out@.map_values(|x: PerformanceEvent| x@) =~= Seq::<PerformanceEventView>::empty());
            out
        },
    }
}

/// The registrations of one day.
#[derive(Clone, Debug, PartialEq, Eq, Default)]
pub struct TimelinePoint {
    pub date: String,
    pub registrations: Option<String>,
    pub cumulative_registrations: Option<String>,
}

pub struct TimelinePointView {
    pub date: Seq<char>,
    pub registrations: Option<Seq<char>>,
    pub cumulative_registrations: Option<Seq<char>>,
}

impl View for TimelinePoint {
    type V = TimelinePointView;

    open spec fn view(&self) -> TimelinePointView {
        TimelinePointView {
            date: self.date@,
            registrations: opt_view(self.registrations),
            cumulative_registrations: opt_view(self.cumulative_registrations),
        }
    }
}

/// The `TimelinePoint` read from a value: each text or figure from its key.
pub open spec fn timeline_point_of(v: Option<Json>) -> TimelinePointView {
    TimelinePointView {
        date: view_or_empty(json_text(get_in(v, "date"@))),
        registrations: amount_text(get_in(v, "registrations"@)),
        cumulative_registrations: amount_text(get_in(v, "cumulative_registrations"@)),
    }
}

fn parse_timeline_point(v: Option<&Json>) -> (r: TimelinePoint)
    ensures
        r@ == timeline_point_of(deref_opt(v)),
{
    TimelinePoint {
        date: json_string_or_empty(json_get_in(v, "date")),
        registrations: json_amount(json_get_in(v, "registrations")),
        cumulative_registrations: json_amount(json_get_in(v, "cumulative_registrations")),
    }
}

fn timeline_point_rows(v: Option<&Json>) -> (r: Vec<TimelinePoint>)
    ensures
        r@.map_values(|x: TimelinePoint| x@) == array_items(deref_opt(v)).map_values(|j: Json| timeline_point_of(Some(j))),
{
    let mut out: Vec<TimelinePoint> = Vec::new();
    match v {
        Some(Json::Array(items)) => {
            let n = items.len();
            let mut i: usize = 0;
            while i < n
                invariant
                    n == items@.len(),
                    i <= n,
                    out@.map_values(|x: TimelinePoint| x@) == items@.subrange(0, i as int).map_values(
                        |j: Json| timeline_point_of(Some(j)),
                    ),
                decreases n - i,
            {
                let row = parse_timeline_point(Some(&items[i]));
                let ghost before = out@.map_values(|x: TimelinePoint| x@);
                out.push(row);
                proof {
                    assert(items@.subrange(0, i + 1).map_values(|j: Json| timeline_point_of(Some(j)))
                        =~= items@.subrange(0, i as int).map_values(|j: Json| timeline_point_of(Some(j))).push(
                        timeline_point_of(Some(items@[i as int])),
                    ));
                    assert(out@.map_values(|x: TimelinePoint| x@) =~= before.push(row@));
                }
                i = i + 1;
            }
            assert(items@.subrange(0, n as int) =~= items@);
            out
        },
        _ => {
            assert(out@.map_values(|x: TimelinePoint| x@) =~= Seq::<TimelinePointView>::empty());
            out
        },
    }
}

/// An event's registrations of one membership tier.
#[derive(Clone, Debug, PartialEq, Eq, Default)]
pub struct MembershipSlice {
    pub membership_tier: String,
    pub count: Option<String>,
    pub percentage: Option<String>,
}

pub struct MembershipSliceView {
    pub membership_tier: Seq<char>,
    pub count: Option<Seq<char>>,
    pub percentage: Option<Seq<char>>,
}

impl View for MembershipSlice {
    type V = MembershipSliceView;

    open spec fn view(&self) -> MembershipSliceView {
        MembershipSliceView {
            membership_tier: self.membership_tier@,
            count: opt_view(self.count),
            percentage: opt_view(self.percentage),
        }
    }
}

/// The `MembershipSlice` read from a value: each text or figure from its key.
pub open spec fn membership_slice_of(v: Option<Json>) -> MembershipSliceView {
    MembershipSliceView {
        membership_tier: view_or_empty(json_text(get_in(v, "membership_tier"@))),
        count: amount_text(get_in(v, "count"@)),
        percentage: amount_text(get_in(v, "percentage"@)),
    }
}

fn parse_membership_slice(v: Option<&Json>) -> (r: MembershipSlice)
    ensures
        r@ == membership_slice_of(deref_opt(v)),
{
    MembershipSlice {
        membership_tier: json_string_or_empty(json_get_in(v, "membership_tier")),
        count: json_amount(json_get_in(v, "count")),
        percentage: json_amount(json_get_in(v, "percentage")),
    }
}

fn membership_slice_rows(v: Option<&Json>) -> (r: Vec<MembershipSlice>)
    ensures
        r@.map_values(|x: MembershipSlice| x@) == array_items(deref_opt(v)).map_values(|j: Json| membership_slice_of(Some(j))),
{
    let mut out: Vec<MembershipSlice> = Vec::new();
    match v {
        Some(Json::Array(items)) => {
            let n = items.len();
            let mut i: usize = 0;
            while i < n
                invariant
                    n == items@.len(),
                    i <= n,
                    out@.map_values(|x: MembershipSlice| x@) == items@.subrange(0, i as int).map_values(
                        |j: Json| membership_slice_of(Some(j)),
                    ),
                decreases n - i,
            {
                let row = parse_membership_slice(Some(&items[i]));
                let ghost before = out@.map_values(|x: MembershipSlice| x@);
                out.push(row);
                proof {
                    assert(items@.subrange(0, i + 1).map_values(|j: Json| membership_slice_of(Some(j)))
                        =~= items@.subrange(0, i as int).map_values(|j: Json| membership_slice_of(Some(j))).push(
                        membership_slice_of(Some(items@[i as int])),
                    ));
                    assert(out@.map_values(|x: MembershipSlice| x@) =~= before.push(row@));
                }
                i = i + 1;
            }
            assert(items@.subrange(0, n as int) =~= items@);
            out
        },
        _ => {
            assert(out@.map_values(|x: MembershipSlice| x@) =~= Seq::<MembershipSliceView>::empty());
            out
        },
    }
}

/// An event's registrations of one status.
#[derive(Clone, Debug, PartialEq, Eq, Default)]
pub struct StatusSlice {
    pub status: String,
    pub count: Option<String>,
}

pub struct StatusSliceView {
    pub status: Seq<char>,
    pub count: Option<Seq<char>>,
}

impl View for StatusSlice {
    type V = StatusSliceView;

    open spec fn view(&self) -> StatusSliceView {
        StatusSliceView {
            status: self.status@,
            count: opt_view(self.count),
        }
    }
}

/// The `StatusSlice` read from a value: each text or figure from its key.
pub open spec fn status_slice_of(v: Option<Json>) -> StatusSliceView {
    StatusSliceView {
        status: view_or_empty(json_text(get_in(v, "status"@))),
        count: amount_text(get_in(v, "count"@)),
    }
}

fn parse_status_slice(v: Option<&Json>) -> (r: StatusSlice)
    ensures
        r@ == status_slice_of(deref_opt(v)),
{
    StatusSlice {
        status: json_string_or_empty(json_get_in(v, "status")),
        count: json_amount(json_get_in(v, "count")),
    }
}

fn status_slice_rows(v: Option<&Json>) -> (r: Vec<StatusSlice>)
    ensures
        r@.map_values(|x: StatusSlice| x@) == array_items(deref_opt(v)).map_values(|j: Json| status_slice_of(Some(j))),
{
    let mut out: Vec<StatusSlice> = Vec::new();
    match v {
        Some(Json::Array(items)) => {
            let n = items.len();
            let mut i: usize = 0;
            while i < n
                invariant
                    n == items@.len(),
                    i <= n,
                    out@.map_values(|x: StatusSlice| x@) == items@.subrange(0, i as int).map_values(
                        |j: Json| status_slice_of(Some(j)),
                    ),
                decreases n - i,
            {
                let row = parse_status_slice(Some(&items[i]));
                let ghost before = out@.map_values(|x: StatusSlice| x@);
                out.push(row);
                proof {
                    assert(items@.subrange(0, i + 1).map_values(|j: Json| status_slice_of(Some(j)))
                        =~= items@.subrange(0, i as int).map_values(|j: Json| status_slice_of(Some(j))).push(
                        status_slice_of(Some(items@[i as int])),
                    ));
                    assert(out@.map_values(|x: StatusSlice| x@) =~= before.push(row@));
                }
                i = i + 1;
            }
            assert(items@.subrange(0, n as int) =~= items@);
            out
        },
        _ => {
            assert(out@.map_values(|x: StatusSlice| x@) =~= Seq::<StatusSliceView>::empty());
            out
        },
    }
}

/// The revenue of one month.
#[derive(Clone, Debug, PartialEq, Eq, Default)]
pub struct MonthlyRevenue {
    pub month: String,
    pub revenue: Option<String>,
    pub event_count: Option<String>,
    pub total_registrations: Option<String>,
}

pub struct MonthlyRevenueView {
    pub month: Seq<char>,
    pub revenue: Option<Seq<char>>,
    pub event_count: Option<Seq<char>>,
    pub total_registrations: Option<Seq<char>>,
}

impl View for MonthlyRevenue {
    type V = MonthlyRevenueView;

    open spec fn view(&self) -> MonthlyRevenueView {
        MonthlyRevenueView {
            month: self.month@,
            revenue: opt_view(self.revenue),
            event_count: opt_view(self.event_count),
            total_registrations: opt_view(self.total_registrations),
        }
    }
}

/// The `MonthlyRevenue` read from a value: each text or figure from its key.
pub open spec fn monthly_revenue_of(v: Option<Json>) -> MonthlyRevenueView {
    MonthlyRevenueView {
        month: view_or_empty(json_text(get_in(v, "month"@))),
        revenue: amount_text(get_in(v, "revenue"@)),
        event_count: amount_text(get_in(v, "event_count"@)),
        total_registrations: amount_text(get_in(v, "total_registrations"@)),
    }
}

fn parse_monthly_revenue(v: Option<&Json>) -> (r: MonthlyRevenue)
    ensures
        r@ == monthly_revenue_of(deref_opt(v)),
{
    MonthlyRevenue {
        month: json_string_or_empty(json_get_in(v, "month")),
        revenue: json_amount(json_get_in(v, "revenue")),
        event_count: json_amount(json_get_in(v, "event_count")),
        total_registrations: json_amount(json_get_in(v, "total_registrations")),
    }
}

fn monthly_revenue_rows(v: Option<&Json>) -> (r: Vec<MonthlyRevenue>)
    ensures
        r@.map_values(|x: MonthlyRevenue| x@) == array_items(deref_opt(v)).map_values(|j: Json| monthly_revenue_of(Some(j))),
{
    let mut out: Vec<MonthlyRevenue> = Vec::new();
    match v {
        Some(Json::Array(items)) => {
            let n = items.len();
            let mut i: usize = 0;
            while i < n
                invariant
                    n == items@.len(),
                    i <= n,
                    out@.map_values(|x: MonthlyRevenue| x@) == items@.subrange(0, i as int).map_values(
                        |j: Json| monthly_revenue_of(Some(j)),
                    ),
                decreases n - i,
            {
                let row = parse_monthly_revenue(Some(&items[i]));
                let ghost before = out@.map_values(|x: MonthlyRevenue| x@);
                out.push(row);
                proof {
                    assert(items@.subrange(0, i + 1).map_values(|j: Json| monthly_revenue_of(Some(j)))
                        =~= items@.subrange(0, i as int).map_values(|j: Json| monthly_revenue_of(Some(j))).push(
                        monthly_revenue_of(Some(items@[i as int])),
                    ));
                    assert(out@.map_values(|x: MonthlyRevenue| x@) =~= before.push(row@));
                }
                i = i + 1;
            }
            assert(items@.subrange(0, n as int) =~= items@);
            out
        },
        _ => {
            assert(out@.map_values(|x: MonthlyRevenue| x@) =~= Seq::<MonthlyRevenueView>::empty());
            out
        },
    }
}

/// The revenue of one event category.
#[derive(Clone, Debug, PartialEq, Eq, Default)]
pub struct CategoryRevenue {
    pub category: String,
    pub revenue: Option<String>,
    pub event_count: Option<String>,
    pub avg_revenue_per_event: Option<String>,
}

pub struct CategoryRevenueView {
    pub category: Seq<char>,
    pub revenue: Option<Seq<char>>,
    pub event_count: Option<Seq<char>>,
    pub avg_revenue_per_event: Option<Seq<char>>,
}

impl View for CategoryRevenue {
    type V = CategoryRevenueView;

    open spec fn view(&self) -> CategoryRevenueView {
        CategoryRevenueView {
            category: self.category@,
            revenue: opt_view(self.revenue),
            event_count: opt_view(self.event_count),
            avg_revenue_per_event: opt_view(self.avg_revenue_per_event),
        }
    }
}

/// The `CategoryRevenue` read from a value: each text or figure from its key.
pub open spec fn category_revenue_of(v: Option<Json>) -> CategoryRevenueView {
    CategoryRevenueView {
        category: view_or_empty(json_text(get_in(v, "category"@))),
        revenue: amount_text(get_in(v, "revenue"@)),
        event_count: amount_text(get_in(v, "event_count"@)),
        avg_revenue_per_event: amount_text(get_in(v, "avg_revenue_per_event"@)),
    }
}

fn parse_category_revenue(v: Option<&Json>) -> (r: CategoryRevenue)
    ensures
        r@ == category_revenue_of(deref_opt(v)),
{
    CategoryRevenue {
        category: json_string_or_empty(json_get_in(v, "category")),
        revenue: json_amount(json_get_in(v, "revenue")),
        event_count: json_amount(json_get_in(v, "event_count")),
        avg_revenue_per_event: json_amount(json_get_in(v, "avg_revenue_per_event")),
    }
}

fn category_revenue_rows(v: Option<&Json>) -> (r: Vec<CategoryRevenue>)
    ensures
        r@.map_values(|x: CategoryRevenue| x@) == array_items(deref_opt(v)).map_values(|j: Json| category_revenue_of(Some(j))),
{
    let mut out: Vec<CategoryRevenue> = Vec::new();
    match v {
        Some(Json::Array(items)) => {
            let n = items.len();
            let mut i: usize = 0;
            while i < n
                invariant
                    n == items@.len(),
                    i <= n,
                    out@.map_values(|x: CategoryRevenue| x@) == items@.subrange(0, i as int).map_values(
                        |j: Json| category_revenue_of(Some(j)),
                    ),
                decreases n - i,
            {
                let row = parse_category_revenue(Some(&items[i]));
                let ghost before = out@.map_values(|x: CategoryRevenue| x@);
                out.push(row);
                proof {
                    assert(items@.subrange(0, i + 1).map_values(|j: Json| category_revenue_of(Some(j)))
                        =~= items@.subrange(0, i as int).map_values(|j: Json| category_revenue_of(Some(j))).push(
                        category_revenue_of(Some(items@[i as int])),
                    ));
                    assert(out@.map_values(|x: CategoryRevenue| x@) =~= before.push(row@));
                }
                i = i + 1;
            }
            assert(items@.subrange(0, n as int) =~= items@);
            out
        },
        _ => {
            assert(out@.map_values(|x: CategoryRevenue| x@) =~= Seq::<CategoryRevenueView>::empty());
            out
        },
    }
}

/// The revenue of one membership tier.
#[derive(Clone, Debug, PartialEq, Eq, Default)]
pub struct TierRevenue {
    pub membership_tier: String,
    pub registration_count: Option<String>,
    pub total_revenue: Option<String>,
}

pub struct TierRevenueView {
    pub membership_tier: Seq<char>,
    pub registration_count: Option<Seq<char>>,
    pub total_revenue: Option<Seq<char>>,
}

impl View for TierRevenue {
    type V = TierRevenueView;

    open spec fn view(&self) -> TierRevenueView {
        TierRevenueView {
            membership_tier: self.membership_tier@,
            registration_count: opt_view(self.registration_count),
            total_revenue: opt_view(self.total_revenue),
        }
    }
}

/// The `TierRevenue` read from a value: each text or figure from its key.
pub open spec fn tier_revenue_of(v: Option<Json>) -> TierRevenueView {
    TierRevenueView {
        membership_tier: view_or_empty(json_text(get_in(v, "membership_tier"@))),
        registration_count: amount_text(get_in(v, "registration_count"@)),
        total_revenue: amount_text(get_in(v, "total_revenue"@)),
    }
}

fn parse_tier_revenue(v: Option<&Json>) -> (r: TierRevenue)
    ensures
        r@ == tier_revenue_of(deref_opt(v)),
{
    TierRevenue {
        membership_tier: json_string_or_empty(json_get_in(v, "membership_tier")),
        registration_count: json_amount(json_get_in(v, "registration_count")),
        total_revenue: json_amount(json_get_in(v, "total_revenue")),
    }
}

fn tier_revenue_rows(v: Option<&Json>) -> (r: Vec<TierRevenue>)
    ensures
        r@.map_values(|x: TierRevenue| x@) == array_items(deref_opt(v)).map_values(|j: Json| tier_revenue_of(Some(j))),
{
    let mut out: Vec<TierRevenue> = Vec::new();
    match v {
        Some(Json::Array(items)) => {
            let n = items.len();
            let mut i: usize = 0;
            while i < n
                invariant
                    n == items@.len(),
                    i <= n,
                    out@.map_values(|x: TierRevenue| x@) == items@.subrange(0, i as int).map_values(
                        |j: Json| tier_revenue_of(Some(j)),
                    ),
                decreases n - i,
            {
                let row = parse_tier_revenue(Some(&items[i]));
                let ghost before = out@.map_values(|x: TierRevenue| x@);
                out.push(row);
                proof {
                    assert(items@.subrange(0, i + 1).map_values(|j: Json| tier_revenue_of(Some(j)))
                        =~= items@.subrange(0, i as int).map_values(|j: Json| tier_revenue_of(Some(j))).push(
                        tier_revenue_of(Some(items@[i as int])),
                    ));
                    assert(out@.map_values(|x: TierRevenue| x@) =~= before.push(row@));
                }
                i = i + 1;
            }
            assert(items@.subrange(0, n as int) =~= items@);
            out
        },
        _ => {
            assert(out@.map_values(|x: TierRevenue| x@) =~= Seq::<TierRevenueView>::empty());
            out
        },
    }
}

/// How the members of one tier take part.
#[derive(Clone, Debug, PartialEq, Eq, Default)]
pub struct TierEngagement {
    pub membership_tier: String,
    pub total_members: Option<String>,
    pub active_members: Option<String>,
    pub engagement_rate: Option<String>,
    pub avg_events_per_member: Option<String>,
}

pub struct TierEngagementView {
    pub membership_tier: Seq<char>,
    pub total_members: Option<Seq<char>>,
    pub active_members: Option<Seq<char>>,
    pub engagement_rate: Option<Seq<char>>,
    pub avg_events_per_member: Option<Seq<char>>,
}

impl View for TierEngagement {
    type V = TierEngagementView;

    open spec fn view(&self) -> TierEngagementView {
        TierEngagementView {
            membership_tier: self.membership_tier@,
            total_members: opt_view(self.total_members),
            active_members: opt_view(self.active_members),
            engagement_rate: opt_view(self.engagement_rate),
            avg_events_per_member: opt_view(self.avg_events_per_member),
        }
    }
}

/// The `TierEngagement` read from a value: each text or figure from its key.
pub open spec fn tier_engagement_of(v: Option<Json>) -> TierEngagementView {
    TierEngagementView {
        membership_tier: view_or_empty(json_text(get_in(v, "membership_tier"@))),
        total_members: amount_text(get_in(v, "total_members"@)),
        active_members: amount_text(get_in(v, "active_members"@)),
        engagement_rate: amount_text(get_in(v, "engagement_rate"@)),
        avg_events_per_member: amount_text(get_in(v, "avg_events_per_member"@)),
    }
}

fn parse_tier_engagement(v: Option<&Json>) -> (r: TierEngagement)
    ensures
        r@ == tier_engagement_of(deref_opt(v)),
{
    TierEngagement {
        membership_tier: json_string_or_empty(json_get_in(v, "membership_tier")),
        total_members: json_amount(json_get_in(v, "total_members")),
        active_members: json_amount(json_get_in(v, "active_members")),
        engagement_rate: json_amount(json_get_in(v, "engagement_rate")),
        avg_events_per_member: json_amount(json_get_in(v, "avg_events_per_member")),
    }
}

fn tier_engagement_rows(v: Option<&Json>) -> (r: Vec<TierEngagement>)
    ensures
        r@.map_values(|x: TierEngagement| x@) == array_items(deref_opt(v)).map_values(|j: Json| tier_engagement_of(Some(j))),
{
    let mut out: Vec<TierEngagement> = Vec::new();
    match v {
        Some(Json::Array(items)) => {
            let n = items.len();
            let mut i: usize = 0;
            while i < n
                invariant
                    n == items@.len(),
                    i <= n,
                    out@.map_values(|x: TierEngagement| x@) == items@.subrange(0, i as int).map_values(
                        |j: Json| tier_engagement_of(Some(j)),
                    ),
                decreases n - i,
            {
                let row = parse_tier_engagement(Some(&items[i]));
                let ghost before = out@.map_values(|x: TierEngagement| x@);
                out.push(row);
                proof {
                    assert(items@.subrange(0, i + 1).map_values(|j: Json| tier_engagement_of(Some(j)))
                        =~= items@.subrange(0, i as int).map_values(|j: Json| tier_engagement_of(Some(j))).push(
                        tier_engagement_of(Some(items@[i as int])),
                    ));
                    assert(out@.map_values(|x: TierEngagement| x@) =~= before.push(row@));
                }
                i = i + 1;
            }
            assert(items@.subrange(0, n as int) =~= items@);
            out
        },
        _ => {
            assert(out@.map_values(|x: TierEngagement| x@) =~= Seq::<TierEngagementView>::empty());
            out
        },
    }
}

/// One of the most active members.
#[derive(Clone, Debug, PartialEq, Eq, Default)]
pub struct TopMember {
    pub first_name: String,
    pub last_name: String,
    pub membership_tier: String,
    pub events_attended: Option<String>,
    pub total_spent: Option<String>,
}

pub struct TopMemberView {
    pub first_name: Seq<char>,
    pub last_name: Seq<char>,
    pub membership_tier: Seq<char>,
    pub events_attended: Option<Seq<char>>,
    pub total_spent: Option<Seq<char>>,
}

impl View for TopMember {
    type V = TopMemberView;

    open spec fn view(&self) -> TopMemberView {
        TopMemberView {
            first_name: self.first_name@,
            last_name: self.last_name@,
            membership_tier: self.membership_tier@,
            events_attended: opt_view(self.events_attended),
            total_spent: opt_view(self.total_spent),
        }
    }
}

/// The `TopMember` read from a value: each text or figure from its key.
pub open spec fn top_member_of(v: Option<Json>) -> TopMemberView {
    TopMemberView {
        first_name: view_or_empty(json_text(get_in(v, "first_name"@))),
        last_name: view_or_empty(json_text(get_in(v, "last_name"@))),
        membership_tier: view_or_empty(json_text(get_in(v, "membership_tier"@))),
        events_attended: amount_text(get_in(v, "events_attended"@)),
        total_spent: amount_text(get_in(v, "total_spent"@)),
    }
}

fn parse_top_member(v: Option<&Json>) -> (r: TopMember)
    ensures
        r@ == top_member_of(deref_opt(v)),
{
    TopMember {
        first_name: json_string_or_empty(json_get_in(v, "first_name")),
        last_name: json_string_or_empty(json_get_in(v, "last_name")),
        membership_tier: json_string_or_empty(json_get_in(v, "membership_tier")),
        events_attended: json_amount(json_get_in(v, "events_attended")),
        total_spent: json_amount(json_get_in(v, "total_spent")),
    }
}

fn top_member_rows(v: Option<&Json>) -> (r: Vec<TopMember>)
    ensures
        r@.map_values(|x: TopMember| x@) == array_items(deref_opt(v)).map_values(|j: Json| top_member_of(Some(j))),
{
    let mut out: Vec<TopMember> = Vec::new();
    match v {
        Some(Json::Array(items)) => {
            let n = items.len();
            let mut i: usize = 0;
            while i < n
                invariant
                    n == items@.len(),
                    i <= n,
                    out@.map_values(|x: TopMember| x@) == items@.subrange(0, i as int).map_values(
                        |j: Json| top_member_of(Some(j)),
                    ),
                decreases n - i,
            {
                let row = parse_top_member(Some(&items[i]));
                let ghost before = out@.map_values(|x: TopMember| x@);
                out.push(row);
                proof {
                    assert(items@.subrange(0, i + 1).map_values(|j: Json| top_member_of(Some(j)))
                        =~= items@.subrange(0, i as int).map_values(|j: Json| top_member_of(Some(j))).push(
                        top_member_of(Some(items@[i as int])),
                    ));
                    assert(out@.map_values(|x: TopMember| x@) =~= before.push(row@));
                }
                i = i + 1;
            }
            assert(items@.subrange(0, n as int) =~= items@);
            out
        },
        _ => {
            assert(out@.map_values(|x: TopMember| x@) =~= Seq::<TopMemberView>::empty());
            out
        },
    }
}

/// The members who joined in one month and are still active.
#[derive(Clone, Debug, PartialEq, Eq, Default)]
pub struct RetentionCohort {
    pub cohort_month: String,
    pub cohort_size: Option<String>,
    pub active_this_month: Option<String>,
    pub retention_rate: Option<String>,
}

pub struct RetentionCohortView {
    pub cohort_month: Seq<char>,
    pub cohort_size: Option<Seq<char>>,
    pub active_this_month: Option<Seq<char>>,
    pub retention_rate: Option<Seq<char>>,
}

impl View for RetentionCohort {
    type V = RetentionCohortView;

    open spec fn view(&self) -> RetentionCohortView {
        RetentionCohortView {
            cohort_month: self.cohort_month@,
            cohort_size: opt_view(self.cohort_size),
            active_this_month: opt_view(self.active_this_month),
            retention_rate: opt_view(self.retention_rate),
        }
    }
}

/// The `RetentionCohort` read from a value: each text or figure from its key.
pub open spec fn retention_of(v: Option<Json>) -> RetentionCohortView {
    RetentionCohortView {
        cohort_month: view_or_empty(json_text(get_in(v, "cohort_month"@))),
        cohort_size: amount_text(get_in(v, "cohort_size"@)),
        active_this_month: amount_text(get_in(v, "active_this_month"@)),
        retention_rate: amount_text(get_in(v, "retention_rate"@)),
    }
}

fn parse_retention(v: Option<&Json>) -> (r: RetentionCohort)
    ensures
        r@ == retention_of(deref_opt(v)),
{
    RetentionCohort {
        cohort_month: json_string_or_empty(json_get_in(v, "cohort_month")),
        cohort_size: json_amount(json_get_in(v, "cohort_size")),
        active_this_month: json_amount(json_get_in(v, "active_this_month")),
        retention_rate: json_amount(json_get_in(v, "retention_rate")),
    }
}

fn retention_rows(v: Option<&Json>) -> (r: Vec<RetentionCohort>)
    ensures
        r@.map_values(|x: RetentionCohort| x@) == array_items(deref_opt(v)).map_values(|j: Json| retention_of(Some(j))),
{
    let mut out: Vec<RetentionCohort> = Vec::new();
    match v {
        Some(Json::Array(items)) => {
            let n = items.len();
            let mut i: usize = 0;
            while i < n
                invariant
                    n == items@.len(),
                    i <= n,
                    out@.map_values(|x: RetentionCohort| x@) == items@.subrange(0, i as int).map_values(
                        |j: Json| retention_of(Some(j)),
                    ),
                decreases n - i,
            {
                let row = parse_retention(Some(&items[i]));
                let ghost before = out@.map_values(|x: RetentionCohort| x@);
                out.push(row);
                proof {
                    assert(items@.subrange(0, i + 1).map_values(|j: Json| retention_of(Some(j)))
                        =~= items@.subrange(0, i as int).map_values(|j: Json| retention_of(Some(j))).push(
                        retention_of(Some(items@[i as int])),
                    ));
                    assert(out@.map_values(|x: RetentionCohort| x@) =~= before.push(row@));
                }
                i = i + 1;
            }
            assert(items@.subrange(0, n as int) =~= items@);
            out
        },
        _ => {
            assert(out@.map_values(|x: RetentionCohort| x@) =~= Seq::<RetentionCohortView>::empty());
            out
        },
    }
}

/// The visitors of one day.
#[derive(Clone, Debug, PartialEq, Eq, Default)]
pub struct DailyVisitor {
    pub date: String,
    pub unique_visitors: Option<String>,
    pub total_page_views: Option<String>,
    pub converted_visitors: Option<String>,
    pub avg_pages_per_visitor: Option<String>,
}

pub struct DailyVisitorView {
    pub date: Seq<char>,
    pub unique_visitors: Option<Seq<char>>,
    pub total_page_views: Option<Seq<char>>,
    pub converted_visitors: Option<Seq<char>>,
    pub avg_pages_per_visitor: Option<Seq<char>>,
}

impl View for DailyVisitor {
    type V = DailyVisitorView;

    open spec fn view(&self) -> DailyVisitorView {
        DailyVisitorView {
            date: self.date@,
            unique_visitors: opt_view(self.unique_visitors),
            total_page_views: opt_view(self.total_page_views),
            converted_visitors: opt_view(self.converted_visitors),
            avg_pages_per_visitor: opt_view(self.avg_pages_per_visitor),
        }
    }
}

/// The `DailyVisitor` read from a value: each text or figure from its key.
pub open spec fn daily_visitor_of(v: Option<Json>) -> DailyVisitorView {
    DailyVisitorView {
        date: display_text(get_in(v, "date"@)),
        unique_visitors: amount_text(get_in(v, "unique_visitors"@)),
        total_page_views: amount_text(get_in(v, "total_page_views"@)),
        converted_visitors: amount_text(get_in(v, "converted_visitors"@)),
        avg_pages_per_visitor: amount_text(get_in(v, "avg_pages_per_visitor"@)),
    }
}

fn parse_daily_visitor(v: Option<&Json>) -> (r: DailyVisitor)
    ensures
        r@ == daily_visitor_of(deref_opt(v)),
{
    DailyVisitor {
        date: json_display(json_get_in(v, "date")),
        unique_visitors: json_amount(json_get_in(v, "unique_visitors")),
        total_page_views: json_amount(json_get_in(v, "total_page_views")),
        converted_visitors: json_amount(json_get_in(v, "converted_visitors")),
        avg_pages_per_visitor: json_amount(json_get_in(v, "avg_pages_per_visitor")),
    }
}

fn daily_visitor_rows(v: Option<&Json>) -> (r: Vec<DailyVisitor>)
    ensures
        r@.map_values(|x: DailyVisitor| x@) == array_items(deref_opt(v)).map_values(|j: Json| daily_visitor_of(Some(j))),
{
    let mut out: Vec<DailyVisitor> = Vec::new();
    match v {
        Some(Json::Array(items)) => {
            let n = items.len();
            let mut i: usize = 0;
            while i < n
                invariant
                    n == items@.len(),
                    i <= n,
                    out@.map_values(|x: DailyVisitor| x@) == items@.subrange(0, i as int).map_values(
                        |j: Json| daily_visitor_of(Some(j)),
                    ),
                decreases n - i,
            {
                let row = parse_daily_visitor(Some(&items[i]));
                let ghost before = out@.map_values(|x: DailyVisitor| x@);
                out.push(row);
                proof {
                    assert(items@.subrange(0, i + 1).map_values(|j: Json| daily_visitor_of(Some(j)))
                        =~= items@.subrange(0, i as int).map_values(|j: Json| daily_visitor_of(Some(j))).push(
                        daily_visitor_of(Some(items@[i as int])),
                    ));
                    assert(out@.map_values(|x: DailyVisitor| x@) =~= before.push(row@));
                }
                i = i + 1;
            }
            assert(items@.subrange(0, n as int) =~= items@);
            out
        },
        _ => {
            assert(out@.map_values(|x: DailyVisitor| x@) =~= Seq::<DailyVisitorView>::empty());
            out
        },
    }
}

/// One of the most viewed pages.
#[derive(Clone, Debug, PartialEq, Eq, Default)]
pub struct PopularPage {
    pub path: String,
    pub views: Option<String>,
    pub unique_visitors: Option<String>,
    pub conversion_rate: Option<String>,
}

pub struct PopularPageView {
    pub path: Seq<char>,
    pub views: Option<Seq<char>>,
    pub unique_visitors: Option<Seq<char>>,
    pub conversion_rate: Option<Seq<char>>,
}

impl View for PopularPage {
    type V = PopularPageView;

    open spec fn view(&self) -> PopularPageView {
        PopularPageView {
            path: self.path@,
            views: opt_view(self.views),
            unique_visitors: opt_view(self.unique_visitors),
            conversion_rate: opt_view(self.conversion_rate),
        }
    }
}

/// The `PopularPage` read from a value: each text or figure from its key.
pub open spec fn popular_page_of(v: Option<Json>) -> PopularPageView {
    PopularPageView {
        path: view_or_empty(json_text(get_in(v, "path"@))),
        views: amount_text(get_in(v, "views"@)),
        unique_visitors: amount_text(get_in(v, "unique_visitors"@)),
        conversion_rate: amount_text(get_in(v, "conversion_rate"@)),
    }
}

fn parse_popular_page(v: Option<&Json>) -> (r: PopularPage)
    ensures
        r@ == popular_page_of(deref_opt(v)),
{
    PopularPage {
        path: json_string_or_empty(json_get_in(v, "path")),
        views: json_amount(json_get_in(v, "views")),
        unique_visitors: json_amount(json_get_in(v, "unique_visitors")),
        conversion_rate: json_amount(json_get_in(v, "conversion_rate")),
    }
}

fn popular_page_rows(v: Option<&Json>) -> (r: Vec<PopularPage>)
    ensures
        r@.map_values(|x: PopularPage| x@) == array_items(deref_opt(v)).map_values(|j: Json| popular_page_of(Some(j))),
{
    let mut out: Vec<PopularPage> = Vec::new();
    match v {
        Some(Json::Array(items)) => {
            let n = items.len();
            let mut i: usize = 0;
            while i < n
                invariant
                    n == items@.len(),
                    i <= n,
                    out@.map_values(|x: PopularPage| x@) == items@.subrange(0, i as int).map_values(
                        |j: Json| popular_page_of(Some(j)),
                    ),
                decreases n - i,
            {
                let row = parse_popular_page(Some(&items[i]));
                let ghost before = out@.map_values(|x: PopularPage| x@);
                out.push(row);
                proof {
                    assert(items@.subrange(0, i + 1).map_values(|j: Json| popular_page_of(Some(j)))
                        =~= items@.subrange(0, i as int).map_values(|j: Json| popular_page_of(Some(j))).push(
                        popular_page_of(Some(items@[i as int])),
                    ));
                    assert(out@.map_values(|x: PopularPage| x@) =~= before.push(row@));
                }
                i = i + 1;
            }
            assert(items@.subrange(0, n as int) =~= items@);
            out
        },
        _ => {
            assert(out@.map_values(|x: PopularPage| x@) =~= Seq::<PopularPageView>::empty());
            out
        },
    }
}

/// How visitors engaged with events on one day.
#[derive(Clone, Debug, PartialEq, Eq, Default)]
pub struct EventEngagementDay {
    pub date: String,
    pub unique_visitors: Option<String>,
    pub total_page_views: Option<String>,
    pub event_page_views: Option<String>,
    pub registration_page_views: Option<String>,
    pub avg_time_spent: Option<String>,
}

pub struct EventEngagementDayView {
    pub date: Seq<char>,
    pub unique_visitors: Option<Seq<char>>,
    pub total_page_views: Option<Seq<char>>,
    pub event_page_views: Option<Seq<char>>,
    pub registration_page_views: Option<Seq<char>>,
    pub avg_time_spent: Option<Seq<char>>,
}

impl View for EventEngagementDay {
    type V = EventEngagementDayView;

    open spec fn view(&self) -> EventEngagementDayView {
        EventEngagementDayView {
            date: self.date@,
            unique_visitors: opt_view(self.unique_visitors),
            total_page_views: opt_view(self.total_page_views),
            event_page_views: opt_view(self.event_page_views),
            registration_page_views: opt_view(self.registration_page_views),
            avg_time_spent: opt_view(self.avg_time_spent),
        }
    }
}

/// The `EventEngagementDay` read from a value: each text or figure from its key.
pub open spec fn event_engagement_day_of(v: Option<Json>) -> EventEngagementDayView {
    EventEngagementDayView {
        date: display_text(get_in(v, "date"@)),
        unique_visitors: amount_text(get_in(v, "unique_visitors"@)),
        total_page_views: amount_text(get_in(v, "total_page_views"@)),
        event_page_views: amount_text(get_in(v, "event_page_views"@)),
        registration_page_views: amount_text(get_in(v, "registration_page_views"@)),
        avg_time_spent: amount_text(get_in(v, "avg_time_spent"@)),
    }
}

fn parse_event_engagement_day(v: Option<&Json>) -> (r: EventEngagementDay)
    ensures
        r@ == event_engagement_day_of(deref_opt(v)),
{
    EventEngagementDay {
        date: json_display(json_get_in(v, "date")),
        unique_visitors: json_amount(json_get_in(v, "unique_visitors")),
        total_page_views: json_amount(json_get_in(v, "total_page_views")),
        event_page_views: json_amount(json_get_in(v, "event_page_views")),
        registration_page_views: json_amount(json_get_in(v, "registration_page_views")),
        avg_time_spent: json_amount(json_get_in(v, "avg_time_spent")),
    }
}

fn event_engagement_day_rows(v: Option<&Json>) -> (r: Vec<EventEngagementDay>)
    ensures
        r@.map_values(|x: EventEngagementDay| x@) == array_items(deref_opt(v)).map_values(|j: Json| event_engagement_day_of(Some(j))),
{
    let mut out: Vec<EventEngagementDay> = Vec::new();
    match v {
        Some(Json::Array(items)) => {
            let n = items.len();
            let mut i: usize = 0;
            while i < n
                invariant
                    n == items@.len(),
                    i <= n,
                    out@.map_values(|x: EventEngagementDay| x@) == items@.subrange(0, i as int).map_values(
                        |j: Json| event_engagement_day_of(Some(j)),
                    ),
                decreases n - i,
            {
                let row = parse_event_engagement_day(Some(&items[i]));
                let ghost before = out@.map_values(|x: EventEngagementDay| x@);
                out.push(row);
                proof {
                    assert(items@.subrange(0, i + 1).map_values(|j: Json| event_engagement_day_of(Some(j)))
                        =~= items@.subrange(0, i as int).map_values(|j: Json| event_engagement_day_of(Some(j))).push(
                        event_engagement_day_of(Some(items@[i as int])),
                    ));
                    assert(out@.map_values(|x: EventEngagementDay| x@) =~= before.push(row@));
                }
                i = i + 1;
            }
            assert(items@.subrange(0, n as int) =~= items@);
            out
        },
        _ => {
            assert(out@.map_values(|x: EventEngagementDay| x@) =~= Seq::<EventEngagementDayView>::empty());
            out
        },
    }
}

/// The reporting period of an analytics answer: its `period_days`, the
/// default window where there is none.
pub open spec fn period_in(d: Json) -> u32 {
    match json_u32_spec(get(d, "period_days"@)) {
        Some(n) => n,
        None => DEFAULT_DATE_WINDOW_DAYS,
    }
}

fn period_of_answer(d: &Json) -> (r: u32)
    ensures
        r == period_in(*d),
{
    match json_u32(json_get(d, "period_days")) {
        Some(n) => n,
        None => DEFAULT_DATE_WINDOW_DAYS,
    }
}

fn text_or_empty(t: Option<String>) -> (r: String)
    ensures
        r@ == view_or_empty(opt_view(t)),
{
    match t {
        Some(x) => x,
        None => String::new(),
    }
}

fn first_text(a: Option<String>, b: Option<String>) -> (r: Option<String>)
    ensures
        opt_view(r) == or_text(opt_view(a), opt_view(b)),
{
    match a {
        Some(x) => Some(x),
        None => b,
    }
}

/// The event analytics of a period.
#[derive(Clone, Debug, PartialEq, Eq, Default)]
pub struct EventsOverview {
    pub period_days: u32,
    pub event_stats: EventStats,
    pub registration_stats: RegistrationStats,
    pub popular_events: Vec<PopularEvent>,
}

pub struct EventsOverviewView {
    pub period_days: u32,
    pub event_stats: EventStatsView,
    pub registration_stats: RegistrationStatsView,
    pub popular_events: Seq<PopularEventView>,
}

impl View for EventsOverview {
    type V = EventsOverviewView;

    open spec fn view(&self) -> EventsOverviewView {
        EventsOverviewView {
            period_days: self.period_days,
            event_stats: self.event_stats@,
            registration_stats: self.registration_stats@,
            popular_events: self.popular_events@.map_values(|x: PopularEvent| x@),
        }
    }
}

/// The overview of an accepted `data`: the period, the event and
/// registration counts, and every popular-event row.
pub open spec fn events_overview_of(d: Json) -> EventsOverviewView {
    EventsOverviewView {
        period_days: period_in(d),
        event_stats: event_stats_of(get(d, "event_stats"@)),
        registration_stats: registration_stats_of(get(d, "registration_stats"@)),
        popular_events: array_items(get(d, "popular_events"@)).map_values(
            |j: Json| popular_event_of(Some(j)),
        ),
    }
}

pub open spec fn events_overview_result(status: u16, body_blank: bool, parsed: Option<Json>) -> Result<EventsOverviewView, Seq<char>> {
    match analytics_data(status, body_blank, parsed, OVERVIEW_FALLBACK@) {
        Ok(d) => Ok(events_overview_of(d)),
        Err(e) => Err(e),
    }
}

pub fn parse_events_overview_response(status: u16, body: &str) -> (r: Result<EventsOverview, String>)
    ensures
        view_result(r) == events_overview_result(status, is_blank(body@), parsed_json(body@)),
{
    let d = parse_success_data(status, body, OVERVIEW_FALLBACK)?;
    Ok(
        EventsOverview {
            period_days: period_of_answer(&d),
            event_stats: parse_event_stats(json_get(&d, "event_stats")),
            registration_stats: parse_registration_stats(json_get(&d, "registration_stats")),
            popular_events: popular_event_rows(json_get(&d, "popular_events")),
        },
    )
}

/// How the events of a period performed.
#[derive(Clone, Debug, PartialEq, Eq, Default)]
pub struct EventsPerformance {
    pub period_days: u32,
    pub events: Vec<PerformanceEvent>,
}

pub struct EventsPerformanceView {
    pub period_days: u32,
    pub events: Seq<PerformanceEventView>,
}

impl View for EventsPerformance {
    type V = EventsPerformanceView;

    open spec fn view(&self) -> EventsPerformanceView {
        EventsPerformanceView {
            period_days: self.period_days,
            events: self.events@.map_values(|x: PerformanceEvent| x@),
        }
    }
}

pub open spec fn events_performance_result(status: u16, body_blank: bool, parsed: Option<Json>) -> Result<EventsPerformanceView, Seq<char>> {
    match analytics_data(status, body_blank, parsed, PERFORMANCE_FALLBACK@) {
        Ok(d) => Ok(
            EventsPerformanceView {
                period_days: period_in(d),
                events: array_items(get(d, "events"@)).map_values(
                    |j: Json| performance_event_of(Some(j)),
                ),
            },
        ),
        Err(e) => Err(e),
    }
}

pub fn parse_events_performance_response(status: u16, body: &str) -> (r: Result<EventsPerformance, String>)
    ensures
        view_result(r) == events_performance_result(status, is_blank(body@), parsed_json(body@)),
{
    let d = parse_success_data(status, body, PERFORMANCE_FALLBACK)?;
    Ok(
        EventsPerformance {
            period_days: period_of_answer(&d),
            events: performance_event_rows(json_get(&d, "events")),
        },
    )
}

/// One event's performance: its sales figures, its registrations day by
/// day, and how they split by tier and by status.
#[derive(Clone, Debug, PartialEq, Eq, Default)]
pub struct EventPerformanceDetail {
    pub event: PerformanceEventDetail,
    pub registration_timeline: Vec<TimelinePoint>,
    pub membership_breakdown: Vec<MembershipSlice>,
    pub status_breakdown: Vec<StatusSlice>,
}

pub struct EventPerformanceDetailView {
    pub event: PerformanceEventDetailView,
    pub registration_timeline: Seq<TimelinePointView>,
    pub membership_breakdown: Seq<MembershipSliceView>,
    pub status_breakdown: Seq<StatusSliceView>,
}

impl View for EventPerformanceDetail {
    type V = EventPerformanceDetailView;

    open spec fn view(&self) -> EventPerformanceDetailView {
        EventPerformanceDetailView {
            event: self.event@,
            registration_timeline: self.registration_timeline@.map_values(|x: TimelinePoint| x@),
            membership_breakdown: self.membership_breakdown@.map_values(|x: MembershipSlice| x@),
            status_breakdown: self.status_breakdown@.map_values(|x: StatusSlice| x@),
        }
    }
}

pub open spec fn event_performance_detail_result(status: u16, body_blank: bool, parsed: Option<Json>) -> Result<EventPerformanceDetailView, Seq<char>> {
    match event_detail_data(status, body_blank, parsed) {
        Ok(d) => Ok(
            EventPerformanceDetailView {
                event: performance_event_detail_of(get(d, "event"@)),
                registration_timeline: array_items(get(d, "registrationTimeline"@)).map_values(
                    |j: Json| timeline_point_of(Some(j)),
                ),
                membership_breakdown: array_items(get(d, "membershipBreakdown"@)).map_values(
                    |j: Json| membership_slice_of(Some(j)),
                ),
                status_breakdown: array_items(get(d, "statusBreakdown"@)).map_values(
                    |j: Json| status_slice_of(Some(j)),
                ),
            },
        ),
        Err(e) => Err(e),
    }
}

pub fn parse_event_performance_detail_response(status: u16, body: &str) -> (r: Result<EventPerformanceDetail, String>)
    ensures
        view_result(r) == event_performance_detail_result(status, is_blank(body@), parsed_json(body@)),
{
    let d = event_performance_detail_data(status, body)?;
    Ok(
        EventPerformanceDetail {
            event: parse_performance_event_detail(json_get(&d, "event")),
            registration_timeline: timeline_point_rows(json_get(&d, "registrationTimeline")),
            membership_breakdown: membership_slice_rows(json_get(&d, "membershipBreakdown")),
            status_breakdown: status_slice_rows(json_get(&d, "statusBreakdown")),
        },
    )
}

/// The revenue analytics: by month, by category and by tier.
#[derive(Clone, Debug, PartialEq, Eq, Default)]
pub struct RevenueData {
    pub monthly_revenue: Vec<MonthlyRevenue>,
    pub category_revenue: Vec<CategoryRevenue>,
    pub tier_revenue: Vec<TierRevenue>,
}

pub struct RevenueDataView {
    pub monthly_revenue: Seq<MonthlyRevenueView>,
    pub category_revenue: Seq<CategoryRevenueView>,
    pub tier_revenue: Seq<TierRevenueView>,
}

impl View for RevenueData {
    type V = RevenueDataView;

    open spec fn view(&self) -> RevenueDataView {
        RevenueDataView {
            monthly_revenue: self.monthly_revenue@.map_values(|x: MonthlyRevenue| x@),
            category_revenue: self.category_revenue@.map_values(|x: CategoryRevenue| x@),
            tier_revenue: self.tier_revenue@.map_values(|x: TierRevenue| x@),
        }
    }
}

pub open spec fn revenue_result(status: u16, body_blank: bool, parsed: Option<Json>) -> Result<RevenueDataView, Seq<char>> {
    match analytics_data(status, body_blank, parsed, REVENUE_FALLBACK@) {
        Ok(d) => Ok(
            RevenueDataView {
                monthly_revenue: array_items(get(d, "monthlyRevenue"@)).map_values(
                    |j: Json| monthly_revenue_of(Some(j)),
                ),
                category_revenue: array_items(get(d, "categoryRevenue"@)).map_values(
                    |j: Json| category_revenue_of(Some(j)),
                ),
                tier_revenue: array_items(get(d, "tierRevenue"@)).map_values(
                    |j: Json| tier_revenue_of(Some(j)),
                ),
            },
        ),
        Err(e) => Err(e),
    }
}

pub fn parse_revenue_response(status: u16, body: &str) -> (r: Result<RevenueData, String>)
    ensures
        view_result(r) == revenue_result(status, is_blank(body@), parsed_json(body@)),
{
    let d = parse_success_data(status, body, REVENUE_FALLBACK)?;
    Ok(
        RevenueData {
            monthly_revenue: monthly_revenue_rows(json_get(&d, "monthlyRevenue")),
            category_revenue: category_revenue_rows(json_get(&d, "categoryRevenue")),
            tier_revenue: tier_revenue_rows(json_get(&d, "tierRevenue")),
        },
    )
}

/// How members take part: by tier, the most active members, and retention
/// by cohort.
#[derive(Clone, Debug, PartialEq, Eq, Default)]
pub struct MembersEngagement {
    pub engagement: Vec<TierEngagement>,
    pub top_members: Vec<TopMember>,
    pub retention: Vec<RetentionCohort>,
}

pub struct MembersEngagementView {
    pub engagement: Seq<TierEngagementView>,
    pub top_members: Seq<TopMemberView>,
    pub retention: Seq<RetentionCohortView>,
}

impl View for MembersEngagement {
    type V = MembersEngagementView;

    open spec fn view(&self) -> MembersEngagementView {
        MembersEngagementView {
            engagement: self.engagement@.map_values(|x: TierEngagement| x@),
            top_members: self.top_members@.map_values(|x: TopMember| x@),
            retention: self.retention@.map_values(|x: RetentionCohort| x@),
        }
    }
}

pub open spec fn members_engagement_result(status: u16, body_blank: bool, parsed: Option<Json>) -> Result<MembersEngagementView, Seq<char>> {
    match analytics_data(status, body_blank, parsed, MEMBERS_FALLBACK@) {
        Ok(d) => Ok(
            MembersEngagementView {
                engagement: array_items(get(d, "engagement"@)).map_values(
                    |j: Json| tier_engagement_of(Some(j)),
                ),
                top_members: array_items(get(d, "topMembers"@)).map_values(
                    |j: Json| top_member_of(Some(j)),
                ),
                retention: array_items(get(d, "retention"@)).map_values(|j: Json| retention_of(Some(j))),
            },
        ),
        Err(e) => Err(e),
    }
}

pub fn parse_members_engagement_response(status: u16, body: &str) -> (r: Result<MembersEngagement, String>)
    ensures
        view_result(r) == members_engagement_result(status, is_blank(body@), parsed_json(body@)),
{
    let d = parse_success_data(status, body, MEMBERS_FALLBACK)?;
    Ok(
        MembersEngagement {
            engagement: tier_engagement_rows(json_get(&d, "engagement")),
            top_members: top_member_rows(json_get(&d, "topMembers")),
            retention: retention_rows(json_get(&d, "retention")),
        },
    )
}

/// The visitors of a period.
#[derive(Clone, Debug, PartialEq, Eq, Default)]
pub struct VisitorsOverview {
    pub period_days: u32,
    pub unique_visitors: Option<String>,
    pub total_page_views: Option<String>,
    pub converted_visitors: Option<String>,
    pub avg_pages_per_visitor: Option<String>,
    pub new_visitors: Option<String>,
}

pub struct VisitorsOverviewView {
    pub period_days: u32,
    pub unique_visitors: Option<Seq<char>>,
    pub total_page_views: Option<Seq<char>>,
    pub converted_visitors: Option<Seq<char>>,
    pub avg_pages_per_visitor: Option<Seq<char>>,
    pub new_visitors: Option<Seq<char>>,
}

impl View for VisitorsOverview {
    type V = VisitorsOverviewView;

    open spec fn view(&self) -> VisitorsOverviewView {
        VisitorsOverviewView {
            period_days: self.period_days,
            unique_visitors: opt_view(self.unique_visitors),
            total_page_views: opt_view(self.total_page_views),
            converted_visitors: opt_view(self.converted_visitors),
            avg_pages_per_visitor: opt_view(self.avg_pages_per_visitor),
            new_visitors: opt_view(self.new_visitors),
        }
    }
}

pub open spec fn visitors_overview_result(status: u16, body_blank: bool, parsed: Option<Json>) -> Result<VisitorsOverviewView, Seq<char>> {
    match analytics_data(status, body_blank, parsed, VISITORS_FALLBACK@) {
        Ok(d) => Ok(
            VisitorsOverviewView {
                period_days: period_in(d),
                unique_visitors: amount_text(get(d, "unique_visitors"@)),
                total_page_views: amount_text(get(d, "total_page_views"@)),
                converted_visitors: amount_text(get(d, "converted_visitors"@)),
                avg_pages_per_visitor: amount_text(get(d, "avg_pages_per_visitor"@)),
                new_visitors: amount_text(get(d, "new_visitors"@)),
            },
        ),
        Err(e) => Err(e),
    }
}

pub fn parse_visitors_overview_response(status: u16, body: &str) -> (r: Result<VisitorsOverview, String>)
    ensures
        view_result(r) == visitors_overview_result(status, is_blank(body@), parsed_json(body@)),
{
    let d = parse_success_data(status, body, VISITORS_FALLBACK)?;
    Ok(
        VisitorsOverview {
            period_days: period_of_answer(&d),
            unique_visitors: json_amount(json_get(&d, "unique_visitors")),
            total_page_views: json_amount(json_get(&d, "total_page_views")),
            converted_visitors: json_amount(json_get(&d, "converted_visitors")),
            avg_pages_per_visitor: json_amount(json_get(&d, "avg_pages_per_visitor")),
            new_visitors: json_amount(json_get(&d, "new_visitors")),
        },
    )
}

pub open spec fn visitors_daily_result(status: u16, body_blank: bool, parsed: Option<Json>) -> Result<Seq<DailyVisitorView>, Seq<char>> {
    match analytics_array(status, body_blank, parsed, VISITORS_DAILY_FALLBACK@) {
        Ok(items) => Ok(items.map_values(|j: Json| daily_visitor_of(Some(j)))),
        Err(e) => Err(e),
    }
}

pub fn parse_visitors_daily_response(status: u16, body: &str) -> (r: Result<Vec<DailyVisitor>, String>)
    ensures
        crate::json::seq_view_result(r) == visitors_daily_result(status, is_blank(body@), parsed_json(body@)),
{
    let d = parse_success_data(status, body, VISITORS_DAILY_FALLBACK)?;
    match d {
        Json::Array(_) => Ok(daily_visitor_rows(Some(&d))),
        _ => Err(String::from_str(VISITORS_DAILY_FALLBACK)),
    }
}

pub open spec fn popular_pages_result(status: u16, body_blank: bool, parsed: Option<Json>) -> Result<Seq<PopularPageView>, Seq<char>> {
    match analytics_array(status, body_blank, parsed, POPULAR_PAGES_FALLBACK@) {
        Ok(items) => Ok(items.map_values(|j: Json| popular_page_of(Some(j)))),
        Err(e) => Err(e),
    }
}

pub fn parse_popular_pages_response(status: u16, body: &str) -> (r: Result<Vec<PopularPage>, String>)
    ensures
        crate::json::seq_view_result(r) == popular_pages_result(status, is_blank(body@), parsed_json(body@)),
{
    let d = parse_success_data(status, body, POPULAR_PAGES_FALLBACK)?;
    match d {
        Json::Array(_) => Ok(popular_page_rows(Some(&d))),
        _ => Err(String::from_str(POPULAR_PAGES_FALLBACK)),
    }
}

/// How visitors of a period turned into event viewers and members.
#[derive(Clone, Debug, PartialEq, Eq, Default)]
pub struct ConversionStats {
    pub period_days: u32,
    pub total_visitors: Option<String>,
    pub event_viewers: Option<String>,
    pub registered_users: Option<String>,
    pub conversion_rate: Option<String>,
}

pub struct ConversionStatsView {
    pub period_days: u32,
    pub total_visitors: Option<Seq<char>>,
    pub event_viewers: Option<Seq<char>>,
    pub registered_users: Option<Seq<char>>,
    pub conversion_rate: Option<Seq<char>>,
}

impl View for ConversionStats {
    type V = ConversionStatsView;

    open spec fn view(&self) -> ConversionStatsView {
        ConversionStatsView {
            period_days: self.period_days,
            total_visitors: opt_view(self.total_visitors),
            event_viewers: opt_view(self.event_viewers),
            registered_users: opt_view(self.registered_users),
            conversion_rate: opt_view(self.conversion_rate),
        }
    }
}

pub open spec fn conversion_result(status: u16, body_blank: bool, parsed: Option<Json>) -> Result<ConversionStatsView, Seq<char>> {
    match analytics_data(status, body_blank, parsed, CONVERSION_FALLBACK@) {
        Ok(d) => Ok(
            ConversionStatsView {
                period_days: period_in(d),
                total_visitors: amount_text(get(d, "total_visitors"@)),
                event_viewers: amount_text(get(d, "event_viewers"@)),
                registered_users: amount_text(get(d, "registered_users"@)),
                conversion_rate: amount_text(get(d, "conversion_rate"@)),
            },
        ),
        Err(e) => Err(e),
    }
}

pub fn parse_conversion_response(status: u16, body: &str) -> (r: Result<ConversionStats, String>)
    ensures
        view_result(r) == conversion_result(status, is_blank(body@), parsed_json(body@)),
{
    let d = parse_success_data(status, body, CONVERSION_FALLBACK)?;
    Ok(
        ConversionStats {
            period_days: period_of_answer(&d),
            total_visitors: json_amount(json_get(&d, "total_visitors")),
            event_viewers: json_amount(json_get(&d, "event_viewers")),
            registered_users: json_amount(json_get(&d, "registered_users")),
            conversion_rate: json_amount(json_get(&d, "conversion_rate")),
        },
    )
}

/// How visitors engaged with events, day by day, over a period.
#[derive(Clone, Debug, PartialEq, Eq, Default)]
pub struct EventsEngagement {
    pub period_days: u32,
    pub engagement: Vec<EventEngagementDay>,
}

pub struct EventsEngagementView {
    pub period_days: u32,
    pub engagement: Seq<EventEngagementDayView>,
}

impl View for EventsEngagement {
    type V = EventsEngagementView;

    open spec fn view(&self) -> EventsEngagementView {
        EventsEngagementView {
            period_days: self.period_days,
            engagement: self.engagement@.map_values(|x: EventEngagementDay| x@),
        }
    }
}

pub open spec fn events_engagement_result(status: u16, body_blank: bool, parsed: Option<Json>) -> Result<EventsEngagementView, Seq<char>> {
    match analytics_data(status, body_blank, parsed, EVENTS_ENGAGEMENT_FALLBACK@) {
        Ok(d) => Ok(
            EventsEngagementView {
                period_days: period_in(d),
                engagement: array_items(get(d, "engagement"@)).map_values(
                    |j: Json| event_engagement_day_of(Some(j)),
                ),
            },
        ),
        Err(e) => Err(e),
    }
}

pub fn parse_events_engagement_response(status: u16, body: &str) -> (r: Result<EventsEngagement, String>)
    ensures
        view_result(r) == events_engagement_result(status, is_blank(body@), parsed_json(body@)),
{
    let d = parse_success_data(status, body, EVENTS_ENGAGEMENT_FALLBACK)?;
    Ok(
        EventsEngagement {
            period_days: period_of_answer(&d),
            engagement: event_engagement_day_rows(json_get(&d, "engagement")),
        },
    )
}

/// A record taken by its view, if there is one.
pub open spec fn opt_record<T: View>(o: Option<T>) -> Option<T::V> {
    match o {
        Some(x) => Some(x@),
        None => None,
    }
}

/// What the dashboard holds: each part that loaded, and the first error of
/// the parts that did not.
#[derive(Clone, Debug, PartialEq, Eq, Default)]
pub struct DashboardData {
    pub overview: Option<EventsOverview>,
    pub performance: Option<EventsPerformance>,
    pub revenue: Option<RevenueData>,
    pub members: Option<MembersEngagement>,
    pub visitors: Option<VisitorsOverview>,
    pub visitors_daily: Vec<DailyVisitor>,
    pub popular_pages: Vec<PopularPage>,
    pub conversion: Option<ConversionStats>,
    pub events_engagement: Option<EventsEngagement>,
    pub error: Option<String>,
}

pub struct DashboardDataView {
    pub overview: Option<EventsOverviewView>,
    pub performance: Option<EventsPerformanceView>,
    pub revenue: Option<RevenueDataView>,
    pub members: Option<MembersEngagementView>,
    pub visitors: Option<VisitorsOverviewView>,
    pub visitors_daily: Seq<DailyVisitorView>,
    pub popular_pages: Seq<PopularPageView>,
    pub conversion: Option<ConversionStatsView>,
    pub events_engagement: Option<EventsEngagementView>,
    pub error: Option<Seq<char>>,
}

impl View for DashboardData {
    type V = DashboardDataView;

    open spec fn view(&self) -> DashboardDataView {
        DashboardDataView {
            overview: opt_record(self.overview),
            performance: opt_record(self.performance),
            revenue: opt_record(self.revenue),
            members: opt_record(self.members),
            visitors: opt_record(self.visitors),
            visitors_daily: self.visitors_daily@.map_values(|x: DailyVisitor| x@),
            popular_pages: self.popular_pages@.map_values(|x: PopularPage| x@),
            conversion: opt_record(self.conversion),
            events_engagement: opt_record(self.events_engagement),
            error: opt_view(self.error),
        }
    }
}

/// The dashboard before any part has loaded.
pub open spec fn no_dashboard() -> DashboardDataView {
    DashboardDataView {
        overview: None,
        performance: None,
        revenue: None,
        members: None,
        visitors: None,
        visitors_daily: Seq::empty(),
        popular_pages: Seq::empty(),
        conversion: None,
        events_engagement: None,
        error: None,
    }
}

/// An empty dashboard: no part loaded, no error.
pub fn empty_dashboard() -> (d: DashboardData)
    ensures
        d@ == no_dashboard(),
{
    let d = DashboardData {
        overview: None,
        performance: None,
        revenue: None,
        members: None,
        visitors: None,
        visitors_daily: Vec::new(),
        popular_pages: Vec::new(),
        conversion: None,
        events_engagement: None,
        error: None,
    };
    assert(d@.visitors_daily =~= Seq::<DailyVisitorView>::empty());
    assert(d@.popular_pages =~= Seq::<PopularPageView>::empty());
    d
}

/// Whether any part of the dashboard has something to show.
pub open spec fn has_payload(d: DashboardDataView) -> bool {
    ||| d.overview.is_some()
    ||| d.performance.is_some()
    ||| d.revenue.is_some()
    ||| d.members.is_some()
    ||| d.visitors.is_some()
    ||| d.visitors_daily.len() > 0
    ||| d.popular_pages.len() > 0
    ||| d.conversion.is_some()
    ||| d.events_engagement.is_some()
}

/// `dashboard_has_payload`: a part loaded, or a daily or page list holds a
/// row.
pub fn dashboard_has_payload(data: &DashboardData) -> (b: bool)
    ensures
        b == has_payload(data@),
{
    data.overview.is_some() || data.performance.is_some() || data.revenue.is_some()
        || data.members.is_some() || data.visitors.is_some() || data.visitors_daily.len() > 0
        || data.popular_pages.len() > 0 || data.conversion.is_some()
        || data.events_engagement.is_some()
}

/// The dashboard after a part failed with the given error: the first error
/// stays.
pub open spec fn with_error(d: DashboardDataView, e: Seq<char>) -> DashboardDataView {
    DashboardDataView {
        error: Some(
            match d.error {
                Some(x) => x,
                None => e,
            },
        ),
        ..d
    }
}

/// The dashboard after one part's answer, given its status, whether its
/// body is blank, and the body as parsed: the part's record in its place,
/// or its error kept if it is the first.
pub open spec fn dashboard_after(
    d: DashboardDataView,
    part: DashboardPart,
    status: u16,
    blank: bool,
    parsed: Option<Json>,
) -> DashboardDataView {
    match part {
        DashboardPart::Overview => match events_overview_result(status, blank, parsed) {
            Ok(v) => DashboardDataView { overview: Some(v), ..d },
            Err(e) => with_error(d, e),
        },
        DashboardPart::Performance => match events_performance_result(status, blank, parsed) {
            Ok(v) => DashboardDataView { performance: Some(v), ..d },
            Err(e) => with_error(d, e),
        },
        DashboardPart::Revenue => match revenue_result(status, blank, parsed) {
            Ok(v) => DashboardDataView { revenue: Some(v), ..d },
            Err(e) => with_error(d, e),
        },
        DashboardPart::Members => match members_engagement_result(status, blank, parsed) {
            Ok(v) => DashboardDataView { members: Some(v), ..d },
            Err(e) => with_error(d, e),
        },
        DashboardPart::Visitors => match visitors_overview_result(status, blank, parsed) {
            Ok(v) => DashboardDataView { visitors: Some(v), ..d },
            Err(e) => with_error(d, e),
        },
        DashboardPart::VisitorsDaily => match visitors_daily_result(status, blank, parsed) {
            Ok(v) => DashboardDataView { visitors_daily: v, ..d },
            Err(e) => with_error(d, e),
        },
        DashboardPart::PopularPages => match popular_pages_result(status, blank, parsed) {
            Ok(v) => DashboardDataView { popular_pages: v, ..d },
            Err(e) => with_error(d, e),
        },
        DashboardPart::Conversion => match conversion_result(status, blank, parsed) {
            Ok(v) => DashboardDataView { conversion: Some(v), ..d },
            Err(e) => with_error(d, e),
        },
        DashboardPart::EventsEngagement => match events_engagement_result(status, blank, parsed) {
            Ok(v) => DashboardDataView { events_engagement: Some(v), ..d },
            Err(e) => with_error(d, e),
        },
    }
}

fn note_error(data: &mut DashboardData, e: String)
    ensures
        final(data)@ == with_error(old(data)@, e@),
{
    if data.error.is_none() {
        data.error = Some(e);
    }
}

/// Takes in the outcome of one part's request: the answer's status and
/// body, or the error of a request that got no answer.
pub fn record_dashboard_answer(data: &mut DashboardData, part: DashboardPart, answer: Result<(u16, String), String>)
    ensures
        final(data)@ == (match answer {
            Ok((status, body)) => dashboard_after(old(data)@, part, status, is_blank(body@), parsed_json(body@)),
            Err(e) => with_error(old(data)@, e@),
        }),
{
    let (status, body) = match answer {
        Ok(reply) => reply,
        Err(e) => {
            note_error(data, e);
            return;
        },
    };
    let body = body.as_str();
    match part {
        DashboardPart::Overview => match parse_events_overview_response(status, body) {
            Ok(v) => data.overview = Some(v),
            Err(e) => note_error(data, e),
        },
        DashboardPart::Performance => match parse_events_performance_response(status, body) {
            Ok(v) => data.performance = Some(v),
            Err(e) => note_error(data, e),
        },
        DashboardPart::Revenue => match parse_revenue_response(status, body) {
            Ok(v) => data.revenue = Some(v),
            Err(e) => note_error(data, e),
        },
        DashboardPart::Members => match parse_members_engagement_response(status, body) {
            Ok(v) => data.members = Some(v),
            Err(e) => note_error(data, e),
        },
        DashboardPart::Visitors => match parse_visitors_overview_response(status, body) {
            Ok(v) => data.visitors = Some(v),
            Err(e) => note_error(data, e),
        },
        DashboardPart::VisitorsDaily => match parse_visitors_daily_response(status, body) {
            Ok(v) => data.visitors_daily = v,
            Err(e) => note_error(data, e),
        },
        DashboardPart::PopularPages => match parse_popular_pages_response(status, body) {
            Ok(v) => data.popular_pages = v,
            Err(e) => note_error(data, e),
        },
        DashboardPart::Conversion => match parse_conversion_response(status, body) {
            Ok(v) => data.conversion = Some(v),
            Err(e) => note_error(data, e),
        },
        DashboardPart::EventsEngagement => match parse_events_engagement_response(status, body) {
            Ok(v) => data.events_engagement = Some(v),
            Err(e) => note_error(data, e),
        },
    }
}

/// The dashboard's error is the first one: once a part has failed, no later
/// answer, loaded or failed, changes the error; and an answer that loads
/// its part leaves the error as it was.
pub proof fn lemma_first_error_kept(
    d: DashboardDataView,
    part: DashboardPart,
    status: u16,
    blank: bool,
    parsed: Option<Json>,
    failure: Seq<char>,
)
    ensures
        d.error is Some ==> dashboard_after(d, part, status, blank, parsed).error == d.error,
        d.error is Some ==> with_error(d, failure).error == d.error,
        d.error is None ==> with_error(d, failure).error == Some(failure),
        dashboard_after(d, part, status, blank, parsed).error is None ==> d.error is None,
{
}

/// Every part but `part` is the same in `a` and `b`.
pub open spec fn other_parts_same(a: DashboardDataView, b: DashboardDataView, part: DashboardPart) -> bool {
    &&& part != DashboardPart::Overview ==> b.overview == a.overview
    &&& part != DashboardPart::Performance ==> b.performance == a.performance
    &&& part != DashboardPart::Revenue ==> b.revenue == a.revenue
    &&& part != DashboardPart::Members ==> b.members == a.members
    &&& part != DashboardPart::Visitors ==> b.visitors == a.visitors
    &&& part != DashboardPart::VisitorsDaily ==> b.visitors_daily == a.visitors_daily
    &&& part != DashboardPart::PopularPages ==> b.popular_pages == a.popular_pages
    &&& part != DashboardPart::Conversion ==> b.conversion == a.conversion
    &&& part != DashboardPart::EventsEngagement ==> b.events_engagement == a.events_engagement
}

/// One part's answer touches no other part of the dashboard.
pub proof fn lemma_answer_touches_its_part(
    d: DashboardDataView,
    part: DashboardPart,
    status: u16,
    blank: bool,
    parsed: Option<Json>,
)
    ensures
        other_parts_same(d, dashboard_after(d, part, status, blank, parsed), part),
{
}

/// Each field of `event_stats_of` is read from its own key of the API row: `total_events` from
/// `"total_events"`, `recent_events` from `"recent_events"`, `upcoming_events` from
/// `"upcoming_events"`, `past_events` from `"past_events"`, `avg_occupancy_rate` from
/// `"avg_occupancy_rate"`.
pub proof fn lemma_event_stats_of_reads_keys(v: Option<Json>)
    ensures
        match get_in(v, "total_events"@) { Some(Json::Text(t)) => event_stats_of(v).total_events == Some(t@), Some(Json::Number(n)) => event_stats_of(v).total_events == Some(n.text@), _ => event_stats_of(v).total_events is None },
        match get_in(v, "recent_events"@) { Some(Json::Text(t)) => event_stats_of(v).recent_events == Some(t@), Some(Json::Number(n)) => event_stats_of(v).recent_events == Some(n.text@), _ => event_stats_of(v).recent_events is None },
        match get_in(v, "upcoming_events"@) { Some(Json::Text(t)) => event_stats_of(v).upcoming_events == Some(t@), Some(Json::Number(n)) => event_stats_of(v).upcoming_events == Some(n.text@), _ => event_stats_of(v).upcoming_events is None },
        match get_in(v, "past_events"@) { Some(Json::Text(t)) => event_stats_of(v).past_events == Some(t@), Some(Json::Number(n)) => event_stats_of(v).past_events == Some(n.text@), _ => event_stats_of(v).past_events is None },
        match get_in(v, "avg_occupancy_rate"@) { Some(Json::Text(t)) => event_stats_of(v).avg_occupancy_rate == Some(t@), Some(Json::Number(n)) => event_stats_of(v).avg_occupancy_rate == Some(n.text@), _ => event_stats_of(v).avg_occupancy_rate is None },
{
}

/// Each field of `registration_stats_of` is read from its own key of the API row:
/// `total_registrations` from `"total_registrations"`, `recent_registrations` from
/// `"recent_registrations"`, `unique_attendees` from `"unique_attendees"`.
pub proof fn lemma_registration_stats_of_reads_keys(v: Option<Json>)
    ensures
        match get_in(v, "total_registrations"@) { Some(Json::Text(t)) => registration_stats_of(v).total_registrations == Some(t@), Some(Json::Number(n)) => registration_stats_of(v).total_registrations == Some(n.text@), _ => registration_stats_of(v).total_registrations is None },
        match get_in(v, "recent_registrations"@) { Some(Json::Text(t)) => registration_stats_of(v).recent_registrations == Some(t@), Some(Json::Number(n)) => registration_stats_of(v).recent_registrations == Some(n.text@), _ => registration_stats_of(v).recent_registrations is None },
        match get_in(v, "unique_attendees"@) { Some(Json::Text(t)) => registration_stats_of(v).unique_attendees == Some(t@), Some(Json::Number(n)) => registration_stats_of(v).unique_attendees == Some(n.text@), _ => registration_stats_of(v).unique_attendees is None },
{
}

/// Each field of `performance_event_detail_of` is read from its own key of the API row: `id`
/// from `"id"`, `title` from `"title"`, `fill_rate` from `"fill_rate"`, `current_revenue` from
/// `"current_revenue"`, `potential_revenue` from `"potential_revenue"`, `category_name` from
/// `"category_name"`, `venue_name` from `"venue_name"`, `current_registrations` from
/// `"current_registrations"`, `capacity_max` from `"capacity_max"`.
pub proof fn lemma_performance_event_detail_of_reads_keys(v: Option<Json>)
    ensures
        match get_in(v, "id"@) { Some(Json::Text(t)) => performance_event_detail_of(v).id == t@, Some(Json::Number(n)) => performance_event_detail_of(v).id == n.text@, _ => performance_event_detail_of(v).id.len() == 0 },
        match get_in(v, "title"@) { Some(Json::Text(t)) => performance_event_detail_of(v).title == t@, _ => true },
        match get_in(v, "fill_rate"@) { Some(Json::Text(t)) => performance_event_detail_of(v).fill_rate == Some(t@), Some(Json::Number(n)) => performance_event_detail_of(v).fill_rate == Some(n.text@), _ => performance_event_detail_of(v).fill_rate is None },
        match get_in(v, "current_revenue"@) { Some(Json::Text(t)) => performance_event_detail_of(v).current_revenue == Some(t@), Some(Json::Number(n)) => performance_event_detail_of(v).current_revenue == Some(n.text@), _ => performance_event_detail_of(v).current_revenue is None },
        match get_in(v, "potential_revenue"@) { Some(Json::Text(t)) => performance_event_detail_of(v).potential_revenue == Some(t@), Some(Json::Number(n)) => performance_event_detail_of(v).potential_revenue == Some(n.text@), _ => performance_event_detail_of(v).potential_revenue is None },
        match get_in(v, "category_name"@) { Some(Json::Text(t)) => performance_event_detail_of(v).category_name == t@, _ => performance_event_detail_of(v).category_name.len() == 0 },
        match get_in(v, "venue_name"@) { Some(Json::Text(t)) => performance_event_detail_of(v).venue_name == t@, _ => performance_event_detail_of(v).venue_name.len() == 0 },
        match get_in(v, "current_registrations"@) { Some(Json::Text(t)) => performance_event_detail_of(v).current_registrations == Some(t@), Some(Json::Number(n)) => performance_event_detail_of(v).current_registrations == Some(n.text@), _ => performance_event_detail_of(v).current_registrations is None },
        match get_in(v, "capacity_max"@) { Some(Json::Text(t)) => performance_event_detail_of(v).capacity_max == Some(t@), Some(Json::Number(n)) => performance_event_detail_of(v).capacity_max == Some(n.text@), _ => performance_event_detail_of(v).capacity_max is None },
{
}

/// Each field of `popular_event_of` is read from its own key of the API row: `id` from `"id"`,
/// `name` from `"name"`, `date_time` from `"date_time"`, `capacity` from `"capacity"`,
/// `current_attendees` from `"current_attendees"`, `occupancy_rate` from `"occupancy_rate"`.
pub proof fn lemma_popular_event_of_reads_keys(v: Option<Json>)
    ensures
        match get_in(v, "id"@) { Some(Json::Text(t)) => popular_event_of(v).id == t@, Some(Json::Number(n)) => popular_event_of(v).id == n.text@, _ => popular_event_of(v).id.len() == 0 },
        match get_in(v, "name"@) { Some(Json::Text(t)) => popular_event_of(v).name == t@, _ => popular_event_of(v).name.len() == 0 },
        match get_in(v, "date_time"@) { Some(Json::Text(t)) => popular_event_of(v).date_time == t@, _ => popular_event_of(v).date_time.len() == 0 },
        match get_in(v, "capacity"@) { Some(Json::Text(t)) => popular_event_of(v).capacity == Some(t@), Some(Json::Number(n)) => popular_event_of(v).capacity == Some(n.text@), _ => popular_event_of(v).capacity is None },
        match get_in(v, "current_attendees"@) { Some(Json::Text(t)) => popular_event_of(v).current_attendees == Some(t@), Some(Json::Number(n)) => popular_event_of(v).current_attendees == Some(n.text@), _ => popular_event_of(v).current_attendees is None },
        match get_in(v, "occupancy_rate"@) { Some(Json::Text(t)) => popular_event_of(v).occupancy_rate == Some(t@), Some(Json::Number(n)) => popular_event_of(v).occupancy_rate == Some(n.text@), _ => popular_event_of(v).occupancy_rate is None },
{
}

/// Each field of `performance_event_of` is read from its own key of the API row: `id` from
/// `"id"`, `name` from `"name"`, `date_time` from `"date_time"`, `capacity` from `"capacity"`,
/// `current_attendees` from `"current_attendees"`, `pricing_vip` from `"pricing_vip"`,
/// `pricing_vvip` from `"pricing_vvip"`, `occupancy_rate` from `"occupancy_rate"`,
/// `total_registrations` from `"total_registrations"`, `confirmed_registrations` from
/// `"confirmed_registrations"`, `pending_registrations` from `"pending_registrations"`,
/// `cancelled_registrations` from `"cancelled_registrations"`, `avg_revenue_per_attendee` from
/// `"avg_revenue_per_attendee"`.
pub proof fn lemma_performance_event_of_reads_keys(v: Option<Json>)
    ensures
        match get_in(v, "id"@) { Some(Json::Text(t)) => performance_event_of(v).id == t@, Some(Json::Number(n)) => performance_event_of(v).id == n.text@, _ => performance_event_of(v).id.len() == 0 },
        match get_in(v, "name"@) { Some(Json::Text(t)) => performance_event_of(v).name == t@, _ => performance_event_of(v).name.len() == 0 },
        match get_in(v, "date_time"@) { Some(Json::Text(t)) => performance_event_of(v).date_time == t@, _ => performance_event_of(v).date_time.len() == 0 },
        match get_in(v, "capacity"@) { Some(Json::Text(t)) => performance_event_of(v).capacity == Some(t@), Some(Json::Number(n)) => performance_event_of(v).capacity == Some(n.text@), _ => performance_event_of(v).capacity is None },
        match get_in(v, "current_attendees"@) { Some(Json::Text(t)) => performance_event_of(v).current_attendees == Some(t@), Some(Json::Number(n)) => performance_event_of(v).current_attendees == Some(n.text@), _ => performance_event_of(v).current_attendees is None },
        match get_in(v, "pricing_vip"@) { Some(Json::Text(t)) => performance_event_of(v).pricing_vip == Some(t@), Some(Json::Number(n)) => performance_event_of(v).pricing_vip == Some(n.text@), _ => performance_event_of(v).pricing_vip is None },
        match get_in(v, "pricing_vvip"@) { Some(Json::Text(t)) => performance_event_of(v).pricing_vvip == Some(t@), Some(Json::Number(n)) => performance_event_of(v).pricing_vvip == Some(n.text@), _ => performance_event_of(v).pricing_vvip is None },
        match get_in(v, "occupancy_rate"@) { Some(Json::Text(t)) => performance_event_of(v).occupancy_rate == Some(t@), Some(Json::Number(n)) => performance_event_of(v).occupancy_rate == Some(n.text@), _ => performance_event_of(v).occupancy_rate is None },
        match get_in(v, "total_registrations"@) { Some(Json::Text(t)) => performance_event_of(v).total_registrations == Some(t@), Some(Json::Number(n)) => performance_event_of(v).total_registrations == Some(n.text@), _ => performance_event_of(v).total_registrations is None },
        match get_in(v, "confirmed_registrations"@) { Some(Json::Text(t)) => performance_event_of(v).confirmed_registrations == Some(t@), Some(Json::Number(n)) => performance_event_of(v).confirmed_registrations == Some(n.text@), _ => performance_event_of(v).confirmed_registrations is None },
        match get_in(v, "pending_registrations"@) { Some(Json::Text(t)) => performance_event_of(v).pending_registrations == Some(t@), Some(Json::Number(n)) => performance_event_of(v).pending_registrations == Some(n.text@), _ => performance_event_of(v).pending_registrations is None },
        match get_in(v, "cancelled_registrations"@) { Some(Json::Text(t)) => performance_event_of(v).cancelled_registrations == Some(t@), Some(Json::Number(n)) => performance_event_of(v).cancelled_registrations == Some(n.text@), _ => performance_event_of(v).cancelled_registrations is None },
        match get_in(v, "avg_revenue_per_attendee"@) { Some(Json::Text(t)) => performance_event_of(v).avg_revenue_per_attendee == Some(t@), Some(Json::Number(n)) => performance_event_of(v).avg_revenue_per_attendee == Some(n.text@), _ => performance_event_of(v).avg_revenue_per_attendee is None },
{
}

/// Each field of `timeline_point_of` is read from its own key of the API row: `date` from
/// `"date"`, `registrations` from `"registrations"`, `cumulative_registrations` from
/// `"cumulative_registrations"`.
pub proof fn lemma_timeline_point_of_reads_keys(v: Option<Json>)
    ensures
        match get_in(v, "date"@) { Some(Json::Text(t)) => timeline_point_of(v).date == t@, _ => timeline_point_of(v).date.len() == 0 },
        match get_in(v, "registrations"@) { Some(Json::Text(t)) => timeline_point_of(v).registrations == Some(t@), Some(Json::Number(n)) => timeline_point_of(v).registrations == Some(n.text@), _ => timeline_point_of(v).registrations is None },
        match get_in(v, "cumulative_registrations"@) { Some(Json::Text(t)) => timeline_point_of(v).cumulative_registrations == Some(t@), Some(Json::Number(n)) => timeline_point_of(v).cumulative_registrations == Some(n.text@), _ => timeline_point_of(v).cumulative_registrations is None },
{
}

/// Each field of `membership_slice_of` is read from its own key of the API row:
/// `membership_tier` from `"membership_tier"`, `count` from `"count"`, `percentage` from
/// `"percentage"`.
pub proof fn lemma_membership_slice_of_reads_keys(v: Option<Json>)
    ensures
        match get_in(v, "membership_tier"@) { Some(Json::Text(t)) => membership_slice_of(v).membership_tier == t@, _ => membership_slice_of(v).membership_tier.len() == 0 },
        match get_in(v, "count"@) { Some(Json::Text(t)) => membership_slice_of(v).count == Some(t@), Some(Json::Number(n)) => membership_slice_of(v).count == Some(n.text@), _ => membership_slice_of(v).count is None },
        match get_in(v, "percentage"@) { Some(Json::Text(t)) => membership_slice_of(v).percentage == Some(t@), Some(Json::Number(n)) => membership_slice_of(v).percentage == Some(n.text@), _ => membership_slice_of(v).percentage is None },
{
}

/// Each field of `status_slice_of` is read from its own key of the API row: `status` from
/// `"status"`, `count` from `"count"`.
pub proof fn lemma_status_slice_of_reads_keys(v: Option<Json>)
    ensures
        match get_in(v, "status"@) { Some(Json::Text(t)) => status_slice_of(v).status == t@, _ => status_slice_of(v).status.len() == 0 },
        match get_in(v, "count"@) { Some(Json::Text(t)) => status_slice_of(v).count == Some(t@), Some(Json::Number(n)) => status_slice_of(v).count == Some(n.text@), _ => status_slice_of(v).count is None },
{
}

/// Each field of `monthly_revenue_of` is read from its own key of the API row: `month` from
/// `"month"`, `revenue` from `"revenue"`, `event_count` from `"event_count"`,
/// `total_registrations` from `"total_registrations"`.
pub proof fn lemma_monthly_revenue_of_reads_keys(v: Option<Json>)
    ensures
        match get_in(v, "month"@) { Some(Json::Text(t)) => monthly_revenue_of(v).month == t@, _ => monthly_revenue_of(v).month.len() == 0 },
        match get_in(v, "revenue"@) { Some(Json::Text(t)) => monthly_revenue_of(v).revenue == Some(t@), Some(Json::Number(n)) => monthly_revenue_of(v).revenue == Some(n.text@), _ => monthly_revenue_of(v).revenue is None },
        match get_in(v, "event_count"@) { Some(Json::Text(t)) => monthly_revenue_of(v).event_count == Some(t@), Some(Json::Number(n)) => monthly_revenue_of(v).event_count == Some(n.text@), _ => monthly_revenue_of(v).event_count is None },
        match get_in(v, "total_registrations"@) { Some(Json::Text(t)) => monthly_revenue_of(v).total_registrations == Some(t@), Some(Json::Number(n)) => monthly_revenue_of(v).total_registrations == Some(n.text@), _ => monthly_revenue_of(v).total_registrations is None },
{
}

/// Each field of `category_revenue_of` is read from its own key of the API row: `category` from
/// `"category"`, `revenue` from `"revenue"`, `event_count` from `"event_count"`,
/// `avg_revenue_per_event` from `"avg_revenue_per_event"`.
pub proof fn lemma_category_revenue_of_reads_keys(v: Option<Json>)
    ensures
        match get_in(v, "category"@) { Some(Json::Text(t)) => category_revenue_of(v).category == t@, _ => category_revenue_of(v).category.len() == 0 },
        match get_in(v, "revenue"@) { Some(Json::Text(t)) => category_revenue_of(v).revenue == Some(t@), Some(Json::Number(n)) => category_revenue_of(v).revenue == Some(n.text@), _ => category_revenue_of(v).revenue is None },
        match get_in(v, "event_count"@) { Some(Json::Text(t)) => category_revenue_of(v).event_count == Some(t@), Some(Json::Number(n)) => category_revenue_of(v).event_count == Some(n.text@), _ => category_revenue_of(v).event_count is None },
        match get_in(v, "avg_revenue_per_event"@) { Some(Json::Text(t)) => category_revenue_of(v).avg_revenue_per_event == Some(t@), Some(Json::Number(n)) => category_revenue_of(v).avg_revenue_per_event == Some(n.text@), _ => category_revenue_of(v).avg_revenue_per_event is None },
{
}

/// Each field of `tier_revenue_of` is read from its own key of the API row: `membership_tier`
/// from `"membership_tier"`, `registration_count` from `"registration_count"`, `total_revenue`
/// from `"total_revenue"`.
pub proof fn lemma_tier_revenue_of_reads_keys(v: Option<Json>)
    ensures
        match get_in(v, "membership_tier"@) { Some(Json::Text(t)) => tier_revenue_of(v).membership_tier == t@, _ => tier_revenue_of(v).membership_tier.len() == 0 },
        match get_in(v, "registration_count"@) { Some(Json::Text(t)) => tier_revenue_of(v).registration_count == Some(t@), Some(Json::Number(n)) => tier_revenue_of(v).registration_count == Some(n.text@), _ => tier_revenue_of(v).registration_count is None },
        match get_in(v, "total_revenue"@) { Some(Json::Text(t)) => tier_revenue_of(v).total_revenue == Some(t@), Some(Json::Number(n)) => tier_revenue_of(v).total_revenue == Some(n.text@), _ => tier_revenue_of(v).total_revenue is None },
{
}

/// Each field of `tier_engagement_of` is read from its own key of the API row:
/// `membership_tier` from `"membership_tier"`, `total_members` from `"total_members"`,
/// `active_members` from `"active_members"`, `engagement_rate` from `"engagement_rate"`,
/// `avg_events_per_member` from `"avg_events_per_member"`.
pub proof fn lemma_tier_engagement_of_reads_keys(v: Option<Json>)
    ensures
        match get_in(v, "membership_tier"@) { Some(Json::Text(t)) => tier_engagement_of(v).membership_tier == t@, _ => tier_engagement_of(v).membership_tier.len() == 0 },
        match get_in(v, "total_members"@) { Some(Json::Text(t)) => tier_engagement_of(v).total_members == Some(t@), Some(Json::Number(n)) => tier_engagement_of(v).total_members == Some(n.text@), _ => tier_engagement_of(v).total_members is None },
        match get_in(v, "active_members"@) { Some(Json::Text(t)) => tier_engagement_of(v).active_members == Some(t@), Some(Json::Number(n)) => tier_engagement_of(v).active_members == Some(n.text@), _ => tier_engagement_of(v).active_members is None },
        match get_in(v, "engagement_rate"@) { Some(Json::Text(t)) => tier_engagement_of(v).engagement_rate == Some(t@), Some(Json::Number(n)) => tier_engagement_of(v).engagement_rate == Some(n.text@), _ => tier_engagement_of(v).engagement_rate is None },
        match get_in(v, "avg_events_per_member"@) { Some(Json::Text(t)) => tier_engagement_of(v).avg_events_per_member == Some(t@), Some(Json::Number(n)) => tier_engagement_of(v).avg_events_per_member == Some(n.text@), _ => tier_engagement_of(v).avg_events_per_member is None },
{
}

/// Each field of `top_member_of` is read from its own key of the API row: `first_name` from
/// `"first_name"`, `last_name` from `"last_name"`, `membership_tier` from `"membership_tier"`,
/// `events_attended` from `"events_attended"`, `total_spent` from `"total_spent"`.
pub proof fn lemma_top_member_of_reads_keys(v: Option<Json>)
    ensures
        match get_in(v, "first_name"@) { Some(Json::Text(t)) => top_member_of(v).first_name == t@, _ => top_member_of(v).first_name.len() == 0 },
        match get_in(v, "last_name"@) { Some(Json::Text(t)) => top_member_of(v).last_name == t@, _ => top_member_of(v).last_name.len() == 0 },
        match get_in(v, "membership_tier"@) { Some(Json::Text(t)) => top_member_of(v).membership_tier == t@, _ => top_member_of(v).membership_tier.len() == 0 },
        match get_in(v, "events_attended"@) { Some(Json::Text(t)) => top_member_of(v).events_attended == Some(t@), Some(Json::Number(n)) => top_member_of(v).events_attended == Some(n.text@), _ => top_member_of(v).events_attended is None },
        match get_in(v, "total_spent"@) { Some(Json::Text(t)) => top_member_of(v).total_spent == Some(t@), Some(Json::Number(n)) => top_member_of(v).total_spent == Some(n.text@), _ => top_member_of(v).total_spent is None },
{
}

/// Each field of `retention_of` is read from its own key of the API row: `cohort_month` from
/// `"cohort_month"`, `cohort_size` from `"cohort_size"`, `active_this_month` from
/// `"active_this_month"`, `retention_rate` from `"retention_rate"`.
pub proof fn lemma_retention_of_reads_keys(v: Option<Json>)
    ensures
        match get_in(v, "cohort_month"@) { Some(Json::Text(t)) => retention_of(v).cohort_month == t@, _ => retention_of(v).cohort_month.len() == 0 },
        match get_in(v, "cohort_size"@) { Some(Json::Text(t)) => retention_of(v).cohort_size == Some(t@), Some(Json::Number(n)) => retention_of(v).cohort_size == Some(n.text@), _ => retention_of(v).cohort_size is None },
        match get_in(v, "active_this_month"@) { Some(Json::Text(t)) => retention_of(v).active_this_month == Some(t@), Some(Json::Number(n)) => retention_of(v).active_this_month == Some(n.text@), _ => retention_of(v).active_this_month is None },
        match get_in(v, "retention_rate"@) { Some(Json::Text(t)) => retention_of(v).retention_rate == Some(t@), Some(Json::Number(n)) => retention_of(v).retention_rate == Some(n.text@), _ => retention_of(v).retention_rate is None },
{
}

/// Each field of `daily_visitor_of` is read from its own key of the API row: `date` from
/// `"date"`, `unique_visitors` from `"unique_visitors"`, `total_page_views` from
/// `"total_page_views"`, `converted_visitors` from `"converted_visitors"`,
/// `avg_pages_per_visitor` from `"avg_pages_per_visitor"`.
pub proof fn lemma_daily_visitor_of_reads_keys(v: Option<Json>)
    ensures
        match get_in(v, "date"@) { Some(Json::Text(t)) => daily_visitor_of(v).date == t@, Some(Json::Number(n)) => daily_visitor_of(v).date == n.text@, Some(Json::Null) => daily_visitor_of(v).date.len() == 0, None => daily_visitor_of(v).date.len() == 0, _ => true },
        match get_in(v, "unique_visitors"@) { Some(Json::Text(t)) => daily_visitor_of(v).unique_visitors == Some(t@), Some(Json::Number(n)) => daily_visitor_of(v).unique_visitors == Some(n.text@), _ => daily_visitor_of(v).unique_visitors is None },
        match get_in(v, "total_page_views"@) { Some(Json::Text(t)) => daily_visitor_of(v).total_page_views == Some(t@), Some(Json::Number(n)) => daily_visitor_of(v).total_page_views == Some(n.text@), _ => daily_visitor_of(v).total_page_views is None },
        match get_in(v, "converted_visitors"@) { Some(Json::Text(t)) => daily_visitor_of(v).converted_visitors == Some(t@), Some(Json::Number(n)) => daily_visitor_of(v).converted_visitors == Some(n.text@), _ => daily_visitor_of(v).converted_visitors is None },
        match get_in(v, "avg_pages_per_visitor"@) { Some(Json::Text(t)) => daily_visitor_of(v).avg_pages_per_visitor == Some(t@), Some(Json::Number(n)) => daily_visitor_of(v).avg_pages_per_visitor == Some(n.text@), _ => daily_visitor_of(v).avg_pages_per_visitor is None },
{
}

/// Each field of `popular_page_of` is read from its own key of the API row: `path` from
/// `"path"`, `views` from `"views"`, `unique_visitors` from `"unique_visitors"`,
/// `conversion_rate` from `"conversion_rate"`.
pub proof fn lemma_popular_page_of_reads_keys(v: Option<Json>)
    ensures
        match get_in(v, "path"@) { Some(Json::Text(t)) => popular_page_of(v).path == t@, _ => popular_page_of(v).path.len() == 0 },
        match get_in(v, "views"@) { Some(Json::Text(t)) => popular_page_of(v).views == Some(t@), Some(Json::Number(n)) => popular_page_of(v).views == Some(n.text@), _ => popular_page_of(v).views is None },
        match get_in(v, "unique_visitors"@) { Some(Json::Text(t)) => popular_page_of(v).unique_visitors == Some(t@), Some(Json::Number(n)) => popular_page_of(v).unique_visitors == Some(n.text@), _ => popular_page_of(v).unique_visitors is None },
        match get_in(v, "conversion_rate"@) { Some(Json::Text(t)) => popular_page_of(v).conversion_rate == Some(t@), Some(Json::Number(n)) => popular_page_of(v).conversion_rate == Some(n.text@), _ => popular_page_of(v).conversion_rate is None },
{
}

/// Each field of `event_engagement_day_of` is read from its own key of the API row: `date` from
/// `"date"`, `unique_visitors` from `"unique_visitors"`, `total_page_views` from
/// `"total_page_views"`, `event_page_views` from `"event_page_views"`,
/// `registration_page_views` from `"registration_page_views"`, `avg_time_spent` from
/// `"avg_time_spent"`.
pub proof fn lemma_event_engagement_day_of_reads_keys(v: Option<Json>)
    ensures
        match get_in(v, "date"@) { Some(Json::Text(t)) => event_engagement_day_of(v).date == t@, Some(Json::Number(n)) => event_engagement_day_of(v).date == n.text@, Some(Json::Null) => event_engagement_day_of(v).date.len() == 0, None => event_engagement_day_of(v).date.len() == 0, _ => true },
        match get_in(v, "unique_visitors"@) { Some(Json::Text(t)) => event_engagement_day_of(v).unique_visitors == Some(t@), Some(Json::Number(n)) => event_engagement_day_of(v).unique_visitors == Some(n.text@), _ => event_engagement_day_of(v).unique_visitors is None },
        match get_in(v, "total_page_views"@) { Some(Json::Text(t)) => event_engagement_day_of(v).total_page_views == Some(t@), Some(Json::Number(n)) => event_engagement_day_of(v).total_page_views == Some(n.text@), _ => event_engagement_day_of(v).total_page_views is None },
        match get_in(v, "event_page_views"@) { Some(Json::Text(t)) => event_engagement_day_of(v).event_page_views == Some(t@), Some(Json::Number(n)) => event_engagement_day_of(v).event_page_views == Some(n.text@), _ => event_engagement_day_of(v).event_page_views is None },
        match get_in(v, "registration_page_views"@) { Some(Json::Text(t)) => event_engagement_day_of(v).registration_page_views == Some(t@), Some(Json::Number(n)) => event_engagement_day_of(v).registration_page_views == Some(n.text@), _ => event_engagement_day_of(v).registration_page_views is None },
        match get_in(v, "avg_time_spent"@) { Some(Json::Text(t)) => event_engagement_day_of(v).avg_time_spent == Some(t@), Some(Json::Number(n)) => event_engagement_day_of(v).avg_time_spent == Some(n.text@), _ => event_engagement_day_of(v).avg_time_spent is None },
{
}

} // verus!
