use hesocial_frontend::navbar::{dropdown_link_class, nav_item_id, nav_link_class};
use hesocial_frontend::json::{error_or_fallback, error_or_fallback_if_empty};
use hesocial_frontend::icons::IconName;
use hesocial_frontend::logic::{next_toggled, toggle_label};
use hesocial_frontend::numtext::{parse_i64_text, parse_u32_text, parse_u64_text};
use hesocial_frontend::text::{blank, str_less, trim_str, u64_to_decimal};
use hesocial_frontend::url::{form_encode, push_param};

#[test]
fn toggle_presses() {
    assert_eq!(toggle_label(true), "On");
    assert_eq!(toggle_label(false), "Off");
    assert!(!next_toggled(true));
    assert!(next_toggled(next_toggled(true)));
}

#[test]
fn nav_icons_round_trip() {
    for icon in [
        IconName::Crown,
        IconName::User,
        IconName::LogOut,
        IconName::Calendar,
        IconName::Settings,
        IconName::Shield,
        IconName::Activity,
        IconName::TrendingUp,
        IconName::Menu,
        IconName::X,
    ] {
        assert_eq!(IconName::from_nav_icon(icon.as_str()), Some(icon));
    }
    assert_eq!(IconName::from_nav_icon("star"), None);
    assert_eq!(IconName::MapPin.as_str(), "map-pin");
}

#[test]
fn integer_parsing_follows_str_parse() {
    assert_eq!(parse_u64_text("18446744073709551615"), Some(u64::MAX));
    assert_eq!(parse_u64_text("18446744073709551616"), None);
    assert_eq!(parse_u64_text("+7"), Some(7));
    assert_eq!(parse_u64_text("-7"), None);
    assert_eq!(parse_u64_text(""), None);
    assert_eq!(parse_u64_text(" 7"), None);
    assert_eq!(parse_u32_text("4294967295"), Some(u32::MAX));
    assert_eq!(parse_u32_text("4294967296"), None);
    assert_eq!(parse_i64_text("-9223372036854775808"), Some(i64::MIN));
    assert_eq!(parse_i64_text("9223372036854775808"), None);
    assert_eq!(parse_i64_text("-"), None);
    for n in [0u64, 9, 10, 12345, u64::MAX] {
        assert_eq!(parse_u64_text(&u64_to_decimal(n)), Some(n));
    }
}

#[test]
fn text_helpers() {
    assert_eq!(trim_str("\u{3000} a b \t\n"), "a b");
    assert!(blank(" \u{a0}\u{2028}"));
    assert!(!blank(" x "));
    assert!(str_less("2025-01-01T10:00", "2025-01-01T11:00"));
    assert!(!str_less("2025-01-02", "2025-01-01"));
    assert!(!str_less("same", "same"));
    assert!(str_less("ab", "abc"));
    assert!(str_less("z", "é"));
}

#[test]
fn form_encoding_and_params() {
    assert_eq!(form_encode("a b/c?d=é"), "a+b%2Fc%3Fd%3D%C3%A9");
    assert_eq!(form_encode("AZaz09-_.~"), "AZaz09-_.~");
    let mut q = String::new();
    push_param(&mut q, "page", "1");
    push_param(&mut q, "search", "x&y");
    assert_eq!(q, "page=1&search=x%26y");
}

#[test]
fn blank_errors_take_the_fallback() {
    assert_eq!(error_or_fallback("  ".to_string(), "fb"), "fb");
    assert_eq!(error_or_fallback("bad".to_string(), "fb"), "bad");
    assert_eq!(error_or_fallback_if_empty("".to_string(), "fb"), "fb");
    assert_eq!(error_or_fallback_if_empty(" ".to_string(), "fb"), " ");
}

#[test]
fn navbar_ids_and_styles() {
    assert_eq!(nav_item_id("/"), "nav-item-home");
    assert_eq!(nav_item_id("/events"), "nav-item-events");
    assert_eq!(nav_item_id("/vvip"), "nav-item-vvip");
    assert_eq!(nav_item_id("/events/3"), "nav-item");
    assert_eq!(nav_item_id(""), "nav-item");
    assert!(nav_link_class(true).contains("text-luxury-gold bg-luxury-gold/10"));
    assert!(nav_link_class(false).contains("text-luxury-platinum"));
    assert_ne!(nav_link_class(true), nav_link_class(false));
    assert_eq!(
        dropdown_link_class(),
        "block px-4 py-3 text-sm text-gray-700 hover:bg-luxury-gold/10 transition-colors"
    );
}
