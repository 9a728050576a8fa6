//! The names of the icons the interface draws.
use vstd::prelude::*;
use crate::text::str_eq;

verus! {

#[derive(Clone, Copy, PartialEq, Eq, Debug)]
pub enum IconName {
    Calendar,
    MapPin,
    Users,
    Star,
    Search,
    ChevronLeft,
    ChevronRight,
    Diamond,
    Menu,
    X,
    Crown,
    User,
    LogOut,
    Settings,
    Shield,
    Activity,
    TrendingUp,
    Mail,
    Phone,
    Briefcase,
    Award,
}

/// The name an icon goes by.
pub open spec fn icon_text(icon: IconName) -> Seq<char> {
    match icon {
        IconName::Calendar => "calendar"@,
        IconName::MapPin => "map-pin"@,
        IconName::Users => "users"@,
        IconName::Star => "star"@,
        IconName::Search => "search"@,
        IconName::ChevronLeft => "chevron-left"@,
        IconName::ChevronRight => "chevron-right"@,
        IconName::Diamond => "diamond"@,
        IconName::Menu => "menu"@,
        IconName::X => "x"@,
        IconName::Crown => "crown"@,
        IconName::User => "user"@,
        IconName::LogOut => "log-out"@,
        IconName::Settings => "settings"@,
        IconName::Shield => "shield"@,
        IconName::Activity => "activity"@,
        IconName::TrendingUp => "trending-up"@,
        IconName::Mail => "mail"@,
        IconName::Phone => "phone"@,
        IconName::Briefcase => "briefcase"@,
        IconName::Award => "award"@,
    }
}

/// The icons a navigation entry may name.
pub open spec fn is_nav_icon(icon: IconName) -> bool {
    ||| icon == IconName::Crown
    ||| icon == IconName::User
    ||| icon == IconName::LogOut
    ||| icon == IconName::Calendar
    ||| icon == IconName::Settings
    ||| icon == IconName::Shield
    ||| icon == IconName::Activity
    ||| icon == IconName::TrendingUp
    ||| icon == IconName::Menu
    ||| icon == IconName::X
}

/// The navigation icon a name stands for.
pub open spec fn nav_icon_of(name: Seq<char>) -> Option<IconName> {
    if name == "crown"@ {
        Some(IconName::Crown)
    } else if name == "user"@ {
        Some(IconName::User)
    } else if name == "log-out"@ {
        Some(IconName::LogOut)
    } else if name == "calendar"@ {
        Some(IconName::Calendar)
    } else if name == "settings"@ {
        Some(IconName::Settings)
    } else if name == "shield"@ {
        Some(IconName::Shield)
    } else if name == "activity"@ {
        Some(IconName::Activity)
    } else if name == "trending-up"@ {
        Some(IconName::TrendingUp)
    } else if name == "menu"@ {
        Some(IconName::Menu)
    } else if name == "x"@ {
        Some(IconName::X)
    } else {
        None
    }
}

impl IconName {
    pub fn from_nav_icon(name: &str) -> (r: Option<Self>)
        ensures
            r == nav_icon_of(name@),
    {
        if str_eq(name, "crown") {
            Some(IconName::Crown)
        } else if str_eq(name, "user") {
            Some(IconName::User)
        } else if str_eq(name, "log-out") {
            Some(IconName::LogOut)
        } else if str_eq(name, "calendar") {
            Some(IconName::Calendar)
        } else if str_eq(name, "settings") {
            Some(IconName::Settings)
        } else if str_eq(name, "shield") {
            Some(IconName::Shield)
        } else if str_eq(name, "activity") {
            Some(IconName::Activity)
        } else if str_eq(name, "trending-up") {
            Some(IconName::TrendingUp)
        } else if str_eq(name, "menu") {
            Some(IconName::Menu)
        } else if str_eq(name, "x") {
            Some(IconName::X)
        } else {
            None
        }
    }

    pub fn as_str(self) -> (s: &'static str)
        ensures
            s@ == icon_text(self),
    {
        match self {
            IconName::Calendar => "calendar",
            IconName::MapPin => "map-pin",
            IconName::Users => "users",
            IconName::Star => "star",
            IconName::Search => "search",
            IconName::ChevronLeft => "chevron-left",
            IconName::ChevronRight => "chevron-right",
            IconName::Diamond => "diamond",
            IconName::Menu => "menu",
            IconName::X => "x",
            IconName::Crown => "crown",
            IconName::User => "user",
            IconName::LogOut => "log-out",
            IconName::Settings => "settings",
            IconName::Shield => "shield",
            IconName::Activity => "activity",
            IconName::TrendingUp => "trending-up",
            IconName::Mail => "mail",
            IconName::Phone => "phone",
            IconName::Briefcase => "briefcase",
            IconName::Award => "award",
        }
    }
}

/// A navigation icon's name leads back to the icon, and a name that leads
/// to an icon is that icon's name.
pub proof fn lemma_nav_icon_round_trip(icon: IconName, name: Seq<char>)
    ensures
        is_nav_icon(icon) ==> nav_icon_of(icon_text(icon)) == Some(icon),
        nav_icon_of(name) == Some(icon) ==> icon_text(icon) == name && is_nav_icon(icon),
{
    reveal_strlit("calendar");
    reveal_strlit("map-pin");
    reveal_strlit("users");
    reveal_strlit("star");
    reveal_strlit("search");
    reveal_strlit("chevron-left");
    reveal_strlit("chevron-right");
    reveal_strlit("diamond");
    reveal_strlit("menu");
    reveal_strlit("x");
    reveal_strlit("crown");
    reveal_strlit("user");
    reveal_strlit("log-out");
    reveal_strlit("settings");
    reveal_strlit("shield");
    reveal_strlit("activity");
    reveal_strlit("trending-up");
    reveal_strlit("mail");
    reveal_strlit("phone");
    reveal_strlit("briefcase");
    reveal_strlit("award");
    assert("calendar"@[0] == 'c' && "calendar"@.len() == 8);
    assert("map-pin"@[0] == 'm' && "map-pin"@.len() == 7);
    assert("users"@[0] == 'u' && "users"@.len() == 5);
    assert("star"@[0] == 's' && "star"@.len() == 4);
    assert("search"@[0] == 's' && "search"@.len() == 6);
    assert("chevron-left"@[0] == 'c' && "chevron-left"@.len() == 12);
    assert("chevron-right"@[0] == 'c' && "chevron-right"@.len() == 13);
    assert("diamond"@[0] == 'd' && "diamond"@.len() == 7);
    assert("menu"@[0] == 'm' && "menu"@.len() == 4);
    assert("x"@[0] == 'x' && "x"@.len() == 1);
    assert("crown"@[0] == 'c' && "crown"@.len() == 5);
    assert("user"@[0] == 'u' && "user"@.len() == 4);
    assert("log-out"@[0] == 'l' && "log-out"@.len() == 7);
    assert("settings"@[0] == 's' && "settings"@.len() == 8);
    assert("shield"@[0] == 's' && "shield"@.len() == 6);
    assert("activity"@[0] == 'a' && "activity"@.len() == 8);
    assert("trending-up"@[0] == 't' && "trending-up"@.len() == 11);
    assert("mail"@[0] == 'm' && "mail"@.len() == 4);
    assert("phone"@[0] == 'p' && "phone"@.len() == 5);
    assert("briefcase"@[0] == 'b' && "briefcase"@.len() == 9);
    assert("award"@[0] == 'a' && "award"@.len() == 5);
}

} // verus!
