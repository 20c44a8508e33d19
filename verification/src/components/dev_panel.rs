//! Labels and time display of the developer event panel.

use vstd::prelude::*;
use crate::state::dev_log::EventCategory;
use crate::text::{padded_decimal, push_padded_decimal, string_from_chars};

verus! {

/// Short badge label of a category.
pub open spec fn category_label_spec(c: EventCategory) -> Seq<char> {
    match c {
        EventCategory::Sync => "SYNC"@,
        EventCategory::Network => "NET"@,
        EventCategory::Wallet => "WALLET"@,
        EventCategory::Error => "ERR"@,
    }
}

/// Badge classes of a category.
pub open spec fn category_badge_class_spec(c: EventCategory) -> Seq<char> {
    match c {
        EventCategory::Sync => "bg-dash-dark text-dash"@,
        EventCategory::Network => "bg-success/20 text-success"@,
        EventCategory::Wallet => "bg-chainlock text-foreground"@,
        EventCategory::Error => "bg-error/20 text-error"@,
    }
}

/// Short badge label of a category.
pub fn category_label(category: &EventCategory) -> (r: &'static str)
    ensures
        r@ == category_label_spec(*category),
{
    match category {
        EventCategory::Sync => "SYNC",
        EventCategory::Network => "NET",
        EventCategory::Wallet => "WALLET",
        EventCategory::Error => "ERR",
    }
}

/// Badge classes of a category.
pub fn category_badge_class(category: &EventCategory) -> (r: &'static str)
    ensures
        r@ == category_badge_class_spec(*category),
{
    match category {
        EventCategory::Sync => "bg-dash-dark text-dash",
        EventCategory::Network => "bg-success/20 text-success",
        EventCategory::Wallet => "bg-chainlock text-foreground",
        EventCategory::Error => "bg-error/20 text-error",
    }
}

/// `HH:MM:SS` of the time of day (UTC) of a Unix timestamp.
pub open spec fn time_of_day_text(t: u64) -> Seq<char> {
    padded_decimal(((t / 3600) % 24) as nat, 2) + seq![':'] + padded_decimal(
        ((t / 60) % 60) as nat,
        2,
    ) + seq![':'] + padded_decimal((t % 60) as nat, 2)
}

/// Time of day of a Unix timestamp as `HH:MM:SS`.
pub fn format_time(timestamp: u64) -> (r: String)
    ensures
        r@ == time_of_day_text(timestamp),
{
    let secs = timestamp % 60;
    let mins = (timestamp / 60) % 60;
    let hours = (timestamp / 3600) % 24;
    let mut v: Vec<char> = Vec::new();
    push_padded_decimal(&mut v, hours, 2);
    v.push(':');
    push_padded_decimal(&mut v, mins, 2);
    v.push(':');
    push_padded_decimal(&mut v, secs, 2);
    assert(v@ =~= time_of_day_text(timestamp));
    string_from_chars(&v)
}

/// Different categories have different badge classes.
pub proof fn law_badge_classes_distinct(a: EventCategory, b: EventCategory)
    requires
        a != b,
    ensures
        category_badge_class_spec(a) != category_badge_class_spec(b),
{
    reveal_strlit("bg-dash-dark text-dash");
    reveal_strlit("bg-success/20 text-success");
    reveal_strlit("bg-chainlock text-foreground");
    reveal_strlit("bg-error/20 text-error");
    let x = category_badge_class_spec(a);
    let y = category_badge_class_spec(b);
    assert(x.len() != y.len() || x[0] != y[0] || x[3] != y[3]);
}

} // verus!
