//! Styling of the network selection cards.

use vstd::prelude::*;
use crate::text::str_eq;

verus! {

/// Border classes of a network card by its color name.
pub open spec fn border_class_spec(color: Seq<char>) -> Seq<char> {
    if color == "blue"@ {
        "border-dash hover:bg-dash/10"@
    } else if color == "green"@ {
        "border-success hover:bg-success/10"@
    } else if color == "orange"@ {
        "border-warning hover:bg-warning/10"@
    } else {
        "border-edge hover:bg-hover"@
    }
}

/// Dot class of a network card by its color name.
pub open spec fn dot_class_spec(color: Seq<char>) -> Seq<char> {
    if color == "blue"@ {
        "bg-dash"@
    } else if color == "green"@ {
        "bg-success"@
    } else if color == "orange"@ {
        "bg-warning"@
    } else {
        "bg-muted"@
    }
}

/// Border classes for a card of the given color.
pub fn border_class_for_color(color: &str) -> (r: &'static str)
    ensures
        r@ == border_class_spec(color@),
{
    if str_eq(color, "blue") {
        "border-dash hover:bg-dash/10"
    } else if str_eq(color, "green") {
        "border-success hover:bg-success/10"
    } else if str_eq(color, "orange") {
        "border-warning hover:bg-warning/10"
    } else {
        "border-edge hover:bg-hover"
    }
}

/// Dot class for a card of the given color.
pub fn dot_class_for_color(color: &str) -> (r: &'static str)
    ensures
        r@ == dot_class_spec(color@),
{
    if str_eq(color, "blue") {
        "bg-dash"
    } else if str_eq(color, "green") {
        "bg-success"
    } else if str_eq(color, "orange") {
        "bg-warning"
    } else {
        "bg-muted"
    }
}

} // verus!
