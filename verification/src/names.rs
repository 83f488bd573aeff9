//! The canonical sixteen-color naming convention shared by both emitters.

use vstd::prelude::*;

verus! {

/// How many named colors one group (normal or bright) holds.
pub const GROUP_LEN: usize = 8;

/// The fixed name of group position `i`: black, red, green, yellow, blue,
/// magenta, cyan, white, in that order.
pub open spec fn color_name(i: int) -> Seq<char> {
    if i == 0 {
        "black"@
    } else if i == 1 {
        "red"@
    } else if i == 2 {
        "green"@
    } else if i == 3 {
        "yellow"@
    } else if i == 4 {
        "blue"@
    } else if i == 5 {
        "magenta"@
    } else if i == 6 {
        "cyan"@
    } else {
        "white"@
    }
}

/// The name of group position `i`.
pub fn color_name_at(i: usize) -> (r: &'static str)
    requires
        i < GROUP_LEN,
    ensures
        r@ == color_name(i as int),
{
    match i {
        0 => "black",
        1 => "red",
        2 => "green",
        3 => "yellow",
        4 => "blue",
        5 => "magenta",
        6 => "cyan",
        _ => "white",
    }
}

} // verus!
