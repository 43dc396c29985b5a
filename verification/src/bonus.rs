//! The fruit: what it is worth at each level and for how long it shows.

use vstd::prelude::*;

verus! {

/// Points that the fruit of a level is worth.
pub open spec fn bonus_value(level: u32) -> u32 {
    if level == 0 {
        100
    } else if level == 1 {
        300
    } else if level <= 3 {
        500
    } else if level <= 5 {
        700
    } else if level <= 7 {
        1000
    } else if level <= 9 {
        2000
    } else if level <= 11 {
        3000
    } else {
        5000
    }
}

/// The picture of the fruit of a level.
pub open spec fn bonus_glyph(level: u32) -> &'static str {
    if level == 0 {
        "\u{1F352}"
    } else if level == 1 {
        "\u{1F353}"
    } else if level <= 3 {
        "\u{1F351}"
    } else if level <= 5 {
        "\u{1F34E}"
    } else if level <= 7 {
        "\u{1F347}"
    } else if level <= 9 {
        "\u{1F680}"
    } else if level <= 11 {
        "\u{1F514}"
    } else {
        "\u{1F511}"
    }
}

/// The fruit of a level: its picture and the points it is worth. Cherries
/// come first, a key from level 12 on.
pub fn level2bonus(level: u32) -> (r: (&'static str, u32))
    ensures
        r.0@ == bonus_glyph(level)@,
        r.1 == bonus_value(level),
{
    match level {
        0 => ("\u{1F352}", 100),
        1 => ("\u{1F353}", 300),
        2 | 3 => ("\u{1F351}", 500),
        4 | 5 => ("\u{1F34E}", 700),
        6 | 7 => ("\u{1F347}", 1000),
        8 | 9 => ("\u{1F680}", 2000),
        10 | 11 => ("\u{1F514}", 3000),
        _ => ("\u{1F511}", 5000),
    }
}

/// Milliseconds for which the fruit shows after a roll: ten, eleven or
/// twelve seconds.
pub open spec fn spec_fruit_window(roll: u128) -> u128 {
    (1000 * (10 + roll % 3)) as u128
}

/// Milliseconds for which the fruit shows, by the roll that was drawn.
#[verifier::when_used_as_spec(spec_fruit_window)]
pub fn fruit_window(roll: u128) -> (ms: u128)
    ensures
        ms == spec_fruit_window(roll),
        ms == 10000 || ms == 11000 || ms == 12000,
{
    1000 * (10 + roll % 3)
}

} // verus!
