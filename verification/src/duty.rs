//! Colors for the high-end duties a listing can name.

use vstd::prelude::*;
use crate::text::str_eq;

verus! {

/// The color of every duty without a color of its own.
pub const DEFAULT_DUTY_COLOR: u32 = 0xf0a057;

/// The color of a duty as packed 24-bit RGB. Only the exact names of the
/// four ultimate duties have their own color.
pub open spec fn duty_color(duty_name: Seq<char>) -> u32 {
    if duty_name == "The Unending Coil of Bahamut (Ultimate)"@ {
        0xfce100
    } else if duty_name == "The Weapon's Refrain (Ultimate)"@ {
        0x008bfc
    } else if duty_name == "The Epic of Alexander (Ultimate)"@ {
        0xfcaa00
    } else if duty_name == "Dragonsong's Reprise (Ultimate)"@ {
        0xf12916
    } else {
        DEFAULT_DUTY_COLOR
    }
}

/// Looks up the color of a duty by its exact name.
pub fn get_color_from_duty(duty_name: &str) -> (color: u32)
    ensures
        color == duty_color(duty_name@),
{
    if str_eq(duty_name, "The Unending Coil of Bahamut (Ultimate)") {
        0xfce100
    } else if str_eq(duty_name, "The Weapon's Refrain (Ultimate)") {
        0x008bfc
    } else if str_eq(duty_name, "The Epic of Alexander (Ultimate)") {
        0xfcaa00
    } else if str_eq(duty_name, "Dragonsong's Reprise (Ultimate)") {
        0xf12916
    } else {
        DEFAULT_DUTY_COLOR
    }
}

/// The color table, entry by entry.
pub proof fn lemma_duty_color_table()
    ensures
        duty_color("The Unending Coil of Bahamut (Ultimate)"@) == 0xfce100,
        duty_color("The Weapon's Refrain (Ultimate)"@) == 0x008bfc,
        duty_color("The Epic of Alexander (Ultimate)"@) == 0xfcaa00,
        duty_color("Dragonsong's Reprise (Ultimate)"@) == 0xf12916,
{
    reveal_strlit("The Unending Coil of Bahamut (Ultimate)");
    reveal_strlit("The Weapon's Refrain (Ultimate)");
    reveal_strlit("The Epic of Alexander (Ultimate)");
    reveal_strlit("Dragonsong's Reprise (Ultimate)");
    // The names differ in length, or else in their first letter.
    assert("The Unending Coil of Bahamut (Ultimate)"@.len() == 39);
    assert("The Weapon's Refrain (Ultimate)"@.len() == 31);
    assert("The Epic of Alexander (Ultimate)"@.len() == 32);
    assert("Dragonsong's Reprise (Ultimate)"@.len() == 31);
    assert("The Weapon's Refrain (Ultimate)"@[0] == 'T');
    assert("Dragonsong's Reprise (Ultimate)"@[0] == 'D');
}

/// A name that is none of the four known duties gets the default color.
pub proof fn lemma_unknown_duty_gets_default(duty_name: Seq<char>)
    requires
        duty_name != "The Unending Coil of Bahamut (Ultimate)"@,
        duty_name != "The Weapon's Refrain (Ultimate)"@,
        duty_name != "The Epic of Alexander (Ultimate)"@,
        duty_name != "Dragonsong's Reprise (Ultimate)"@,
    ensures
        duty_color(duty_name) == DEFAULT_DUTY_COLOR,
{
}

/// Every duty color fits in 24 bits.
pub proof fn lemma_duty_color_is_rgb(duty_name: Seq<char>)
    ensures
        duty_color(duty_name) <= 0xffffff,
{
}

/// Two duties share a color of their own only if they are the same duty;
/// every other name falls back to the default.
pub proof fn lemma_duty_colors_distinct(first: Seq<char>, second: Seq<char>)
    requires
        duty_color(first) == duty_color(second),
        duty_color(first) != DEFAULT_DUTY_COLOR,
    ensures
        first == second,
{
}

} // verus!
