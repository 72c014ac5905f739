//! Picking the symbols and the colour that go with a reading.

use crate::text::same_text;
use vstd::prelude::*;
use vstd::string::StringExecFns;

verus! {

/// The symbol for a temperature of `celsius` thousandths of a degree. Each
/// band includes its lower bound and excludes its upper bound.
pub open spec fn temperature_emoji(celsius: int) -> Seq<char> {
    if celsius < 0 {
        "❄️"@
    } else if celsius < 10_000 {
        "☁️"@
    } else if celsius < 20_000 {
        "⛅"@
    } else if celsius < 30_000 {
        "🌤️"@
    } else {
        "🔥"@
    }
}

/// Picks the symbol for a temperature in thousandths of a degree Celsius.
pub fn get_temperature_emoji(temperature: i32) -> (emoji: &'static str)
    ensures
        emoji@ == temperature_emoji(temperature as int),
{
    if temperature < 0 {
        "❄️"
    } else if temperature < 10_000 {
        "☁️"
    } else if temperature < 20_000 {
        "⛅"
    } else if temperature < 30_000 {
        "🌤️"
    } else {
        "🔥"
    }
}

/// The eighth of the compass, counted clockwise from north, into which a
/// direction of `degrees` thousandths of a degree falls. Each eighth is
/// centred on its compass point.
pub open spec fn compass_index(degrees: int) -> int {
    ((degrees + 22_500) % 360_000) / 45_000
}

/// The arrow for an eighth of the compass.
pub open spec fn compass_arrow(index: int) -> Seq<char> {
    if index == 0 {
        "↑"@
    } else if index == 1 {
        "↗"@
    } else if index == 2 {
        "→"@
    } else if index == 3 {
        "↘"@
    } else if index == 4 {
        "↓"@
    } else if index == 5 {
        "↙"@
    } else if index == 6 {
        "←"@
    } else {
        "↖"@
    }
}

/// The arrow for a wind direction, or nothing where none was reported.
pub open spec fn wind_direction_arrow(degrees: Option<i32>) -> Seq<char> {
    match degrees {
        Some(d) => compass_arrow(compass_index(d as int)),
        None => Seq::<char>::empty(),
    }
}

/// Computes the eighth of the compass for any direction, negative or beyond
/// a full turn.
pub fn get_compass_index(degrees: i32) -> (index: u8)
    ensures
        index == compass_index(degrees as int),
        index < 8,
{
    // 6000 full turns lift every direction above zero.
    let lifted: u64 = (degrees as i64 + 22_500 + 2_160_000_000) as u64;
    let turned: u64 = lifted % 360_000;
    proof {
        vstd::arithmetic::div_mod::lemma_mod_multiples_vanish(
            6000,
            degrees as int + 22_500,
            360_000,
        );
    }
    (turned / 45_000) as u8
}

/// Picks the arrow for a wind direction in thousandths of a degree.
pub fn get_wind_direction(degrees: Option<i32>) -> (arrow: String)
    ensures
        arrow@ == wind_direction_arrow(degrees),
{
    match degrees {
        Some(d) => {
            let index = get_compass_index(d);
            let arrow: &'static str = if index == 0 {
                "↑"
            } else if index == 1 {
                "↗"
            } else if index == 2 {
                "→"
            } else if index == 3 {
                "↘"
            } else if index == 4 {
                "↓"
            } else if index == 5 {
                "↙"
            } else if index == 6 {
                "←"
            } else {
                "↖"
            };
            String::from_str(arrow)
        },
        None => String::new(),
    }
}

/// Directions that differ by whole turns get the same arrow.
pub proof fn full_turn_law(degrees: int, turns: int)
    ensures
        compass_index(degrees + turns * 360_000) == compass_index(degrees),
        0 <= compass_index(degrees) < 8,
{
    vstd::arithmetic::div_mod::lemma_mod_multiples_vanish(turns, degrees + 22_500, 360_000);
    assert(degrees + turns * 360_000 + 22_500 == 360_000 * turns + (degrees + 22_500))
        by (nonlinear_arith);
}

/// The colour in which a report is shown.
#[derive(Debug, Clone, Copy, PartialEq, Eq, Structural)]
pub enum ColorTag {
    Yellow,
    Blue,
    Cyan,
    Purple,
    Neutral,
}

/// The colour for a condition category. The match is exact and sensitive to
/// case; a category outside the known set gets the neutral colour.
pub open spec fn color_of(category: Seq<char>) -> ColorTag {
    if category == "Clear"@ {
        ColorTag::Yellow
    } else if category == "Clouds"@ {
        ColorTag::Blue
    } else if category == "Rain"@ || category == "Drizzle"@ || category == "Snow"@ {
        ColorTag::Cyan
    } else if category == "Thunderstorm"@ {
        ColorTag::Purple
    } else {
        ColorTag::Neutral
    }
}

/// Picks the colour for a condition category.
pub fn condition_color(category: &str) -> (tag: ColorTag)
    ensures
        tag == color_of(category@),
{
    if same_text(category, "Clear") {
        ColorTag::Yellow
    } else if same_text(category, "Clouds") {
        ColorTag::Blue
    } else if same_text(category, "Rain") || same_text(category, "Drizzle") || same_text(
        category,
        "Snow",
    ) {
        ColorTag::Cyan
    } else if same_text(category, "Thunderstorm") {
        ColorTag::Purple
    } else {
        ColorTag::Neutral
    }
}

/// Every category outside the known six gets the neutral colour.
pub proof fn unknown_category_law(category: Seq<char>)
    requires
        category != "Clear"@,
        category != "Clouds"@,
        category != "Rain"@,
        category != "Drizzle"@,
        category != "Snow"@,
        category != "Thunderstorm"@,
    ensures
        color_of(category) == ColorTag::Neutral,
{
}

/// The symbol changes only at 0, 10, 20 and 30 degrees: two temperatures
/// within one band get the same symbol.
pub proof fn temperature_band_law(a: int, b: int)
    requires
        (a < 0 && b < 0) || (0 <= a < 10_000 && 0 <= b < 10_000) || (10_000 <= a < 20_000
            && 10_000 <= b < 20_000) || (20_000 <= a < 30_000 && 20_000 <= b < 30_000) || (30_000
            <= a && 30_000 <= b),
    ensures
        temperature_emoji(a) == temperature_emoji(b),
{
}

} // verus!
