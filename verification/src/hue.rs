//! The sectors of the HSV colour wheel: which of the four HSV terms becomes
//! the red, green and blue channel in each sixth of the hue circle.

use vstd::prelude::*;

verus! {

/// One of the terms from which an HSV colour's channels are taken, for a
/// value `v`, saturation `s` and position `f` within the hue sector.
#[derive(Clone, Copy, Debug, PartialEq, Eq, Structural)]
pub enum HsvTerm {
    /// `v`: the brightest channel.
    Value,
    /// `v * (1 - (1 - f) * s)`: a channel rising across the sector.
    Rising,
    /// `v * (1 - f * s)`: a channel falling across the sector.
    Falling,
    /// `v * (1 - s)`: the darkest channel.
    Floor,
}

/// The terms `(red, green, blue)` in sector `sector` (`0..6`) of the wheel.
pub open spec fn spec_sector_terms(sector: int) -> (HsvTerm, HsvTerm, HsvTerm) {
    if sector == 0 {
        (HsvTerm::Value, HsvTerm::Rising, HsvTerm::Floor)
    } else if sector == 1 {
        (HsvTerm::Falling, HsvTerm::Value, HsvTerm::Floor)
    } else if sector == 2 {
        (HsvTerm::Floor, HsvTerm::Value, HsvTerm::Rising)
    } else if sector == 3 {
        (HsvTerm::Floor, HsvTerm::Falling, HsvTerm::Value)
    } else if sector == 4 {
        (HsvTerm::Rising, HsvTerm::Floor, HsvTerm::Value)
    } else {
        (HsvTerm::Value, HsvTerm::Floor, HsvTerm::Falling)
    }
}

/// How many of the three channels hold `term`.
pub open spec fn term_count(terms: (HsvTerm, HsvTerm, HsvTerm), term: HsvTerm) -> int {
    (if terms.0 == term {
        1int
    } else {
        0
    }) + (if terms.1 == term {
        1int
    } else {
        0
    }) + (if terms.2 == term {
        1int
    } else {
        0
    })
}

/// The terms `(red, green, blue)` for a hue whose six-fold, rounded down, is
/// `sextant`: the sector is `sextant % 6`.
pub fn hsv_sector_terms(sextant: i32) -> (r: (HsvTerm, HsvTerm, HsvTerm))
    requires
        sextant >= 0,
    ensures
        r == spec_sector_terms(sextant as int % 6),
{
    let sector = sextant % 6;
    if sector == 0 {
        (HsvTerm::Value, HsvTerm::Rising, HsvTerm::Floor)
    } else if sector == 1 {
        (HsvTerm::Falling, HsvTerm::Value, HsvTerm::Floor)
    } else if sector == 2 {
        (HsvTerm::Floor, HsvTerm::Value, HsvTerm::Rising)
    } else if sector == 3 {
        (HsvTerm::Floor, HsvTerm::Falling, HsvTerm::Value)
    } else if sector == 4 {
        (HsvTerm::Rising, HsvTerm::Floor, HsvTerm::Value)
    } else {
        (HsvTerm::Value, HsvTerm::Floor, HsvTerm::Falling)
    }
}

/// In every sector one channel is the value and one the floor; the third
/// rises across the even sectors and falls across the odd ones.
pub proof fn lemma_sector_holds_value_and_floor(sector: int)
    requires
        0 <= sector < 6,
    ensures
        term_count(spec_sector_terms(sector), HsvTerm::Value) == 1,
        term_count(spec_sector_terms(sector), HsvTerm::Floor) == 1,
        term_count(spec_sector_terms(sector), HsvTerm::Rising) == (if sector % 2 == 0 {
            1int
        } else {
            0
        }),
        term_count(spec_sector_terms(sector), HsvTerm::Falling) == (if sector % 2 == 0 {
            0int
        } else {
            1
        }),
{
}

/// Around the wheel the brightest channel moves from red (sectors 5 and 0)
/// to green (1 and 2) to blue (3 and 4).
pub proof fn lemma_value_channel_turns(sector: int)
    requires
        0 <= sector < 6,
    ensures
        (spec_sector_terms(sector).0 == HsvTerm::Value) == (sector == 5 || sector == 0),
        (spec_sector_terms(sector).1 == HsvTerm::Value) == (sector == 1 || sector == 2),
        (spec_sector_terms(sector).2 == HsvTerm::Value) == (sector == 3 || sector == 4),
{
}

/// The channel that changes across a sector (rising or falling) is green in
/// sectors 0 and 3, red in 1 and 4, and blue in 2 and 5; together with the
/// brightest channel this fixes every sector's terms.
pub proof fn lemma_changing_channel(sector: int)
    requires
        0 <= sector < 6,
    ensures
        (spec_sector_terms(sector).0 == HsvTerm::Rising || spec_sector_terms(sector).0
            == HsvTerm::Falling) == (sector % 3 == 1),
        (spec_sector_terms(sector).1 == HsvTerm::Rising || spec_sector_terms(sector).1
            == HsvTerm::Falling) == (sector % 3 == 0),
        (spec_sector_terms(sector).2 == HsvTerm::Rising || spec_sector_terms(sector).2
            == HsvTerm::Falling) == (sector % 3 == 2),
{
}

} // verus!
