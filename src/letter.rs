use vstd::prelude::*;

verus! {

/// Number of position units in one pixel.
pub const UNITS_PER_PIXEL: i64 = 1_000_000;

/// Height of the visible area; a letter below it is gone.
pub const SCREEN_HEIGHT: i64 = 600 * UNITS_PER_PIXEL;

/// Top edge of the hit zone: the line a letter must straddle to be collected.
pub const HIT_ZONE_TOP: i64 = 450 * UNITS_PER_PIXEL;

/// Height of a letter's icon.
pub const LETTER_HEIGHT: i64 = 70 * UNITS_PER_PIXEL;

/// An RGBA color.
#[derive(Clone, Copy, Debug, PartialEq, Eq, Structural)]
pub struct Color {
    pub r: u8,
    pub g: u8,
    pub b: u8,
    pub a: u8,
}

/// An opaque color.
pub open spec fn rgb(r: u8, g: u8, b: u8) -> Color {
    Color { r, g, b, a: 255 }
}

/// An uppercase Latin letter, `A` to `Z`.
pub open spec fn is_letter(c: char) -> bool {
    'A' as u32 <= c as u32 <= 'Z' as u32
}

/// The tints of the letters, `A` first.
pub open spec fn tint_table() -> Seq<Color> {
    seq![
        rgb(255, 0, 0), rgb(255, 128, 128), rgb(255, 158, 255), rgb(9, 25, 255),
        rgb(178, 255, 0), rgb(0, 156, 255), rgb(5, 25, 87), rgb(21, 0, 164),
        rgb(234, 12, 5), rgb(15, 205, 89), rgb(255, 0, 255), rgb(9, 255, 255),
        rgb(25, 255, 255), rgb(70, 255, 255), rgb(255, 129, 255), rgb(255, 30, 255),
        rgb(255, 5, 255), rgb(255, 190, 255), rgb(255, 255, 24), rgb(255, 255, 123),
        rgb(4, 25, 55), rgb(63, 25, 51), rgb(200, 100, 91), rgb(5, 155, 5),
        rgb(155, 200, 255), rgb(39, 5, 255),
    ]
}

/// The tint of letter `c`: its entry in the table, by offset from `A`.
pub open spec fn tint_spec(c: char) -> Color
    recommends
        is_letter(c),
{
    tint_table()[(c as u32 - 'A' as u32)]
}

/// The fixed tint of a letter.
pub fn tint_of(c: char) -> (r: Color)
    requires
        is_letter(c),
    ensures
        r == tint_spec(c),
{
    let (r, g, b): (u8, u8, u8) = match c {
        'A' => (255, 0, 0),
        'B' => (255, 128, 128),
        'C' => (255, 158, 255),
        'D' => (9, 25, 255),
        'E' => (178, 255, 0),
        'F' => (0, 156, 255),
        'G' => (5, 25, 87),
        'H' => (21, 0, 164),
        'I' => (234, 12, 5),
        'J' => (15, 205, 89),
        'K' => (255, 0, 255),
        'L' => (9, 255, 255),
        'M' => (25, 255, 255),
        'N' => (70, 255, 255),
        'O' => (255, 129, 255),
        'P' => (255, 30, 255),
        'Q' => (255, 5, 255),
        'R' => (255, 190, 255),
        'S' => (255, 255, 24),
        'T' => (255, 255, 123),
        'U' => (4, 25, 55),
        'V' => (63, 25, 51),
        'W' => (200, 100, 91),
        'X' => (5, 155, 5),
        'Y' => (155, 200, 255),
        _ => (39, 5, 255),
    };
    Color { r, g, b, a: 255 }
}

/// Every letter from `A` to `Z` has a tint, and the same letter always has the
/// same tint.
pub proof fn lemma_tint_total(c: char, d: char)
    requires
        is_letter(c),
        is_letter(d),
    ensures
        0 <= (c as u32 - 'A' as u32) < tint_table().len(),
        c == d ==> tint_spec(c) == tint_spec(d),
{
}

/// Whether a letter whose top edge is at `y` straddles the top of the hit zone.
pub open spec fn in_zone(y: int) -> bool {
    y + LETTER_HEIGHT > HIT_ZONE_TOP && y < HIT_ZONE_TOP
}

/// A letter falling down the screen. `x` and `y` are the position of its top
/// left corner.
#[derive(Clone, Copy, Debug, PartialEq, Eq, Structural)]
pub struct FallingLetter {
    pub x: i64,
    pub y: i64,
    pub character: char,
    pub tint: Color,
    pub in_hit_zone: bool,
    pub alive: bool,
}

impl FallingLetter {
    /// The character is a letter, its tint is the letter's, and a letter that
    /// is gone is never in the hit zone.
    pub open spec fn wf(self) -> bool {
        &&& is_letter(self.character)
        &&& self.tint == tint_spec(self.character)
        &&& (!self.alive ==> !self.in_hit_zone)
    }

    /// A fresh, live letter at `(x, y)`.
    pub open spec fn spawned(x: i64, y: i64, c: char) -> FallingLetter {
        FallingLetter { x, y, character: c, tint: tint_spec(c), in_hit_zone: false, alive: true }
    }

    /// The letter after falling by `delta`: it is gone once below the screen,
    /// and in the hit zone while alive and straddling the zone's top.
    pub open spec fn moved(self, delta: int) -> FallingLetter {
        let y = self.y + delta;
        let alive = self.alive && y <= SCREEN_HEIGHT;
        FallingLetter { y: y as i64, alive, in_hit_zone: alive && in_zone(y), ..self }
    }

    /// Whether pressing `pressed` collects the letter.
    pub open spec fn collects(self, pressed: char) -> bool {
        self.in_hit_zone && pressed == self.character
    }

    /// The letter after an attempt to collect it with `pressed`.
    pub open spec fn after_collect(self, pressed: char) -> FallingLetter {
        if self.collects(pressed) {
            FallingLetter { alive: false, in_hit_zone: false, ..self }
        } else {
            self
        }
    }

    /// A live letter `c` at `(x, y)`, tinted by the letter's tint.
    pub fn new(x: i64, y: i64, c: char) -> (r: FallingLetter)
        requires
            is_letter(c),
        ensures
            r == FallingLetter::spawned(x, y, c),
            r.wf(),
    {
        FallingLetter { x, y, character: c, tint: tint_of(c), in_hit_zone: false, alive: true }
    }

    /// Moves the letter down by `dt * speed_factor` (microseconds times
    /// micro-pixels per microsecond), then recomputes whether it is gone and
    /// whether it is in the hit zone.
    pub fn advance(&mut self, dt: u32, speed_factor: u32)
        requires
            old(self).wf(),
            old(self).y + dt * speed_factor <= i64::MAX,
        ensures
            *final(self) == old(self).moved(dt * speed_factor),
            final(self).wf(),
            final(self).y == old(self).y + dt * speed_factor,
            old(self).alive && final(self).y <= SCREEN_HEIGHT ==> final(self).alive
                && final(self).in_hit_zone == in_zone(final(self).y as int),
    {
        let delta: u64 = (dt as u64) * (speed_factor as u64);
        let y: i64 = (self.y as i128 + delta as i128) as i64;
        self.y = y;
        self.alive = self.alive && y <= SCREEN_HEIGHT;
        self.in_hit_zone = self.alive && y + LETTER_HEIGHT > HIT_ZONE_TOP && y < HIT_ZONE_TOP;
    }

    /// Tries to collect the letter with the key `pressed`: succeeds, and marks
    /// the letter gone, exactly when the letter is in the hit zone and
    /// `pressed` is its character.
    pub fn try_collect(&mut self, pressed: char) -> (r: bool)
        requires
            old(self).wf(),
        ensures
            r == (old(self).in_hit_zone && pressed == old(self).character),
            !old(self).alive ==> !r,
            *final(self) == old(self).after_collect(pressed),
            r ==> !final(self).alive,
            final(self).wf(),
    {
        if self.in_hit_zone && pressed == self.character {
            self.alive = false;
            self.in_hit_zone = false;
            true
        } else {
            false
        }
    }
}

} // verus!
