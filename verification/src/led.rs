//! The bank of four board LEDs, modeled as four push-pull output levels.
//!
//! The LEDs are wired active-low: driving a line to the low electrical
//! level illuminates the LED, driving it high extinguishes it.

use vstd::prelude::*;

verus! {

/// The four onboard LEDs, named by color. A color is only a lookup key;
/// the set is closed and fixed by the board layout.
#[derive(Clone, Copy, PartialEq, Eq, Structural, Debug)]
pub enum LedColor {
    Orange,
    Red,
    Blue,
    Green,
}

/// Electrical level of a push-pull digital output line.
#[derive(Clone, Copy, PartialEq, Eq, Structural, Debug)]
pub enum PinLevel {
    Low,
    High,
}

/// An LED is illuminated exactly when its line is driven low (active-low wiring).
pub open spec fn lit(level: PinLevel) -> bool {
    level == PinLevel::Low
}

/// The LED bank: one independently addressable output line per color.
///
/// Construction configures each line exactly once; afterwards the only
/// operations are `on` and `off`, which never fail.
pub struct LedBank {
    pub orange: PinLevel,
    pub red: PinLevel,
    pub blue: PinLevel,
    pub green: PinLevel,
}

impl LedBank {
    /// The level currently driven on the line of the given color.
    pub open spec fn level_of(self, color: LedColor) -> PinLevel {
        match color {
            LedColor::Orange => self.orange,
            LedColor::Red => self.red,
            LedColor::Blue => self.blue,
            LedColor::Green => self.green,
        }
    }

    /// The bank with one line set to the given level and the others untouched.
    pub open spec fn with_level(self, color: LedColor, level: PinLevel) -> LedBank {
        match color {
            LedColor::Orange => LedBank { orange: level, ..self },
            LedColor::Red => LedBank { red: level, ..self },
            LedColor::Blue => LedBank { blue: level, ..self },
            LedColor::Green => LedBank { green: level, ..self },
        }
    }

    /// All four LEDs are dark.
    pub open spec fn all_extinguished(self) -> bool {
        forall|c: LedColor| !lit(#[trigger] self.level_of(c))
    }

    /// A fresh bank: every line driven high, so every LED is dark.
    pub fn new() -> (bank: LedBank)
        ensures
            bank.all_extinguished(),
    {
        LedBank {
            orange: PinLevel::High,
            red: PinLevel::High,
            blue: PinLevel::High,
            green: PinLevel::High,
        }
    }

    /// Illuminate one LED: drive its line low, leave the other lines alone.
    pub fn on(&mut self, color: LedColor)
        ensures
            *final(self) == old(self).with_level(color, PinLevel::Low),
            lit(final(self).level_of(color)),
    {
        match color {
            LedColor::Orange => self.orange = PinLevel::Low,
            LedColor::Red => self.red = PinLevel::Low,
            LedColor::Blue => self.blue = PinLevel::Low,
            LedColor::Green => self.green = PinLevel::Low,
        }
    }

    /// Extinguish one LED: drive its line high, leave the other lines alone.
    pub fn off(&mut self, color: LedColor)
        ensures
            *final(self) == old(self).with_level(color, PinLevel::High),
            !lit(final(self).level_of(color)),
    {
        match color {
            LedColor::Orange => self.orange = PinLevel::High,
            LedColor::Red => self.red = PinLevel::High,
            LedColor::Blue => self.blue = PinLevel::High,
            LedColor::Green => self.green = PinLevel::High,
        }
    }

    /// The level currently driven on the line of the given color.
    pub fn level(&self, color: LedColor) -> (l: PinLevel)
        ensures
            l == self.level_of(color),
    {
        match color {
            LedColor::Orange => self.orange,
            LedColor::Red => self.red,
            LedColor::Blue => self.blue,
            LedColor::Green => self.green,
        }
    }

    /// Whether the LED of the given color is currently illuminated.
    pub fn is_lit(&self, color: LedColor) -> (r: bool)
        ensures
            r == lit(self.level_of(color)),
    {
        let level = match color {
            LedColor::Orange => self.orange,
            LedColor::Red => self.red,
            LedColor::Blue => self.blue,
            LedColor::Green => self.green,
        };
        match level {
            PinLevel::Low => true,
            PinLevel::High => false,
        }
    }
}

} // verus!
