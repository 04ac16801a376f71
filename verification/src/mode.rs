//! The display-mode state machine: four digital size tiers plus an analog
//! flag, advanced by a single cyclic transition.

use vstd::prelude::*;

verus! {

/// One of the four digital-display size presets, in cycle order.
#[derive(Clone, Copy, Debug, PartialEq, Eq, Structural)]
pub enum SizeTier {
    Full,
    Half,
    Quadrant,
    Sextant,
}

/// The durable display state: the active size tier and whether the analog
/// face is shown.  The tier is kept while analog, so leaving analog mode can
/// restore a digital tier.
#[derive(Clone, Copy, Debug, PartialEq, Eq, Structural)]
pub struct DisplayMode {
    pub tier: SizeTier,
    pub analog: bool,
}

/// The single cyclic transition: analog returns to digital at `Full`;
/// digital tiers step `Full -> Half -> Quadrant -> Sextant`; from `Sextant`
/// the analog face is shown, with the tier field retained.
pub open spec fn spec_advance(m: DisplayMode) -> DisplayMode {
    if m.analog {
        DisplayMode { tier: SizeTier::Full, analog: false }
    } else {
        match m.tier {
            SizeTier::Full => DisplayMode { tier: SizeTier::Half, analog: false },
            SizeTier::Half => DisplayMode { tier: SizeTier::Quadrant, analog: false },
            SizeTier::Quadrant => DisplayMode { tier: SizeTier::Sextant, analog: false },
            SizeTier::Sextant => DisplayMode { tier: SizeTier::Sextant, analog: true },
        }
    }
}

impl DisplayMode {
    /// Step to the next of the five visually distinct display states.
    pub fn advance(&mut self)
        ensures
            *final(self) == spec_advance(*old(self)),
    {
        if self.analog {
            self.analog = false;
            self.tier = SizeTier::Full;
        } else {
            match self.tier {
                SizeTier::Full => {
                    self.tier = SizeTier::Half;
                },
                SizeTier::Half => {
                    self.tier = SizeTier::Quadrant;
                },
                SizeTier::Quadrant => {
                    self.tier = SizeTier::Sextant;
                },
                SizeTier::Sextant => {
                    self.analog = true;
                },
            }
        }
    }

    /// Clear the analog flag without touching the tier, for the explicit
    /// switch-to-digital input.
    pub fn force_digital(&mut self)
        ensures
            *final(self) == (DisplayMode { tier: old(self).tier, analog: false }),
    {
        self.analog = false;
    }
}

impl Default for DisplayMode {
    /// The starting state when none is asked for: digital at `Quadrant`.
    fn default() -> (m: Self)
        ensures
            m == (DisplayMode { tier: SizeTier::Quadrant, analog: false }),
    {
        DisplayMode { tier: SizeTier::Quadrant, analog: false }
    }
}

/// The display state each size name asks for.  The four tier names start
/// digital at that tier; `analog` starts on the analog face, with the tier
/// left at the default so leaving analog has a tier to restore; any other
/// name means nothing.
pub open spec fn spec_mode_of_name(s: Seq<char>) -> Option<DisplayMode> {
    if s == "full"@ {
        Some(DisplayMode { tier: SizeTier::Full, analog: false })
    } else if s == "half"@ {
        Some(DisplayMode { tier: SizeTier::Half, analog: false })
    } else if s == "quadrant"@ {
        Some(DisplayMode { tier: SizeTier::Quadrant, analog: false })
    } else if s == "sextant"@ {
        Some(DisplayMode { tier: SizeTier::Sextant, analog: false })
    } else if s == "analog"@ {
        Some(DisplayMode { tier: SizeTier::Quadrant, analog: true })
    } else {
        None
    }
}

impl DisplayMode {
    /// The starting display state a size name asks for, or nothing when the
    /// name is not one of the five.
    pub fn from_name(name: &str) -> (m: Option<DisplayMode>)
        ensures
            m == spec_mode_of_name(name@),
    {
        let n = name.to_owned();
        if n == String::from_str("full") {
            Some(DisplayMode { tier: SizeTier::Full, analog: false })
        } else if n == String::from_str("half") {
            Some(DisplayMode { tier: SizeTier::Half, analog: false })
        } else if n == String::from_str("quadrant") {
            Some(DisplayMode { tier: SizeTier::Quadrant, analog: false })
        } else if n == String::from_str("sextant") {
            Some(DisplayMode { tier: SizeTier::Sextant, analog: false })
        } else if n == String::from_str("analog") {
            Some(DisplayMode { tier: SizeTier::Quadrant, analog: true })
        } else {
            None
        }
    }
}

/// Advancing five times returns to the start: the reachable modes form one
/// cycle of length five.  Analog modes are reachable only with the tier left
/// at `Sextant`, and the law holds exactly of those.
pub proof fn lemma_advance_cycle(m: DisplayMode)
    requires
        m.analog ==> m.tier == SizeTier::Sextant,
    ensures
        spec_advance(spec_advance(spec_advance(spec_advance(spec_advance(m))))) == m,
{
}

} // verus!
