//! Operating modes of the CPU governor and the thermal zones of the CPU
//! temperature. Temperatures are integers in millidegrees Celsius.

use vstd::prelude::*;

verus! {

/// Operating mode of the CPU governor.
#[derive(Debug, Clone, Copy, PartialEq, Eq, Structural)]
pub enum Mode {
    Performance,
    Comfort,
    Balanced,
    Quiet,
    Auto,
    Unknown,
}

/// Display label of a mode.
pub open spec fn mode_label(m: Mode) -> Seq<char> {
    match m {
        Mode::Performance => "PERFORMANCE"@,
        Mode::Comfort => "COMFORT"@,
        Mode::Balanced => "BALANCED"@,
        Mode::Quiet => "QUIET"@,
        Mode::Auto => "AUTO"@,
        Mode::Unknown => "UNKNOWN"@,
    }
}

/// Token handed to the mode-change helper; `Unknown` falls back to `auto`.
pub open spec fn mode_command(m: Mode) -> Seq<char> {
    match m {
        Mode::Performance => "performance"@,
        Mode::Comfort => "comfort"@,
        Mode::Balanced => "balanced"@,
        Mode::Quiet => "quiet"@,
        Mode::Auto => "auto"@,
        Mode::Unknown => "auto"@,
    }
}

/// Human description of a mode.
pub open spec fn mode_description(m: Mode) -> Seq<char> {
    match m {
        Mode::Performance => "100% - Video calls"@,
        Mode::Comfort => "60% - Cool keyboard"@,
        Mode::Balanced => "75% - General use"@,
        Mode::Quiet => "40% - Silent"@,
        Mode::Auto => "Automatic"@,
        Mode::Unknown => "Unknown"@,
    }
}

/// The modes a user can select, in display order.
pub open spec fn selectable_modes() -> Seq<Mode> {
    seq![Mode::Performance, Mode::Comfort, Mode::Balanced, Mode::Quiet, Mode::Auto]
}

impl Mode {
    pub fn label(&self) -> (r: &'static str)
        ensures
            r@ == mode_label(*self),
    {
        match self {
            Mode::Performance => "PERFORMANCE",
            Mode::Comfort => "COMFORT",
            Mode::Balanced => "BALANCED",
            Mode::Quiet => "QUIET",
            Mode::Auto => "AUTO",
            Mode::Unknown => "UNKNOWN",
        }
    }

    pub fn command(&self) -> (r: &'static str)
        ensures
            r@ == mode_command(*self),
    {
        match self {
            Mode::Performance => "performance",
            Mode::Comfort => "comfort",
            Mode::Balanced => "balanced",
            Mode::Quiet => "quiet",
            Mode::Auto => "auto",
            Mode::Unknown => "auto",
        }
    }

    pub fn description(&self) -> (r: &'static str)
        ensures
            r@ == mode_description(*self),
    {
        match self {
            Mode::Performance => "100% - Video calls",
            Mode::Comfort => "60% - Cool keyboard",
            Mode::Balanced => "75% - General use",
            Mode::Quiet => "40% - Silent",
            Mode::Auto => "Automatic",
            Mode::Unknown => "Unknown",
        }
    }

    /// The five user-selectable modes; `Unknown` is not among them.
    pub fn all() -> (r: &'static [Mode])
        ensures
            r@ == selectable_modes(),
    {
        let r: &'static [Mode] = &[Mode::Performance, Mode::Comfort, Mode::Balanced, Mode::Quiet, Mode::Auto];
        assert(r@ =~= selectable_modes());
        r
    }
}

impl Default for Mode {
    fn default() -> (r: Mode)
        ensures
            r == Mode::Auto,
    {
        Mode::Auto
    }
}

/// Classification of the CPU temperature into six ordered bands.
#[derive(Debug, Clone, Copy, PartialEq, Eq, Structural)]
pub enum ThermalZone {
    Cool,
    Comfort,
    Optimal,
    Warm,
    Hot,
    Critical,
}

/// Zone of a CPU temperature in millidegrees; each band includes its lower
/// edge: below 40 °C Cool, then 45, 50, 55 and 65 °C start the next zones.
pub open spec fn zone_of(t: int) -> ThermalZone {
    if t < 40_000 {
        ThermalZone::Cool
    } else if t < 45_000 {
        ThermalZone::Comfort
    } else if t < 50_000 {
        ThermalZone::Optimal
    } else if t < 55_000 {
        ThermalZone::Warm
    } else if t < 65_000 {
        ThermalZone::Hot
    } else {
        ThermalZone::Critical
    }
}

pub open spec fn zone_label(z: ThermalZone) -> Seq<char> {
    match z {
        ThermalZone::Cool => "COOL"@,
        ThermalZone::Comfort => "COMFORT"@,
        ThermalZone::Optimal => "OPTIMAL"@,
        ThermalZone::Warm => "WARM"@,
        ThermalZone::Hot => "HOT"@,
        ThermalZone::Critical => "CRITICAL"@,
    }
}

/// Display colour of a zone as red, green and blue components.
pub open spec fn zone_color(z: ThermalZone) -> (u8, u8, u8) {
    match z {
        ThermalZone::Cool => (100, 200, 255),
        ThermalZone::Comfort => (100, 220, 100),
        ThermalZone::Optimal => (150, 220, 100),
        ThermalZone::Warm => (255, 200, 100),
        ThermalZone::Hot => (255, 150, 100),
        ThermalZone::Critical => (255, 100, 100),
    }
}

impl ThermalZone {
    /// Classifies a CPU temperature given in millidegrees Celsius.
    pub fn from_cpu_temp(temp: i32) -> (r: ThermalZone)
        ensures
            r == zone_of(temp as int),
    {
        if temp < 40_000 {
            ThermalZone::Cool
        } else if temp < 45_000 {
            ThermalZone::Comfort
        } else if temp < 50_000 {
            ThermalZone::Optimal
        } else if temp < 55_000 {
            ThermalZone::Warm
        } else if temp < 65_000 {
            ThermalZone::Hot
        } else {
            ThermalZone::Critical
        }
    }

    pub fn label(&self) -> (r: &'static str)
        ensures
            r@ == zone_label(*self),
    {
        match self {
            ThermalZone::Cool => "COOL",
            ThermalZone::Comfort => "COMFORT",
            ThermalZone::Optimal => "OPTIMAL",
            ThermalZone::Warm => "WARM",
            ThermalZone::Hot => "HOT",
            ThermalZone::Critical => "CRITICAL",
        }
    }

    pub fn color_rgb(&self) -> (r: (u8, u8, u8))
        ensures
            r == zone_color(*self),
    {
        match self {
            ThermalZone::Cool => (100, 200, 255),
            ThermalZone::Comfort => (100, 220, 100),
            ThermalZone::Optimal => (150, 220, 100),
            ThermalZone::Warm => (255, 200, 100),
            ThermalZone::Hot => (255, 150, 100),
            ThermalZone::Critical => (255, 100, 100),
        }
    }
}

} // verus!
