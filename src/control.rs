//! The control policy: from the CPU temperature, the target and the current
//! performance percentage, the next actuation request, tiered by how far
//! the temperature lies above or below the target (millidegrees Celsius).

use vstd::prelude::*;

use crate::sensors::{perf_pct_of, read_perf_pct};
use crate::zone::{mode_label, Mode};

verus! {

/// Lowest performance cap that is ever requested.
pub const MIN_PERF_PCT: u8 = 20;

/// Highest performance cap that is ever requested.
pub const MAX_PERF_PCT: u8 = 100;

/// Performance cap of the critical tier.
pub const CRITICAL_PERF_PCT: u8 = 30;

/// Performance cap of the high tier.
pub const HIGH_PERF_PCT: u8 = 50;

/// Current performance percentage that the controller assumes when the
/// control file cannot be read.
pub const CONTROL_FALLBACK_PERF_PCT: u8 = 75;

/// `v` brought into the operating range [20, 100].
pub open spec fn clamp_perf(v: int) -> int {
    if v < MIN_PERF_PCT {
        MIN_PERF_PCT as int
    } else if v > MAX_PERF_PCT {
        MAX_PERF_PCT as int
    } else {
        v
    }
}

pub open spec fn abs(v: int) -> int {
    if v < 0 {
        -v
    } else {
        v
    }
}

/// `n / d` rounded toward zero; 0 where `d` is 0.
pub open spec fn div_toward_zero(n: int, d: int) -> int {
    if d == 0 {
        0
    } else if (n >= 0) == (d > 0) {
        abs(n) / abs(d)
    } else {
        -(abs(n) / abs(d))
    }
}

/// Headroom helper: at or below target the cap grows by a tenth, rounded
/// down; above target it shrinks in proportion `target / current`, rounded
/// toward zero. Either way it stays within [20, 100].
pub open spec fn perf_for_target(current: int, target: int, perf: int) -> int {
    if current <= target {
        clamp_perf(perf * 11 / 10)
    } else {
        clamp_perf(div_toward_zero(perf * target, current))
    }
}

/// Brings a requested performance cap into [20, 100].
pub fn clamp_perf_pct(pct: u8) -> (r: u8)
    ensures
        r as int == clamp_perf(pct as int),
{
    if pct < MIN_PERF_PCT {
        MIN_PERF_PCT
    } else if pct > MAX_PERF_PCT {
        MAX_PERF_PCT
    } else {
        pct
    }
}

fn clamp_wide(v: i64) -> (r: u8)
    ensures
        r as int == clamp_perf(v as int),
{
    if v < MIN_PERF_PCT as i64 {
        MIN_PERF_PCT
    } else if v > MAX_PERF_PCT as i64 {
        MAX_PERF_PCT
    } else {
        v as u8
    }
}

/// The performance cap that moves the CPU temperature toward the target.
pub fn calc_perf_for_target(current_temp: i32, target_temp: i32, current_perf: u8) -> (r: u8)
    ensures
        r as int == perf_for_target(current_temp as int, target_temp as int, current_perf as int),
{
    if current_temp <= target_temp {
        let grown: i64 = current_perf as i64 * 11 / 10;
        clamp_wide(grown)
    } else {
        assert(-0x8000_0000 * 255 <= current_perf as int * target_temp as int <= 0x7fff_ffff * 255)
            by (nonlinear_arith)
            requires
                0 <= current_perf <= 255,
                -0x8000_0000 <= target_temp <= 0x7fff_ffff,
        ;
        let n: i64 = current_perf as i64 * target_temp as i64;
        let d: i64 = current_temp as i64;
        if d == 0 {
            clamp_wide(0)
        } else {
            let an: i64 = if n < 0 {
                -n
            } else {
                n
            };
            let ad: i64 = if d < 0 {
                -d
            } else {
                d
            };
            let q: i64 = an / ad;
            assert(0 <= q <= an) by (nonlinear_arith)
                requires
                    q == an / ad,
                    an >= 0,
                    ad >= 1,
            ;
            if (n >= 0) == (d > 0) {
                clamp_wide(q)
            } else {
                clamp_wide(-q)
            }
        }
    }
}

/// Whatever the temperatures and the current cap, the headroom helper
/// answers within [20, 100].
pub proof fn lemma_perf_for_target_in_range(current: int, target: int, perf: int)
    ensures
        MIN_PERF_PCT <= perf_for_target(current, target, perf) <= MAX_PERF_PCT,
{
}

/// One tick's control decision.
#[derive(Debug, Clone, Copy, PartialEq, Eq, Structural)]
pub enum ControlAction {
    /// More than 10 °C over target: fan boost and a 30% cap.
    Critical,
    /// More than 5 °C over target: fan boost and a 50% cap.
    High,
    /// Slightly over target: the proportional cap.
    Adjust(u8),
    /// More than 5 °C under target: the cap raised by ten points.
    Increase(u8),
    /// Within 5 °C under the target, or on it: nothing to do.
    OnTarget,
}

/// The decision table, first matching tier first, over
/// `diff = current - target`.
pub open spec fn action_for(current: int, target: int, perf: int) -> ControlAction {
    let diff = current - target;
    if diff > 10_000 {
        ControlAction::Critical
    } else if diff > 5_000 {
        ControlAction::High
    } else if diff > 0 {
        ControlAction::Adjust(perf_for_target(current, target, perf) as u8)
    } else if diff < -5_000 {
        ControlAction::Increase(
            (if perf + 10 > MAX_PERF_PCT {
                MAX_PERF_PCT as int
            } else {
                perf + 10
            }) as u8,
        )
    } else {
        ControlAction::OnTarget
    }
}

/// Decides this tick's action from the CPU temperature, the target and the
/// current performance percentage.
pub fn decide_control(current_temp: i32, target_temp: i32, current_perf: u8) -> (r: ControlAction)
    ensures
        r == action_for(current_temp as int, target_temp as int, current_perf as int),
{
    let diff: i64 = current_temp as i64 - target_temp as i64;
    if diff > 10_000 {
        ControlAction::Critical
    } else if diff > 5_000 {
        ControlAction::High
    } else if diff > 0 {
        ControlAction::Adjust(calc_perf_for_target(current_temp, target_temp, current_perf))
    } else if diff < -5_000 {
        let raised: u16 = current_perf as u16 + 10;
        ControlAction::Increase(
            if raised > MAX_PERF_PCT as u16 {
                MAX_PERF_PCT
            } else {
                raised as u8
            },
        )
    } else {
        ControlAction::OnTarget
    }
}

/// Decides this tick's action from the CPU temperature, the target, and
/// what the performance-percentage control file held, read fresh for the
/// decision (75% is assumed when it could not be read or parsed).
pub fn plan_thermal_control(current_temp: i32, target_temp: i32, perf_content: &Option<String>) -> (r:
    ControlAction)
    ensures
        r == action_for(
            current_temp as int,
            target_temp as int,
            (match perf_pct_of(*perf_content) {
                Some(p) => p,
                None => CONTROL_FALLBACK_PERF_PCT,
            }) as int,
        ),
{
    let current_perf = match read_perf_pct(perf_content) {
        Some(p) => p,
        None => CONTROL_FALLBACK_PERF_PCT,
    };
    decide_control(current_temp, target_temp, current_perf)
}

/// The decimal text of a single digit.
pub open spec fn digit_text(d: int) -> Seq<char> {
    if d == 0 {
        "0"@
    } else if d == 1 {
        "1"@
    } else if d == 2 {
        "2"@
    } else if d == 3 {
        "3"@
    } else if d == 4 {
        "4"@
    } else if d == 5 {
        "5"@
    } else if d == 6 {
        "6"@
    } else if d == 7 {
        "7"@
    } else if d == 8 {
        "8"@
    } else {
        "9"@
    }
}

/// Decimal text of `n`, without leading zeros.
pub open spec fn decimal(n: nat) -> Seq<char>
    decreases n,
{
    if n < 10 {
        digit_text(n as int)
    } else {
        decimal(n / 10) + digit_text((n % 10) as int)
    }
}

fn digit_str(d: u8) -> (r: &'static str)
    requires
        d < 10,
    ensures
        r@ == digit_text(d as int),
{
    if d == 0 {
        "0"
    } else if d == 1 {
        "1"
    } else if d == 2 {
        "2"
    } else if d == 3 {
        "3"
    } else if d == 4 {
        "4"
    } else if d == 5 {
        "5"
    } else if d == 6 {
        "6"
    } else if d == 7 {
        "7"
    } else if d == 8 {
        "8"
    } else {
        "9"
    }
}

/// Appends the decimal text of `n` to `s`.
fn append_decimal(s: &mut String, n: u8)
    ensures
        final(s)@ == old(s)@ + decimal(n as nat),
{
    let ghost start = s@;
    if n >= 100 {
        s.append(digit_str(n / 100));
        s.append(digit_str((n / 10) % 10));
        s.append(digit_str(n % 10));
        let ghost tens: nat = (n / 10) as nat;
        assert(tens >= 10 && tens / 10 == n / 100 && n / 100 < 10);
        assert(decimal(tens / 10) == digit_text((n / 100) as int));
        assert(decimal(tens) == decimal(tens / 10) + digit_text((tens % 10) as int));
        assert(decimal(n as nat) == decimal(tens) + digit_text((n % 10) as int));
        assert(s@ =~= start + decimal(n as nat));
    } else if n >= 10 {
        s.append(digit_str(n / 10));
        s.append(digit_str(n % 10));
        assert(decimal((n / 10) as nat) == digit_text((n / 10) as int));
        assert(decimal(n as nat) == decimal((n / 10) as nat) + digit_text((n % 10) as int));
        assert(s@ =~= start + decimal(n as nat));
    } else {
        s.append(digit_str(n));
    }
}

/// Status text of an action.
pub open spec fn action_message(a: ControlAction) -> Seq<char> {
    match a {
        ControlAction::Critical => "CRITICAL: Fan boost + 30%"@,
        ControlAction::High => "HIGH: Fan boost + 50%"@,
        ControlAction::Adjust(p) => "Adjusting to "@ + decimal(p as nat) + "%"@,
        ControlAction::Increase(p) => "Increasing to "@ + decimal(p as nat) + "%"@,
        ControlAction::OnTarget => "On target"@,
    }
}

/// Performance cap an action requests, if any.
pub open spec fn action_perf(a: ControlAction) -> Option<u8> {
    match a {
        ControlAction::Critical => Some(CRITICAL_PERF_PCT),
        ControlAction::High => Some(HIGH_PERF_PCT),
        ControlAction::Adjust(p) => Some(p),
        ControlAction::Increase(p) => Some(p),
        ControlAction::OnTarget => None,
    }
}

/// Whether an action requests fan boost.
pub open spec fn action_fan_boost(a: ControlAction) -> bool {
    a is Critical || a is High
}

impl ControlAction {
    /// Whether the fan is to be boosted before the cap is applied.
    pub fn fan_boost(&self) -> (r: bool)
        ensures
            r == action_fan_boost(*self),
    {
        match self {
            ControlAction::Critical => true,
            ControlAction::High => true,
            _ => false,
        }
    }

    /// The performance cap to request, if any.
    pub fn perf_request(&self) -> (r: Option<u8>)
        ensures
            r == action_perf(*self),
    {
        match self {
            ControlAction::Critical => Some(CRITICAL_PERF_PCT),
            ControlAction::High => Some(HIGH_PERF_PCT),
            ControlAction::Adjust(p) => Some(*p),
            ControlAction::Increase(p) => Some(*p),
            ControlAction::OnTarget => None,
        }
    }

    /// The status text reported for this action.
    pub fn message(&self) -> (r: String)
        ensures
            r@ == action_message(*self),
    {
        match self {
            ControlAction::Critical => String::from_str("CRITICAL: Fan boost + 30%"),
            ControlAction::High => String::from_str("HIGH: Fan boost + 50%"),
            ControlAction::Adjust(p) => {
                let mut s = String::from_str("Adjusting to ");
                append_decimal(&mut s, *p);
                s.append("%");
                s
            },
            ControlAction::Increase(p) => {
                let mut s = String::from_str("Increasing to ");
                append_decimal(&mut s, *p);
                s.append("%");
                s
            },
            ControlAction::OnTarget => String::from_str("On target"),
        }
    }

    /// Result of the tick once the requests went out. `perf_write` is the
    /// outcome of the performance request (ignored when none was made); its
    /// failure fails the tick. A failed fan-boost request never does.
    pub fn outcome(&self, perf_write: Result<(), String>) -> (r: Result<String, String>)
        ensures
            match r {
                Ok(m) => m@ == action_message(*self) && (action_perf(*self) is None
                    || perf_write is Ok),
                Err(e) => action_perf(*self) is Some && perf_write == Err::<(), String>(e),
            },
    {
        match self {
            ControlAction::OnTarget => Ok(self.message()),
            _ => match perf_write {
                Ok(()) => Ok(self.message()),
                Err(e) => Err(e),
            },
        }
    }

    /// The status message a tick shows: the outcome's text, except when on
    /// target or when the tick failed.
    pub fn status(&self, outcome: &Result<String, String>) -> (r: Option<String>)
        ensures
            match outcome {
                Ok(m) => if *self is OnTarget {
                    r is None
                } else {
                    r matches Some(s) && s@ == m@
                },
                Err(_) => r is None,
            },
    {
        match outcome {
            Ok(m) => if let ControlAction::OnTarget = self {
                None
            } else {
                Some(m.clone())
            },
            Err(_) => None,
        }
    }
}

/// The tiers of the control policy over `diff = current - target`: above
/// 10 °C fan boost and a 30% cap; above 5 °C fan boost and a 50% cap; above
/// 0 the proportional cap alone; below -5 °C the cap raised by ten points,
/// at most 100; otherwise no request and the status "On target".
pub proof fn lemma_control_tiers(current: int, target: int, perf: int)
    requires
        0 <= perf <= 255,
    ensures
        ({
            let a = action_for(current, target, perf);
            let diff = current - target;
            &&& diff > 10_000 ==> action_fan_boost(a) && action_perf(a) == Some(30u8)
                && action_message(a) == "CRITICAL: Fan boost + 30%"@
            &&& 5_000 < diff <= 10_000 ==> action_fan_boost(a) && action_perf(a) == Some(50u8)
                && action_message(a) == "HIGH: Fan boost + 50%"@
            &&& 0 < diff <= 5_000 ==> !action_fan_boost(a) && action_perf(a) == Some(
                perf_for_target(current, target, perf) as u8,
            ) && perf_for_target(current, target, perf) == clamp_perf(
                div_toward_zero(perf * target, current),
            )
            &&& diff < -5_000 ==> !action_fan_boost(a) && action_perf(a) == Some(
                (if perf + 10 > 100 {
                    100
                } else {
                    perf + 10
                }) as u8,
            )
            &&& -5_000 <= diff <= 0 ==> !action_fan_boost(a) && action_perf(a) is None
                && action_message(a) == "On target"@
        }),
{
}

/// Status text after a user-requested mode change.
pub open spec fn mode_change_text(mode: Mode, result: Result<(), String>) -> Seq<char> {
    match result {
        Ok(()) => "Mode changed to "@ + mode_label(mode),
        Err(e) => "Error: "@ + e@,
    }
}

/// The status message after a mode change request, given its result.
pub fn mode_change_message(mode: Mode, result: &Result<(), String>) -> (r: String)
    ensures
        r@ == mode_change_text(mode, *result),
{
    match result {
        Ok(()) => {
            let mut s = String::from_str("Mode changed to ");
            s.append(mode.label());
            s
        },
        Err(e) => {
            let mut s = String::from_str("Error: ");
            s.append(e.as_str());
            s
        },
    }
}

} // verus!
