//! The thermal model and the snapshot builder. Raw sensor text is read
//! elsewhere; here it is interpreted, with a documented fallback for every
//! quantity whose reading failed. Temperatures are millidegrees Celsius.

use vstd::prelude::*;

use crate::text::{chars_of, contains_folded, contains_folded_exec, i32_of, parse_i32, parse_u32, parse_u8, u32_of, u8_of};
use crate::zone::{zone_of, Mode, ThermalZone};

verus! {

/// CPU temperature assumed when no sensor can be read: 50 °C.
pub const FALLBACK_CPU_TEMP: i32 = 50_000;

/// Ambient temperature assumed when it cannot be measured: 28 °C.
pub const DEFAULT_AMBIENT: i32 = 28_000;

pub const FALLBACK_PERF_PCT: u8 = 50;

pub const FALLBACK_CURRENT_FREQ_MHZ: u32 = 1000;

pub const FALLBACK_MAX_FREQ_MHZ: u32 = 4400;

/// The CPU-to-ambient difference damped by the attenuation factor 0.45,
/// rounded toward zero.
pub open spec fn attenuated(d: int) -> int {
    if d >= 0 {
        d * 45 / 100
    } else {
        -((-d) * 45 / 100)
    }
}

/// Keyboard surface estimate: `ambient + (cpu - ambient) * 0.45`.
pub open spec fn keyboard_estimate(cpu: int, ambient: int) -> int {
    ambient + attenuated(cpu - ambient)
}

/// Estimates the keyboard surface temperature from the CPU and ambient
/// temperatures with a single lumped attenuation factor of 0.45.
pub fn calculate_keyboard_temp(cpu_temp: i32, ambient_temp: i32) -> (r: i32)
    ensures
        r as int == keyboard_estimate(cpu_temp as int, ambient_temp as int),
{
    let d: i64 = cpu_temp as i64 - ambient_temp as i64;
    let a: i64 = if d >= 0 {
        assert(0 <= d * 45 / 100 <= d) by (nonlinear_arith)
            requires
                d >= 0,
        ;
        d * 45 / 100
    } else {
        let e: i64 = -d;
        assert(0 <= e * 45 / 100 <= e) by (nonlinear_arith)
            requires
                e >= 0,
        ;
        -(e * 45 / 100)
    };
    (ambient_temp as i64 + a) as i32
}

/// With no difference between CPU and ambient there is no gradient: the
/// estimate is the ambient temperature itself. Otherwise it lies between
/// the two, closer to the ambient one.
pub proof fn lemma_estimate_between(cpu: int, ambient: int)
    ensures
        cpu == ambient ==> keyboard_estimate(cpu, ambient) == ambient,
        ambient <= cpu ==> ambient <= keyboard_estimate(cpu, ambient) <= cpu,
        cpu <= ambient ==> cpu <= keyboard_estimate(cpu, ambient) <= ambient,
{
    let d = cpu - ambient;
    if d >= 0 {
        assert(0 <= d * 45 / 100 <= d) by (nonlinear_arith)
            requires
                d >= 0,
        ;
    } else {
        let e = -d;
        assert(0 <= e * 45 / 100 <= e) by (nonlinear_arith)
            requires
                e >= 0,
        ;
    }
}

/// A temperature reading in millidegrees, if the text holds one.
pub open spec fn temp_reading(o: Option<String>) -> Option<i32> {
    match o {
        Some(s) => i32_of(s@),
        None => None,
    }
}

/// A preferred CPU reading is accepted when it lies strictly between 0 and
/// 150 °C.
pub open spec fn plausible_cpu(t: Option<i32>) -> bool {
    match t {
        Some(v) => 0 < v && v < 150_000,
        None => false,
    }
}

/// First plausible reading among the preferred CPU sensors.
pub open spec fn first_plausible(p: Seq<Option<String>>) -> Option<i32>
    decreases p.len(),
{
    if p.len() == 0 {
        None
    } else if plausible_cpu(temp_reading(p[0])) {
        temp_reading(p[0])
    } else {
        first_plausible(p.drop_first())
    }
}

/// Declared sensor types that denote the CPU package.
pub open spec fn package_kind(k: Option<String>) -> bool {
    match k {
        Some(s) => s@ == "x86_pkg_temp"@ || s@ == "TCPU"@,
        None => false,
    }
}

/// A sensor found by scanning: its declared type and its reading.
#[derive(Debug, Clone)]
pub struct ZoneReading {
    pub kind: Option<String>,
    pub temp: Option<String>,
}

/// First readable CPU-package sensor among the scanned ones, unvalidated.
pub open spec fn first_package(z: Seq<ZoneReading>) -> Option<i32>
    decreases z.len(),
{
    if z.len() == 0 {
        None
    } else if package_kind(z[0].kind) && temp_reading(z[0].temp).is_some() {
        temp_reading(z[0].temp)
    } else {
        first_package(z.drop_first())
    }
}

/// CPU temperature: the preferred sensors first, then the scan.
pub open spec fn cpu_temp_of(p: Seq<Option<String>>, z: Seq<ZoneReading>) -> Option<i32> {
    match first_plausible(p) {
        Some(t) => Some(t),
        None => first_package(z),
    }
}

fn read_temp(content: &Option<String>) -> (r: Option<i32>)
    ensures
        r == temp_reading(*content),
{
    match content {
        Some(s) => parse_i32(s.as_str()),
        None => None,
    }
}

fn is_package_kind(kind: &Option<String>) -> (r: bool)
    ensures
        r == package_kind(*kind),
{
    match kind {
        Some(s) => {
            let pkg = String::from_str("x86_pkg_temp");
            let tcpu = String::from_str("TCPU");
            s.eq(&pkg) || s.eq(&tcpu)
        },
        None => false,
    }
}

/// Picks the CPU temperature from the preferred sensors' contents, accepting
/// the first that parses and lies in (0, 150) °C; failing that, from the
/// scanned sensors, accepting the first of a CPU-package type that parses.
pub fn read_cpu_temp(preferred: &Vec<Option<String>>, zones: &Vec<ZoneReading>) -> (r: Option<i32>)
    ensures
        r == cpu_temp_of(preferred@, zones@),
{
    let n = preferred.len();
    let mut i: usize = 0;
    assert(preferred@.subrange(0, n as int) =~= preferred@);
    while i < n
        invariant
            n == preferred@.len(),
            i <= n,
            first_plausible(preferred@) == first_plausible(preferred@.subrange(i as int, n as int)),
        decreases n - i,
    {
        let ghost rest = preferred@.subrange(i as int, n as int);
        assert(rest.drop_first() =~= preferred@.subrange(i + 1, n as int));
        let t = read_temp(&preferred[i]);
        match t {
            Some(v) => {
                if 0 < v && v < 150_000 {
                    return Some(v);
                }
            },
            None => {},
        }
        i = i + 1;
    }
    assert(preferred@.subrange(n as int, n as int) =~= Seq::<Option<String>>::empty());
    let m = zones.len();
    let mut j: usize = 0;
    assert(zones@.subrange(0, m as int) =~= zones@);
    while j < m
        invariant
            m == zones@.len(),
            j <= m,
            first_plausible(preferred@) == None::<i32>,
            first_package(zones@) == first_package(zones@.subrange(j as int, m as int)),
        decreases m - j,
    {
        let ghost rest = zones@.subrange(j as int, m as int);
        assert(rest.drop_first() =~= zones@.subrange(j + 1, m as int));
        if is_package_kind(&zones[j].kind) {
            let t = read_temp(&zones[j].temp);
            if t.is_some() {
                return t;
            }
        }
        j = j + 1;
    }
    assert(zones@.subrange(m as int, m as int) =~= Seq::<ZoneReading>::empty());
    None
}

/// Ambient temperature: the reading when it lies in (15, 50) °C, else 28 °C.
pub open spec fn ambient_of(o: Option<String>) -> i32 {
    match temp_reading(o) {
        Some(v) => if 15_000 < v && v < 50_000 {
            v
        } else {
            DEFAULT_AMBIENT
        },
        None => DEFAULT_AMBIENT,
    }
}

/// Interprets the chassis sensor's content as the ambient temperature,
/// defaulting when it is missing or implausible.
pub fn read_ambient_temp(content: &Option<String>) -> (r: i32)
    ensures
        r == ambient_of(*content),
{
    match read_temp(content) {
        Some(v) => if 15_000 < v && v < 50_000 {
            v
        } else {
            DEFAULT_AMBIENT
        },
        None => DEFAULT_AMBIENT,
    }
}

pub open spec fn perf_pct_of(o: Option<String>) -> Option<u8> {
    match o {
        Some(s) => u8_of(s@),
        None => None,
    }
}

/// Interprets the performance-percentage control file's content.
pub fn read_perf_pct(content: &Option<String>) -> (r: Option<u8>)
    ensures
        r == perf_pct_of(*content),
{
    match content {
        Some(s) => parse_u8(s.as_str()),
        None => None,
    }
}

/// A frequency file's content, in kHz, converted to MHz.
pub open spec fn freq_mhz_of(o: Option<String>) -> Option<u32> {
    match o {
        Some(s) => match u32_of(s@) {
            Some(khz) => Some((khz / 1000) as u32),
            None => None,
        },
        None => None,
    }
}

fn read_freq_mhz(content: &Option<String>) -> (r: Option<u32>)
    ensures
        r == freq_mhz_of(*content),
{
    match content {
        Some(s) => match parse_u32(s.as_str()) {
            Some(khz) => Some(khz / 1000),
            None => None,
        },
        None => None,
    }
}

/// Interprets the current-frequency file's content (kHz) as MHz.
pub fn read_current_freq(content: &Option<String>) -> (r: Option<u32>)
    ensures
        r == freq_mhz_of(*content),
{
    read_freq_mhz(content)
}

/// Interprets the maximum-frequency file's content (kHz) as MHz.
pub fn read_max_freq(content: &Option<String>) -> (r: Option<u32>)
    ensures
        r == freq_mhz_of(*content),
{
    read_freq_mhz(content)
}

/// Mode named by the status text, matched case-insensitively in this order:
/// performance; comfort, which reads as Auto when the text also holds
/// "auto" or a hyphen (a sub-state suffix such as "comfort-OPTIMAL");
/// balanced; quiet; auto. Anything else is Unknown.
pub open spec fn mode_of_status(t: Seq<char>) -> Mode {
    if contains_folded(t, "performance"@) {
        Mode::Performance
    } else if contains_folded(t, "comfort"@) {
        if contains_folded(t, "auto"@) || contains_folded(t, "-"@) {
            Mode::Auto
        } else {
            Mode::Comfort
        }
    } else if contains_folded(t, "balanced"@) {
        Mode::Balanced
    } else if contains_folded(t, "quiet"@) {
        Mode::Quiet
    } else if contains_folded(t, "auto"@) {
        Mode::Auto
    } else {
        Mode::Unknown
    }
}

pub open spec fn mode_of(o: Option<String>) -> Mode {
    match o {
        Some(s) => mode_of_status(s@),
        None => Mode::Unknown,
    }
}

/// Interprets the mode status file's content; Unknown when it is missing.
pub fn read_mode(content: &Option<String>) -> (r: Mode)
    ensures
        r == mode_of(*content),
{
    match content {
        Some(s) => {
            let t = chars_of(s.as_str());
            if contains_folded_exec(&t, "performance") {
                Mode::Performance
            } else if contains_folded_exec(&t, "comfort") {
                if contains_folded_exec(&t, "auto") || contains_folded_exec(&t, "-") {
                    Mode::Auto
                } else {
                    Mode::Comfort
                }
            } else if contains_folded_exec(&t, "balanced") {
                Mode::Balanced
            } else if contains_folded_exec(&t, "quiet") {
                Mode::Quiet
            } else if contains_folded_exec(&t, "auto") {
                Mode::Auto
            } else {
                Mode::Unknown
            }
        },
        None => Mode::Unknown,
    }
}

pub open spec fn profile_of(o: Option<String>) -> Seq<char> {
    match o {
        Some(s) => s@,
        None => "unknown"@,
    }
}

/// The platform profile text, or "unknown" when it could not be read.
pub fn read_platform_profile(content: &Option<String>) -> (r: String)
    ensures
        r@ == profile_of(*content),
{
    match content {
        Some(s) => s.clone(),
        None => String::from_str("unknown"),
    }
}

/// Fan mode: the value read, or 0 (automatic) when it is missing or not a
/// `u8`.
pub open spec fn fan_mode_of(o: Option<String>) -> u8 {
    match o {
        Some(s) => match u8_of(s@) {
            Some(v) => v,
            None => 0,
        },
        None => 0,
    }
}

/// Interprets the fan-mode file's content (0 = auto, 1 = boost).
pub fn read_fan_mode(content: &Option<String>) -> (r: u8)
    ensures
        r == fan_mode_of(*content),
{
    match content {
        Some(s) => match parse_u8(s.as_str()) {
            Some(v) => v,
            None => 0,
        },
        None => 0,
    }
}

/// The raw contents of every sensor read on one tick; `None` marks a
/// read that failed.
#[derive(Debug, Clone)]
pub struct SensorReadings {
    /// The preferred CPU sensors, in order of preference.
    pub cpu_preferred: Vec<Option<String>>,
    /// Every sensor found by scanning, in enumeration order.
    pub cpu_zones: Vec<ZoneReading>,
    pub ambient: Option<String>,
    pub perf_pct: Option<String>,
    pub current_freq: Option<String>,
    pub max_freq: Option<String>,
    pub mode: Option<String>,
    pub platform_profile: Option<String>,
    pub fan_mode: Option<String>,
}

/// One point-in-time record of every tracked quantity.
#[derive(Debug, Clone)]
pub struct ThermalState {
    pub cpu_temp: i32,
    pub keyboard_temp: i32,
    pub ambient_temp: i32,
    pub perf_pct: u8,
    pub current_freq_mhz: u32,
    pub max_freq_mhz: u32,
    pub mode: Mode,
    pub platform_profile: String,
    pub fan_boost: bool,
}

/// The snapshot that a set of readings yields, each quantity falling back
/// independently.
pub open spec fn snapshot_of(r: SensorReadings, s: ThermalState) -> bool {
    let cpu = match cpu_temp_of(r.cpu_preferred@, r.cpu_zones@) {
        Some(t) => t,
        None => FALLBACK_CPU_TEMP,
    };
    let ambient = ambient_of(r.ambient);
    &&& s.cpu_temp == cpu
    &&& s.ambient_temp == ambient
    &&& s.keyboard_temp as int == keyboard_estimate(cpu as int, ambient as int)
    &&& s.perf_pct == (match perf_pct_of(r.perf_pct) {
        Some(p) => p,
        None => FALLBACK_PERF_PCT,
    })
    &&& s.current_freq_mhz == (match freq_mhz_of(r.current_freq) {
        Some(f) => f,
        None => FALLBACK_CURRENT_FREQ_MHZ,
    })
    &&& s.max_freq_mhz == (match freq_mhz_of(r.max_freq) {
        Some(f) => f,
        None => FALLBACK_MAX_FREQ_MHZ,
    })
    &&& s.mode == mode_of(r.mode)
    &&& s.platform_profile@ == profile_of(r.platform_profile)
    &&& s.fan_boost == (fan_mode_of(r.fan_mode) == 1)
}

impl ThermalState {
    /// Builds the snapshot from one tick's readings. It never fails: each
    /// quantity whose reading failed takes its fallback.
    pub fn read(readings: &SensorReadings) -> (r: ThermalState)
        ensures
            snapshot_of(*readings, r),
    {
        let cpu_temp = match read_cpu_temp(&readings.cpu_preferred, &readings.cpu_zones) {
            Some(t) => t,
            None => FALLBACK_CPU_TEMP,
        };
        let ambient_temp = read_ambient_temp(&readings.ambient);
        let keyboard_temp = calculate_keyboard_temp(cpu_temp, ambient_temp);
        let perf_pct = match read_perf_pct(&readings.perf_pct) {
            Some(p) => p,
            None => FALLBACK_PERF_PCT,
        };
        let current_freq_mhz = match read_current_freq(&readings.current_freq) {
            Some(f) => f,
            None => FALLBACK_CURRENT_FREQ_MHZ,
        };
        let max_freq_mhz = match read_max_freq(&readings.max_freq) {
            Some(f) => f,
            None => FALLBACK_MAX_FREQ_MHZ,
        };
        ThermalState {
            cpu_temp,
            keyboard_temp,
            ambient_temp,
            perf_pct,
            current_freq_mhz,
            max_freq_mhz,
            mode: read_mode(&readings.mode),
            platform_profile: read_platform_profile(&readings.platform_profile),
            fan_boost: read_fan_mode(&readings.fan_mode) == 1,
        }
    }

    /// Zone of the snapshot's CPU temperature.
    pub fn thermal_zone(&self) -> (r: ThermalZone)
        ensures
            r == zone_of(self.cpu_temp as int),
    {
        ThermalZone::from_cpu_temp(self.cpu_temp)
    }
}

impl Default for ThermalState {
    /// An all-zero snapshot in mode Auto with an empty profile and no boost.
    fn default() -> (r: ThermalState)
        ensures
            r.cpu_temp == 0,
            r.keyboard_temp == 0,
            r.ambient_temp == 0,
            r.perf_pct == 0,
            r.current_freq_mhz == 0,
            r.max_freq_mhz == 0,
            r.mode == Mode::Auto,
            r.platform_profile@ == Seq::<char>::empty(),
            !r.fan_boost,
    {
        ThermalState {
            cpu_temp: 0,
            keyboard_temp: 0,
            ambient_temp: 0,
            perf_pct: 0,
            current_freq_mhz: 0,
            max_freq_mhz: 0,
            mode: Mode::Auto,
            platform_profile: String::new(),
            fan_boost: false,
        }
    }
}

} // verus!
