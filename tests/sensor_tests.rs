use thermal_monitor::sensors::{
    calculate_keyboard_temp, read_ambient_temp, read_cpu_temp, read_current_freq, read_fan_mode,
    read_max_freq, read_mode, read_perf_pct, read_platform_profile, SensorReadings, ThermalState,
    ZoneReading,
};
use thermal_monitor::text::{parse_i32, parse_u32, parse_u8};
use thermal_monitor::zone::{Mode, ThermalZone};

fn text(s: &str) -> Option<String> {
    Some(s.to_string())
}

fn no_readings() -> SensorReadings {
    SensorReadings {
        cpu_preferred: vec![None, None, None],
        cpu_zones: vec![],
        ambient: None,
        perf_pct: None,
        current_freq: None,
        max_freq: None,
        mode: None,
        platform_profile: None,
        fan_mode: None,
    }
}

#[test]
fn parse_u8_accepts_what_std_accepts() {
    for s in ["0", "7", "+7", "255", "0042", "256", "", "+", "-1", "1a", " 1", "99999999999"] {
        assert_eq!(parse_u8(s), s.parse::<u8>().ok(), "input {:?}", s);
    }
}

#[test]
fn parse_u32_accepts_what_std_accepts() {
    for s in ["0", "4400000", "+12", "4294967295", "4294967296", "-5", "", "12.5"] {
        assert_eq!(parse_u32(s), s.parse::<u32>().ok(), "input {:?}", s);
    }
}

#[test]
fn parse_i32_accepts_what_std_accepts() {
    for s in [
        "0", "-0", "45000", "-273150", "+99", "2147483647", "2147483648", "-2147483648",
        "-2147483649", "-", "+", "", "--1", "4e3",
    ] {
        assert_eq!(parse_i32(s), s.parse::<i32>().ok(), "input {:?}", s);
    }
}

#[test]
fn keyboard_estimate_exact_values() {
    assert_eq!(calculate_keyboard_temp(50_000, 28_000), 37_900);
    assert_eq!(calculate_keyboard_temp(80_000, 25_000), 49_750);
    assert_eq!(calculate_keyboard_temp(60_000, 20_000), 38_000);
    assert_eq!(calculate_keyboard_temp(31_000, 31_000), 31_000);
    // Below ambient the difference is damped toward zero as well.
    assert_eq!(calculate_keyboard_temp(20_001, 30_000), 25_501);
    assert_eq!(calculate_keyboard_temp(i32::MAX, i32::MIN), i32::MIN + 1_932_735_282);
}

#[test]
fn cpu_temp_prefers_first_plausible_reading() {
    let preferred = vec![text("200000"), text("garbage"), text("61000"), text("45000")];
    assert_eq!(read_cpu_temp(&preferred, &vec![]), Some(61_000));
}

#[test]
fn cpu_temp_rejects_edges_of_plausibility_window() {
    let preferred = vec![text("0"), text("150000"), text("149999")];
    assert_eq!(read_cpu_temp(&preferred, &vec![]), Some(149_999));
}

#[test]
fn cpu_temp_falls_back_to_package_scan() {
    let preferred = vec![None, text("-5"), None];
    let zones = vec![
        ZoneReading { kind: text("acpitz"), temp: text("40000") },
        ZoneReading { kind: text("TCPU"), temp: text("oops") },
        ZoneReading { kind: text("x86_pkg_temp"), temp: text("170000") },
        ZoneReading { kind: text("TCPU"), temp: text("55000") },
    ];
    // The scanned reading is taken without the plausibility check.
    assert_eq!(read_cpu_temp(&preferred, &zones), Some(170_000));
}

#[test]
fn cpu_temp_missing_everywhere() {
    let zones = vec![ZoneReading { kind: text("tcpu"), temp: text("50000") }];
    assert_eq!(read_cpu_temp(&vec![None], &zones), None);
}

#[test]
fn ambient_reading_and_fallback() {
    assert_eq!(read_ambient_temp(&text("30500")), 30_500);
    assert_eq!(read_ambient_temp(&text("15000")), 28_000);
    assert_eq!(read_ambient_temp(&text("50000")), 28_000);
    assert_eq!(read_ambient_temp(&text("49999")), 49_999);
    assert_eq!(read_ambient_temp(&text("n/a")), 28_000);
    assert_eq!(read_ambient_temp(&None), 28_000);
}

#[test]
fn numeric_sensor_files() {
    assert_eq!(read_perf_pct(&text("75")), Some(75));
    assert_eq!(read_perf_pct(&text("300")), None);
    assert_eq!(read_perf_pct(&None), None);
    assert_eq!(read_current_freq(&text("2500999")), Some(2500));
    assert_eq!(read_max_freq(&text("4400000")), Some(4400));
    assert_eq!(read_max_freq(&text("fast")), None);
    assert_eq!(read_fan_mode(&text("1")), 1);
    assert_eq!(read_fan_mode(&text("x")), 0);
    assert_eq!(read_fan_mode(&None), 0);
}

#[test]
fn platform_profile_text_or_unknown() {
    assert_eq!(read_platform_profile(&text("balanced-performance")), "balanced-performance");
    assert_eq!(read_platform_profile(&None), "unknown");
}

#[test]
fn mode_status_parsing_rules() {
    assert_eq!(read_mode(&text("PERFORMANCE")), Mode::Performance);
    assert_eq!(read_mode(&text("comfort")), Mode::Comfort);
    assert_eq!(read_mode(&text("Comfort")), Mode::Comfort);
    assert_eq!(read_mode(&text("comfort-OPTIMAL")), Mode::Auto);
    assert_eq!(read_mode(&text("AUTO comfort")), Mode::Auto);
    assert_eq!(read_mode(&text("balanced")), Mode::Balanced);
    assert_eq!(read_mode(&text("Quiet")), Mode::Quiet);
    assert_eq!(read_mode(&text("auto")), Mode::Auto);
    assert_eq!(read_mode(&text("performance-comfort")), Mode::Performance);
    assert_eq!(read_mode(&text("turbo")), Mode::Unknown);
    assert_eq!(read_mode(&text("")), Mode::Unknown);
    assert_eq!(read_mode(&None), Mode::Unknown);
}

#[test]
fn snapshot_falls_back_field_by_field() {
    let state = ThermalState::read(&no_readings());
    assert_eq!(state.cpu_temp, 50_000);
    assert_eq!(state.ambient_temp, 28_000);
    assert_eq!(state.keyboard_temp, 37_900);
    assert_eq!(state.perf_pct, 50);
    assert_eq!(state.current_freq_mhz, 1000);
    assert_eq!(state.max_freq_mhz, 4400);
    assert_eq!(state.mode, Mode::Unknown);
    assert_eq!(state.platform_profile, "unknown");
    assert!(!state.fan_boost);
}

#[test]
fn snapshot_from_full_readings() {
    let mut readings = no_readings();
    readings.cpu_preferred = vec![text("72000")];
    readings.ambient = text("28000");
    readings.perf_pct = text("80");
    readings.current_freq = text("3100000");
    readings.max_freq = text("4700000");
    readings.mode = text("quiet");
    readings.platform_profile = text("low-power");
    readings.fan_mode = text("1");
    let state = ThermalState::read(&readings);
    assert_eq!(state.cpu_temp, 72_000);
    assert_eq!(state.keyboard_temp, 47_800);
    assert_eq!(state.perf_pct, 80);
    assert_eq!(state.current_freq_mhz, 3100);
    assert_eq!(state.max_freq_mhz, 4700);
    assert_eq!(state.mode, Mode::Quiet);
    assert_eq!(state.platform_profile, "low-power");
    assert!(state.fan_boost);
    assert_eq!(state.thermal_zone(), ThermalZone::Critical);
}
