use thermal_monitor::control::{
    calc_perf_for_target, clamp_perf_pct, decide_control, mode_change_message, plan_thermal_control,
    ControlAction,
};
use thermal_monitor::sensors::{SensorReadings, ThermalState};
use thermal_monitor::zone::{Mode, ThermalZone};

#[test]
fn tier_critical_at_fifteen_over() {
    let action = decide_control(70_000, 55_000, 75);
    assert_eq!(action, ControlAction::Critical);
    assert!(action.fan_boost());
    assert_eq!(action.perf_request(), Some(30));
    assert_eq!(action.message(), "CRITICAL: Fan boost + 30%");
}

#[test]
fn tier_high_at_seven_over() {
    let action = decide_control(62_000, 55_000, 75);
    assert_eq!(action, ControlAction::High);
    assert!(action.fan_boost());
    assert_eq!(action.perf_request(), Some(50));
    assert_eq!(action.message(), "HIGH: Fan boost + 50%");
}

#[test]
fn tier_edges() {
    assert_eq!(decide_control(65_001, 55_000, 75), ControlAction::Critical);
    assert_eq!(decide_control(65_000, 55_000, 75), ControlAction::High);
    assert_eq!(decide_control(60_000, 55_000, 75), ControlAction::Adjust(68));
    assert_eq!(decide_control(55_000, 55_000, 75), ControlAction::OnTarget);
    assert_eq!(decide_control(50_000, 55_000, 75), ControlAction::OnTarget);
    assert_eq!(decide_control(49_999, 55_000, 75), ControlAction::Increase(85));
}

#[test]
fn tier_proportional_at_two_over() {
    let perf: u8 = 90;
    let action = decide_control(55_000, 53_000, perf);
    // 90 * 53 / 55 = 86.7, rounded toward zero
    let expected = (perf as u32 * 53 / 55).clamp(20, 100) as u8;
    assert_eq!(expected, 86);
    assert_eq!(action, ControlAction::Adjust(expected));
    assert!(!action.fan_boost());
    assert_eq!(action.perf_request(), Some(86));
    assert_eq!(action.message(), "Adjusting to 86%");
}

#[test]
fn tier_increase_at_seven_under() {
    let action = decide_control(48_000, 55_000, 80);
    assert_eq!(action, ControlAction::Increase(90));
    assert!(!action.fan_boost());
    assert_eq!(action.perf_request(), Some(90));
    assert_eq!(action.message(), "Increasing to 90%");
    assert_eq!(decide_control(40_000, 55_000, 95), ControlAction::Increase(100));
    assert_eq!(decide_control(40_000, 55_000, 255), ControlAction::Increase(100));
    assert_eq!(ControlAction::Increase(100).message(), "Increasing to 100%");
    assert_eq!(ControlAction::Increase(5).message(), "Increasing to 5%");
}

#[test]
fn tier_on_target_at_two_under() {
    let action = decide_control(53_000, 55_000, 80);
    assert_eq!(action, ControlAction::OnTarget);
    assert!(!action.fan_boost());
    assert_eq!(action.perf_request(), None);
    assert_eq!(action.message(), "On target");
    let outcome = action.outcome(Ok(()));
    assert_eq!(outcome, Ok("On target".to_string()));
    assert_eq!(action.status(&outcome), None);
}

#[test]
fn calc_perf_exact_values() {
    assert_eq!(calc_perf_for_target(45_000, 55_000, 50), 55);
    assert_eq!(calc_perf_for_target(60_000, 50_000, 80), 66);
    assert_eq!(calc_perf_for_target(55_000, 55_000, 75), 82);
    assert_eq!(calc_perf_for_target(100_000, 50_000, 30), 20);
    assert_eq!(calc_perf_for_target(30_000, 80_000, 95), 100);
    assert_eq!(calc_perf_for_target(30_000, 80_000, 10), 20);
}

#[test]
fn calc_perf_extreme_inputs_stay_in_range() {
    let temps = [i32::MIN, -40_000, -1, 0, 1, 45_000, 100_000, i32::MAX];
    for &current in temps.iter() {
        for &target in temps.iter() {
            for perf in [0u8, 1, 19, 20, 50, 99, 100, 101, 255] {
                let r = calc_perf_for_target(current, target, perf);
                assert!((20..=100).contains(&r), "{} {} {} -> {}", current, target, perf, r);
            }
        }
    }
}

#[test]
fn actuation_cap_is_clamped() {
    assert_eq!(clamp_perf_pct(0), 20);
    assert_eq!(clamp_perf_pct(19), 20);
    assert_eq!(clamp_perf_pct(20), 20);
    assert_eq!(clamp_perf_pct(64), 64);
    assert_eq!(clamp_perf_pct(100), 100);
    assert_eq!(clamp_perf_pct(101), 100);
}

#[test]
fn failed_cap_request_fails_the_tick() {
    let action = ControlAction::High;
    let outcome = action.outcome(Err("Failed to set performance".to_string()));
    assert_eq!(outcome, Err("Failed to set performance".to_string()));
    assert_eq!(action.status(&outcome), None);
}

#[test]
fn successful_tick_reports_its_message() {
    let action = ControlAction::Adjust(66);
    let outcome = action.outcome(Ok(()));
    assert_eq!(outcome, Ok("Adjusting to 66%".to_string()));
    assert_eq!(action.status(&outcome), Some("Adjusting to 66%".to_string()));
}

#[test]
fn mode_change_messages() {
    assert_eq!(mode_change_message(Mode::Quiet, &Ok(())), "Mode changed to QUIET");
    assert_eq!(
        mode_change_message(Mode::Balanced, &Err("helper missing".to_string())),
        "Error: helper missing"
    );
}

#[test]
fn end_to_end_critical_tick() {
    let readings = SensorReadings {
        cpu_preferred: vec![Some("72000".to_string())],
        cpu_zones: vec![],
        ambient: Some("28000".to_string()),
        perf_pct: Some("75".to_string()),
        current_freq: None,
        max_freq: None,
        mode: None,
        platform_profile: None,
        fan_mode: None,
    };
    let state = ThermalState::read(&readings);
    assert_eq!(state.thermal_zone(), ThermalZone::Critical);
    assert!(((state.keyboard_temp as f64 / 1000.0) - 47.8).abs() < 0.1);

    let target: i32 = 55_000;
    let action = decide_control(state.cpu_temp, target, state.perf_pct);
    assert!(action.fan_boost());
    assert_eq!(action.perf_request(), Some(30));
    let outcome = action.outcome(Ok(()));
    assert_eq!(outcome, Ok("CRITICAL: Fan boost + 30%".to_string()));
    assert_eq!(action.status(&outcome), Some("CRITICAL: Fan boost + 30%".to_string()));
}

#[test]
fn plan_reads_perf_fresh_with_fallback() {
    assert_eq!(
        plan_thermal_control(48_000, 55_000, &Some("80".to_string())),
        ControlAction::Increase(90)
    );
    assert_eq!(plan_thermal_control(48_000, 55_000, &None), ControlAction::Increase(85));
    assert_eq!(
        plan_thermal_control(48_000, 55_000, &Some("lots".to_string())),
        ControlAction::Increase(85)
    );
    assert_eq!(plan_thermal_control(56_000, 55_000, &None), ControlAction::Adjust(73));
}
