use robot_sim::config::{Color, Configuration, ConfigurationError, LengthField};
use robot_sim::layout::GeometryError;
use robot_sim::motors::wheel_torque;
use robot_sim::scheduler::{DeviceOperation, FaultReason, GuestFaultKind, HostAction, RunState, Scheduler};
use robot_sim::trace::{ExecutionData, ExecutionStep};

fn liner() -> Configuration {
    Configuration {
        name: "Liner".to_string(),
        color_main: Color { r: 255, g: 0, b: 0 },
        color_secondary: Color { r: 0, g: 255, b: 0 },
        width_axle: 200,
        length_front: 300,
        length_back: 20,
        clearing_back: 3,
        wheel_diameter: 15,
        gear_ratio_num: 1,
        gear_ratio_den: 20,
        front_sensors_spacing: 4,
        front_sensors_height: 4,
    }
}

fn running(fixed_dt_us: u64, budget_us: u64) -> Scheduler<u32> {
    let mut s = Scheduler::new(fixed_dt_us, budget_us);
    s.module_loaded(true);
    assert!(s.configure(liner()).is_ok());
    assert_eq!(s.state(), RunState::Running);
    s
}

/// Runs the steps a sleep asks for, using the step count as the pose.
fn sleep(s: &mut Scheduler<u32>, d: u64) -> HostAction {
    let a = s.handle(DeviceOperation::SleepFor { duration_us: d });
    if let HostAction::Advance(n) = a {
        for _ in 0..n {
            let pose = s.trace_len() as u32;
            s.record_step(pose, pose, pose, true);
        }
    }
    a
}

#[test]
fn sleep_runs_ceil_steps() {
    let mut s = running(1000, 1_000_000);
    assert_eq!(sleep(&mut s, 10_000), HostAction::Advance(10));
    assert_eq!(s.clock_us(), 10_000);
    assert_eq!(s.trace_len(), 10);
    assert_eq!(sleep(&mut s, 1_500), HostAction::Advance(2));
    assert_eq!(s.clock_us(), 12_000);
    assert_eq!(s.trace_len(), 12);
    assert_eq!(sleep(&mut s, 1), HostAction::Advance(1));
    assert_eq!(s.clock_us(), 13_000);
}

#[test]
fn zero_sleep_still_steps_once() {
    let mut s = running(1000, 1_000_000);
    assert_eq!(sleep(&mut s, 0), HostAction::Advance(1));
    assert_eq!(s.clock_us(), 1000);
    assert_eq!(s.trace_len(), 1);
}

#[test]
fn trace_is_stamped_with_logical_time() {
    let mut s = running(250, 1_000_000);
    sleep(&mut s, 1000);
    let out = s.finalize();
    let times: Vec<u64> = out.trace.steps.iter().map(|st| st.time_us).collect();
    assert_eq!(times, vec![0, 250, 500, 750]);
    assert_eq!(out.trace.steps[2].body, 2);
    assert_eq!(out.fault, None);
}

#[test]
fn zero_sleep_loop_completes_at_budget() {
    let mut s = running(1000, 5000);
    let mut calls = 0;
    while s.state() == RunState::Running {
        sleep(&mut s, 0);
        calls += 1;
        assert!(calls < 100);
    }
    assert_eq!(s.state(), RunState::Completed);
    assert_eq!(s.clock_us(), 5000);
    assert_eq!(s.trace_len(), 5);
    assert_eq!(sleep(&mut s, 0), HostAction::Halt);
}

#[test]
fn long_sleep_is_cut_at_budget() {
    let mut s = running(1000, 3500);
    assert_eq!(sleep(&mut s, 60_000_000), HostAction::Advance(4));
    assert_eq!(s.state(), RunState::Completed);
    assert_eq!(s.clock_us(), 4000);
    assert!(s.clock_us() >= 3500 && s.clock_us() <= 3500 + 1000);
}

#[test]
fn zero_budget_completes_on_first_sleep() {
    let mut s = running(1000, 0);
    assert_eq!(sleep(&mut s, 10), HostAction::Halt);
    assert_eq!(s.state(), RunState::Completed);
    assert_eq!(s.trace_len(), 0);
}

#[test]
fn same_calls_give_same_trace() {
    let run = || {
        let mut s = running(1000, 20_000);
        for d in [0u64, 1500, 7000, 0, 3] {
            sleep(&mut s, d);
            s.handle(DeviceOperation::SetMotors { left_power: 500, right_power: -200 });
        }
        s.finalize()
    };
    let a = run();
    let b = run();
    assert_eq!(a.trace.steps, b.trace.steps);
    assert_eq!(a.clock_us, b.clock_us);
}

#[test]
fn set_motors_uses_configured_gear_ratio() {
    let mut s = running(1000, 10_000);
    assert_eq!(s.handle(DeviceOperation::SetMotors { left_power: 1000, right_power: 2000 }), HostAction::Resume);
    assert_eq!(s.motors().left, wheel_torque(1000, 1, 20));
    assert_eq!(s.motors().right, wheel_torque(1000, 1, 20));
    assert_eq!(s.clock_us(), 0);
}

#[test]
fn read_sensors_asks_host_and_keeps_time() {
    let mut s = running(1000, 10_000);
    assert_eq!(s.handle(DeviceOperation::ReadSensors), HostAction::ReadSensors);
    assert_eq!(s.clock_us(), 0);
    assert_eq!(s.trace_len(), 0);
}

#[test]
fn fuel_exhaustion_faults_and_keeps_trace() {
    let mut s = running(1000, 10_000);
    sleep(&mut s, 3000);
    s.guest_fault(GuestFaultKind::FuelExhausted);
    assert_eq!(s.state(), RunState::Faulted(FaultReason::Guest(GuestFaultKind::FuelExhausted)));
    let out = s.finalize();
    assert_eq!(out.fault, Some(FaultReason::Guest(GuestFaultKind::FuelExhausted)));
    assert_eq!(out.trace.steps.len(), 3);
}

#[test]
fn fault_after_completion_is_ignored() {
    let mut s = running(1000, 1000);
    sleep(&mut s, 5000);
    assert_eq!(s.state(), RunState::Completed);
    s.guest_fault(GuestFaultKind::Trap);
    assert_eq!(s.state(), RunState::Completed);
}

#[test]
fn divergence_halts_the_run() {
    let mut s = running(1000, 10_000);
    assert_eq!(s.handle(DeviceOperation::SleepFor { duration_us: 3000 }), HostAction::Advance(3));
    assert!(s.record_step(1, 1, 1, true));
    assert!(!s.record_step(2, 2, 2, false));
    let out = s.finalize();
    assert_eq!(out.fault, Some(FaultReason::SolverDivergence));
    assert_eq!(out.trace.steps.len(), 1);
}

#[test]
fn load_failure_faults_without_trace() {
    let mut s: Scheduler<u32> = Scheduler::new(1000, 10_000);
    s.module_loaded(false);
    assert_eq!(s.state(), RunState::Faulted(FaultReason::Load));
    assert_eq!(s.finalize().trace.steps.len(), 0);
}

#[test]
fn invalid_configuration_faults_before_running() {
    let mut s: Scheduler<u32> = Scheduler::new(1000, 10_000);
    s.module_loaded(true);
    let mut c = liner();
    c.clearing_back = 0;
    let err = FaultReason::Configuration(ConfigurationError::NonPositiveLength(LengthField::ClearingBack));
    assert_eq!(s.configure(c).unwrap_err(), err);
    assert_eq!(s.state(), RunState::Faulted(err));
    assert!(s.configuration().is_none());
}

#[test]
fn degenerate_geometry_faults_before_running() {
    let mut s: Scheduler<u32> = Scheduler::new(1000, 10_000);
    s.module_loaded(true);
    let mut c = liner();
    c.wheel_diameter = 250;
    assert_eq!(s.configure(c).unwrap_err(), FaultReason::Geometry(GeometryError::WheelNotNarrowerThanAxle));
}

#[test]
fn device_call_during_setup_is_a_guest_fault() {
    let mut s: Scheduler<u32> = Scheduler::new(1000, 10_000);
    s.module_loaded(true);
    assert_eq!(s.handle(DeviceOperation::SleepFor { duration_us: 10 }), HostAction::Halt);
    assert_eq!(s.state(), RunState::Faulted(FaultReason::Guest(GuestFaultKind::CapabilityUnavailable)));
}

#[test]
fn configuration_round_trip() {
    let mut s = running(1000, 10_000);
    sleep(&mut s, 2000);
    s.handle(DeviceOperation::SetMotors { left_power: 1, right_power: 1 });
    let c = s.configuration().unwrap();
    let expected = liner();
    assert_eq!(c.name, expected.name);
    assert_eq!(c.color_main, expected.color_main);
    assert_eq!(c.color_secondary, expected.color_secondary);
    assert_eq!(c.width_axle, expected.width_axle);
    assert_eq!(c.wheel_diameter, expected.wheel_diameter);
    assert_eq!((c.gear_ratio_num, c.gear_ratio_den), (expected.gear_ratio_num, expected.gear_ratio_den));
    assert_eq!(c.front_sensors_spacing, expected.front_sensors_spacing);
}

#[test]
fn trace_recorder_appends_in_order() {
    let mut t: ExecutionData<u8> = ExecutionData::new();
    assert_eq!(t.len(), 0);
    t.record(ExecutionStep { time_us: 10, body: 1, left_wheel: 2, right_wheel: 3 });
    t.record(ExecutionStep { time_us: 20, body: 4, left_wheel: 5, right_wheel: 6 });
    assert_eq!(t.len(), 2);
    assert_eq!(t.steps[0].time_us, 10);
    assert_eq!(t.steps[1], ExecutionStep { time_us: 20, body: 4, left_wheel: 5, right_wheel: 6 });
}

#[test]
fn first_entry_is_stamped_at_zero() {
    let mut s = running(100, 1_000_000);
    sleep(&mut s, 0);
    sleep(&mut s, 250);
    let out = s.finalize();
    let times: Vec<u64> = out.trace.steps.iter().map(|st| st.time_us).collect();
    assert_eq!(times, vec![0, 100, 200, 300]);
    assert_eq!(out.clock_us, 400);
}

#[test]
fn guest_setting_motors_between_sleeps_completes_at_budget() {
    let mut s = running(100, 60_000);
    let mut calls = 0;
    while s.state() == RunState::Running {
        assert_eq!(s.handle(DeviceOperation::SetMotors { left_power: 0, right_power: 0 }), HostAction::Resume);
        assert_eq!(s.handle(DeviceOperation::ReadSensors), HostAction::ReadSensors);
        sleep(&mut s, 10_000);
        calls += 1;
        assert!(calls < 100);
    }
    assert_eq!(s.state(), RunState::Completed);
    assert_eq!(calls, 6);
    assert!(s.clock_us() >= 60_000 && s.clock_us() <= 60_000 + 100);
    assert_eq!(s.trace_len(), 600);
}
