use robot_control::drive_system::{DriveSystem, PurePursuitCommands, TankCommand};
use robot_control::input::{ControllerState, RATIO_ONE};
use robot_control::led_system::{LedAction, LedStrip, LedSystem};
use robot_control::shooter_system::{LaunchAction, LaunchEvent, ShooterSystem};
use robot_control::wing_system::{WingCommand, WingSystem};

#[test]
fn drive_forward_is_slew_limited() {
    let mut d = DriveSystem::new();
    assert_eq!(d.apply_operator_input(RATIO_ONE, 300_000, false), TankCommand { left: 400_000, right: 300_000 });
    assert_eq!(d.apply_operator_input(RATIO_ONE, 300_000, false), TankCommand { left: 800_000, right: 300_000 });
    assert_eq!(d.apply_operator_input(RATIO_ONE, 300_000, false), TankCommand { left: RATIO_ONE, right: 300_000 });
    assert!(!d.reversed());
}

#[test]
fn drive_reversal_swaps_and_negates() {
    let mut d = DriveSystem::new();
    assert_eq!(d.apply_operator_input(0, 0, true), TankCommand { left: 0, right: 0 });
    assert!(d.reversed());
    assert_eq!(d.apply_operator_input(600_000, -200_000, false), TankCommand { left: 200_000, right: -400_000 });
    assert_eq!(d.apply_operator_input(600_000, -200_000, false), TankCommand { left: 200_000, right: -600_000 });
}

#[test]
fn drive_reversal_held_button_toggles_once() {
    let mut d = DriveSystem::new();
    d.apply_operator_input(0, 0, true);
    d.apply_operator_input(0, 0, true);
    assert!(d.reversed());
    d.apply_operator_input(0, 0, false);
    d.apply_operator_input(0, 0, true);
    assert!(!d.reversed());
}

#[test]
fn drive_cycle_reads_sticks_and_y() {
    let mut d = DriveSystem::new();
    let mut c = ControllerState::idle();
    c.left_y = 100_000;
    c.right_y = -100_000;
    assert_eq!(d.driver_control_cycle(&c), TankCommand { left: 100_000, right: -100_000 });
    c.y = true;
    assert_eq!(d.driver_control_cycle(&c), TankCommand { left: 100_000, right: -100_000 });
    assert!(d.reversed());
}

#[test]
fn autonomous_none_gives_no_command() {
    let mut d = DriveSystem::new();
    assert_eq!(d.run_pure_pursuit_commands(None), None);
}

#[test]
fn autonomous_command_formula() {
    let mut d = DriveSystem::new();
    // 4 inches to go: 0.2 linear; -0.1 rad: -0.1 turn
    let c = PurePursuitCommands { distance: 4_000, heading: -100_000 };
    assert_eq!(d.run_pure_pursuit_commands(Some(c)), Some(TankCommand { left: 100_000, right: 300_000 }));
}

#[test]
fn autonomous_command_saturates() {
    let mut d = DriveSystem::new();
    let c = PurePursuitCommands { distance: 1_000_000, heading: -3_000_000 };
    assert_eq!(d.run_pure_pursuit_commands(Some(c)), Some(TankCommand { left: 0, right: RATIO_ONE }));
    let c = PurePursuitCommands { distance: i64::MIN, heading: i64::MAX };
    assert_eq!(d.run_pure_pursuit_commands(Some(c)), Some(TankCommand { left: 0, right: -RATIO_ONE }));
}

#[test]
fn autonomous_bypasses_operator_slew() {
    let mut d = DriveSystem::new();
    assert_eq!(d.apply_operator_input(-RATIO_ONE, -RATIO_ONE, false), TankCommand { left: -400_000, right: -400_000 });
    let c = PurePursuitCommands { distance: 20_000, heading: 500_000 };
    assert_eq!(d.run_pure_pursuit_commands(Some(c)), Some(TankCommand { left: RATIO_ONE, right: 0 }));
    // the limiters continue from where the operator left them
    assert_eq!(d.apply_operator_input(-RATIO_ONE, -RATIO_ONE, false), TankCommand { left: -800_000, right: -800_000 });
}

#[test]
fn shooter_holds_when_loaded() {
    let mut s = ShooterSystem::new();
    let c = ControllerState::idle();
    assert_eq!(s.driver_control_cycle(&c, true), 150_000);
    assert_eq!(s.driver_control_cycle(&c, false), 750_000);
    let mut fire = ControllerState::idle();
    fire.l1 = true;
    assert_eq!(s.driver_control_cycle(&fire, true), 750_000);
}

#[test]
fn shooter_manual_mode() {
    let mut s = ShooterSystem::new();
    let mut c = ControllerState::idle();
    c.right = true;
    assert_eq!(s.driver_control_cycle(&c, true), 0);
    c.right = false;
    c.l2 = true;
    assert_eq!(s.driver_control_cycle(&c, true), -750_000);
    c.l1 = true;
    assert_eq!(s.driver_control_cycle(&c, false), 750_000);
    c.l1 = false;
    c.l2 = false;
    c.right = true;
    assert_eq!(s.driver_control_cycle(&c, true), 150_000);
}

#[test]
fn launch_loads_releases_and_stops() {
    let s = ShooterSystem::new();
    let mut seq = s.shoot_once();
    let full = LaunchAction { power: 750_000, finished: false };
    assert_eq!(seq.step(LaunchEvent::Switch(false)), full);
    assert_eq!(seq.step(LaunchEvent::Switch(false)), full);
    assert_eq!(seq.step(LaunchEvent::Switch(true)), full);
    assert_eq!(seq.step(LaunchEvent::Switch(true)), full);
    let stop = LaunchAction { power: 0, finished: true };
    assert_eq!(seq.step(LaunchEvent::Switch(false)), stop);
    assert_eq!(seq.step(LaunchEvent::Switch(true)), stop);
}

#[test]
fn launch_cancel_writes_zero() {
    let s = ShooterSystem::new();
    let mut seq = s.shoot_once();
    assert_eq!(seq.step(LaunchEvent::Switch(true)), LaunchAction { power: 750_000, finished: false });
    assert_eq!(seq.step(LaunchEvent::Cancelled), LaunchAction { power: 0, finished: true });
    assert_eq!(seq.step(LaunchEvent::Switch(true)), LaunchAction { power: 0, finished: true });
}

#[test]
fn wings_toggle_independently() {
    let mut w = WingSystem::new();
    let mut c = ControllerState::idle();
    assert_eq!(w.driver_control_cycle(&c), WingCommand { left: false, right: false });
    c.down = true;
    assert_eq!(w.driver_control_cycle(&c), WingCommand { left: true, right: false });
    c.b = true;
    assert_eq!(w.driver_control_cycle(&c), WingCommand { left: true, right: true });
    c.down = false;
    assert_eq!(w.driver_control_cycle(&c), WingCommand { left: true, right: true });
    c.down = true;
    c.b = false;
    assert_eq!(w.driver_control_cycle(&c), WingCommand { left: false, right: true });
}

#[test]
fn wings_set_state_directly() {
    let mut w = WingSystem::new();
    assert!(w.set_left_state(true));
    assert!(!w.set_right_state(false));
    let c = ControllerState::idle();
    assert_eq!(w.driver_control_cycle(&c), WingCommand { left: true, right: false });
    assert!(w.set_right_state(true));
    assert_eq!(w.driver_control_cycle(&c), WingCommand { left: true, right: true });
}

#[test]
fn led_animation_order() {
    let mut l = LedSystem::new();
    let got: Vec<LedAction> = (0..9).map(|_| l.next_action()).collect();
    assert_eq!(
        got,
        vec![
            LedAction::Gradient(LedStrip::Right),
            LedAction::Gradient(LedStrip::Left),
            LedAction::Gradient(LedStrip::Back),
            LedAction::Rotate(LedStrip::Left),
            LedAction::Rotate(LedStrip::Right),
            LedAction::Rotate(LedStrip::Back),
            LedAction::Rotate(LedStrip::Left),
            LedAction::Rotate(LedStrip::Right),
            LedAction::Rotate(LedStrip::Back),
        ]
    );
}
