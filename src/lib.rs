//! Input conditioning and actuation arbitration for a competition robot:
//! slew-rate limiters, edge detectors and toggles, and the per-cycle
//! controllers of the drivetrain, the catapult, the wings and the status LEDs.
//! Each controller takes plain samples and returns the commands to write.

pub mod drive_system;
pub mod input;
pub mod led_system;
pub mod shooter_system;
pub mod utils;
pub mod wing_system;
