//! Deterministic co-simulation core for a sandboxed line-follower robot:
//! configuration checks, robot geometry, track description, line sensing,
//! motor torque, and the scheduler that maps guest sleeps onto fixed
//! physics steps and records the execution trace.

pub mod config;
pub mod features;
pub mod laws;
pub mod layout;
pub mod motors;
pub mod scheduler;
pub mod sensors;
pub mod side;
pub mod trace;
pub mod track;

pub use config::{Color, Configuration, ConfigurationError, LengthField};
pub use features::BotFeatures;
pub use layout::{build_layout, sensor_mounts, BotLayout, GeometryError, Point3, SENSOR_COUNT};
pub use motors::{clamp_power, wheel_torque, MotorsTorque, WheelTorque, MAX_POWER, MAX_TORQUE_UNM};
pub use scheduler::{DeviceOperation, FaultReason, GuestFaultKind, HostAction, RunOutcome, RunState, Scheduler};
pub use sensors::{read_sensors, Frame, LinePiece, LineShape};
pub use side::Side;
pub use trace::{ExecutionData, ExecutionStep};
pub use track::{build_track, end, start, SegmentTransform, Track, TrackId, TrackSegment};
