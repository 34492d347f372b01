//! The data the core keeps and hands out: per-actuator telemetry, the
//! population snapshot and the torque modes.

use vstd::prelude::*;
use crate::signmag::SignMagnitude;

verus! {

/// Number of actuators on the bus. Actuator IDs run from 1 to this number.
pub const MAX_SERVOS: usize = 16;

/// Whether `id` addresses one of the configured actuators.
pub open spec fn valid_id(id: u8) -> bool {
    1 <= id <= MAX_SERVOS
}

/// Whether `id` addresses one of the configured actuators.
pub fn is_valid_id(id: u8) -> (ok: bool)
    ensures
        ok == valid_id(id),
{
    id >= 1 && id as usize <= MAX_SERVOS
}

/// The latest decoded telemetry of one actuator.
#[derive(Clone, Copy, Debug, PartialEq, Eq, Structural)]
pub struct ActuatorTelemetry {
    /// Measured position.
    pub current_location: i16,
    /// Commanded position.
    pub target_location: i16,
    /// Measured speed with its direction.
    pub current_speed: SignMagnitude,
    /// Commanded speed.
    pub running_speed: u16,
    /// Measured load with its direction.
    pub current_load: SignMagnitude,
    /// Observed torque state: 0 is off, anything else is on.
    pub torque_switch: u8,
    /// Torque limit.
    pub torque_limit: u16,
    /// Acceleration.
    pub acceleration: u16,
    /// Supply voltage in tenths of a volt.
    pub current_voltage: u8,
    /// Temperature in degrees Celsius.
    pub current_temperature: u8,
    /// Measured current, as the actuator reports it.
    pub current_current: u16,
    /// Fault and status bits, passed on as received.
    pub servo_status: u16,
    /// Asynchronous write flag, passed on as received.
    pub async_write_flag: u8,
    /// Lock mark, passed on as received.
    pub lock_mark: u8,
}

impl ActuatorTelemetry {
    /// The telemetry of an actuator that has never answered: every field zero.
    pub open spec fn spec_zeroed() -> ActuatorTelemetry {
        ActuatorTelemetry {
            current_location: 0,
            target_location: 0,
            current_speed: SignMagnitude { negative: false, magnitude: 0 },
            running_speed: 0,
            current_load: SignMagnitude { negative: false, magnitude: 0 },
            torque_switch: 0,
            torque_limit: 0,
            acceleration: 0,
            current_voltage: 0,
            current_temperature: 0,
            current_current: 0,
            servo_status: 0,
            async_write_flag: 0,
            lock_mark: 0,
        }
    }

    /// The telemetry of an actuator that has never answered: every field zero.
    pub fn zeroed() -> (t: ActuatorTelemetry)
        ensures
            t == ActuatorTelemetry::spec_zeroed(),
    {
        ActuatorTelemetry {
            current_location: 0,
            target_location: 0,
            current_speed: SignMagnitude { negative: false, magnitude: 0 },
            running_speed: 0,
            current_load: SignMagnitude { negative: false, magnitude: 0 },
            torque_switch: 0,
            torque_limit: 0,
            acceleration: 0,
            current_voltage: 0,
            current_temperature: 0,
            current_current: 0,
            servo_status: 0,
            async_write_flag: 0,
            lock_mark: 0,
        }
    }
}

/// A copy of the whole population's telemetry.
///
/// `servo` holds one entry per actuator, the entry of actuator `id` at index
/// `id - 1`. `task_run_count` counts the completed poll cycles. `stale` is set
/// once the channel has broken down and the entries are no longer refreshed.
#[derive(Clone, Debug)]
pub struct PollSnapshot {
    pub servo: Vec<ActuatorTelemetry>,
    pub task_run_count: u64,
    pub stale: bool,
}

/// The holding-torque behaviour requested of an actuator.
#[derive(Clone, Copy, Debug, PartialEq, Eq, Structural)]
pub enum TorqueMode {
    /// Normal torque control.
    Enabled,
    /// No holding torque; the shaft turns freely.
    Disabled,
    /// Holding torque at the current position.
    Stiff,
}

impl TorqueMode {
    /// The byte written to the torque switch register for this mode.
    pub open spec fn spec_register_value(self) -> u8 {
        match self {
            TorqueMode::Disabled => 0,
            TorqueMode::Enabled => 1,
            TorqueMode::Stiff => 2,
        }
    }

    /// The byte written to the torque switch register for this mode.
    pub fn register_value(&self) -> (value: u8)
        ensures
            value == self.spec_register_value(),
    {
        match self {
            TorqueMode::Disabled => 0,
            TorqueMode::Enabled => 1,
            TorqueMode::Stiff => 2,
        }
    }

    /// The mode to request when an operator toggles the torque of an actuator
    /// whose observed torque switch reads `torque_switch`.
    pub open spec fn spec_toggled(torque_switch: u8) -> TorqueMode {
        if torque_switch == 0 {
            TorqueMode::Enabled
        } else {
            TorqueMode::Disabled
        }
    }

    /// The mode to request when an operator toggles the torque of an actuator
    /// whose observed torque switch reads `torque_switch`: an actuator that is
    /// off is enabled, any other is disabled.
    pub fn toggled(torque_switch: u8) -> (mode: TorqueMode)
        ensures
            mode == TorqueMode::spec_toggled(torque_switch),
    {
        if torque_switch == 0 {
            TorqueMode::Enabled
        } else {
            TorqueMode::Disabled
        }
    }
}

} // verus!
