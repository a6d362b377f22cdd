//! Plain value types for commands and feedback.
//!
//! Physical quantities (radians, rad/s, Nm, gains, degrees Celsius) are
//! carried as signed 64-bit integers in micro-units: one unit of the
//! physical quantity equals 1_000_000 ticks. This keeps every scaling
//! computation exact and checkable; the boundary that talks to callers
//! working in floating point converts once, on entry and on exit.

use vstd::prelude::*;

verus! {

/// One physical unit expressed in micro-unit ticks.
pub const MICRO: i64 = 1_000_000;

/// A full command for one actuator, in micro-units: position (rad),
/// velocity (rad/s), torque (Nm), position gain and velocity gain.
#[derive(Clone, Copy, Debug, PartialEq, Eq, Structural)]
pub struct ActuatorCommand {
    pub qpos: i64,
    pub qvel: i64,
    pub qfrc: i64,
    pub kp: i64,
    pub kd: i64,
}

impl ActuatorCommand {
    /// The all-zero command.
    pub fn zeroed() -> (c: ActuatorCommand)
        ensures
            c == (ActuatorCommand { qpos: 0i64, qvel: 0i64, qfrc: 0i64, kp: 0i64, kd: 0i64 }),
    {
        ActuatorCommand { qpos: 0, qvel: 0, qfrc: 0, kp: 0, kd: 0 }
    }
}

/// The last known readings of one actuator, in micro-units, plus the
/// raw fault flags.
#[derive(Clone, Copy, Debug, PartialEq, Eq, Structural)]
pub struct ActuatorFeedback {
    pub qpos: i64,
    pub qvel: i64,
    pub qfrc: i64,
    pub kp: i64,
    pub kd: i64,
    pub temp: i64,
    pub faults: u32,
}

/// A partial update to [`ActuatorFeedback`]: only the populated fields
/// overwrite the stored readings.
#[derive(Clone, Copy, Debug, PartialEq, Eq, Structural)]
pub struct ActuatorFeedbackUpdate {
    pub qpos: Option<i64>,
    pub qvel: Option<i64>,
    pub qfrc: Option<i64>,
    pub kp: Option<i64>,
    pub kd: Option<i64>,
    pub temp: Option<i64>,
    pub faults: Option<u32>,
}

/// The feedback value a field ends up with after merging an update.
pub open spec fn merged<T>(update: Option<T>, previous: T) -> T {
    match update {
        Some(v) => v,
        None => previous,
    }
}

impl ActuatorFeedback {
    /// All readings zero, no faults.
    pub fn zeroed() -> (f: ActuatorFeedback)
        ensures
            f == (ActuatorFeedback {
                qpos: 0i64, qvel: 0i64, qfrc: 0i64, kp: 0i64, kd: 0i64, temp: 0i64, faults: 0u32,
            }),
    {
        ActuatorFeedback { qpos: 0, qvel: 0, qfrc: 0, kp: 0, kd: 0, temp: 0, faults: 0 }
    }

    /// Overwrites exactly the fields the update populates and keeps
    /// every other field as it was.
    pub fn merge(&mut self, update: ActuatorFeedbackUpdate)
        ensures
            final(self).qpos == merged(update.qpos, old(self).qpos),
            final(self).qvel == merged(update.qvel, old(self).qvel),
            final(self).qfrc == merged(update.qfrc, old(self).qfrc),
            final(self).kp == merged(update.kp, old(self).kp),
            final(self).kd == merged(update.kd, old(self).kd),
            final(self).temp == merged(update.temp, old(self).temp),
            final(self).faults == merged(update.faults, old(self).faults),
    {
        if let Some(qpos) = update.qpos {
            self.qpos = qpos;
        }
        if let Some(qvel) = update.qvel {
            self.qvel = qvel;
        }
        if let Some(qfrc) = update.qfrc {
            self.qfrc = qfrc;
        }
        if let Some(kp) = update.kp {
            self.kp = kp;
        }
        if let Some(kd) = update.kd {
            self.kd = kd;
        }
        if let Some(temp) = update.temp {
            self.temp = temp;
        }
        if let Some(faults) = update.faults {
            self.faults = faults;
        }
    }
}

/// Feedback and the last command sent, kept together per actuator.
#[derive(Clone, Copy, Debug, PartialEq, Eq, Structural)]
pub struct ActuatorState {
    pub feedback: ActuatorFeedback,
    pub command: ActuatorCommand,
}

impl ActuatorState {
    /// Zero feedback and zero command.
    pub fn zeroed() -> (s: ActuatorState)
        ensures
            s.feedback == (ActuatorFeedback {
                qpos: 0i64, qvel: 0i64, qfrc: 0i64, kp: 0i64, kd: 0i64, temp: 0i64, faults: 0u32,
            }),
            s.command == (ActuatorCommand { qpos: 0i64, qvel: 0i64, qfrc: 0i64, kp: 0i64, kd: 0i64 }),
    {
        ActuatorState { feedback: ActuatorFeedback::zeroed(), command: ActuatorCommand::zeroed() }
    }

    /// Merges a feedback update into the stored readings; the command
    /// part is untouched.
    pub fn merge_feedback(&mut self, update: ActuatorFeedbackUpdate)
        ensures
            final(self).command == old(self).command,
            final(self).feedback.qpos == merged(update.qpos, old(self).feedback.qpos),
            final(self).feedback.qvel == merged(update.qvel, old(self).feedback.qvel),
            final(self).feedback.qfrc == merged(update.qfrc, old(self).feedback.qfrc),
            final(self).feedback.kp == merged(update.kp, old(self).feedback.kp),
            final(self).feedback.kd == merged(update.kd, old(self).feedback.kd),
            final(self).feedback.temp == merged(update.temp, old(self).feedback.temp),
            final(self).feedback.faults == merged(update.faults, old(self).feedback.faults),
    {
        self.feedback.merge(update);
    }

    /// Records the command most recently sent.
    pub fn set_command(&mut self, command: ActuatorCommand)
        ensures
            final(self).command == command,
            final(self).feedback == old(self).feedback,
    {
        self.command = command;
    }
}

/// The same shape as [`ActuatorCommand`], under the name callers use
/// when they hand a persistent configuration around.
pub type ActuatorConfig = ActuatorCommand;

} // verus!
